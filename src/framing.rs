use vstd::prelude::*;
use vstd::slice::{slice_subrange, slice_to_vec};

verus! {

/// Where a JSON scan stands: object nesting depth, inside a string, right after a
/// backslash inside a string.
pub type ScanState = (nat, bool, bool);

pub open spec fn scan_step(st: ScanState, b: u8) -> ScanState {
    let (depth, in_str, escaped) = st;
    if in_str {
        if escaped {
            (depth, true, false)
        } else if b == 0x5C {
            (depth, true, true)
        } else if b == 0x22 {
            (depth, false, false)
        } else {
            st
        }
    } else if b == 0x22 {
        (depth, true, false)
    } else if b == 0x7B {
        (depth + 1, false, false)
    } else if b == 0x7D {
        (if depth > 0 { (depth - 1) as nat } else { 0 }, false, false)
    } else {
        st
    }
}

/// The state after scanning `s` from the start.
pub open spec fn scan(s: Seq<u8>) -> ScanState
    decreases s.len(),
{
    if s.len() == 0 {
        (0, false, false)
    } else {
        scan_step(scan(s.drop_last()), s.last())
    }
}

/// The byte at `i - 1` closes a top-level object: it is a `}` outside any string at
/// nesting depth one.
pub open spec fn closes_at(s: Seq<u8>, i: int) -> bool {
    &&& 1 <= i <= s.len()
    &&& s[i - 1] == 0x7D
    &&& scan(s.subrange(0, i - 1)).0 == 1
    &&& !scan(s.subrange(0, i - 1)).1
}

/// One frame: bytes up to and including the brace that closes the first top-level
/// object, and no further.
pub open spec fn is_frame(f: Seq<u8>) -> bool {
    &&& closes_at(f, f.len() as int)
    &&& forall|j: int| 1 <= j < f.len() ==> !closes_at(f, j)
}

/// No top-level object closes anywhere in `b`.
pub open spec fn holds_no_frame(b: Seq<u8>) -> bool {
    forall|j: int| 1 <= j <= b.len() ==> !closes_at(b, j)
}

/// The bytes of a run of frames, one after another.
pub open spec fn frame_bytes(fs: Seq<Vec<u8>>) -> Seq<u8>
    decreases fs.len(),
{
    if fs.len() == 0 {
        Seq::empty()
    } else {
        frame_bytes(fs.drop_last()) + fs.last()@
    }
}

proof fn lemma_closes_at_extend(s: Seq<u8>, b: u8, j: int)
    requires
        1 <= j <= s.len(),
    ensures
        closes_at(s.push(b), j) == closes_at(s, j),
{
    assert(s.push(b).subrange(0, j - 1) =~= s.subrange(0, j - 1));
}

/// Cuts a streamed watch body into frames, each one JSON object, whatever way the
/// transport splits or joins them into chunks. The bytes of an unfinished frame wait
/// for the next chunk.
#[derive(Debug)]
pub struct FrameSplitter {
    pending: Vec<u8>,
}

impl FrameSplitter {
    /// The bytes held back: the start of a frame that has not closed yet.
    pub closed spec fn held(&self) -> Seq<u8> {
        self.pending@
    }

    pub fn new() -> (r: FrameSplitter)
        ensures
            r.held() == Seq::<u8>::empty(),
    {
        FrameSplitter { pending: Vec::new() }
    }

    /// The number of bytes held back.
    pub fn pending_len(&self) -> (r: usize)
        ensures
            r == self.held().len(),
    {
        self.pending.len()
    }

    /// Takes the next chunk of the body and hands out, in order, every frame that is
    /// now complete; the bytes after the last of them are held back.
    pub fn push_chunk(&mut self, chunk: &[u8]) -> (frames: Vec<Vec<u8>>)
        ensures
            frame_bytes(frames@) + final(self).held() == old(self).held() + chunk@,
            forall|k: int| 0 <= k < frames@.len() ==> is_frame(#[trigger] frames@[k]@),
            holds_no_frame(final(self).held()),
    {
        let mut data: Vec<u8> = Vec::new();
        std::mem::swap(&mut data, &mut self.pending);
        let mut tail = slice_to_vec(chunk);
        data.append(&mut tail);
        let ghost all = data@;
        let mut frames: Vec<Vec<u8>> = Vec::new();
        let mut start: usize = 0;
        let mut depth: usize = 0;
        let mut in_str = false;
        let mut escaped = false;
        let mut i: usize = 0;
        while i < data.len()
            invariant
                data@ == all,
                start <= i <= data@.len(),
                depth <= i,
                escaped ==> in_str,
                (depth as nat, in_str, escaped) == scan(data@.subrange(start as int, i as int)),
                holds_no_frame(data@.subrange(start as int, i as int)),
                frame_bytes(frames@) == data@.subrange(0, start as int),
                forall|k: int| 0 <= k < frames@.len() ==> is_frame(#[trigger] frames@[k]@),
            decreases data@.len() - i,
        {
            let b = data[i];
            let ghost seg = data@.subrange(start as int, i as int);
            let closes = !in_str && b == 0x7D && depth == 1;
            if in_str {
                if escaped {
                    escaped = false;
                } else if b == 0x5C {
                    escaped = true;
                } else if b == 0x22 {
                    in_str = false;
                }
            } else if b == 0x22 {
                in_str = true;
            } else if b == 0x7B {
                depth = depth + 1;
            } else if b == 0x7D {
                if depth > 0 {
                    depth = depth - 1;
                }
            }
            i = i + 1;
            let ghost seg2 = data@.subrange(start as int, i as int);
            proof {
                assert(seg2 =~= seg.push(b));
                assert(seg2.drop_last() =~= seg);
                assert forall|j: int| 1 <= j <= seg.len() implies !closes_at(seg2, j) by {
                    lemma_closes_at_extend(seg, b, j);
                }
                assert(closes_at(seg2, seg2.len() as int) == closes);
            }
            if closes {
                let frame = slice_to_vec(slice_subrange(data.as_slice(), start, i));
                let ghost before = frames@;
                frames.push(frame);
                proof {
                    assert(frames@.drop_last() =~= before);
                    assert(data@.subrange(0, i as int) =~= data@.subrange(0, start as int) + seg2);
                    assert(data@.subrange(i as int, i as int) =~= Seq::<u8>::empty());
                }
                start = i;
            }
        }
        self.pending = slice_to_vec(slice_subrange(data.as_slice(), start, data.len()));
        proof {
            assert(all =~= data@.subrange(0, start as int) + data@.subrange(start as int, all.len() as int));
        }
        frames
    }
}

} // verus!
