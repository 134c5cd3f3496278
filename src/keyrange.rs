use crate::error::EtcdError;
use vstd::prelude::*;

verus! {

/// Byte-lexicographic order: `a` sorts strictly before `b`.
pub open spec fn bytes_lt(a: Seq<u8>, b: Seq<u8>) -> bool
    decreases a.len(),
{
    if b.len() == 0 {
        false
    } else if a.len() == 0 {
        true
    } else if a[0] != b[0] {
        a[0] < b[0]
    } else {
        bytes_lt(a.drop_first(), b.drop_first())
    }
}

/// `k` is a prefix of `x`.
pub open spec fn has_prefix(x: Seq<u8>, k: Seq<u8>) -> bool {
    k.len() <= x.len() && x.subrange(0, k.len() as int) == k
}

/// A prefix bound exists: some byte of the key is below 0xFF.
pub open spec fn boundable(k: Seq<u8>) -> bool
    decreases k.len(),
{
    k.len() > 0 && (k[0] != 0xFF || boundable(k.drop_first()))
}

/// The exclusive upper end of the keys that start with `k`: the trailing 0xFF bytes
/// are dropped and the last byte left is incremented.
pub open spec fn prefix_end(k: Seq<u8>) -> Seq<u8>
    decreases k.len(),
{
    if k.len() == 0 {
        k
    } else if boundable(k.drop_first()) {
        seq![k[0]] + prefix_end(k.drop_first())
    } else {
        seq![(k[0] + 1) as u8]
    }
}

proof fn lemma_all_ff_not_boundable(k: Seq<u8>)
    requires
        forall|i: int| 0 <= i < k.len() ==> k[i] == 0xFF,
    ensures
        !boundable(k),
    decreases k.len(),
{
    if k.len() > 0 {
        lemma_all_ff_not_boundable(k.drop_first());
    }
}

proof fn lemma_prefix_end_at(k: Seq<u8>, j: int)
    requires
        0 <= j < k.len(),
        k[j] != 0xFF,
        forall|i: int| j < i < k.len() ==> k[i] == 0xFF,
    ensures
        boundable(k),
        prefix_end(k) == k.subrange(0, j).push((k[j] + 1) as u8),
    decreases k.len(),
{
    let rest = k.drop_first();
    if j == 0 {
        lemma_all_ff_not_boundable(rest);
        assert(k.subrange(0, 0).push((k[0] + 1) as u8) =~= seq![(k[0] + 1) as u8]);
    } else {
        lemma_prefix_end_at(rest, j - 1);
        assert(seq![k[0]] + rest.subrange(0, j - 1).push((k[j] + 1) as u8) =~= k.subrange(
            0,
            j,
        ).push((k[j] + 1) as u8));
    }
}

proof fn lemma_prefix_step(x: Seq<u8>, k: Seq<u8>)
    requires
        x.len() > 0,
        k.len() > 0,
    ensures
        has_prefix(x, k) <==> (x[0] == k[0] && has_prefix(x.drop_first(), k.drop_first())),
{
    if has_prefix(x, k) {
        assert(x.drop_first().subrange(0, k.len() - 1) =~= k.drop_first());
    }
    if x[0] == k[0] && has_prefix(x.drop_first(), k.drop_first()) {
        assert forall|i: int| 0 <= i < k.len() implies x.subrange(0, k.len() as int)[i] == k[i] by {
            if i > 0 {
                assert(x.drop_first().subrange(0, k.len() - 1)[i - 1] == k.drop_first()[i - 1]);
            }
        }
        assert(x.subrange(0, k.len() as int) =~= k);
    }
}

proof fn lemma_ff_tail_span(x: Seq<u8>, k: Seq<u8>)
    requires
        !boundable(k),
    ensures
        has_prefix(x, k) <==> !bytes_lt(x, k),
    decreases k.len(),
{
    if k.len() == 0 {
        assert(x.subrange(0, 0) =~= k);
    } else if x.len() > 0 {
        lemma_prefix_step(x, k);
        lemma_ff_tail_span(x.drop_first(), k.drop_first());
    }
}

/// Every key that starts with `k` sorts at or after `k` and strictly before
/// `prefix_end(k)`, and no other key does.
pub proof fn lemma_prefix_span(k: Seq<u8>, x: Seq<u8>)
    requires
        boundable(k),
    ensures
        has_prefix(x, k) <==> (!bytes_lt(x, k) && bytes_lt(x, prefix_end(k))),
    decreases k.len(),
{
    let rest = k.drop_first();
    let e = prefix_end(k);
    if x.len() == 0 {
        assert(bytes_lt(x, k));
    } else {
        lemma_prefix_step(x, k);
        if boundable(rest) {
            assert(e.drop_first() =~= prefix_end(rest));
            assert(e[0] == k[0]);
            lemma_prefix_span(rest, x.drop_first());
            if x[0] == k[0] {
                assert(bytes_lt(x, k) == bytes_lt(x.drop_first(), rest));
                assert(bytes_lt(x, e) == bytes_lt(x.drop_first(), prefix_end(rest)));
            }
            assert(has_prefix(x, k) <==> (!bytes_lt(x, k) && bytes_lt(x, e)));
        } else {
            assert(e =~= seq![(k[0] + 1) as u8]);
            assert(e.drop_first() =~= Seq::<u8>::empty());
            lemma_ff_tail_span(x.drop_first(), rest);
            assert(k[0] != 0xFF);
            if x[0] == k[0] {
                assert(bytes_lt(x, k) == bytes_lt(x.drop_first(), rest));
                assert(bytes_lt(x, e));
            } else if x[0] == k[0] + 1 {
                assert(!bytes_lt(x.drop_first(), e.drop_first()));
            }
        }
    }
}

/// For a non-empty key whose last byte is below 0xFF, the bound is the key with its
/// last byte incremented, and a key starts with `k` exactly when it lies in
/// `[k, bound)`.
pub proof fn lemma_prefix_bound_increments_last(k: Seq<u8>, x: Seq<u8>)
    requires
        k.len() > 0,
        k.last() != 0xFF,
    ensures
        boundable(k),
        prefix_end(k) == k.update(k.len() - 1, (k.last() + 1) as u8),
        has_prefix(x, k) <==> (!bytes_lt(x, k) && bytes_lt(x, prefix_end(k))),
{
    lemma_prefix_end_at(k, k.len() - 1);
    assert(k.subrange(0, k.len() - 1).push((k.last() + 1) as u8) =~= k.update(
        k.len() - 1,
        (k.last() + 1) as u8,
    ));
    lemma_prefix_span(k, x);
}

/// The exclusive upper end of the range of keys that start with `k`. A key with no
/// byte below 0xFF (the empty key among them) has no such bound.
pub fn prefix_range_end(k: &[u8]) -> (r: Result<Vec<u8>, EtcdError>)
    ensures
        match r {
            Ok(e) => boundable(k@) && e@ == prefix_end(k@) && e@.len() <= k@.len(),
            Err(e) => !boundable(k@) && e == EtcdError::Boundary,
        },
{
    let mut j: usize = k.len();
    while j > 0 && k[j - 1] == 0xFF
        invariant
            j <= k@.len(),
            forall|i: int| j <= i < k@.len() ==> k@[i] == 0xFF,
        decreases j,
    {
        j = j - 1;
    }
    if j == 0 {
        proof {
            lemma_all_ff_not_boundable(k@);
        }
        return Err(EtcdError::Boundary);
    }
    let last = j - 1;
    let mut e: Vec<u8> = Vec::new();
    let mut i: usize = 0;
    while i < last
        invariant
            i <= last,
            last < k@.len(),
            e@ == k@.subrange(0, i as int),
        decreases last - i,
    {
        e.push(k[i]);
        i = i + 1;
        assert(e@ =~= k@.subrange(0, i as int));
    }
    e.push(k[last] + 1);
    proof {
        lemma_prefix_end_at(k@, last as int);
    }
    Ok(e)
}

} // verus!
