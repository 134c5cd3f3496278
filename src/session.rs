use crate::error::EtcdError;
use crate::proto::{count_value, field_text, KeyValue, PutRequest, RangeResponse, WatchResponse, WatchStreamResponse};
use vstd::prelude::*;
use vstd::string::*;

verus! {

/// The fixed address of one store: its base URI. The operation paths hang off it.
#[derive(Debug, Clone)]
pub struct Endpoint {
    uri: String,
}

impl Endpoint {
    /// The base URI, as given.
    pub closed spec fn base(&self) -> Seq<char> {
        self.uri@
    }

    pub fn new(uri: &str) -> (r: Endpoint)
        ensures
            r.base() == uri@,
    {
        Endpoint { uri: uri.to_owned() }
    }

    pub fn uri(&self) -> (r: &str)
        ensures
            r@ == self.base(),
    {
        self.uri.as_str()
    }

    /// Where puts go.
    pub fn put_uri(&self) -> (r: String)
        ensures
            r@ == self.base() + "/v3alpha/kv/put"@,
    {
        self.uri.clone().concat("/v3alpha/kv/put")
    }

    /// Where range reads go.
    pub fn range_uri(&self) -> (r: String)
        ensures
            r@ == self.base() + "/v3alpha/kv/range"@,
    {
        self.uri.clone().concat("/v3alpha/kv/range")
    }

    /// Where watches are opened.
    pub fn watch_uri(&self) -> (r: String)
        ensures
            r@ == self.base() + "/v3alpha/watch"@,
    {
        self.uri.clone().concat("/v3alpha/watch")
    }
}

/// The status that marks a successful put.
pub const STATUS_OK: u16 = 200;

/// A put succeeded exactly when the transport answered with status 200; any other
/// status fails the request, whatever the body says.
pub fn put_outcome(status: u16) -> (r: Result<bool, EtcdError>)
    ensures
        status == STATUS_OK ==> r == Ok::<bool, EtcdError>(true),
        status != STATUS_OK ==> r == Err::<bool, EtcdError>(EtcdError::RequestFailed(status)),
{
    if status == STATUS_OK {
        Ok(true)
    } else {
        Err(EtcdError::RequestFailed(status))
    }
}

/// What a read of one key answers: the value when exactly one entry is counted, no
/// value for any other count. A count of one must come with exactly one entry whose
/// value decodes, else the response is malformed.
pub open spec fn single_value(resp: RangeResponse) -> Result<Option<Seq<char>>, EtcdError> {
    match count_value(resp.count) {
        None => Err(EtcdError::Format),
        Some(n) => if n != 1 {
            Ok(None)
        } else {
            match resp.kvs {
                Some(kvs) => if kvs@.len() == 1 && field_text(kvs@[0].value) is Some {
                    Ok(field_text(kvs@[0].value))
                } else {
                    Err(EtcdError::Format)
                },
                None => Err(EtcdError::Format),
            }
        },
    }
}

/// A read of a key that the store holds no entry for answers no value.
pub proof fn lemma_get_missing_key(resp: RangeResponse)
    requires
        count_value(resp.count) == Some(0nat),
    ensures
        single_value(resp) == Ok::<Option<Seq<char>>, EtcdError>(None),
{
}

/// A read of one key that finds the entry a put stored, with the value field as the
/// put carried it, answers the value that was put.
pub proof fn lemma_get_after_put(put: PutRequest, val: Seq<char>, resp: RangeResponse)
    requires
        field_text(put.value) == Some(val),
        count_value(resp.count) == Some(1nat),
        resp.kvs is Some,
        resp.kvs->0@.len() == 1,
        resp.kvs->0@[0].value == put.value,
    ensures
        single_value(resp) == Ok::<Option<Seq<char>>, EtcdError>(Some(val)),
{
}

/// Decides the answer of a read of one key from its decoded response.
pub fn get_outcome(resp: &RangeResponse) -> (r: Result<Option<String>, EtcdError>)
    ensures
        match r {
            Ok(Some(v)) => single_value(*resp) == Ok::<Option<Seq<char>>, EtcdError>(Some(v@)),
            Ok(None) => single_value(*resp) == Ok::<Option<Seq<char>>, EtcdError>(None),
            Err(e) => single_value(*resp) == Err::<Option<Seq<char>>, EtcdError>(e),
        },
{
    let n = match resp.count() {
        Ok(n) => n,
        Err(e) => return Err(e),
    };
    if n != 1 {
        return Ok(None);
    }
    match &resp.kvs {
        Some(kvs) => {
            if kvs.len() != 1 {
                return Err(EtcdError::Format);
            }
            match kvs[0].value() {
                Some(v) => Ok(Some(v)),
                None => Err(EtcdError::Format),
            }
        },
        None => Err(EtcdError::Format),
    }
}

/// Both the key and the value of an entry decode to text.
pub open spec fn entry_decodes(kv: KeyValue) -> bool {
    field_text(kv.key) is Some && field_text(kv.value) is Some
}

/// Some entry has a key or value that does not decode.
pub open spec fn some_entry_undecodable(kvs: Seq<KeyValue>) -> bool {
    exists|i: int| 0 <= i < kvs.len() && !entry_decodes(#[trigger] kvs[i])
}

/// A prefix read's answer is in error: the count is malformed, or entries are
/// counted but absent or undecodable.
pub open spec fn prefix_read_fails(resp: RangeResponse) -> bool {
    match count_value(resp.count) {
        None => true,
        Some(n) => n > 0 && (resp.kvs is None || some_entry_undecodable(resp.kvs->0@)),
    }
}

/// The pairs answer the entries, one for one and in the server's order.
pub open spec fn pairs_match(pairs: Seq<(String, String)>, kvs: Seq<KeyValue>) -> bool {
    &&& pairs.len() == kvs.len()
    &&& forall|i: int|
        0 <= i < kvs.len() ==> {
            &&& field_text(#[trigger] kvs[i].key) == Some(pairs[i].0@)
            &&& field_text(kvs[i].value) == Some(pairs[i].1@)
        }
}

/// Decides the answer of a prefix read: every entry as a (key, value) pair of text,
/// in the order the server gave them; none when nothing is counted.
pub fn get_prefix_outcome(resp: &RangeResponse) -> (r: Result<Vec<(String, String)>, EtcdError>)
    ensures
        match r {
            Ok(pairs) => {
                &&& !prefix_read_fails(*resp)
                &&& count_value(resp.count) == Some(0nat) ==> pairs@.len() == 0
                &&& count_value(resp.count) != Some(0nat) ==> (resp.kvs matches Some(kvs)
                    && pairs_match(pairs@, kvs@))
            },
            Err(e) => prefix_read_fails(*resp) && e == EtcdError::Format,
        },
{
    let n = match resp.count() {
        Ok(n) => n,
        Err(e) => return Err(e),
    };
    let mut pairs: Vec<(String, String)> = Vec::new();
    if n == 0 {
        return Ok(pairs);
    }
    let kvs = match &resp.kvs {
        Some(kvs) => kvs,
        None => return Err(EtcdError::Format),
    };
    let mut i: usize = 0;
    while i < kvs.len()
        invariant
            count_value(resp.count) == Some(n as nat),
            n > 0,
            resp.kvs == Some(*kvs),
            i <= kvs@.len(),
            pairs@.len() == i,
            forall|j: int|
                0 <= j < i ==> {
                    &&& field_text(#[trigger] kvs@[j].key) == Some(pairs@[j].0@)
                    &&& field_text(kvs@[j].value) == Some(pairs@[j].1@)
                },
        decreases kvs@.len() - i,
    {
        let k = kvs[i].key();
        let v = kvs[i].value();
        match (k, v) {
            (Some(k), Some(v)) => {
                pairs.push((k, v));
            },
            _ => {
                assert(!entry_decodes(kvs@[i as int]));
                assert(some_entry_undecodable(kvs@));
                return Err(EtcdError::Format);
            },
        }
        i = i + 1;
    }
    assert(forall|j: int| 0 <= j < kvs@.len() ==> entry_decodes(#[trigger] kvs@[j]));
    Ok(pairs)
}

/// Takes the message out of one watch frame; a frame without one is malformed.
pub fn watch_frame(frame: WatchStreamResponse) -> (r: Result<WatchResponse, EtcdError>)
    ensures
        match frame.result {
            Some(m) => r == Ok::<WatchResponse, EtcdError>(m),
            None => r == Err::<WatchResponse, EtcdError>(EtcdError::Format),
        },
{
    match frame.result {
        Some(m) => Ok(m),
        None => Err(EtcdError::Format),
    }
}

} // verus!
