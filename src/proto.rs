use crate::codec::{
    base64_encode, base64_text, decode_text, decoded_text, encode_text, encoded_text,
    decimal_value, i64_to_text, is_decimal, opt_text, parse_decimal, signed_decimal_text,
    wire_sized,
};
use crate::error::EtcdError;
use crate::keyrange::{boundable, prefix_end, prefix_range_end};
use crate::schema_enums::{EventType, FilterType, SortOrder, SortTarget};
use vstd::prelude::*;
use vstd::string::*;

verus! {

/// The field holds exactly the text `t`.
pub open spec fn holds_text(o: Option<String>, t: Seq<char>) -> bool {
    o matches Some(s) && s@ == t
}

/// The text that a base64 field carries: `None` when the field is absent or does
/// not decode to UTF-8 text.
pub open spec fn field_text(o: Option<String>) -> Option<Seq<char>> {
    match o {
        Some(t) => decoded_text(t@),
        None => None,
    }
}

/// The bytes of a text key.
pub open spec fn key_bytes(key: &str) -> Seq<u8> {
    key.spec_bytes()
}

/// Metadata attached to every response; the numbers arrive as decimal text.
#[derive(Debug, Clone)]
pub struct ResponseHeader {
    pub cluster_id: Option<String>,
    pub member_id: Option<String>,
    pub revision: Option<String>,
    pub raft_term: Option<String>,
}

/// One stored entry; `key` and `value` are base64 text on the wire.
#[derive(Debug, Clone)]
pub struct KeyValue {
    pub key: Option<String>,
    pub create_revision: Option<String>,
    pub mod_revision: Option<String>,
    pub version: Option<String>,
    pub value: Option<String>,
    pub lease: Option<String>,
}

impl KeyValue {
    /// The key as text: `None` when absent or not base64 of UTF-8 text.
    pub fn key(&self) -> (r: Option<String>)
        ensures
            opt_text(r) == field_text(self.key),
    {
        match &self.key {
            Some(k) => decode_text(k.as_str()),
            None => None,
        }
    }

    /// The value as text: `None` when absent or not base64 of UTF-8 text.
    pub fn value(&self) -> (r: Option<String>)
        ensures
            opt_text(r) == field_text(self.value),
    {
        match &self.value {
            Some(v) => decode_text(v.as_str()),
            None => None,
        }
    }
}

/// Response to a `PutRequest`.
#[derive(Debug, Clone)]
pub struct PutResponse {
    pub header: Option<ResponseHeader>,
    /// Set only when the request asked for the previous entry.
    pub prev_kv: Option<KeyValue>,
}

/// A write of one key-value pair.
#[derive(Debug, Clone)]
pub struct PutRequest {
    pub key: Option<String>,
    pub value: Option<String>,
    pub lease: Option<String>,
    pub prev_kv: Option<bool>,
    pub ignore_value: Option<bool>,
    pub ignore_lease: Option<bool>,
}

impl PutRequest {
    /// A write of `val` under `key`, both encoded for the wire, with every option absent.
    pub fn new(key: &str, val: &str) -> (r: PutRequest)
        requires
            wire_sized(key),
            wire_sized(val),
        ensures
            holds_text(r.key, encoded_text(key@)),
            holds_text(r.value, encoded_text(val@)),
            field_text(r.key) == Some(key@),
            field_text(r.value) == Some(val@),
            r.lease is None,
            r.prev_kv is None,
            r.ignore_value is None,
            r.ignore_lease is None,
    {
        PutRequest {
            key: Some(encode_text(key)),
            value: Some(encode_text(val)),
            lease: None,
            prev_kv: None,
            ignore_value: None,
            ignore_lease: None,
        }
    }

    /// The same write, asking for the entry that it replaces.
    pub fn new_with_previous(key: &str, val: &str) -> (r: PutRequest)
        requires
            wire_sized(key),
            wire_sized(val),
        ensures
            holds_text(r.key, encoded_text(key@)),
            holds_text(r.value, encoded_text(val@)),
            field_text(r.key) == Some(key@),
            field_text(r.value) == Some(val@),
            r.lease is None,
            r.prev_kv == Some(true),
            r.ignore_value is None,
            r.ignore_lease is None,
    {
        PutRequest { prev_kv: Some(true), ..PutRequest::new(key, val) }
    }
}

/// A read over `[key, range_end)`; an absent `range_end` reads the key alone.
#[derive(Debug, Clone)]
pub struct RangeRequest {
    pub key: Option<String>,
    pub range_end: Option<String>,
    pub limit: Option<String>,
    pub revision: Option<String>,
    pub sort_order: Option<SortOrder>,
    pub sort_target: Option<SortTarget>,
    pub serializable: Option<bool>,
    pub keys_only: Option<bool>,
    pub count_only: Option<bool>,
    pub min_mod_revision: Option<String>,
    pub max_mod_revision: Option<String>,
    pub min_create_revision: Option<String>,
    pub max_create_revision: Option<String>,
}

/// Every field of a range read but its key, end and sort is absent.
pub open spec fn range_options_absent(r: RangeRequest) -> bool {
    &&& r.limit is None
    &&& r.revision is None
    &&& r.serializable is None
    &&& r.keys_only is None
    &&& r.count_only is None
    &&& r.min_mod_revision is None
    &&& r.max_mod_revision is None
    &&& r.min_create_revision is None
    &&& r.max_create_revision is None
}

/// The range read of exactly `key`, with no sort.
pub open spec fn is_key_read(r: RangeRequest, key: &str) -> bool {
    &&& holds_text(r.key, encoded_text(key@))
    &&& r.range_end is None
    &&& r.sort_order is None
    &&& r.sort_target is None
    &&& range_options_absent(r)
}

/// The range read of every key that starts with `key`, with no sort.
pub open spec fn is_prefix_read(r: RangeRequest, key: &str) -> bool {
    &&& holds_text(r.key, encoded_text(key@))
    &&& holds_text(r.range_end, base64_text(prefix_end(key_bytes(key))))
    &&& r.sort_order is None
    &&& r.sort_target is None
    &&& range_options_absent(r)
}

impl RangeRequest {
    /// A read of exactly `key`.
    pub fn new(key: &str) -> (r: RangeRequest)
        requires
            wire_sized(key),
        ensures
            is_key_read(r, key),
    {
        RangeRequest {
            key: Some(encode_text(key)),
            range_end: None,
            limit: None,
            revision: None,
            sort_order: None,
            sort_target: None,
            serializable: None,
            keys_only: None,
            count_only: None,
            min_mod_revision: None,
            max_mod_revision: None,
            min_create_revision: None,
            max_create_revision: None,
        }
    }

    /// A read of exactly `key`, sorted as given.
    pub fn new_with_sort(key: &str, order: SortOrder, target: SortTarget) -> (r: RangeRequest)
        requires
            wire_sized(key),
        ensures
            is_key_read(RangeRequest { sort_order: None, sort_target: None, ..r }, key),
            r.sort_order == Some(order),
            r.sort_target == Some(target),
    {
        RangeRequest { sort_order: Some(order), sort_target: Some(target), ..RangeRequest::new(key) }
    }

    /// A read of every key that starts with `key`. A key with no byte below 0xFF,
    /// the empty key among them, has no prefix bound and is refused.
    pub fn new_for_prefix(key: &str) -> (r: Result<RangeRequest, EtcdError>)
        requires
            wire_sized(key),
        ensures
            match r {
                Ok(q) => boundable(key_bytes(key)) && is_prefix_read(q, key),
                Err(e) => !boundable(key_bytes(key)) && e == EtcdError::Boundary,
            },
    {
        match prefix_range_end(key.as_bytes()) {
            Ok(end) => Ok(
                RangeRequest {
                    key: Some(encode_text(key)),
                    range_end: Some(base64_encode(end.as_slice())),
                    limit: None,
                    revision: None,
                    sort_order: None,
                    sort_target: None,
                    serializable: None,
                    keys_only: None,
                    count_only: None,
                    min_mod_revision: None,
                    max_mod_revision: None,
                    min_create_revision: None,
                    max_create_revision: None,
                },
            ),
            Err(e) => Err(e),
        }
    }

    /// A read of every key that starts with `key`, sorted as given.
    pub fn new_for_prefix_with_sort(key: &str, order: SortOrder, target: SortTarget) -> (r: Result<
        RangeRequest,
        EtcdError,
    >)
        requires
            wire_sized(key),
        ensures
            match r {
                Ok(q) => {
                    &&& boundable(key_bytes(key))
                    &&& is_prefix_read(RangeRequest { sort_order: None, sort_target: None, ..q }, key)
                    &&& q.sort_order == Some(order)
                    &&& q.sort_target == Some(target)
                },
                Err(e) => !boundable(key_bytes(key)) && e == EtcdError::Boundary,
            },
    {
        match RangeRequest::new_for_prefix(key) {
            Ok(q) => Ok(RangeRequest { sort_order: Some(order), sort_target: Some(target), ..q }),
            Err(e) => Err(e),
        }
    }
}

/// Response to a `RangeRequest`.
#[derive(Debug, Clone)]
pub struct RangeResponse {
    pub header: Option<ResponseHeader>,
    pub kvs: Option<Vec<KeyValue>>,
    /// Whether the server left entries out.
    pub more: Option<bool>,
    pub count: Option<String>,
}

/// The number a count field gives: zero when absent, `None` when it is not decimal
/// text of a value that fits in `usize`.
pub open spec fn count_value(c: Option<String>) -> Option<nat> {
    match c {
        None => Some(0),
        Some(t) => if is_decimal(t@) && decimal_value(t@) <= usize::MAX {
            Some(decimal_value(t@))
        } else {
            None
        },
    }
}

impl RangeResponse {
    /// The number of entries in range: zero when the field is absent, a format error
    /// when its text is not a decimal number.
    pub fn count(&self) -> (r: Result<usize, EtcdError>)
        ensures
            match r {
                Ok(n) => count_value(self.count) == Some(n as nat),
                Err(e) => count_value(self.count) is None && e == EtcdError::Format,
            },
    {
        match &self.count {
            Some(t) => match parse_decimal(t.as_str()) {
                Some(n) => Ok(n),
                None => Err(EtcdError::Format),
            },
            None => Ok(0),
        }
    }
}

/// A watch request: exactly one of creating or cancelling a watch.
#[derive(Debug, Clone)]
pub enum WatchRequest {
    CreateRequest(WatchCreateRequest),
    CancelRequest(WatchCancelRequest),
}

impl WatchRequest {
    pub fn new_create_request(create_request: WatchCreateRequest) -> (r: WatchRequest)
        ensures
            r == WatchRequest::CreateRequest(create_request),
    {
        WatchRequest::CreateRequest(create_request)
    }

    pub fn new_cancel_request(cancel_request: WatchCancelRequest) -> (r: WatchRequest)
        ensures
            r == WatchRequest::CancelRequest(cancel_request),
    {
        WatchRequest::CancelRequest(cancel_request)
    }
}

/// Ends the watch with the given id.
#[derive(Debug, Clone)]
pub struct WatchCancelRequest {
    pub watch_id: Option<String>,
}

impl WatchCancelRequest {
    /// Cancels watch `watch_id`; the id travels as decimal text.
    pub fn new(watch_id: i64) -> (r: WatchCancelRequest)
        ensures
            holds_text(r.watch_id, signed_decimal_text(watch_id as int)),
    {
        WatchCancelRequest { watch_id: Some(i64_to_text(watch_id)) }
    }
}

/// Starts a watch over `[key, range_end)`; an absent `range_end` watches the key alone.
#[derive(Debug, Clone)]
pub struct WatchCreateRequest {
    pub key: Option<String>,
    pub range_end: Option<String>,
    pub start_revision: Option<String>,
    pub progress_notify: Option<bool>,
    pub filters: Option<Vec<FilterType>>,
    pub prev_kv: Option<bool>,
}

/// Every option of a watch but its key and end is absent.
pub open spec fn watch_options_absent(r: WatchCreateRequest) -> bool {
    &&& r.start_revision is None
    &&& r.progress_notify is None
    &&& r.filters is None
    &&& r.prev_kv is None
}

impl WatchCreateRequest {
    /// A watch on exactly `key`.
    pub fn new_for_key(key: &str) -> (r: WatchCreateRequest)
        requires
            wire_sized(key),
        ensures
            holds_text(r.key, encoded_text(key@)),
            r.range_end is None,
            watch_options_absent(r),
    {
        WatchCreateRequest {
            key: Some(encode_text(key)),
            range_end: None,
            start_revision: None,
            progress_notify: None,
            filters: None,
            prev_kv: None,
        }
    }

    /// A watch on every key that starts with `key`; refused as a range read is.
    pub fn new_for_prefix(key: &str) -> (r: Result<WatchCreateRequest, EtcdError>)
        requires
            wire_sized(key),
        ensures
            match r {
                Ok(q) => {
                    &&& boundable(key_bytes(key))
                    &&& holds_text(q.key, encoded_text(key@))
                    &&& holds_text(q.range_end, base64_text(prefix_end(key_bytes(key))))
                    &&& watch_options_absent(q)
                },
                Err(e) => !boundable(key_bytes(key)) && e == EtcdError::Boundary,
            },
    {
        match prefix_range_end(key.as_bytes()) {
            Ok(end) => Ok(
                WatchCreateRequest {
                    key: Some(encode_text(key)),
                    range_end: Some(base64_encode(end.as_slice())),
                    start_revision: None,
                    progress_notify: None,
                    filters: None,
                    prev_kv: None,
                },
            ),
            Err(e) => Err(e),
        }
    }
}

/// A change to one watched key.
#[derive(Debug, Clone)]
pub struct Event {
    /// Named `type` on the wire. The server leaves it out for puts.
    pub etype: Option<EventType>,
    pub kv: Option<KeyValue>,
    pub prev_kv: Option<KeyValue>,
}

/// What an event did: an event without a type is a put.
pub open spec fn effective_event_type(e: Event) -> EventType {
    match e.etype {
        Some(t) => t,
        None => EventType::PUT,
    }
}

impl Event {
    /// The type as the server sent it.
    pub fn event_type(&self) -> (r: &Option<EventType>)
        ensures
            *r == self.etype,
    {
        &self.etype
    }

    /// The type, reading an absent one as a put.
    pub fn effective_type(&self) -> (r: EventType)
        ensures
            r == effective_event_type(*self),
    {
        match self.etype {
            Some(t) => t,
            None => EventType::PUT,
        }
    }
}

/// One message of a watch stream: a creation acknowledgment, a cancellation notice,
/// or a batch of events in the order the server applied them.
#[derive(Debug, Clone)]
pub struct WatchResponse {
    pub header: Option<ResponseHeader>,
    pub watch_id: Option<String>,
    pub created: Option<bool>,
    pub canceled: Option<bool>,
    pub compact_revision: Option<String>,
    pub cancel_reason: Option<String>,
    pub events: Option<Vec<Event>>,
}

/// One frame of a watch stream, wrapping its message in `result`.
#[derive(Debug, Clone)]
pub struct WatchStreamResponse {
    pub result: Option<WatchResponse>,
}

} // verus!
