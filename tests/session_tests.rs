use etcd_bridge::error::EtcdError;
use etcd_bridge::proto::{Event, KeyValue, RangeResponse, WatchResponse, WatchStreamResponse};
use etcd_bridge::session::{get_outcome, get_prefix_outcome, put_outcome, watch_frame, Endpoint};

fn kv(key: &str, value: Option<&str>) -> KeyValue {
    KeyValue {
        key: Some(String::from(key)),
        create_revision: None,
        mod_revision: None,
        version: None,
        value: value.map(String::from),
        lease: None,
    }
}

fn range(count: Option<&str>, kvs: Option<Vec<KeyValue>>) -> RangeResponse {
    RangeResponse { header: None, kvs, more: Some(false), count: count.map(String::from) }
}

#[test]
fn endpoint_paths() {
    let e = Endpoint::new("http://localhost:2379");
    assert_eq!(e.uri(), "http://localhost:2379");
    assert_eq!(e.put_uri(), "http://localhost:2379/v3alpha/kv/put");
    assert_eq!(e.range_uri(), "http://localhost:2379/v3alpha/kv/range");
    assert_eq!(e.watch_uri(), "http://localhost:2379/v3alpha/watch");
}

#[test]
fn put_succeeds_only_on_ok_status() {
    assert_eq!(put_outcome(200), Ok(true));
    assert_eq!(put_outcome(404), Err(EtcdError::RequestFailed(404)));
    assert_eq!(put_outcome(500), Err(EtcdError::RequestFailed(500)));
}

#[test]
fn get_of_missing_key_is_no_value() {
    assert_eq!(get_outcome(&range(None, None)), Ok(None));
    assert_eq!(get_outcome(&range(Some("0"), None)), Ok(None));
}

#[test]
fn get_returns_the_single_value() {
    let r = range(Some("1"), Some(vec![kv("YWN0aW9u", Some("Ym9vb29vbQ=="))]));
    assert_eq!(get_outcome(&r), Ok(Some(String::from("booooom"))));
}

#[test]
fn get_with_count_one_and_no_entries_is_format_error() {
    assert_eq!(get_outcome(&range(Some("1"), None)), Err(EtcdError::Format));
    assert_eq!(get_outcome(&range(Some("1"), Some(vec![]))), Err(EtcdError::Format));
}

#[test]
fn get_with_undecodable_value_is_format_error() {
    let r = range(Some("1"), Some(vec![kv("YWN0aW9u", None)]));
    assert_eq!(get_outcome(&r), Err(EtcdError::Format));
    let r = range(Some("1"), Some(vec![kv("YWN0aW9u", Some("/w=="))]));
    assert_eq!(get_outcome(&r), Err(EtcdError::Format));
}

#[test]
fn get_with_bad_count_is_format_error() {
    assert_eq!(get_outcome(&range(Some("one"), None)), Err(EtcdError::Format));
}

#[test]
fn get_prefix_returns_entries_in_order() {
    let r = range(
        Some("2"),
        Some(vec![kv("a2V0dGxlLWJsYWNr", Some("Ym9pbGVk")), kv("cG90", Some("Ym9vb29vbQ=="))]),
    );
    let pairs = get_prefix_outcome(&r).unwrap();
    assert_eq!(
        pairs,
        vec![
            (String::from("kettle-black"), String::from("boiled")),
            (String::from("pot"), String::from("booooom")),
        ]
    );
    assert!(pairs.contains(&(String::from("kettle-black"), String::from("boiled"))));
}

#[test]
fn get_prefix_with_nothing_counted_is_empty() {
    assert_eq!(get_prefix_outcome(&range(Some("0"), None)), Ok(vec![]));
    assert_eq!(get_prefix_outcome(&range(None, None)), Ok(vec![]));
}

#[test]
fn get_prefix_with_missing_entries_is_format_error() {
    assert_eq!(get_prefix_outcome(&range(Some("1"), None)), Err(EtcdError::Format));
    let r = range(Some("1"), Some(vec![kv("a2V0dGxl", None)]));
    assert_eq!(get_prefix_outcome(&r), Err(EtcdError::Format));
}

fn watch_message(created: Option<bool>, events: Option<Vec<Event>>) -> WatchResponse {
    WatchResponse {
        header: None,
        watch_id: Some(String::from("0")),
        created,
        canceled: None,
        compact_revision: None,
        cancel_reason: None,
        events,
    }
}

#[test]
fn watch_frame_unwraps_its_message() {
    let frame = WatchStreamResponse { result: Some(watch_message(Some(true), None)) };
    let m = watch_frame(frame).unwrap();
    assert_eq!(m.created, Some(true));
    let event = Event { etype: None, kv: Some(kv("cG90", Some("Ym9pbGVk"))), prev_kv: None };
    let frame = WatchStreamResponse { result: Some(watch_message(None, Some(vec![event]))) };
    let m = watch_frame(frame).unwrap();
    let events = m.events.unwrap();
    assert_eq!(events.len(), 1);
    let kv = events[0].kv.as_ref().unwrap();
    assert_eq!(kv.key(), Some(String::from("pot")));
    assert_eq!(kv.value(), Some(String::from("boiled")));
}

#[test]
fn watch_frame_without_message_is_format_error() {
    assert!(matches!(watch_frame(WatchStreamResponse { result: None }), Err(EtcdError::Format)));
}
