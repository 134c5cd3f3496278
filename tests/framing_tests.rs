use etcd_bridge::framing::FrameSplitter;

#[test]
fn whole_frame_in_one_chunk() {
    let mut s = FrameSplitter::new();
    let frames = s.push_chunk(br#"{"result":{"created":true}}"#);
    assert_eq!(frames, vec![br#"{"result":{"created":true}}"#.to_vec()]);
    assert_eq!(s.pending_len(), 0);
}

#[test]
fn frame_split_across_chunks() {
    let mut s = FrameSplitter::new();
    assert!(s.push_chunk(br#"{"result":{"cre"#).is_empty());
    assert_eq!(s.pending_len(), 15);
    assert!(s.push_chunk(br#"ated":tr"#).is_empty());
    let frames = s.push_chunk(br#"ue}}"#);
    assert_eq!(frames, vec![br#"{"result":{"created":true}}"#.to_vec()]);
    assert_eq!(s.pending_len(), 0);
}

#[test]
fn frames_coalesced_in_one_chunk() {
    let mut s = FrameSplitter::new();
    let frames = s.push_chunk(b"{\"a\":1}\n{\"b\":{\"c\":2}}\n{\"d\"");
    assert_eq!(frames, vec![b"{\"a\":1}".to_vec(), b"\n{\"b\":{\"c\":2}}".to_vec()]);
    assert_eq!(s.pending_len(), 5);
    let frames = s.push_chunk(b":3}");
    assert_eq!(frames, vec![b"\n{\"d\":3}".to_vec()]);
}

#[test]
fn braces_and_quotes_inside_strings_are_text() {
    let mut s = FrameSplitter::new();
    let body: &[u8] = br#"{"reason":"a } and a \" and { too"}"#;
    let frames = s.push_chunk(body);
    assert_eq!(frames, vec![body.to_vec()]);
}

#[test]
fn empty_chunk_changes_nothing() {
    let mut s = FrameSplitter::new();
    assert!(s.push_chunk(b"").is_empty());
    assert!(s.push_chunk(b"{").is_empty());
    assert!(s.push_chunk(b"").is_empty());
    assert_eq!(s.pending_len(), 1);
}
