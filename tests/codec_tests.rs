use etcd_bridge::codec::{decode_text, encode_text, i64_to_text, parse_decimal, text_eq};
use etcd_bridge::error::EtcdError;
use etcd_bridge::keyrange::prefix_range_end;

#[test]
fn encode_text_is_standard_base64() {
    assert_eq!(encode_text("hello"), "aGVsbG8=");
    assert_eq!(encode_text("world 22"), "d29ybGQgMjI=");
    assert_eq!(encode_text("kettle-black"), "a2V0dGxlLWJsYWNr");
    assert_eq!(encode_text(""), "");
    assert_eq!(encode_text("\u{20ac}"), "4oKs");
}

#[test]
fn decode_text_reads_base64_text() {
    assert_eq!(decode_text("aGVsbG8="), Some(String::from("hello")));
    assert_eq!(decode_text("d29ybGQgMjI="), Some(String::from("world 22")));
    assert_eq!(decode_text("4oKs"), Some(String::from("\u{20ac}")));
}

#[test]
fn decode_text_refuses_bad_base64() {
    assert_eq!(decode_text("not base64!"), None);
    assert_eq!(decode_text("a"), None);
    assert_eq!(decode_text("=aGVs"), None);
}

#[test]
fn decode_text_refuses_non_utf8_bytes() {
    // "/w==" is the single byte 0xFF.
    assert_eq!(decode_text("/w=="), None);
}

#[test]
fn text_round_trips_through_the_wire() {
    for s in ["", "a", "hello", "world 3333", "kettle-black", "\u{20ac}uro", "\u{1f600} and more"] {
        assert_eq!(decode_text(&encode_text(s)), Some(String::from(s)));
    }
}

#[test]
fn parse_decimal_reads_digits() {
    assert_eq!(parse_decimal("0"), Some(0));
    assert_eq!(parse_decimal("1"), Some(1));
    assert_eq!(parse_decimal("14841639068965178418"), Some(14841639068965178418usize));
    assert_eq!(parse_decimal("18446744073709551615"), Some(usize::MAX));
}

#[test]
fn parse_decimal_refuses_other_text() {
    assert_eq!(parse_decimal(""), None);
    assert_eq!(parse_decimal("12a"), None);
    assert_eq!(parse_decimal("-1"), None);
    assert_eq!(parse_decimal(" 1"), None);
    assert_eq!(parse_decimal("18446744073709551616"), None);
}

#[test]
fn i64_to_text_is_decimal() {
    assert_eq!(i64_to_text(0), "0");
    assert_eq!(i64_to_text(7), "7");
    assert_eq!(i64_to_text(1234567890), "1234567890");
    assert_eq!(i64_to_text(-42), "-42");
    assert_eq!(i64_to_text(i64::MAX), "9223372036854775807");
    assert_eq!(i64_to_text(i64::MIN), "-9223372036854775808");
}

#[test]
fn text_eq_compares_characters() {
    assert!(text_eq("PUT", "PUT"));
    assert!(!text_eq("PUT", "PUTS"));
    assert!(!text_eq("PUT", "put"));
    assert!(text_eq("", ""));
}

#[test]
fn prefix_end_increments_last_byte() {
    assert_eq!(prefix_range_end(b"kettle"), Ok(b"kettlf".to_vec()));
    assert_eq!(prefix_range_end(&[0x00]), Ok(vec![0x01]));
    assert_eq!(prefix_range_end(&[0x61, 0xFE]), Ok(vec![0x61, 0xFF]));
}

#[test]
fn prefix_end_skips_trailing_ff_bytes() {
    assert_eq!(prefix_range_end(&[0x61, 0xFF]), Ok(vec![0x62]));
    assert_eq!(prefix_range_end(&[0x61, 0x62, 0xFF, 0xFF]), Ok(vec![0x61, 0x63]));
}

#[test]
fn prefix_end_refuses_keys_without_bound() {
    assert_eq!(prefix_range_end(&[]), Err(EtcdError::Boundary));
    assert_eq!(prefix_range_end(&[0xFF]), Err(EtcdError::Boundary));
    assert_eq!(prefix_range_end(&[0xFF, 0xFF, 0xFF]), Err(EtcdError::Boundary));
}

#[test]
fn prefix_span_holds_on_sample_keys() {
    let k: &[u8] = b"kettle";
    let end = prefix_range_end(k).unwrap();
    let inside: [&[u8]; 3] = [b"kettle", b"kettle-black", b"kettle\xff\xff"];
    let outside: [&[u8]; 5] = [b"kettl", b"kettld", b"kettlf", b"kettlf-black", b""];
    for x in inside {
        assert!(x.starts_with(k));
        assert!(k <= x && x < &end[..]);
    }
    for x in outside {
        assert!(!x.starts_with(k));
        assert!(!(k <= x && x < &end[..]));
    }
}
