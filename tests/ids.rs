use voice_bridge::ids::{id_to_string, parse_id};

#[test]
fn parse_plain_and_signed_ids() {
    assert_eq!(parse_id("600000000000000000"), Some(600000000000000000));
    assert_eq!(parse_id("+42"), Some(42));
    assert_eq!(parse_id("18446744073709551615"), Some(u64::MAX));
}

#[test]
fn parse_rejects_bad_ids() {
    assert_eq!(parse_id(""), None);
    assert_eq!(parse_id("+"), None);
    assert_eq!(parse_id("0"), None);
    assert_eq!(parse_id("-1"), None);
    assert_eq!(parse_id("12a"), None);
    assert_eq!(parse_id(" 12"), None);
    assert_eq!(parse_id("18446744073709551616"), None);
    assert_eq!(parse_id("99999999999999999999999"), None);
}

#[test]
fn id_text_round_trip() {
    for v in [1u64, 9, 10, 600000000000000000, u64::MAX] {
        let s = id_to_string(v);
        assert_eq!(s, v.to_string());
        assert_eq!(parse_id(&s), Some(v));
    }
    assert_eq!(id_to_string(0), "0");
}
