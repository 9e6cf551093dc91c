use otel_opamp_rs::backoff::{connect_retries, delay_secs, parse_u32, DEFAULT_CONNECT_RETRIES};

#[test]
fn delays_double() {
    assert_eq!(delay_secs(0), 1);
    assert_eq!(delay_secs(1), 2);
    assert_eq!(delay_secs(2), 4);
    assert_eq!(delay_secs(3), 8);
    assert_eq!(delay_secs(10), 1024);
    assert_eq!(delay_secs(63), 1u64 << 63);
}

#[test]
fn delays_stop_at_the_largest_number() {
    assert_eq!(delay_secs(64), u64::MAX);
    assert_eq!(delay_secs(u32::MAX), u64::MAX);
}

#[test]
fn numerals_are_read() {
    assert_eq!(parse_u32("0"), Some(0));
    assert_eq!(parse_u32("10"), Some(10));
    assert_eq!(parse_u32("+7"), Some(7));
    assert_eq!(parse_u32("007"), Some(7));
    assert_eq!(parse_u32("4294967295"), Some(u32::MAX));
}

#[test]
fn what_is_no_numeral_is_refused() {
    assert_eq!(parse_u32(""), None);
    assert_eq!(parse_u32("+"), None);
    assert_eq!(parse_u32("-1"), None);
    assert_eq!(parse_u32("1 "), None);
    assert_eq!(parse_u32(" 1"), None);
    assert_eq!(parse_u32("1a"), None);
    assert_eq!(parse_u32("++1"), None);
    assert_eq!(parse_u32("4294967296"), None);
    assert_eq!(parse_u32("99999999999999999999"), None);
    assert_eq!(parse_u32("١"), None);
}

#[test]
fn numerals_are_read_as_std_reads_them() {
    for text in ["0", "+0", "12", "0012", "4294967295", "4294967296", "", "+", "-", "-0", "1_0", "0x10", "٣"] {
        assert_eq!(parse_u32(text), text.parse::<u32>().ok(), "{:?}", text);
    }
}

#[test]
fn retry_limit_defaults_to_ten() {
    assert_eq!(DEFAULT_CONNECT_RETRIES, 10);
    assert_eq!(connect_retries(None), Some(10));
    assert_eq!(connect_retries(Some("3")), Some(3));
    assert_eq!(connect_retries(Some("many")), None);
}
