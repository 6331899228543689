use cardibot::codec::{encode, extract_thread_id};
use cardibot::decimal::{parse_u64, u64_to_decimal};

#[test]
fn test_extract_thread_id() {
    assert_eq!(
        extract_thread_id("Bug with login [1234567890]"),
        Some(1234567890)
    );
    assert_eq!(
        extract_thread_id("Feature request [9876543210]"),
        Some(9876543210)
    );
    assert_eq!(extract_thread_id("No thread ID here"), None);
    assert_eq!(extract_thread_id("[not-a-number]"), None);
}

#[test]
fn identifier_at_start_of_title() {
    assert_eq!(extract_thread_id("[9876543210] trailing"), Some(9876543210));
}

#[test]
fn encode_gives_bracketed_decimal() {
    assert_eq!(encode(1234567890), "[1234567890]");
    assert_eq!(encode(0), "[0]");
    assert_eq!(encode(u64::MAX), "[18446744073709551615]");
}

#[test]
fn decode_of_encode_round_trips() {
    for id in [0u64, 1, 9, 10, 42, 1234567890, 9876543210, u64::MAX - 1, u64::MAX] {
        let title = format!("Some title {}", encode(id));
        assert_eq!(extract_thread_id(&encode(id)), Some(id));
        assert_eq!(extract_thread_id(&title), Some(id));
    }
}

#[test]
fn first_bracketed_number_wins() {
    assert_eq!(extract_thread_id("[1] and [2]"), Some(1));
    assert_eq!(extract_thread_id("[abc] [12]"), Some(12));
    assert_eq!(extract_thread_id("[[7]"), Some(7));
    assert_eq!(extract_thread_id("[] [5]"), Some(5));
    assert_eq!(extract_thread_id("[12a] [3]"), Some(3));
}

#[test]
fn overflowing_identifier_decodes_to_nothing() {
    assert_eq!(extract_thread_id("[18446744073709551616]"), None);
    assert_eq!(extract_thread_id("[99999999999999999999] [5]"), None);
    assert_eq!(extract_thread_id("[18446744073709551615]"), Some(u64::MAX));
}

#[test]
fn unclosed_or_signed_brackets_do_not_match() {
    assert_eq!(extract_thread_id("[123"), None);
    assert_eq!(extract_thread_id("123]"), None);
    assert_eq!(extract_thread_id("[+5]"), None);
    assert_eq!(extract_thread_id("[ 5]"), None);
    assert_eq!(extract_thread_id(""), None);
}

#[test]
fn non_ascii_digits_are_not_digits() {
    assert_eq!(extract_thread_id("[١٢٣]"), None);
    assert_eq!(extract_thread_id("é [77] ü"), Some(77));
}

#[test]
fn decimal_text_of_integers() {
    assert_eq!(u64_to_decimal(0), "0");
    assert_eq!(u64_to_decimal(907), "907");
    assert_eq!(u64_to_decimal(u64::MAX), "18446744073709551615");
}

#[test]
fn parse_follows_std_for_u64() {
    for s in ["0", "42", "+42", "", "+", "-1", "4 2", "18446744073709551615", "18446744073709551616", "007"] {
        assert_eq!(parse_u64(s), s.parse::<u64>().ok(), "input {:?}", s);
    }
}

