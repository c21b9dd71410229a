use marvel_api::signing::{build_hash, sign};
use marvel_api::text::{bool_str, i64_text, parse_u32, u64_text};

#[test]
fn hash_of_fixture_is_md5_of_concatenation() {
    let expected = format!("{:x}", md5::compute("1privatepublic"));
    assert_eq!(build_hash(1, "public", "private"), expected);
}

#[test]
fn hash_has_thirty_two_lowercase_hex_digits() {
    let h = build_hash(1, "public", "private");
    assert_eq!(h.len(), 32);
    assert!(h.chars().all(|c| c.is_ascii_digit() || ('a'..='f').contains(&c)));
}

#[test]
fn sign_is_deterministic() {
    let a = sign(1_617_000_000_000, "pub", "priv");
    let b = sign(1_617_000_000_000, "pub", "priv");
    assert_eq!(a.timestamp, b.timestamp);
    assert_eq!(a.hash, b.hash);
    assert_eq!(a.hash, format!("{:x}", md5::compute("1617000000000privpub")));
}

#[test]
fn sign_depends_on_key_order() {
    assert_ne!(build_hash(1, "a", "b"), build_hash(1, "b", "a"));
}

#[test]
fn empty_keys_still_sign() {
    assert_eq!(build_hash(0, "", ""), format!("{:x}", md5::compute("0")));
}

#[test]
fn negative_timestamp_is_signed_with_its_sign() {
    assert_eq!(build_hash(-5, "p", "q"), format!("{:x}", md5::compute("-5qp")));
}

#[test]
fn decimal_text_of_numbers() {
    assert_eq!(u64_text(0), "0");
    assert_eq!(u64_text(7), "7");
    assert_eq!(u64_text(1011334), "1011334");
    assert_eq!(u64_text(u64::MAX), "18446744073709551615");
    assert_eq!(i64_text(-42), "-42");
    assert_eq!(i64_text(i64::MIN), "-9223372036854775808");
    assert_eq!(i64_text(i64::MAX), "9223372036854775807");
}

#[test]
fn flags_are_written_as_words() {
    assert_eq!(bool_str(true), "true");
    assert_eq!(bool_str(false), "false");
}

#[test]
fn reading_numbers_back() {
    assert_eq!(parse_u32("10"), Some(10));
    assert_eq!(parse_u32("007"), Some(7));
    assert_eq!(parse_u32("4294967295"), Some(u32::MAX));
    assert_eq!(parse_u32("4294967296"), None);
    assert_eq!(parse_u32("99999999999999999999"), None);
    assert_eq!(parse_u32(""), None);
    assert_eq!(parse_u32("12a"), None);
    assert_eq!(parse_u32("-1"), None);
}
