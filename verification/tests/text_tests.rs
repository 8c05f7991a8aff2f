use johnny::text::{
    concat3, ends_with, i64_to_decimal, join, last_piece, parse_u64, replace, starts_with,
    str_eq, u64_to_decimal, NumberError,
};

#[test]
fn decimals_are_written_in_base_ten() {
    assert_eq!(u64_to_decimal(0), "0");
    assert_eq!(u64_to_decimal(1120764782014890032), "1120764782014890032");
    assert_eq!(i64_to_decimal(-42), "-42");
    assert_eq!(i64_to_decimal(i64::MIN), "-9223372036854775808");
}

#[test]
fn parse_reads_ids_like_std() {
    assert_eq!(parse_u64("1120764904656351324"), Ok(1120764904656351324));
    assert_eq!(parse_u64("+7"), Ok(7));
    assert_eq!(parse_u64(""), Err(NumberError::Empty));
    assert_eq!(parse_u64("-"), Err(NumberError::InvalidDigit));
    assert_eq!(parse_u64("12a"), Err(NumberError::InvalidDigit));
    assert_eq!(parse_u64("18446744073709551616"), Err(NumberError::PosOverflow));
    assert_eq!(parse_u64("18446744073709551615"), Ok(u64::MAX));
}

#[test]
fn replace_matches_std_replace() {
    for (s, from, to) in [("true or true", "true", "T"), ("aaa", "aa", "b"), ("", "x", "y")] {
        assert_eq!(replace(s, from, to), s.replace(from, to));
    }
}

#[test]
fn prefixes_and_suffixes() {
    assert!(starts_with("admin", "ad"));
    assert!(!starts_with("ad", "admin"));
    assert!(ends_with("cat.png", ".png"));
    assert!(!ends_with("cat.jpeg", ".jpg"));
    assert!(str_eq("a", "a"));
    assert!(!str_eq("a", "b"));
    assert_eq!(concat3("a", "b", "c"), "abc");
}

#[test]
fn join_matches_std_join() {
    let parts = vec!["tui".to_string(), "sqlite".to_string(), "autorole".to_string()];
    assert_eq!(join(&parts, ", "), "tui, sqlite, autorole");
    assert_eq!(join(&vec![], ", "), "");
    assert_eq!(join(&vec!["one".to_string()], ", "), "one");
}

#[test]
fn last_piece_is_the_last_split_piece() {
    for s in ["sqlite://johnny.db", "sqlite::memory:", "a://b://c", "plain"] {
        assert_eq!(last_piece(s, "://"), s.split("://").last().unwrap());
    }
}
