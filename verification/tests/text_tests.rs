use kurobako::text::{i64_to_string, join_strings, split_nth, split_once, str_eq, u64_to_string};

#[test]
fn numbers_in_decimal() {
    assert_eq!(u64_to_string(0), "0");
    assert_eq!(u64_to_string(1234567890), "1234567890");
    assert_eq!(u64_to_string(u64::MAX), "18446744073709551615");
    assert_eq!(i64_to_string(-6), "-6");
    assert_eq!(i64_to_string(i64::MIN), "-9223372036854775808");
    assert_eq!(i64_to_string(42), "42");
}

#[test]
fn joining_and_comparing() {
    let parts = vec!["p8x8".to_owned(), "i4x4".to_owned()];
    assert_eq!(join_strings(&parts, ","), "p8x8,i4x4");
    assert_eq!(join_strings(&vec![], ","), "");
    assert_eq!(kurobako::text::concat("ab", "cd"), "abcd");
    assert!(str_eq("x", "x"));
    assert!(!str_eq("x", "y"));
}

#[test]
fn splitting() {
    assert_eq!(split_once("adam.lr", '.'), ("adam".to_owned(), Some("lr".to_owned())));
    assert_eq!(split_once("a.b.c", '.'), ("a".to_owned(), Some("b.c".to_owned())));
    assert_eq!(split_once("adam", '.'), ("adam".to_owned(), None));
    assert_eq!(split_nth("a b c d", ' ', 2), Some("c".to_owned()));
    assert_eq!(split_nth("a b", ' ', 2), None);
    assert_eq!(split_nth("a  b", ' ', 1), Some(String::new()));
    assert_eq!(split_nth("", ' ', 0), Some(String::new()));
}
