use kurobako::domain::{names_are_distinct, Constraint};
use kurobako::error::{kind_of_json_category, ErrorKind, JsonErrorCategory};
use kurobako::parameter::{category_eq, Condition, Distribution};
use kurobako::rng::{seed256, ArcRng};

#[test]
fn seed_bytes_are_big_endian_then_zero() {
    let s = seed256(0x0102_0304_0506_0708);
    assert_eq!(&s[0..8], &[1, 2, 3, 4, 5, 6, 7, 8]);
    assert!(s[8..].iter().all(|b| *b == 0));
    assert_eq!(seed256(0), [0u8; 32]);
}

#[test]
fn same_seed_same_numbers() {
    let mut a = ArcRng::new(42);
    let mut b = ArcRng::new(42);
    assert_eq!(a.next_u64(), b.next_u64());
    assert_eq!(a.next_u32(), b.next_u32());
    let mut buf = vec![0u8; 16];
    a.fill_bytes(&mut buf);
    assert_eq!(buf.len(), 16);
    let mut c = ArcRng::new(43);
    let mut d = ArcRng::new(42);
    assert_ne!(c.next_u64(), d.next_u64());
}

#[test]
fn json_error_kinds() {
    assert_eq!(kind_of_json_category(JsonErrorCategory::Io), ErrorKind::IoError);
    assert_eq!(kind_of_json_category(JsonErrorCategory::Syntax), ErrorKind::InvalidInput);
    assert_eq!(kind_of_json_category(JsonErrorCategory::Eof), ErrorKind::InvalidInput);
    let e = serde_json::from_str::<u32>("{").unwrap_err();
    assert_eq!(kurobako::error::json_error_kind(&e), ErrorKind::InvalidInput);
}

#[test]
fn distributions_and_conditions() {
    assert_eq!(Distribution::parse("uniform"), Ok(Distribution::Uniform));
    assert_eq!(Distribution::parse("loguniform"), Ok(Distribution::LogUniform));
    assert_eq!(Distribution::parse("normal"), Err(ErrorKind::InvalidInput));
    assert!(Distribution::default_distribution().is_uniform());
    assert!(!Distribution::LogUniform.is_uniform());
    let Condition::Member { name, choices } = category_eq("optimizer", "adam");
    assert_eq!(name, "optimizer");
    assert_eq!(choices, vec!["adam".to_owned()]);
}

#[test]
fn constraints_and_names() {
    let c = Constraint::new("x < y");
    assert_eq!(c.lua_script(), "x < y");
    assert!(names_are_distinct(&vec!["a".to_owned(), "b".to_owned()]));
    assert!(!names_are_distinct(&vec!["a".to_owned(), "b".to_owned(), "a".to_owned()]));
    assert!(names_are_distinct(&vec![]));
}
