use kurobako::attributes::Attributes;
use kurobako::capability::Capability;
use kurobako::solver::SolverSpecBuilder;

#[test]
fn get_after_insert() {
    let a = Attributes::new().insert("version", "1.0").insert("paper", "x");
    assert_eq!(a.get("version"), Some("1.0".to_owned()));
    assert_eq!(a.get("paper"), Some("x".to_owned()));
    assert_eq!(a.get("github"), None);
    assert_eq!(a.len(), 2);
}

#[test]
fn insert_replaces_earlier_value() {
    let a = Attributes::new().insert("k", "1").insert("k", "2");
    assert_eq!(a.len(), 1);
    assert_eq!(a.get("k"), Some("2".to_owned()));
    assert_eq!(a.to_vec(), vec![("k".to_owned(), "2".to_owned())]);
}

#[test]
fn solver_spec_builder_collects_settings() {
    let spec = SolverSpecBuilder::new("foo")
        .attr("version", "0.1")
        .capable(Capability::Categorical)
        .capable(Capability::Concurrent)
        .finish();
    assert_eq!(spec.name, "foo");
    assert_eq!(spec.attrs.get("version"), Some("0.1".to_owned()));
    assert_eq!(
        spec.capabilities.iter(),
        vec![Capability::Categorical, Capability::Concurrent]
    );
}

#[test]
fn attributes_are_listed_by_name() {
    let a = Attributes::new().insert("paper", "p").insert("github", "g").insert("version", "v").insert("github", "h");
    assert_eq!(
        a.to_vec(),
        vec![
            ("github".to_owned(), "h".to_owned()),
            ("paper".to_owned(), "p".to_owned()),
            ("version".to_owned(), "v".to_owned()),
        ]
    );
    let b = Attributes::new().insert("ab", "1").insert("a", "2").insert("b", "3").insert("", "4");
    let keys: Vec<String> = b.to_vec().into_iter().map(|(k, _)| k).collect();
    assert_eq!(keys, vec!["".to_owned(), "a".to_owned(), "ab".to_owned(), "b".to_owned()]);
}
