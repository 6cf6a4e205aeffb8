use kurobako::capability::{Capabilities, Capability};

#[test]
fn new_lists_each_capability_once_in_order() {
    let c = Capabilities::new(vec![
        Capability::Concurrent,
        Capability::UniformContinuous,
        Capability::Concurrent,
    ]);
    assert_eq!(c.iter(), vec![Capability::UniformContinuous, Capability::Concurrent]);
    assert!(c.is_capable(Capability::Concurrent));
    assert!(!c.is_capable(Capability::Categorical));
}

#[test]
fn all_and_empty() {
    let all = Capabilities::all();
    assert_eq!(all.iter().len(), 8);
    assert!(!all.is_empty());
    let empty = Capabilities::empty();
    assert!(empty.is_empty());
    assert_eq!(empty.iter(), Vec::<Capability>::new());
}

#[test]
fn add_then_remove() {
    let mut c = Capabilities::empty();
    c.add_capability(Capability::Categorical).add_capability(Capability::Conditional);
    assert!(c.is_capable(Capability::Categorical));
    assert!(c.is_capable(Capability::Conditional));
    c.remove_capability(Capability::Categorical);
    assert!(!c.is_capable(Capability::Categorical));
    assert_eq!(c.iter(), vec![Capability::Conditional]);
}

#[test]
fn incapables_lists_what_is_missing() {
    let have = Capabilities::new(vec![Capability::UniformContinuous, Capability::Categorical]);
    let required = Capabilities::new(vec![
        Capability::MultiObjective,
        Capability::Categorical,
        Capability::UniformDiscrete,
    ]);
    assert_eq!(
        have.incapables(&required),
        vec![Capability::UniformDiscrete, Capability::MultiObjective]
    );
    assert!(Capabilities::all().incapables(&required).is_empty());
}

#[test]
fn index_round_trip() {
    for i in 0..8 {
        assert_eq!(Capability::from_index(i).index(), i);
    }
    assert_eq!(Capability::Concurrent.index(), 7);
}

#[test]
fn new_of_iter_gives_the_same_set() {
    let c = Capabilities::new(vec![Capability::MultiObjective, Capability::UniformDiscrete]);
    let again = Capabilities::new(c.iter());
    assert_eq!(again.iter(), c.iter());
}
