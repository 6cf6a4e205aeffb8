use kurobako::error::ErrorKind;
use kurobako::problem::EvaluableSteps;
use kurobako::problems::warm_starting::{
    warm_starting_call, warm_starting_name, warm_starting_step, warm_starting_steps, WarmStartingCall,
};

#[test]
fn step_zero_runs_the_source() {
    let call = warm_starting_call(0, 50);
    assert_eq!(call, WarmStartingCall::Source(50));
    assert_eq!(warm_starting_step(call, 50), 0);
    let call = warm_starting_call(3, 50);
    assert_eq!(call, WarmStartingCall::Target(3));
    assert_eq!(warm_starting_step(call, 4), 4);
}

#[test]
fn warm_starting_spec_parts() {
    assert_eq!(warm_starting_steps(&vec![1, 5]), vec![0, 1, 5]);
    assert_eq!(warm_starting_name("ZDT1"), "ZDT1 with warm starting");
    assert_eq!(EvaluableSteps::new(warm_starting_steps(&vec![1, 5])).err(), Some(ErrorKind::InvalidInput));
}
