//! A problem for warm-starting optimizations: step 0 evaluates a source problem to its last
//! step, and every later step evaluates the target problem.
use vstd::prelude::*;
use vstd::string::StringExecFns;
use crate::problem::valid_steps;

verus! {

/// Which evaluator an evaluation request goes to, and up to which step.
#[derive(Debug, Clone, Copy, PartialEq, Eq, Structural)]
pub enum WarmStartingCall {
    /// The source problem's evaluator, up to the given step.
    Source(u64),
    /// The target problem's evaluator, up to the given step.
    Target(u64),
}

/// The evaluation that a request for `next_step` makes: step 0 runs the source problem to
/// its last step; any other step runs the target problem to that step.
pub fn warm_starting_call(next_step: u64, source_last_step: u64) -> (res: WarmStartingCall)
    ensures
        next_step == 0 ==> res == WarmStartingCall::Source(source_last_step),
        next_step != 0 ==> res == WarmStartingCall::Target(next_step),
{
    if next_step == 0 {
        WarmStartingCall::Source(source_last_step)
    } else {
        WarmStartingCall::Target(next_step)
    }
}

/// The step that a warm-starting evaluation reports, given the call it made and the step
/// that the called evaluator reported: 0 for the source problem, the target's own otherwise.
pub fn warm_starting_step(call: WarmStartingCall, reported: u64) -> (res: u64)
    ensures
        res == match call {
            WarmStartingCall::Source(_) => 0,
            WarmStartingCall::Target(_) => reported,
        },
{
    match call {
        WarmStartingCall::Source(_) => 0,
        WarmStartingCall::Target(_) => reported,
    }
}

/// The steps of the warm-starting problem: 0, then the steps of the target problem.
pub fn warm_starting_steps(target_steps: &Vec<u64>) -> (res: Vec<u64>)
    ensures
        res@ == seq![0u64] + target_steps@,
{
    let mut res: Vec<u64> = Vec::new();
    res.push(0);
    let mut i: usize = 0;
    while i < target_steps.len()
        invariant
            i <= target_steps@.len(),
            res@ == seq![0u64] + target_steps@.take(i as int),
        decreases target_steps.len() - i,
    {
        res.push(target_steps[i]);
        assert(target_steps@.take(i + 1) == target_steps@.take(i as int).push(target_steps@[i as int]));
        i = i + 1;
    }
    assert(target_steps@.take(target_steps@.len() as int) == target_steps@);
    res
}

/// The name of the warm-starting problem: the target's name followed by ` with warm starting`.
pub fn warm_starting_name(target_name: &str) -> (res: String)
    ensures
        res@ == target_name@ + " with warm starting"@,
{
    let mut s = target_name.to_owned();
    s.append(" with warm starting");
    s
}

/// The steps of a warm-starting problem start at 0, which evaluable steps never do, so
/// they never pass `EvaluableSteps::new`.
pub proof fn lemma_warm_starting_steps_refused(target_steps: Seq<u64>)
    ensures
        !valid_steps(seq![0u64] + target_steps),
{
    assert((seq![0u64] + target_steps)[0] == 0);
}

} // verus!
