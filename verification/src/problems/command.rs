//! A problem implemented by an external command that exchanges JSON lines.
use vstd::prelude::*;

verus! {

/// Spec of a problem implemented by an external command.
#[derive(Debug)]
pub struct CommandProblemSpec {
    /// The path of the command.
    pub path: String,
    /// The command line arguments.
    pub args: Vec<String>,
}

/// The identifiers of the evaluations a command problem starts: each one takes the
/// current counter, which then moves to the next value.
pub fn next_eval_id(counter: &mut u32) -> (id: u32)
    requires
        *old(counter) < u32::MAX,
    ensures
        id == *old(counter),
        *final(counter) == *old(counter) + 1,
{
    let id = *counter;
    *counter = *counter + 1;
    id
}

} // verus!
