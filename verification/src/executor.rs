//! Carrying out a plan, best effort.

use vstd::prelude::*;
use crate::command::Command;

verus! {

/// Attempts every command of a plan, front to back, through `perform`.
///
/// A failure never stops the plan and never leaves this function as a
/// failure: the command behind it is attempted as if nothing had happened.
/// What `perform` answered is handed back, one outcome per command and in
/// the order of the plan, for a caller who wants to look; the coordinator's
/// own policy is to drop it.
pub fn execute<E, F>(plan: &Vec<Command>, perform: F) -> (outcomes: Vec<Result<(), E>>)
    where
        F: Fn(Command) -> Result<(), E>,
    requires
        forall|i: int| 0 <= i < plan@.len() ==> call_requires(perform, (#[trigger] plan@[i],)),
    ensures
        outcomes@.len() == plan@.len(),
        forall|i: int|
            0 <= i < plan@.len() ==> call_ensures(perform, (plan@[i],), #[trigger] outcomes@[i]),
{
    let mut outcomes: Vec<Result<(), E>> = Vec::new();
    let mut i: usize = 0;
    while i < plan.len()
        invariant
            i <= plan@.len(),
            outcomes@.len() == i,
            forall|j: int| 0 <= j < plan@.len() ==> call_requires(perform, (#[trigger] plan@[j],)),
            forall|j: int|
                0 <= j < i ==> call_ensures(perform, (plan@[j],), #[trigger] outcomes@[j]),
        decreases plan@.len() - i,
    {
        let outcome = perform(plan[i]);
        outcomes.push(outcome);
        i += 1;
    }
    outcomes
}

} // verus!
