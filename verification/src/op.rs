//! Deployment operations and which systems accept them.

use vstd::prelude::*;

use crate::error::DeployError;
use crate::models::{JobMap, SystemType};
use crate::text::owned;

verus! {

/// What a deployment does to the new configuration.
#[derive(Debug, Clone, Copy, PartialEq, Eq, Structural)]
pub enum Operation {
    /// Activate the new configuration and make it the boot default.
    Switch,
    /// Set the new configuration as the boot default without activating it.
    Boot,
}

/// The name of an operation, as displayed and as passed to
/// `switch-to-configuration`.
pub open spec fn operation_name(op: Operation) -> Seq<char> {
    match op {
        Operation::Switch => "switch"@,
        Operation::Boot => "boot"@,
    }
}

impl Operation {
    /// The name of the operation (what `Display` shows).
    pub fn to_string(&self) -> (res: String)
        ensures
            res@ == operation_name(*self),
    {
        match self {
            Operation::Switch => owned("switch"),
            Operation::Boot => owned("boot"),
        }
    }
}

/// Whether a system type accepts an operation: nix-darwin cannot stage a
/// configuration for the next boot only.
pub open spec fn supports(system: SystemType, op: Operation) -> bool {
    !(system == SystemType::Darwin && op == Operation::Boot)
}

/// The message for a job that cannot take the boot operation.
pub open spec fn darwin_boot_message(job: Seq<char>) -> Seq<char> {
    "job "@ + job + ": 'boot' is not a valid darwin operation"@
}

/// The error for a job that cannot take the boot operation.
pub fn darwin_boot_error(job: &str) -> (res: DeployError)
    ensures
        res.message@ == darwin_boot_message(job@),
        res.context@.len() == 0,
{
    let mut message = owned("job ");
    message.append(job);
    message.append(": 'boot' is not a valid darwin operation");
    DeployError::new(message)
}

/// Checks that every job's system accepts the operation. When some job does
/// not, the error names the first such job in name order.
pub fn validate(jobs: &JobMap, op: Operation) -> (res: Result<(), DeployError>)
    ensures
        res is Ok <==> forall|i: int|
            0 <= i < jobs.pairs().len() ==> supports(#[trigger] jobs.pairs()[i].1.system, op),
        res matches Err(e) ==> exists|i: int|
            0 <= i < jobs.pairs().len() && !supports(#[trigger] jobs.pairs()[i].1.system, op)
                && (forall|k: int| 0 <= k < i ==> supports(jobs.pairs()[k].1.system, op))
                && e.message@ == darwin_boot_message(jobs.keys()[i]) && e.context@.len() == 0,
{
    let mut i: usize = 0;
    while i < jobs.len()
        invariant
            i <= jobs.pairs().len(),
            forall|k: int| 0 <= k < i ==> supports(#[trigger] jobs.pairs()[k].1.system, op),
        decreases jobs.pairs().len() - i,
    {
        let (name, spec) = jobs.entry(i);
        if spec.system == SystemType::Darwin && op == Operation::Boot {
            assert(jobs.keys()[i as int] == name@);
            assert(jobs.pairs()[i as int].1 == *spec);
            assert(!supports(jobs.pairs()[i as int].1.system, op));
            return Err(darwin_boot_error(name.as_str()));
        }
        i = i + 1;
    }
    Ok(())
}

} // verus!
