use vstd::prelude::*;

use crate::command::CommandPlan;
use crate::errors::LaunchError;

verus! {

/// The runtime invocation for the given arguments: `crun <args...>`, with
/// this process's standard streams inherited by the child, so the guest's
/// console reaches the operator untouched.
pub fn crun(args: Vec<String>) -> (c: CommandPlan)
    ensures
        c.program@ == "crun"@,
        c.args@ == args@,
        !c.capture_stdout,
{
    CommandPlan { program: "crun".to_owned(), args, capture_stdout: false }
}

/// The end of a runtime invocation: the child's exit status alone decides,
/// a non-zero exit being `RuntimeFailure`; there is no return payload
/// beyond success.
pub fn crun_finish(success: bool) -> (r: Result<(), LaunchError>)
    ensures
        success ==> r is Ok,
        !success ==> r == Err::<(), LaunchError>(LaunchError::RuntimeFailure),
{
    if success {
        Ok(())
    } else {
        Err(LaunchError::RuntimeFailure)
    }
}

} // verus!
