//! What the run of a scaffold command reports back, and the exit code the
//! wizard keeps of it.
use vstd::prelude::*;

verus! {

/// The exit code kept when the command could not be run or reported no status.
pub const LAUNCH_FAILED: i32 = -1;

/// How a run of the scaffold command ended.
#[derive(Clone, Copy, Debug, PartialEq, Eq, Structural)]
pub enum RunReport {
    /// There was no command, or the shell could not be started.
    NotStarted,
    /// The shell ran and ended; `code` is its exit status, if it had one.
    Exited { success: bool, code: Option<i32> },
}

/// The exit code that a report stands for.
pub open spec fn exit_code_of(report: RunReport) -> i32 {
    match report {
        RunReport::NotStarted => LAUNCH_FAILED,
        RunReport::Exited { success, code } => if success {
            0
        } else {
            match code {
                Some(c) => c,
                None => LAUNCH_FAILED,
            }
        },
    }
}

/// `0` for a successful run, the shell's status for a failed one, and
/// [`LAUNCH_FAILED`] where there is no status to report.
pub fn exit_code(report: RunReport) -> (r: i32)
    ensures
        r == exit_code_of(report),
{
    match report {
        RunReport::NotStarted => LAUNCH_FAILED,
        RunReport::Exited { success, code } => {
            if success {
                0
            } else {
                match code {
                    Some(c) => c,
                    None => LAUNCH_FAILED,
                }
            }
        },
    }
}

} // verus!
