//! The order in which the ways of copying are tried.
//!
//! First the native clipboard; where it is missing or refuses the text, the
//! `osc` helper command, if a terminal device for it is configured; where that
//! is not configured or could not be run, the escape sequence written to the
//! terminal. Each way is tried once. The functions here make the decisions;
//! whoever performs the steps reports back what happened.
use crate::error::CopyError;
use vstd::prelude::*;

verus! {

/// How long, in milliseconds, to pause after a native copy on platforms where
/// the clipboard's new owner needs time to take it over.
pub const SETTLE_MILLIS: u64 = 50;

/// What the native clipboard did with the text.
#[derive(Clone, Copy, Debug, PartialEq, Eq, Structural)]
pub enum NativeOutcome {
    /// There is no native clipboard handle.
    Unavailable,
    /// The text is on the native clipboard.
    Accepted,
    /// The native clipboard refused the text.
    Rejected,
}

/// What is to be done next.
#[derive(Clone, Copy, Debug, PartialEq, Eq, Structural)]
pub enum Step {
    /// The copy succeeded.
    Done,
    /// The copy succeeded; pause for the platform to take ownership of the
    /// clipboard before reporting it.
    SettleThenDone,
    /// Run the helper command on the configured terminal device, with the text
    /// on its standard input.
    RunHelper,
    /// Write the escape sequence to the terminal device, or to standard output
    /// where no terminal device can be opened, and report how that went.
    WriteTerminal,
}

/// The step after the native clipboard: success where it took the text,
/// otherwise the helper where a device is configured for it, otherwise the
/// terminal.
pub open spec fn step_after_native(outcome: NativeOutcome, settle: bool, helper_configured: bool) -> Step {
    match outcome {
        NativeOutcome::Accepted => if settle {
            Step::SettleThenDone
        } else {
            Step::Done
        },
        _ => if helper_configured {
            Step::RunHelper
        } else {
            Step::WriteTerminal
        },
    }
}

/// The step after the helper: success where it was started, fed the text and
/// waited for, whatever its exit status; otherwise the terminal.
pub open spec fn step_after_helper(completed: bool) -> Step {
    if completed {
        Step::Done
    } else {
        Step::WriteTerminal
    }
}

/// What a copy reports once the terminal write has been tried.
pub open spec fn result_of_write(written: Result<(), String>) -> Result<(), CopyError> {
    match written {
        Ok(_) => Ok(()),
        Err(m) => Err(CopyError::Io(m)),
    }
}

/// Decides what follows the native clipboard's outcome. `settle` says whether
/// the platform needs a pause after a native copy; `helper_configured` whether a
/// terminal device for the helper is named.
pub fn after_native(outcome: NativeOutcome, settle: bool, helper_configured: bool) -> (r: Step)
    ensures
        r == step_after_native(outcome, settle, helper_configured),
{
    match outcome {
        NativeOutcome::Accepted => if settle {
            Step::SettleThenDone
        } else {
            Step::Done
        },
        _ => if helper_configured {
            Step::RunHelper
        } else {
            Step::WriteTerminal
        },
    }
}

/// Decides what follows the helper command: `completed` says whether it was
/// started, fed the text and waited for without an I/O error.
pub fn after_helper(completed: bool) -> (r: Step)
    ensures
        r == step_after_helper(completed),
{
    if completed {
        Step::Done
    } else {
        Step::WriteTerminal
    }
}

/// The result of the copy once the terminal write has been tried: success if
/// the write and flush succeeded, else an I/O error with its message.
pub fn after_write(written: Result<(), String>) -> (r: Result<(), CopyError>)
    ensures
        r == result_of_write(written),
        r is Ok <==> written is Ok,
{
    match written {
        Ok(_) => Ok(()),
        Err(m) => Err(CopyError::Io(m)),
    }
}

/// Where a helper is configured and the native clipboard did not take the
/// text, the helper is run; if it cannot be run the terminal is written to,
/// and the copy then succeeds exactly when that write does.
pub proof fn lemma_failed_helper_leaves_terminal(
    outcome: NativeOutcome,
    settle: bool,
    written: Result<(), String>,
)
    requires
        outcome != NativeOutcome::Accepted,
    ensures
        step_after_native(outcome, settle, true) == Step::RunHelper,
        step_after_helper(false) == Step::WriteTerminal,
        result_of_write(written) is Ok <==> written is Ok,
{
}

/// Each way is tried at most once: no step leads back to the native clipboard,
/// the helper never leads to itself, and once written the copy is over.
pub proof fn lemma_each_way_once(outcome: NativeOutcome, settle: bool, helper_configured: bool, completed: bool)
    ensures
        step_after_helper(completed) != Step::RunHelper,
        outcome == NativeOutcome::Accepted ==> (step_after_native(outcome, settle, helper_configured)
            == Step::Done || step_after_native(outcome, settle, helper_configured) == Step::SettleThenDone),
        !helper_configured ==> step_after_native(outcome, settle, helper_configured) != Step::RunHelper,
{
}

} // verus!
