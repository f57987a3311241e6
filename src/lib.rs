//! Copying text to the clipboard: through a native clipboard when there is one,
//! and otherwise through the OSC 52 terminal escape sequence.
pub mod encoding;
pub mod error;
pub mod fallback;
pub mod native;
pub mod osc52;
pub mod unsupported;

use crate::fallback::{after_native, step_after_native, NativeOutcome, Step};
use crate::native::NativeSlot;
use vstd::prelude::*;

verus! {

/// Starts a copy of `text`: tries the native clipboard held in `slot`, and gives
/// the step that follows. `settle` says whether the platform needs a pause after
/// a native copy; `helper_configured` whether a terminal device is named for
/// the helper command.
pub fn set_text(slot: &mut NativeSlot, text: &str, settle: bool, helper_configured: bool) -> (r: Step)
    ensures
        final(slot).is_open() == old(slot).is_open(),
        !old(slot).is_open() ==> r == step_after_native(NativeOutcome::Unavailable, settle, helper_configured),
        old(slot).is_open() ==> r == step_after_native(NativeOutcome::Accepted, settle, helper_configured)
            || r == step_after_native(NativeOutcome::Rejected, settle, helper_configured),
{
    let outcome = slot.try_set(text);
    after_native(outcome, settle, helper_configured)
}

} // verus!
