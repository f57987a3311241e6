//! The copy on a platform that has neither a clipboard nor a terminal device.
use crate::error::CopyError;
use vstd::prelude::*;

verus! {

/// Fails whatever the text: there is nowhere to put it.
pub fn set_text(text: &str) -> (r: Result<(), CopyError>)
    ensures
        r == Err::<(), CopyError>(CopyError::NoClipboard),
{
    Err(CopyError::NoClipboard)
}

} // verus!
