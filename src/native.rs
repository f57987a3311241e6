//! The native clipboard, reached through the `arboard` crate.
use crate::fallback::NativeOutcome;
use vstd::prelude::*;

verus! {

#[verifier::external_type_specification]
#[verifier::external_body]
pub struct ExClipboard(arboard::Clipboard);

#[verifier::external_type_specification]
#[verifier::external_body]
pub struct ExClipboardError(arboard::Error);

/// Relies on `arboard::Clipboard::new`: a handle to the platform's clipboard, or
/// an error where the platform or desktop offers none. Nothing is promised of
/// which.
pub assume_specification[ arboard::Clipboard::new ]() -> Result<arboard::Clipboard, arboard::Error>;

/// Relies on `arboard::Clipboard::set_text`: puts the text on the clipboard, or
/// reports that it could not. Which one depends on the desktop, so nothing is
/// promised of it.
#[verifier::external_body]
fn store_text(handle: &mut arboard::Clipboard, text: &str) -> (r: Result<(), arboard::Error>) {
    handle.set_text(text)
}

/// A slot for the native clipboard handle, empty where none could be opened.
/// Taking it by `&mut` gives one caller at a time the use of the handle.
pub struct NativeSlot {
    handle: Option<arboard::Clipboard>,
}

impl NativeSlot {
    /// Whether the slot holds a handle.
    pub closed spec fn is_open(&self) -> bool {
        self.handle is Some
    }

    /// Opens the platform's clipboard; the slot stays empty where that fails.
    pub fn open() -> (r: NativeSlot) {
        match arboard::Clipboard::new() {
            Ok(handle) => NativeSlot { handle: Some(handle) },
            Err(_) => NativeSlot { handle: None },
        }
    }

    /// A slot without a handle, for platforms where the native clipboard is
    /// not to be used.
    pub fn empty() -> (r: NativeSlot)
        ensures
            !r.is_open(),
    {
        NativeSlot { handle: None }
    }

    /// Whether the slot holds a handle.
    pub fn is_available(&self) -> (r: bool)
        ensures
            r == self.is_open(),
    {
        self.handle.is_some()
    }

    /// Tries to put `text` on the native clipboard. The slot keeps its handle,
    /// or its lack of one.
    pub fn try_set(&mut self, text: &str) -> (r: NativeOutcome)
        ensures
            final(self).is_open() == old(self).is_open(),
            !old(self).is_open() <==> r == NativeOutcome::Unavailable,
    {
        match &mut self.handle {
            Some(handle) => match store_text(handle, text) {
                Ok(()) => NativeOutcome::Accepted,
                Err(_) => NativeOutcome::Rejected,
            },
            None => NativeOutcome::Unavailable,
        }
    }
}

} // verus!
