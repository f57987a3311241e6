//! The error of a copy that did not happen.
use vstd::prelude::*;

verus! {

/// Why a copy failed. Every failure is reported under the one context
/// "Failed to copy", followed by its cause.
#[derive(Debug, Clone, PartialEq, Eq)]
pub enum CopyError {
    /// The platform has no clipboard and no terminal to ask.
    NoClipboard,
    /// Writing the escape sequence failed; the text is what the I/O error said.
    Io(String),
}

impl CopyError {
    /// The cause of the failure, in words.
    pub open spec fn cause(&self) -> Seq<char> {
        match self {
            CopyError::NoClipboard => "No clipboard available"@,
            CopyError::Io(m) => m@,
        }
    }

    /// The context that every failure is reported under.
    pub fn context(&self) -> (r: &'static str)
        ensures
            r@ == "Failed to copy"@,
    {
        "Failed to copy"
    }

    /// The cause of the failure, in words.
    pub fn cause_text(&self) -> (r: String)
        ensures
            r@ == self.cause(),
    {
        match self {
            CopyError::NoClipboard => String::from_str("No clipboard available"),
            CopyError::Io(m) => String::from_str(m.as_str()),
        }
    }

    /// The full report: the context, then the cause.
    pub fn message(&self) -> (r: String)
        ensures
            r@ == "Failed to copy: "@ + self.cause(),
    {
        let cause = self.cause_text();
        let mut s = String::from_str("Failed to copy: ");
        s.append(cause.as_str());
        s
    }
}

} // verus!
