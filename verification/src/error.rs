//! The failure modes of the clipboard open/set/close sequence, and how the
//! steps' outcomes compose into one reported error.

use vstd::prelude::*;

verus! {

/// Every way the open/set/close sequence can fail.  Usage errors
/// (opening or closing twice) are distinguished from OS-level call
/// failures, and a failed set is remembered in the error reported for
/// the close that follows it.
#[derive(Clone, Copy, Debug, PartialEq, Eq, Structural)]
pub enum Error {
    /// `open` was called while the owner already held the clipboard.
    ClipboardAlreadyOpen,
    /// The OS-level open call failed.
    FailedToOpenClipboard,
    /// The OS-level set call failed; the close that followed succeeded.
    FailedToSetClipboard,
    /// `close` was called while the owner did not hold the clipboard.
    ClipboardAlreadyClosed,
    /// `close` was called while the owner did not hold the clipboard,
    /// after a failed set.
    ClipboardAlreadyClosedAndFailedToSet,
    /// The OS-level set call failed, and the OS-level close call failed too.
    FailedToSetAndCloseClipboard,
    /// The OS-level set call succeeded, but the OS-level close call failed.
    FailedToCloseClipboard,
}

impl Error {
    /// The message that `message` returns for this error.
    pub open spec fn spec_message(self) -> Seq<char> {
        match self {
            Error::ClipboardAlreadyOpen => "cannot open clipboard twice"@,
            Error::FailedToOpenClipboard => "error opening clipboard"@,
            Error::FailedToSetClipboard => "error setting clipboard"@,
            Error::ClipboardAlreadyClosed => "cannot close clipboard twice"@,
            Error::ClipboardAlreadyClosedAndFailedToSet => "error setting clipboard; cannot close clipboard twice"@,
            Error::FailedToSetAndCloseClipboard => "error setting clipboard; error closing clipboard"@,
            Error::FailedToCloseClipboard => "error closing clipboard"@,
        }
    }

    /// A human-readable description of the error.
    pub fn message(&self) -> (r: &'static str)
        ensures
            r@ == self.spec_message(),
    {
        match self {
            Error::ClipboardAlreadyOpen => "cannot open clipboard twice",
            Error::FailedToOpenClipboard => "error opening clipboard",
            Error::FailedToSetClipboard => "error setting clipboard",
            Error::ClipboardAlreadyClosed => "cannot close clipboard twice",
            Error::ClipboardAlreadyClosedAndFailedToSet => "error setting clipboard; cannot close clipboard twice",
            Error::FailedToSetAndCloseClipboard => "error setting clipboard; error closing clipboard",
            Error::FailedToCloseClipboard => "error closing clipboard",
        }
    }
}

} // verus!
