//! The clipboard owner: the open/set/close state machine guarding access to
//! the single system clipboard, with careful composition of partial failures.
//!
//! The host's clipboard primitives have a three-call shape — open, set,
//! close, each reporting success or failure — and `OsClipboard` is an
//! in-process stand-in with exactly that shape.  On hosts without a
//! clipboard it is the stub the design calls for; faults can be chosen at
//! construction, so every failure path of the owner can be driven and
//! observed.  Ownership of the encoded buffer passes to the stub when, and
//! only when, the set primitive succeeds.

use vstd::prelude::*;
use crate::codec::decode_wide;
use crate::codec::encode_wide;
use crate::codec::until_nul;
use crate::codec::Lpwstr;
use crate::error::Error;

verus! {

/// An in-process stand-in for the host clipboard: a single slot behind an
/// open/set/close protocol, with faults chosen at construction.
pub struct OsClipboard {
    is_open: bool,
    content: Option<Lpwstr>,
    fail_open: bool,
    fail_set: bool,
    fail_close: bool,
}

/// The fault switches of a stub never move once it is built.
pub open spec fn same_faults(a: OsClipboard, b: OsClipboard) -> bool {
    &&& a.fails_open() == b.fails_open()
    &&& a.fails_set() == b.fails_set()
    &&& a.fails_close() == b.fails_close()
}

impl OsClipboard {
    /// Whether the clipboard is currently held open.
    pub closed spec fn is_open(self) -> bool {
        self.is_open
    }

    /// The units of the buffer most recently placed on the clipboard, if
    /// any.
    pub closed spec fn stored(self) -> Option<Seq<u16>> {
        match self.content {
            Some(b) => Some(b@),
            None => None,
        }
    }

    /// Whether the open primitive is set to fail.
    pub closed spec fn fails_open(self) -> bool {
        self.fail_open
    }

    /// Whether the set primitive is set to fail.
    pub closed spec fn fails_set(self) -> bool {
        self.fail_set
    }

    /// Whether the close primitive is set to fail.
    pub closed spec fn fails_close(self) -> bool {
        self.fail_close
    }

    /// A working clipboard: closed, empty, and every primitive succeeds.
    pub fn new() -> (r: OsClipboard)
        ensures
            !r.is_open(),
            r.stored() is None,
            !r.fails_open(),
            !r.fails_set(),
            !r.fails_close(),
    {
        OsClipboard {
            is_open: false,
            content: None,
            fail_open: false,
            fail_set: false,
            fail_close: false,
        }
    }

    /// A clipboard whose named primitives fail; the others succeed.
    pub fn with_faults(fail_open: bool, fail_set: bool, fail_close: bool) -> (r: OsClipboard)
        ensures
            !r.is_open(),
            r.stored() is None,
            r.fails_open() == fail_open,
            r.fails_set() == fail_set,
            r.fails_close() == fail_close,
    {
        OsClipboard { is_open: false, content: None, fail_open, fail_set, fail_close }
    }

    /// The open primitive: takes hold of the clipboard, or reports failure
    /// and leaves everything as it was.
    pub fn open_clipboard(&mut self) -> (ok: bool)
        ensures
            ok == !old(self).fails_open(),
            !ok ==> *final(self) == *old(self),
            ok ==> final(self).is_open() && final(self).stored() == old(self).stored()
                && same_faults(*old(self), *final(self)),
    {
        if self.fail_open {
            false
        } else {
            self.is_open = true;
            true
        }
    }

    /// The set primitive: takes ownership of the buffer and makes it the
    /// clipboard's content.  On failure — the fault switch, or a clipboard
    /// not held open — the buffer comes back to the caller and nothing
    /// changes.
    pub fn set_clipboard_data(&mut self, buf: Lpwstr) -> (r: Result<(), Lpwstr>)
        ensures
            r is Ok <==> old(self).is_open() && !old(self).fails_set(),
            r is Ok ==> final(self).is_open() == old(self).is_open() && final(self).stored()
                == Some(buf@) && same_faults(*old(self), *final(self)),
            r matches Err(b) ==> b@ == buf@ && *final(self) == *old(self),
    {
        if self.is_open && !self.fail_set {
            self.content = Some(buf);
            Ok(())
        } else {
            Err(buf)
        }
    }

    /// The close primitive: releases the clipboard, or reports failure and
    /// leaves everything — the held state included — as it was.
    pub fn close_clipboard(&mut self) -> (ok: bool)
        ensures
            ok == !old(self).fails_close(),
            !ok ==> *final(self) == *old(self),
            ok ==> !final(self).is_open() && final(self).stored() == old(self).stored()
                && same_faults(*old(self), *final(self)),
    {
        if self.fail_close {
            false
        } else {
            self.is_open = false;
            true
        }
    }

    /// The read primitive: decodes the buffer most recently placed on the
    /// clipboard, or reports that none ever was.
    pub fn get_clipboard_text(&self) -> (r: Option<String>)
        ensures
            self.stored() is None ==> r is None,
            self.stored() matches Some(u) ==> r matches Some(t) && t@ == decode_wide(
                until_nul(u),
            ),
    {
        match &self.content {
            None => None,
            Some(b) => Some(b.to_text()),
        }
    }
}

/// The clipboard owner: remembers whether this handle holds the clipboard
/// open, refuses a second open or close, and composes the outcomes of the
/// open/set/close sequence into one result.
pub struct Clipboard {
    is_open: bool,
}

impl Default for Clipboard {
    /// A fresh owner, not holding the clipboard.
    fn default() -> (c: Self)
        ensures
            !c.is_open(),
    {
        Self { is_open: false }
    }
}

impl Clipboard {
    /// Whether this owner currently holds the clipboard open.
    pub closed spec fn is_open(self) -> bool {
        self.is_open
    }

    /// A fresh owner, not holding the clipboard.
    pub fn new() -> (c: Self)
        ensures
            !c.is_open(),
    {
        Default::default()
    }

    /// `Closed -> Open`, guarded: opening while already open is a usage
    /// error, reported without touching the clipboard; a failed OS open
    /// leaves the owner closed.
    pub fn open_clipboard(&mut self, os: &mut OsClipboard) -> (r: Result<(), Error>)
        ensures
            r is Ok <==> !old(self).is_open() && !old(os).fails_open(),
            old(self).is_open() ==> r == Err::<(), Error>(Error::ClipboardAlreadyOpen) && *final(self) == *old(self) && *final(os) == *old(os),
            !old(self).is_open() && old(os).fails_open() ==> r == Err::<(), Error>(
                Error::FailedToOpenClipboard,
            ) && *final(self) == *old(self) && *final(os) == *old(os),
            !old(self).is_open() && !old(os).fails_open() ==> final(self).is_open() && final(os).is_open() && final(os).stored() == old(os).stored() && same_faults(
                *old(os),
                *final(os),
            ),
    {
        if self.is_open {
            Err(Error::ClipboardAlreadyOpen)
        } else if !os.open_clipboard() {
            Err(Error::FailedToOpenClipboard)
        } else {
            self.is_open = true;
            Ok(())
        }
    }

    /// `Open -> Closed`, guarded: closing while already closed is a usage
    /// error, reported without touching the clipboard, and remembered
    /// differently after a failed set; a failed OS close leaves the owner's
    /// flag open, since the clipboard truly is still held.
    pub fn close_clipboard(&mut self, os: &mut OsClipboard, set_failed: bool) -> (r: Result<
        (),
        Error,
    >)
        ensures
            r is Ok <==> old(self).is_open() && !old(os).fails_close(),
            !old(self).is_open() ==> *final(self) == *old(self) && *final(os) == *old(os) && r
                == Err::<(), Error>(
                if set_failed {
                    Error::ClipboardAlreadyClosedAndFailedToSet
                } else {
                    Error::ClipboardAlreadyClosed
                },
            ),
            old(self).is_open() && old(os).fails_close() ==> *final(self) == *old(self) && *final(os) == *old(os) && r == Err::<(), Error>(
                if set_failed {
                    Error::FailedToSetAndCloseClipboard
                } else {
                    Error::FailedToCloseClipboard
                },
            ),
            old(self).is_open() && !old(os).fails_close() ==> r is Ok && !final(self).is_open()
                && !final(os).is_open() && final(os).stored() == old(os).stored() && same_faults(
                *old(os),
                *final(os),
            ),
    {
        if !self.is_open {
            Err(
                if set_failed {
                    Error::ClipboardAlreadyClosedAndFailedToSet
                } else {
                    Error::ClipboardAlreadyClosed
                },
            )
        } else if !os.close_clipboard() {
            Err(
                if set_failed {
                    Error::FailedToSetAndCloseClipboard
                } else {
                    Error::FailedToCloseClipboard
                },
            )
        } else {
            self.is_open = false;
            Ok(())
        }
    }

    /// The whole sequence: open, encode, hand the buffer to the clipboard,
    /// close — the close always attempted once the open succeeded, even
    /// after a failed set, so the systemwide resource is released.  Success
    /// is reported exactly when set and close both succeeded; every partial
    /// failure is reported as the composition the error taxonomy gives it.
    pub fn set_clipboard(&mut self, os: &mut OsClipboard, text: &str) -> (r: Result<(), Error>)
        ensures
            r is Ok <==> !old(self).is_open() && !old(os).fails_open() && !old(os).fails_set()
                && !old(os).fails_close(),
            old(self).is_open() ==> r == Err::<(), Error>(Error::ClipboardAlreadyOpen) && *final(self) == *old(self) && *final(os) == *old(os),
            !old(self).is_open() && old(os).fails_open() ==> r == Err::<(), Error>(
                Error::FailedToOpenClipboard,
            ) && *final(self) == *old(self) && *final(os) == *old(os),
            !old(self).is_open() && !old(os).fails_open() ==> same_faults(*old(os), *final(os))
                && ({
                let set_ok = !old(os).fails_set();
                let close_ok = !old(os).fails_close();
                &&& set_ok && close_ok ==> r is Ok && !final(self).is_open() && !final(os).is_open() && final(os).stored() == Some(encode_wide(text@) + seq![0u16])
                &&& set_ok && !close_ok ==> r == Err::<(), Error>(Error::FailedToCloseClipboard)
                    && final(self).is_open() && final(os).is_open() && final(os).stored() == Some(
                    encode_wide(text@) + seq![0u16],
                )
                &&& !set_ok && close_ok ==> r == Err::<(), Error>(Error::FailedToSetClipboard)
                    && !final(self).is_open() && !final(os).is_open() && final(os).stored() == old(os).stored()
                &&& !set_ok && !close_ok ==> r == Err::<(), Error>(
                    Error::FailedToSetAndCloseClipboard,
                ) && final(self).is_open() && final(os).is_open() && final(os).stored() == old(os).stored()
            }),
    {
        match self.open_clipboard(os) {
            Err(e) => {
                return Err(e);
            },
            Ok(()) => {},
        }
        let unicode = Lpwstr::from_str(text);
        let set_failed: bool;
        match os.set_clipboard_data(unicode) {
            Ok(()) => {
                set_failed = false;
            },
            Err(_returned) => {
                // The clipboard did not take the buffer: it comes back to
                // this owner and is released here.
                set_failed = true;
            },
        }
        match self.close_clipboard(os, set_failed) {
            Err(e) => {
                return Err(e);
            },
            Ok(()) => {},
        }
        if set_failed {
            Err(Error::FailedToSetClipboard)
        } else {
            Ok(())
        }
    }
}

} // verus!
