use clipboard::Clipboard;
use clipboard::Error;
use clipboard::OsClipboard;

#[test]
fn test_clipboard_is_set() {
    let mut c = Clipboard::new();
    let mut os = OsClipboard::new();

    assert!(c.set_clipboard(&mut os, "abc").is_ok());
}

#[test]
fn test_clipboard_cannot_open_twice() {
    let mut c = Clipboard::new();
    let mut os = OsClipboard::new();

    c.open_clipboard(&mut os).ok();
    let rv = c.open_clipboard(&mut os);
    assert_eq!(rv.expect_err("rv is an error"), Error::ClipboardAlreadyOpen);

    c.close_clipboard(&mut os, false).ok();
}

#[test]
fn test_clipboard_cannot_close_twice() {
    let mut c = Clipboard::new();
    let mut os = OsClipboard::new();

    let rv = c.close_clipboard(&mut os, false);
    assert_eq!(rv.expect_err("rv is an error"), Error::ClipboardAlreadyClosed);

    let rv = c.close_clipboard(&mut os, true);
    assert_eq!(
        rv.expect_err("rv is an error"),
        Error::ClipboardAlreadyClosedAndFailedToSet
    );
}

#[test]
fn full_cycle_success_reads_back() {
    let mut c = Clipboard::new();
    let mut os = OsClipboard::new();

    assert!(c.set_clipboard(&mut os, "abc").is_ok());
    assert_eq!(os.get_clipboard_text(), Some(String::from("abc")));
}

#[test]
fn fresh_stub_holds_nothing() {
    let os = OsClipboard::new();
    assert_eq!(os.get_clipboard_text(), None);
}

#[test]
fn failed_open_is_reported_and_leaves_owner_closed() {
    let mut c = Clipboard::new();
    let mut os = OsClipboard::with_faults(true, false, false);

    let rv = c.set_clipboard(&mut os, "abc");
    assert_eq!(rv.expect_err("rv is an error"), Error::FailedToOpenClipboard);

    // The owner never held the clipboard, so a close is a usage error.
    let rv = c.close_clipboard(&mut os, false);
    assert_eq!(rv.expect_err("rv is an error"), Error::ClipboardAlreadyClosed);
}

#[test]
fn failed_set_is_reported_and_owner_is_reusable() {
    let mut c = Clipboard::new();
    let mut os = OsClipboard::with_faults(false, true, false);

    let rv = c.set_clipboard(&mut os, "abc");
    assert_eq!(rv.expect_err("rv is an error"), Error::FailedToSetClipboard);
    assert_eq!(os.get_clipboard_text(), None);

    // The owner ended closed: a fresh open succeeds.
    assert!(c.open_clipboard(&mut os).is_ok());
    assert!(c.close_clipboard(&mut os, false).is_ok());
}

#[test]
fn failed_close_after_good_set_leaves_owner_open() {
    let mut c = Clipboard::new();
    let mut os = OsClipboard::with_faults(false, false, true);

    let rv = c.set_clipboard(&mut os, "abc");
    assert_eq!(rv.expect_err("rv is an error"), Error::FailedToCloseClipboard);

    // The close truly did not happen, so the owner still holds the
    // clipboard and a second open is a usage error.
    let rv = c.open_clipboard(&mut os);
    assert_eq!(rv.expect_err("rv is an error"), Error::ClipboardAlreadyOpen);

    // The content did make it onto the clipboard.
    assert_eq!(os.get_clipboard_text(), Some(String::from("abc")));
}

#[test]
fn failed_set_and_close_compose() {
    let mut c = Clipboard::new();
    let mut os = OsClipboard::with_faults(false, true, true);

    let rv = c.set_clipboard(&mut os, "abc");
    assert_eq!(
        rv.expect_err("rv is an error"),
        Error::FailedToSetAndCloseClipboard
    );
}

#[test]
fn empty_text_sets_cleanly() {
    let mut c = Clipboard::new();
    let mut os = OsClipboard::new();

    assert!(c.set_clipboard(&mut os, "").is_ok());
    assert_eq!(os.get_clipboard_text(), Some(String::new()));
}

#[test]
fn owner_is_reusable_across_cycles() {
    let mut c = Clipboard::new();
    let mut os = OsClipboard::new();

    assert!(c.set_clipboard(&mut os, "first").is_ok());
    assert!(c.set_clipboard(&mut os, "second").is_ok());
    assert_eq!(os.get_clipboard_text(), Some(String::from("second")));
}

#[test]
fn default_owner_is_closed() {
    let mut c: Clipboard = Default::default();
    let mut os = OsClipboard::new();

    let rv = c.close_clipboard(&mut os, false);
    assert_eq!(rv.expect_err("rv is an error"), Error::ClipboardAlreadyClosed);
}

#[test]
fn error_messages() {
    assert_eq!(
        Error::ClipboardAlreadyOpen.message(),
        "cannot open clipboard twice"
    );
    assert_eq!(
        Error::FailedToOpenClipboard.message(),
        "error opening clipboard"
    );
    assert_eq!(
        Error::FailedToSetClipboard.message(),
        "error setting clipboard"
    );
    assert_eq!(
        Error::ClipboardAlreadyClosed.message(),
        "cannot close clipboard twice"
    );
    assert_eq!(
        Error::ClipboardAlreadyClosedAndFailedToSet.message(),
        "error setting clipboard; cannot close clipboard twice"
    );
    assert_eq!(
        Error::FailedToSetAndCloseClipboard.message(),
        "error setting clipboard; error closing clipboard"
    );
    assert_eq!(
        Error::FailedToCloseClipboard.message(),
        "error closing clipboard"
    );
}
