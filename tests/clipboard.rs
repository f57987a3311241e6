use base64::Engine;
use clipboard_osc::encoding::PAD;
use clipboard_osc::error::CopyError;
use clipboard_osc::fallback::{after_helper, after_native, after_write, NativeOutcome, Step, SETTLE_MILLIS};
use clipboard_osc::native::NativeSlot;
use clipboard_osc::osc52::{osc52_sequence, BEL, ESC};
use clipboard_osc::set_text;
use clipboard_osc::unsupported;

fn framed(payload: &str) -> Vec<u8> {
    let mut v = b"\x1b]52;c;".to_vec();
    v.extend_from_slice(payload.as_bytes());
    v.push(0x07);
    v
}

fn payload_of(seq: &[u8]) -> Vec<u8> {
    seq[7..seq.len() - 1].to_vec()
}

#[test]
fn sequence_of_empty_text() {
    assert_eq!(osc52_sequence(""), framed(""));
}

#[test]
fn sequence_of_ascii_text() {
    assert_eq!(osc52_sequence("hello"), framed("aGVsbG8="));
    assert_eq!(osc52_sequence("ab"), framed("YWI="));
    assert_eq!(osc52_sequence("abc"), framed("YWJj"));
    assert_eq!(osc52_sequence("a"), framed("YQ=="));
}

#[test]
fn sequence_of_multibyte_text() {
    assert_eq!(osc52_sequence("é"), framed("w6k="));
    assert_eq!(osc52_sequence("日本"), framed("5pel5pys"));
}

#[test]
fn sequence_hides_control_bytes() {
    let seq = osc52_sequence("\x1b]\x07");
    assert_eq!(seq, framed("G10H"));
    let payload = payload_of(&seq);
    assert!(payload.iter().all(|&b| b != ESC && b != BEL));
    assert_eq!(seq.iter().filter(|&&b| b == BEL).count(), 1);
    assert_eq!(seq.iter().filter(|&&b| b == ESC).count(), 1);
}

#[test]
fn sequence_payload_round_trips() {
    for text in ["", "x", "hello, world", "é日本🎉", "\x1b]52;c;\x07", "a\nb\tc\0"] {
        let seq = osc52_sequence(text);
        assert!(seq.starts_with(b"\x1b]52;c;"));
        assert_eq!(*seq.last().unwrap(), 0x07);
        let decoded = base64::engine::general_purpose::STANDARD.decode(payload_of(&seq)).unwrap();
        assert_eq!(String::from_utf8(decoded).unwrap(), text);
    }
}

#[test]
fn padding_byte_is_equals_sign() {
    assert_eq!(PAD, b'=');
}

#[test]
fn unsupported_platform_always_fails() {
    for text in ["anything", "", "é"] {
        let r = unsupported::set_text(text);
        assert_eq!(r, Err(CopyError::NoClipboard));
    }
    let e = unsupported::set_text("anything").unwrap_err();
    assert_eq!(e.context(), "Failed to copy");
    assert_eq!(e.cause_text(), "No clipboard available");
    assert_eq!(e.message(), "Failed to copy: No clipboard available");
}

#[test]
fn native_success_settles_where_needed() {
    assert_eq!(after_native(NativeOutcome::Accepted, true, true), Step::SettleThenDone);
    assert_eq!(after_native(NativeOutcome::Accepted, false, true), Step::Done);
    assert_eq!(after_native(NativeOutcome::Accepted, false, false), Step::Done);
    assert_eq!(SETTLE_MILLIS, 50);
}

#[test]
fn native_failure_goes_to_helper_or_terminal() {
    for outcome in [NativeOutcome::Unavailable, NativeOutcome::Rejected] {
        assert_eq!(after_native(outcome, true, true), Step::RunHelper);
        assert_eq!(after_native(outcome, false, false), Step::WriteTerminal);
        assert_eq!(after_native(outcome, true, false), Step::WriteTerminal);
    }
}

#[test]
fn helper_outcome_decides_terminal() {
    assert_eq!(after_helper(true), Step::Done);
    assert_eq!(after_helper(false), Step::WriteTerminal);
}

#[test]
fn missing_helper_leaves_result_to_terminal() {
    let step = after_native(NativeOutcome::Unavailable, true, true);
    assert_eq!(step, Step::RunHelper);
    assert_eq!(after_helper(false), Step::WriteTerminal);
    assert_eq!(after_write(Ok(())), Ok(()));
    assert!(after_write(Err("no terminal".to_string())).is_err());
}

#[test]
fn failed_terminal_write_is_an_error() {
    let r = after_write(Err("Bad file descriptor".to_string()));
    assert_eq!(r, Err(CopyError::Io("Bad file descriptor".to_string())));
    let e = r.unwrap_err();
    assert_eq!(e.message(), "Failed to copy: Bad file descriptor");
    assert_eq!(e.cause_text(), "Bad file descriptor");
}

#[test]
fn empty_slot_skips_native_clipboard() {
    let mut slot = NativeSlot::empty();
    assert!(!slot.is_available());
    assert_eq!(slot.try_set("text"), NativeOutcome::Unavailable);
    assert_eq!(set_text(&mut slot, "text", true, false), Step::WriteTerminal);
    assert_eq!(set_text(&mut slot, "text", true, true), Step::RunHelper);
    assert!(!slot.is_available());
}
