use ohos_ability::clipboard::{check_rgba, clipboard_texts, expected_rgba_len, ClipboardError};

#[test]
fn rgba_length_must_match_dimensions() {
    assert_eq!(check_rgba(16, 2, 2), Ok(16));
    assert_eq!(check_rgba(0, 0, 5), Ok(0));
    assert_eq!(
        check_rgba(15, 2, 2),
        Err(ClipboardError::LengthMismatch { len: 15, expected: 16, width: 2, height: 2 })
    );
}

#[test]
fn rgba_length_mismatch_message() {
    let e = check_rgba(10, 3, 1).unwrap_err();
    assert_eq!(e.message(), "rgba len 10 != expected 12 (3x1x4)");
    assert_eq!(ClipboardError::DimensionsOverflow.message(), "dimensions overflow");
}

#[test]
fn rgba_dimensions_formula() {
    assert_eq!(expected_rgba_len(1920, 1080), Some(8_294_400));
    assert_eq!(expected_rgba_len(u32::MAX, u32::MAX).is_none(), usize::BITS == 64);
}

#[test]
fn clipboard_request_texts() {
    let t = clipboard_texts();
    assert_eq!(t.not_initialized, "clipboard TSFN not initialized");
    assert_eq!(t.call_failed, "TSFN call failed: ");
    assert_eq!(t.timed_out.as_deref(), Some("clipboard write timed out"));
    assert_eq!(t.receiver_dropped, "clipboard write cancelled");
}
