//! Writing an RGBA image to the system clipboard: the validation of the pixel
//! buffer and the texts of the write request.

use vstd::prelude::*;
use vstd::string::*;
use crate::bridge::{RequestTexts, TextsView};
use crate::text::{decimal, push_decimal};

verus! {

/// Why an image was refused before any call was made.
#[derive(Debug, Clone, Copy, PartialEq, Eq)]
pub enum ClipboardError {
    /// `width * height * 4` does not fit in `usize`.
    DimensionsOverflow,
    /// The buffer does not hold exactly `width * height` RGBA pixels.
    LengthMismatch { len: usize, expected: usize, width: u32, height: u32 },
}

/// The byte length of a `width` x `height` RGBA image.
pub open spec fn rgba_len(width: u32, height: u32) -> int {
    width * height * 4
}

/// The checked byte length of a `width` x `height` RGBA image: `None` when it
/// does not fit in `usize`.
pub fn expected_rgba_len(width: u32, height: u32) -> (r: Option<usize>)
    ensures
        match r {
            Some(n) => n == rgba_len(width, height),
            None => rgba_len(width, height) > usize::MAX,
        },
{
    let w = width as usize;
    let h = height as usize;
    match w.checked_mul(h) {
        Some(pixels) => {
            let r = pixels.checked_mul(4);
            assert(pixels * 4 == rgba_len(width, height));
            r
        },
        None => {
            assert(w * h <= w * h * 4) by (nonlinear_arith);
            None
        },
    }
}

/// Validates an RGBA buffer of `len` bytes against its dimensions: its length
/// must equal `width * height * 4`.
pub fn check_rgba(len: usize, width: u32, height: u32) -> (r: Result<usize, ClipboardError>)
    ensures
        rgba_len(width, height) > usize::MAX ==> r == Err::<usize, _>(ClipboardError::DimensionsOverflow),
        rgba_len(width, height) <= usize::MAX && len != rgba_len(width, height) ==> r == Err::<usize, _>(
            ClipboardError::LengthMismatch {
                len,
                expected: rgba_len(width, height) as usize,
                width,
                height,
            },
        ),
        len == rgba_len(width, height) ==> r == Ok::<usize, ClipboardError>(len),
{
    match expected_rgba_len(width, height) {
        None => Err(ClipboardError::DimensionsOverflow),
        Some(expected) => {
            if len != expected {
                Err(ClipboardError::LengthMismatch { len, expected, width, height })
            } else {
                Ok(expected)
            }
        },
    }
}

/// The text of a clipboard error.
pub open spec fn clipboard_error_text(e: ClipboardError) -> Seq<char> {
    match e {
        ClipboardError::DimensionsOverflow => "dimensions overflow"@,
        ClipboardError::LengthMismatch { len, expected, width, height } => "rgba len "@ + decimal(
            len as nat,
        ) + " != expected "@ + decimal(expected as nat) + " ("@ + decimal(width as nat) + "x"@
            + decimal(height as nat) + "x4)"@,
    }
}

impl ClipboardError {
    /// The error text reported to the caller.
    pub fn message(&self) -> (r: String)
        ensures
            r@ == clipboard_error_text(*self),
    {
        match self {
            ClipboardError::DimensionsOverflow => String::from_str("dimensions overflow"),
            ClipboardError::LengthMismatch { len, expected, width, height } => {
                let mut s = String::from_str("rgba len ");
                push_decimal(&mut s, *len as u64);
                s.append(" != expected ");
                push_decimal(&mut s, *expected as u64);
                s.append(" (");
                push_decimal(&mut s, *width as u64);
                s.append("x");
                push_decimal(&mut s, *height as u64);
                s.append("x4)");
                s
            },
        }
    }
}

/// The texts of the clipboard write request.
pub open spec fn clipboard_texts_spec() -> TextsView {
    TextsView {
        not_initialized: "clipboard TSFN not initialized"@,
        call_failed: "TSFN call failed: "@,
        not_a_promise: Some("writeImageToClipboard did not return a Promise"@),
        timed_out: Some("clipboard write timed out"@),
        receiver_dropped: "clipboard write cancelled"@,
    }
}

/// The texts of the clipboard write request.
pub fn clipboard_texts() -> (r: RequestTexts)
    ensures
        r@ == clipboard_texts_spec(),
{
    RequestTexts {
        not_initialized: String::from_str("clipboard TSFN not initialized"),
        call_failed: String::from_str("TSFN call failed: "),
        not_a_promise: Some(String::from_str("writeImageToClipboard did not return a Promise")),
        timed_out: Some(String::from_str("clipboard write timed out")),
        receiver_dropped: String::from_str("clipboard write cancelled"),
    }
}

} // verus!
