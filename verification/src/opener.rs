//! Opening a URI with the system handler and revealing a directory in the
//! file manager: the texts of the two requests and their reply deadline.

use vstd::prelude::*;
use vstd::string::*;
use crate::bridge::{RequestTexts, TextsView};

verus! {

/// Seconds that the opener and clipboard bridges wait for the ArkTS Promise
/// (an ability launch may take time) before giving up.
pub const REPLY_DEADLINE_SECS: u64 = 10;

/// The texts of the opener request `operation` (`open_with_system`,
/// `reveal_in_dir`) that calls the ArkTS helper method `method`.
pub open spec fn opener_texts_spec(operation: Seq<char>, method: Seq<char>) -> TextsView {
    TextsView {
        not_initialized: "opener "@ + operation + " TSFN not initialized"@,
        call_failed: "call "@ + method + " TSFN failed: "@,
        not_a_promise: Some("expected Promise from ArkTS"@),
        timed_out: Some("opener "@ + operation + " timed out"@),
        receiver_dropped: "opener "@ + operation + " receiver dropped"@,
    }
}

/// The texts of the opener request `operation` calling `method`.
pub fn opener_texts(operation: &str, method: &str) -> (r: RequestTexts)
    ensures
        r@ == opener_texts_spec(operation@, method@),
{
    RequestTexts {
        not_initialized: String::from_str("opener ").concat(operation).concat(" TSFN not initialized"),
        call_failed: String::from_str("call ").concat(method).concat(" TSFN failed: "),
        not_a_promise: Some(String::from_str("expected Promise from ArkTS")),
        timed_out: Some(String::from_str("opener ").concat(operation).concat(" timed out")),
        receiver_dropped: String::from_str("opener ").concat(operation).concat(" receiver dropped"),
    }
}

/// The texts of `open_with_system`, which calls `helper.openWithSystem(uri)`.
pub fn open_with_system_texts() -> (r: RequestTexts)
    ensures
        r@ == opener_texts_spec("open_with_system"@, "openWithSystem"@),
{
    opener_texts("open_with_system", "openWithSystem")
}

/// The texts of `reveal_in_dir`, which calls `helper.revealInDir(dirUri)`.
pub fn reveal_in_dir_texts() -> (r: RequestTexts)
    ensures
        r@ == opener_texts_spec("reveal_in_dir"@, "revealInDir"@),
{
    opener_texts("reveal_in_dir", "revealInDir")
}

} // verus!
