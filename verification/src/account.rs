//! Huawei Account one-tap login (Account Kit): the account record, how it is
//! read from the object that the ArkTS helper resolves, and the texts of the
//! login, silent login and logout requests.

use vstd::prelude::*;
use vstd::string::*;
use crate::bridge::RequestTexts;

verus! {

/// Account info returned by a successful Huawei Account login.
///
/// All fields except `access_token` are non-optional strings (empty when the
/// Account Kit omits them); `access_token` is only present in some scenarios.
#[derive(Debug, Clone, PartialEq, Eq)]
pub struct AccountInfo {
    pub uid: String,
    pub open_id: String,
    pub union_id: String,
    pub display_name: String,
    pub avatar_uri: String,
    pub authorization_code: String,
    pub access_token: Option<String>,
}

impl Default for AccountInfo {
    /// Every string empty and no access token.
    fn default() -> (r: Self)
        ensures
            r.uid@ == Seq::<char>::empty(),
            r.open_id@ == Seq::<char>::empty(),
            r.union_id@ == Seq::<char>::empty(),
            r.display_name@ == Seq::<char>::empty(),
            r.avatar_uri@ == Seq::<char>::empty(),
            r.authorization_code@ == Seq::<char>::empty(),
            r.access_token is None,
    {
        AccountInfo {
            uid: String::new(),
            open_id: String::new(),
            union_id: String::new(),
            display_name: String::new(),
            avatar_uri: String::new(),
            authorization_code: String::new(),
            access_token: None,
        }
    }
}

/// The text of a property that may be missing: empty when it is.
pub open spec fn text_or_empty(p: Option<String>) -> Seq<char> {
    match p {
        Some(s) => s@,
        None => Seq::empty(),
    }
}

fn string_or_empty(p: Option<String>) -> (r: String)
    ensures
        r@ == text_or_empty(p),
{
    match p {
        Some(s) => s,
        None => String::new(),
    }
}

/// Builds the account record from the properties read off the resolved
/// object (keys `uid`, `openId`, `unionId`, `displayName`, `avatarUri`,
/// `authorizationCode`, `accessToken`). A property that could not be read as a
/// string degrades to the empty string; `access_token` is absent both when the
/// key is missing (`None`) and when its value is null (`Some(None)`).
pub fn account_info_from_properties(
    uid: Option<String>,
    open_id: Option<String>,
    union_id: Option<String>,
    display_name: Option<String>,
    avatar_uri: Option<String>,
    authorization_code: Option<String>,
    access_token: Option<Option<String>>,
) -> (r: AccountInfo)
    ensures
        r.uid@ == text_or_empty(uid),
        r.open_id@ == text_or_empty(open_id),
        r.union_id@ == text_or_empty(union_id),
        r.display_name@ == text_or_empty(display_name),
        r.avatar_uri@ == text_or_empty(avatar_uri),
        r.authorization_code@ == text_or_empty(authorization_code),
        r.access_token == match access_token {
            Some(Some(t)) => Some(t),
            _ => None::<String>,
        },
{
    AccountInfo {
        uid: string_or_empty(uid),
        open_id: string_or_empty(open_id),
        union_id: string_or_empty(union_id),
        display_name: string_or_empty(display_name),
        avatar_uri: string_or_empty(avatar_uri),
        authorization_code: string_or_empty(authorization_code),
        access_token: match access_token {
            Some(Some(t)) => Some(t),
            _ => None,
        },
    }
}

/// Handle for Huawei Account one-tap login operations.
///
/// Account Kit has no per-app state, so this is a zero-sized handle.
pub struct HuaweiAccount;

impl HuaweiAccount {
    /// Create a new handle. No per-instance state is held.
    pub fn new() -> (r: Self)
        ensures
            r == HuaweiAccount,
    {
        HuaweiAccount
    }
}

impl Default for HuaweiAccount {
    fn default() -> (r: Self)
        ensures
            r == HuaweiAccount,
    {
        HuaweiAccount::new()
    }
}

/// The texts of an account request labelled `label` (`account login`,
/// `account silent_login`): no deadline and no Promise check.
pub open spec fn account_texts_spec(label: Seq<char>) -> crate::bridge::TextsView {
    crate::bridge::TextsView {
        not_initialized: label + " TSFN not initialized"@,
        call_failed: "call "@ + label + " TSFN failed: "@,
        not_a_promise: None,
        timed_out: None,
        receiver_dropped: label + " receiver dropped"@,
    }
}

/// The texts of an account request labelled `label`.
pub fn account_request_texts(label: &str) -> (r: RequestTexts)
    ensures
        r@ == account_texts_spec(label@),
{
    RequestTexts {
        not_initialized: String::from_str(label).concat(" TSFN not initialized"),
        call_failed: String::from_str("call ").concat(label).concat(" TSFN failed: "),
        not_a_promise: None,
        timed_out: None,
        receiver_dropped: String::from_str(label).concat(" receiver dropped"),
    }
}

/// The texts of the interactive login request.
pub fn login_texts() -> (r: RequestTexts)
    ensures
        r@ == account_texts_spec("account login"@),
{
    account_request_texts("account login")
}

/// The texts of the silent login request.
pub fn silent_login_texts() -> (r: RequestTexts)
    ensures
        r@ == account_texts_spec("account silent_login"@),
{
    account_request_texts("account silent_login")
}

/// The texts of the logout request.
pub fn logout_texts() -> (r: RequestTexts)
    ensures
        r@.not_initialized == "account logout TSFN not initialized"@,
        r@.call_failed == "call accountLogout TSFN failed: "@,
        r@.not_a_promise is None,
        r@.timed_out is None,
        r@.receiver_dropped == "account logout receiver dropped"@,
{
    RequestTexts {
        not_initialized: String::from_str("account logout TSFN not initialized"),
        call_failed: String::from_str("call accountLogout TSFN failed: "),
        not_a_promise: None,
        timed_out: None,
        receiver_dropped: String::from_str("account logout receiver dropped"),
    }
}

} // verus!
