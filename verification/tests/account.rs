use ohos_ability::account::{
    account_info_from_properties, login_texts, logout_texts, silent_login_texts, AccountInfo,
    HuaweiAccount,
};

#[test]
fn account_info_default_empty() {
    let info = AccountInfo::default();
    assert_eq!(info.uid, "");
    assert_eq!(info.authorization_code, "");
    assert_eq!(info.access_token, None);
}

#[test]
fn account_info_default_has_every_field_empty() {
    let info = AccountInfo::default();
    assert_eq!(info.open_id, "");
    assert_eq!(info.union_id, "");
    assert_eq!(info.display_name, "");
    assert_eq!(info.avatar_uri, "");
}

#[test]
fn account_properties_are_copied() {
    let info = account_info_from_properties(
        Some("10001".to_string()),
        Some("OPENID_ABC".to_string()),
        Some("UNIONID_XYZ".to_string()),
        Some("Alice".to_string()),
        Some("https://example.com/a.png".to_string()),
        Some("AUTHCODE123".to_string()),
        Some(Some("ATOKEN".to_string())),
    );
    assert_eq!(
        info,
        AccountInfo {
            uid: "10001".into(),
            open_id: "OPENID_ABC".into(),
            union_id: "UNIONID_XYZ".into(),
            display_name: "Alice".into(),
            avatar_uri: "https://example.com/a.png".into(),
            authorization_code: "AUTHCODE123".into(),
            access_token: Some("ATOKEN".into()),
        }
    );
}

#[test]
fn missing_account_properties_degrade_to_empty() {
    let info = account_info_from_properties(
        Some("1".to_string()),
        None,
        Some("u".to_string()),
        None,
        None,
        Some("c".to_string()),
        None,
    );
    assert_eq!(info.uid, "1");
    assert_eq!(info.open_id, "");
    assert_eq!(info.display_name, "");
    assert_eq!(info.avatar_uri, "");
    assert_eq!(info.authorization_code, "c");
    assert_eq!(info.access_token, None);
}

#[test]
fn null_access_token_is_absent() {
    let info = account_info_from_properties(None, None, None, None, None, None, Some(None));
    assert_eq!(info.access_token, None);
    assert_eq!(info, AccountInfo::default());
}

#[test]
fn huawei_account_handles_are_stateless() {
    let _a = HuaweiAccount::new();
    let _b = HuaweiAccount::default();
}

#[test]
fn account_request_texts_name_the_request() {
    let t = login_texts();
    assert_eq!(t.not_initialized, "account login TSFN not initialized");
    assert_eq!(t.call_failed, "call account login TSFN failed: ");
    assert_eq!(t.receiver_dropped, "account login receiver dropped");
    assert_eq!(t.timed_out, None);
    assert_eq!(t.not_a_promise, None);
    let s = silent_login_texts();
    assert_eq!(s.not_initialized, "account silent_login TSFN not initialized");
    assert_eq!(s.receiver_dropped, "account silent_login receiver dropped");
    let l = logout_texts();
    assert_eq!(l.not_initialized, "account logout TSFN not initialized");
    assert_eq!(l.call_failed, "call accountLogout TSFN failed: ");
    assert_eq!(l.receiver_dropped, "account logout receiver dropped");
}
