use ohos_ability::helper::{HelperArgs, HelperCall, HelperValue};
use ohos_ability::window::{
    create_os_window, cursor_grab_outcome, fire_and_forget_texts, focus_window, generate_window_id,
    helper_unavailable_text, move_window_to, next_window_id, real_window_id_from, real_window_id_unreachable, HostGap, request_redraw,
    request_user_attention, restore_window, set_window_limits, set_window_title, start_ui_ability,
    CursorGrabError, UiAbilityRegistration, WindowCreateParams, WindowIdAllocator,
};

fn object(call: &HelperCall) -> Vec<(String, HelperValue)> {
    match &call.args {
        HelperArgs::Object(e) => e.clone(),
        other => panic!("not an object call: {:?}", other),
    }
}

#[test]
fn window_create_params_default() {
    let p = WindowCreateParams::default();
    assert_eq!(p.name, "");
    assert_eq!(p.window_type, 0);
    assert_eq!((p.width, p.height, p.x, p.y), (800, 600, 100, 100));
    assert!(p.decorations);
    assert!(!p.transparent);
    assert_eq!(p.background_color, None);
}

#[test]
fn window_ids_are_unique_and_shared() {
    let mut ids = WindowIdAllocator::new();
    let a = generate_window_id(&mut ids);
    let b = next_window_id(&mut ids);
    let (c, _) = create_os_window(WindowCreateParams::default(), &mut ids);
    assert_eq!((a, b, c), (1, 2, 3));
}

#[test]
fn create_os_window_config() {
    let mut ids = WindowIdAllocator::new();
    let params = WindowCreateParams { name: "float".to_string(), background_color: Some(0x00000000), ..WindowCreateParams::default() };
    let (id, call) = create_os_window(params, &mut ids);
    assert_eq!(id, 1);
    assert_eq!(call.method, "createOSWindow");
    let e = object(&call);
    let keys: Vec<&str> = e.iter().map(|(k, _)| k.as_str()).collect();
    assert_eq!(keys, vec!["name", "windowId", "width", "height", "x", "y", "decorations", "transparent", "backgroundColor"]);
    assert_eq!(e[0].1, HelperValue::Text("float".to_string()));
    assert_eq!(e[1].1, HelperValue::I64(1));
    assert_eq!(e[2].1, HelperValue::I32(800));
    assert_eq!(e[8].1, HelperValue::U32(0));
}

#[test]
fn create_os_window_without_background_color() {
    let mut ids = WindowIdAllocator::new();
    let (_, call) = create_os_window(WindowCreateParams::default(), &mut ids);
    assert_eq!(object(&call).len(), 8);
}

#[test]
fn start_ui_ability_want() {
    let call = start_ui_ability(42, "L".to_string(), "https://u".to_string(), true, false);
    assert_eq!(call.method, "startUIAbility");
    let e = object(&call);
    assert_eq!(e[0], ("abilityName".to_string(), HelperValue::Text("EntryAbility".to_string())));
    assert_eq!(e[1], ("windowId".to_string(), HelperValue::I64(42)));
    assert_eq!(e[4], ("multiton".to_string(), HelperValue::Bool(true)));
    assert_eq!(e[6], ("instanceKey".to_string(), HelperValue::Text("win-42".to_string())));
    let neg = start_ui_ability(-7, String::new(), String::new(), false, true);
    assert_eq!(object(&neg)[6].1, HelperValue::Text("win--7".to_string()));
}

#[test]
fn ui_ability_registration() {
    let mut r = UiAbilityRegistration::new();
    assert_eq!(r.get_last_ui_ability_window_id(), -1);
    r.register_ui_ability_stage(9);
    assert_eq!(r.get_last_ui_ability_window_id(), 9);
}

#[test]
fn restore_needs_api_14() {
    assert!(restore_window(3, 13).is_none());
    let call = restore_window(3, 14).unwrap();
    assert_eq!(call.method, "restoreWindow");
    assert_eq!(call.args, HelperArgs::Single(HelperValue::I64(3)));
}

#[test]
fn helper_call_shapes() {
    assert_eq!(focus_window(5).args, HelperArgs::Single(HelperValue::I64(5)));
    assert_eq!(request_redraw(5).args, HelperArgs::Positional(vec![HelperValue::I64(5)]));
    assert_eq!(request_user_attention().args, HelperArgs::Unit);
    assert_eq!(
        set_window_limits(1, 2, 3, 4, 5).args,
        HelperArgs::Positional(vec![
            HelperValue::I64(1),
            HelperValue::U32(2),
            HelperValue::U32(3),
            HelperValue::U32(4),
            HelperValue::U32(5)
        ])
    );
    let t = set_window_title(2, "hi".to_string());
    assert_eq!(t.method, "setWindowTitle");
    assert_eq!(object(&t)[1], ("title".to_string(), HelperValue::Text("hi".to_string())));
    let m = move_window_to(2, -3, 4);
    assert_eq!(object(&m)[1], ("x".to_string(), HelperValue::I64(-3)));
}

#[test]
fn cursor_grab_codes() {
    assert_eq!(cursor_grab_outcome(true, 0), Ok(()));
    assert_eq!(cursor_grab_outcome(false, 1300002), Ok(()));
    assert_eq!(cursor_grab_outcome(true, 1300002), Err(CursorGrabError::OsCode(1300002)));
    assert_eq!(cursor_grab_outcome(false, 801), Err(CursorGrabError::NotSupported));
    assert_eq!(cursor_grab_outcome(true, 201), Err(CursorGrabError::OsCode(201)));
}

#[test]
fn cursor_grab_messages() {
    assert_eq!(CursorGrabError::NotSupported.message(), "cursor lock not supported on this device");
    assert_eq!(CursorGrabError::OsCode(201).message(), "window manager error code 201");
    assert_eq!(CursorGrabError::OsCode(-5).message(), "window manager error code -5");
    assert_eq!(
        CursorGrabError::Bridge("helper not initialized".to_string()).message(),
        "cursor grab bridge failure: helper not initialized"
    );
}

#[test]
fn real_window_ids() {
    assert_eq!(real_window_id_from(1, 7), Ok(7));
    assert_eq!(real_window_id_from(1, i32::MAX as i64), Ok(i32::MAX));
    assert_eq!(
        real_window_id_from(4, -1),
        Err(CursorGrabError::Bridge("window 4 has no real window id (helper returned -1)".to_string()))
    );
    assert!(real_window_id_from(0, 0).is_err());
    assert!(real_window_id_from(0, i32::MAX as i64 + 1).is_err());
}

#[test]
fn fixed_texts() {
    assert_eq!(helper_unavailable_text(), "Helper or Env not initialized");
    let t = fire_and_forget_texts("set_window_background_color");
    assert_eq!(t.not_initialized, "set_window_background_color TSFN not initialized");
    assert_eq!(t.call_failed, "TSFN call failed: ");
}

#[test]
fn real_window_id_reports_what_is_missing() {
    assert_eq!(
        real_window_id_unreachable(HostGap::Helper),
        CursorGrabError::Bridge("helper not initialized".to_string())
    );
    assert_eq!(
        real_window_id_unreachable(HostGap::Env),
        CursorGrabError::Bridge("main thread env not available".to_string())
    );
}
