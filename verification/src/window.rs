//! OS-level windows on OpenHarmony: creation parameters, the global window
//! id counter, the calls made to the ArkTS helper for each window operation,
//! and the cursor-grab outcome mapping.

use vstd::prelude::*;
use vstd::string::*;
use crate::bridge::RequestTexts;
use crate::text::{push_signed_decimal, signed_decimal};
use crate::helper::{
    entries_view, object_call, positional_call, push_entry, single_call, unit_call, values_view, CallView,
    HelperCall, HelperValue, ValueView,
};

verus! {

/// Parameters for creating a new OS-level window.
///
/// The window id is not included: it is allocated when the window is
/// created, from the same counter as every other window id.
#[derive(Debug, Clone, PartialEq, Eq)]
pub struct WindowCreateParams {
    /// Window label/name, used as the ArkTS sub-window name.
    pub name: String,
    /// OHOS window type enum value (0 = App, 8 = Float, ...).
    pub window_type: i32,
    /// Initial window width in px.
    pub width: i32,
    /// Initial window height in px.
    pub height: i32,
    /// Initial window X position in px.
    pub x: i32,
    /// Initial window Y position in px.
    pub y: i32,
    /// Whether to show window decorations (title bar, drag area, close button).
    pub decorations: bool,
    /// Whether the window background should be fully transparent (the ArkTS
    /// side then ignores `background_color`).
    pub transparent: bool,
    /// Window background color in 0xAARRGGBB format.
    pub background_color: Option<u32>,
}

impl Default for WindowCreateParams {
    /// An unnamed app window of 800x600 at (100, 100), decorated, opaque,
    /// with the default background.
    fn default() -> (r: Self)
        ensures
            r.name@ == Seq::<char>::empty(),
            r.window_type == 0,
            r.width == 800,
            r.height == 600,
            r.x == 100,
            r.y == 100,
            r.decorations,
            !r.transparent,
            r.background_color is None,
    {
        WindowCreateParams {
            name: String::new(),
            window_type: 0,
            width: 800,
            height: 600,
            x: 100,
            y: 100,
            decorations: true,
            transparent: false,
            background_color: None,
        }
    }
}

/// The id that follows `id` on the window id counter (wrapping, as an atomic
/// increment does).
pub open spec fn next_id(id: i64) -> i64 {
    if id == i64::MAX {
        i64::MIN
    } else {
        (id + 1) as i64
    }
}

/// The window id counter shared by every way a window id is allocated (Rust
/// created windows, sub-windows created from ArkTS, and new UIAbility
/// instances), so that ids never collide. The first id is 1.
pub struct WindowIdAllocator {
    next: i64,
}

impl WindowIdAllocator {
    /// The id the counter hands out next.
    pub closed spec fn upcoming(&self) -> i64 {
        self.next
    }

    /// A counter whose first id is 1.
    pub fn new() -> (r: Self)
        ensures
            r.upcoming() == 1,
    {
        WindowIdAllocator { next: 1 }
    }

    /// Hands out the next id and advances the counter.
    pub fn allocate(&mut self) -> (id: i64)
        ensures
            id == old(self).upcoming(),
            final(self).upcoming() == next_id(id),
    {
        let id = self.next;
        self.next = if id == i64::MAX {
            i64::MIN
        } else {
            id + 1
        };
        id
    }
}

/// The window id that the last UIAbility instance started by
/// `start_ui_ability` reported back when its window stage was created, or -1
/// while none has.
pub struct UiAbilityRegistration {
    last: i64,
}

impl UiAbilityRegistration {
    /// The recorded id.
    pub closed spec fn recorded(&self) -> i64 {
        self.last
    }

    /// Nothing registered yet.
    pub fn new() -> (r: Self)
        ensures
            r.recorded() == -1,
    {
        UiAbilityRegistration { last: -1 }
    }

    /// Records the id that a new UIAbility instance received in its
    /// `want.parameters`.
    pub fn register_ui_ability_stage(&mut self, window_id: i64)
        ensures
            final(self).recorded() == window_id,
    {
        self.last = window_id;
    }

    /// The last registered id, or -1 if no instance has registered yet.
    pub fn get_last_ui_ability_window_id(&self) -> (r: i64)
        ensures
            r == self.recorded(),
    {
        self.last
    }
}

/// The SDK API level from which `restore` exists; below it restoring a
/// window is a no-op.
pub const RESTORE_MIN_API: u32 = 14;

/// Whether `restore_window` reaches the ArkTS helper on a device with SDK
/// API level `api_version`.
pub fn restore_supported(api_version: u32) -> (r: bool)
    ensures
        r == (api_version >= 14),
{
    api_version >= RESTORE_MIN_API
}

/// WindowManager C API error code for "capability not supported".
pub const WM_ERRORCODE_DEVICE_NOT_SUPPORTED: i32 = 801;

/// WindowManager C API error code for "window state abnormal".
pub const WM_ERRORCODE_STATE_ABNORMAL: i32 = 1300002;

/// Why grabbing or releasing the cursor failed.
#[derive(Debug, Clone, PartialEq, Eq)]
pub enum CursorGrabError {
    /// The system does not support cursor lock: the C API is missing (API
    /// level below 22) or the call returned 801.
    NotSupported,
    /// Any other nonzero WindowManager error code (201 no permission, 1300002
    /// window state abnormal, 1300003 window manager service abnormal, ...).
    OsCode(i32),
    /// The N-API bridge is unavailable, or the window has no real window id.
    Bridge(String),
}

/// The text of a cursor grab error.
pub open spec fn cursor_grab_error_text(e: CursorGrabError) -> Seq<char> {
    match e {
        CursorGrabError::NotSupported => "cursor lock not supported on this device"@,
        CursorGrabError::OsCode(code) => "window manager error code "@ + signed_decimal(code as int),
        CursorGrabError::Bridge(reason) => "cursor grab bridge failure: "@ + reason@,
    }
}

impl CursorGrabError {
    /// The error text.
    pub fn message(&self) -> (r: String)
        ensures
            r@ == cursor_grab_error_text(*self),
    {
        match self {
            CursorGrabError::NotSupported => String::from_str("cursor lock not supported on this device"),
            CursorGrabError::OsCode(code) => {
                let mut s = String::from_str("window manager error code ");
                push_signed_decimal(&mut s, *code as i64);
                s
            },
            CursorGrabError::Bridge(reason) => String::from_str("cursor grab bridge failure: ").concat(
                reason.as_str(),
            ),
        }
    }
}

/// The outcome of a cursor lock (`grab`) or unlock call that returned `code`.
/// Unlocking is idempotent: the system releases the lock on focus loss, so
/// unlocking an unlocked window (1300002) succeeds.
pub open spec fn cursor_grab_result(grab: bool, code: i32) -> Result<(), CursorGrabError> {
    if code == 0 {
        Ok(())
    } else if code == 1300002 && !grab {
        Ok(())
    } else if code == 801 {
        Err(CursorGrabError::NotSupported)
    } else {
        Err(CursorGrabError::OsCode(code))
    }
}

/// The outcome of a cursor lock or unlock call that returned `code`.
pub fn cursor_grab_outcome(grab: bool, code: i32) -> (r: Result<(), CursorGrabError>)
    ensures
        r == cursor_grab_result(grab, code),
{
    if code == 0 {
        Ok(())
    } else if code == WM_ERRORCODE_STATE_ABNORMAL && !grab {
        Ok(())
    } else if code == WM_ERRORCODE_DEVICE_NOT_SUPPORTED {
        Err(CursorGrabError::NotSupported)
    } else {
        Err(CursorGrabError::OsCode(code))
    }
}

/// The text reported when `window_id` has no real window id (the helper
/// answered `returned`).
pub open spec fn no_real_id_text(window_id: i64, returned: i64) -> Seq<char> {
    "window "@ + signed_decimal(window_id as int) + " has no real window id (helper returned "@
        + signed_decimal(returned as int) + ")"@
}

/// Checks the real OHOS window id that the helper answered for tao's window
/// `window_id`: it must be positive and fit in `i32` (the helper answers -1
/// for unknown windows, and tao's placeholder id 0 never resolves).
pub fn real_window_id_from(window_id: i64, returned: i64) -> (r: Result<i32, CursorGrabError>)
    ensures
        0 < returned <= i32::MAX ==> r == Ok::<i32, CursorGrabError>(returned as i32),
        !(0 < returned <= i32::MAX) ==> (r matches Err(CursorGrabError::Bridge(t)) && t@ == no_real_id_text(
            window_id,
            returned,
        )),
{
    if returned > 0 && returned <= i32::MAX as i64 {
        return Ok(returned as i32);
    }
    let mut s = String::from_str("window ");
    push_signed_decimal(&mut s, window_id);
    s.append(" has no real window id (helper returned ");
    push_signed_decimal(&mut s, returned);
    s.append(")");
    Err(CursorGrabError::Bridge(s))
}

/// What a helper call found missing on the host.
#[derive(Debug, Clone, Copy, PartialEq, Eq)]
pub enum HostGap {
    /// The ArkTS helper object was never registered.
    Helper,
    /// The main-thread environment is not available.
    Env,
}

/// The text of a real-window-id lookup that finds `gap` missing.
pub open spec fn host_gap_text(gap: HostGap) -> Seq<char> {
    match gap {
        HostGap::Helper => "helper not initialized"@,
        HostGap::Env => "main thread env not available"@,
    }
}

/// The error of a real-window-id lookup that cannot reach the helper because
/// `gap` is missing.
pub fn real_window_id_unreachable(gap: HostGap) -> (r: CursorGrabError)
    ensures
        r matches CursorGrabError::Bridge(t) && t@ == host_gap_text(gap),
{
    match gap {
        HostGap::Helper => CursorGrabError::Bridge(String::from_str("helper not initialized")),
        HostGap::Env => CursorGrabError::Bridge(String::from_str("main thread env not available")),
    }
}

/// The text of every window operation that finds the ArkTS helper or the
/// main-thread environment missing.
pub fn helper_unavailable_text() -> (r: String)
    ensures
        r@ == "Helper or Env not initialized"@,
{
    String::from_str("Helper or Env not initialized")
}


/// Brings a Float sub-window to the front and focuses it (`raiseToAppTop`, API 14+); a no-op for the main window. Fire-and-forget: an ArkTS failure is only logged there.
pub fn focus_window(window_id: i64) -> (r: HelperCall)
    ensures
        r@ == single_call("focusWindow"@, ValueView::I64(window_id)),
{
    HelperCall::single("focusWindow", HelperValue::I64(window_id))
}

/// Minimizes a window (`win.minimize()`).
pub fn minimize_window(window_id: i64) -> (r: HelperCall)
    ensures
        r@ == single_call("minimizeWindow"@, ValueView::I64(window_id)),
{
    HelperCall::single("minimizeWindow", HelperValue::I64(window_id))
}

/// Maximizes a window (`win.maximize(EXIT_IMMERSIVE)`, a true MAXIMIZE state).
pub fn maximize_window(window_id: i64) -> (r: HelperCall)
    ensures
        r@ == single_call("maximizeWindow"@, ValueView::I64(window_id)),
{
    HelperCall::single("maximizeWindow", HelperValue::I64(window_id))
}

/// Recovers a window from maximized/fullscreen to floating (`win.recover()`).
pub fn recover_window(window_id: i64) -> (r: HelperCall)
    ensures
        r@ == single_call("recoverWindow"@, ValueView::I64(window_id)),
{
    HelperCall::single("recoverWindow", HelperValue::I64(window_id))
}

/// Shows a hidden sub-window (`win.showWindow()`); it does not restore a minimized main window.
pub fn show_window(window_id: i64) -> (r: HelperCall)
    ensures
        r@ == single_call("showWindowMethod"@, ValueView::I64(window_id)),
{
    HelperCall::single("showWindowMethod", HelperValue::I64(window_id))
}

/// Destroys a Float sub-window, or sends a UIAbility main window to the background (`hideAbility()`).
pub fn destroy_window(window_id: i64) -> (r: HelperCall)
    ensures
        r@ == single_call("closeWindow"@, ValueView::I64(window_id)),
{
    HelperCall::single("closeWindow", HelperValue::I64(window_id))
}

/// Asks whether a window is maximized (`getWindowStatus() === MAXIMIZE`, synchronous).
pub fn is_window_maximized(window_id: i64) -> (r: HelperCall)
    ensures
        r@ == single_call("isMaximized"@, ValueView::I64(window_id)),
{
    HelperCall::single("isMaximized", HelperValue::I64(window_id))
}

/// Asks whether a window is minimized (`getWindowStatus() === MINIMIZE`, synchronous).
pub fn is_window_minimized(window_id: i64) -> (r: HelperCall)
    ensures
        r@ == single_call("isMinimized"@, ValueView::I64(window_id)),
{
    HelperCall::single("isMinimized", HelperValue::I64(window_id))
}

/// Hides a window: the main window goes to the background, a sub-window is minimized.
pub fn hide_window(window_id: i64) -> (r: HelperCall)
    ensures
        r@ == single_call("hideWindow"@, ValueView::I64(window_id)),
{
    HelperCall::single("hideWindow", HelperValue::I64(window_id))
}

/// Asks for the real OHOS window id of tao's window (`getWindowProperties().id`, -1 when unknown).
pub fn real_window_id_query(window_id: i64) -> (r: HelperCall)
    ensures
        r@ == single_call("getRealWindowId"@, ValueView::I64(window_id)),
{
    HelperCall::single("getRealWindowId", HelperValue::I64(window_id))
}

/// Sets window decorations (title bar visibility) at runtime.
pub fn set_window_decorations(window_id: i64, decorations: bool) -> (r: HelperCall)
    ensures
        r@ == positional_call("setWindowDecorations"@, seq![ValueView::I64(window_id), ValueView::Bool(decorations)]),
{
    HelperCall::pair("setWindowDecorations", HelperValue::I64(window_id), HelperValue::Bool(decorations))
}

/// Sets whether a Float sub-window can receive focus.
pub fn set_window_focusable(window_id: i64, focusable: bool) -> (r: HelperCall)
    ensures
        r@ == positional_call("setWindowFocusable"@, seq![ValueView::I64(window_id), ValueView::Bool(focusable)]),
{
    HelperCall::pair("setWindowFocusable", HelperValue::I64(window_id), HelperValue::Bool(focusable))
}

/// Sets the main window topmost (API 14+, freeform mode only; failures are caught and warned in ArkTS).
pub fn set_window_topmost(window_id: i64, topmost: bool) -> (r: HelperCall)
    ensures
        r@ == positional_call("setWindowTopmost"@, seq![ValueView::I64(window_id), ValueView::Bool(topmost)]),
{
    HelperCall::pair("setWindowTopmost", HelperValue::I64(window_id), HelperValue::Bool(topmost))
}

/// Enters or leaves fullscreen (layout fullscreen and no system bars).
pub fn set_fullscreen(window_id: i64, on: bool) -> (r: HelperCall)
    ensures
        r@ == positional_call("setFullscreen"@, seq![ValueView::I64(window_id), ValueView::Bool(on)]),
{
    HelperCall::pair("setFullscreen", HelperValue::I64(window_id), HelperValue::Bool(on))
}

/// Sets whether the window receives touch input (touchable = !ignore cursor events).
pub fn set_window_touchable(window_id: i64, touchable: bool) -> (r: HelperCall)
    ensures
        r@ == positional_call("setWindowTouchable"@, seq![ValueView::I64(window_id), ValueView::Bool(touchable)]),
{
    HelperCall::pair("setWindowTouchable", HelperValue::I64(window_id), HelperValue::Bool(touchable))
}

/// Sets which decoration buttons are available (bit0 closable, bit1 maximizable, bit2 minimizable, bit3 resizable); Float sub-windows only.
pub fn set_window_decoration_flags(window_id: i64, flags: u8) -> (r: HelperCall)
    ensures
        r@ == positional_call("setWindowDecorationFlags"@, seq![ValueView::I64(window_id), ValueView::U8(flags)]),
{
    HelperCall::pair("setWindowDecorationFlags", HelperValue::I64(window_id), HelperValue::U8(flags))
}

/// Enables or disables edge drag-resize of the window (API 20+).
pub fn set_window_draggable(window_id: i64, enable: bool) -> (r: HelperCall)
    ensures
        r@ == positional_call("setWindowDraggable"@, seq![ValueView::I64(window_id), ValueView::Bool(enable)]),
{
    HelperCall::pair("setWindowDraggable", HelperValue::I64(window_id), HelperValue::Bool(enable))
}

/// Sets the pointer style (an OHOS PointerStyle value) over the window.
pub fn set_pointer_style(window_id: i64, style: i32) -> (r: HelperCall)
    ensures
        r@ == positional_call("setPointerStyle"@, seq![ValueView::I64(window_id), ValueView::I32(style)]),
{
    HelperCall::pair("setPointerStyle", HelperValue::I64(window_id), HelperValue::I32(style))
}

/// Sets the window title (main window and Float sub-windows); the title is
/// passed inside an object.
pub fn set_window_title(window_id: i64, title: String) -> (r: HelperCall)
    ensures
        r@ == object_call("setWindowTitle"@, seq![("windowId"@, ValueView::I64(window_id)), ("title"@, ValueView::Text(title@))]),
{
    let ghost t = title@;
    let mut e: Vec<(String, HelperValue)> = Vec::new();
    push_entry(&mut e, "windowId", HelperValue::I64(window_id));
    push_entry(&mut e, "title", HelperValue::Text(title));
    assert(entries_view(e@) =~= seq![("windowId"@, ValueView::I64(window_id)), ("title"@, ValueView::Text(t))]);
    HelperCall::object("setWindowTitle", e)
}

/// Sets the window min/max size limits in px (0 means no limit).
pub fn set_window_limits(window_id: i64, min_w: u32, min_h: u32, max_w: u32, max_h: u32) -> (r: HelperCall)
    ensures
        r@ == positional_call(
            "setWindowLimits"@,
            seq![ValueView::I64(window_id), ValueView::U32(min_w), ValueView::U32(min_h), ValueView::U32(max_w), ValueView::U32(max_h)],
        ),
{
    let mut v: Vec<HelperValue> = Vec::new();
    v.push(HelperValue::I64(window_id));
    v.push(HelperValue::U32(min_w));
    v.push(HelperValue::U32(min_h));
    v.push(HelperValue::U32(max_w));
    v.push(HelperValue::U32(max_h));
    assert(values_view(v@) =~= seq![ValueView::I64(window_id), ValueView::U32(min_w), ValueView::U32(min_h), ValueView::U32(max_w), ValueView::U32(max_h)]);
    HelperCall::positional("setWindowLimits", v)
}

/// Moves a window to (x, y); the arguments are passed inside an object.
pub fn move_window_to(window_id: i64, x: i64, y: i64) -> (r: HelperCall)
    ensures
        r@ == object_call("moveWindowTo"@, seq![("windowId"@, ValueView::I64(window_id)), ("x"@, ValueView::I64(x)), ("y"@, ValueView::I64(y))]),
{
    let mut e: Vec<(String, HelperValue)> = Vec::new();
    push_entry(&mut e, "windowId", HelperValue::I64(window_id));
    push_entry(&mut e, "x", HelperValue::I64(x));
    push_entry(&mut e, "y", HelperValue::I64(y));
    assert(entries_view(e@) =~= seq![("windowId"@, ValueView::I64(window_id)), ("x"@, ValueView::I64(x)), ("y"@, ValueView::I64(y))]);
    HelperCall::object("moveWindowTo", e)
}

/// Resizes a window; the arguments are passed inside an object.
pub fn resize_window(window_id: i64, width: i64, height: i64) -> (r: HelperCall)
    ensures
        r@ == object_call("resizeWindow"@, seq![("windowId"@, ValueView::I64(window_id)), ("width"@, ValueView::I64(width)), ("height"@, ValueView::I64(height))]),
{
    let mut e: Vec<(String, HelperValue)> = Vec::new();
    push_entry(&mut e, "windowId", HelperValue::I64(window_id));
    push_entry(&mut e, "width", HelperValue::I64(width));
    push_entry(&mut e, "height", HelperValue::I64(height));
    assert(entries_view(e@) =~= seq![("windowId"@, ValueView::I64(window_id)), ("width"@, ValueView::I64(width)), ("height"@, ValueView::I64(height))]);
    HelperCall::object("resizeWindow", e)
}

/// Restores a window from the minimized state (`win.restore()`, API 14+).
/// Below API 14 there is nothing to call: restoring is a no-op.
pub fn restore_window(window_id: i64, api_version: u32) -> (r: Option<HelperCall>)
    ensures
        api_version < 14 ==> r is None,
        api_version >= 14 ==> (r matches Some(c) && c@ == single_call("restoreWindow"@, ValueView::I64(window_id))),
{
    if !restore_supported(api_version) {
        return None;
    }
    Some(HelperCall::single("restoreWindow", HelperValue::I64(window_id)))
}

/// Shows or hides the pointer (global).
pub fn set_pointer_visible(visible: bool) -> (r: HelperCall)
    ensures
        r@ == single_call("setPointerVisible"@, ValueView::Bool(visible)),
{
    HelperCall::single("setPointerVisible", HelperValue::Bool(visible))
}

/// Requests a redraw (a no-op on OHOS, where vsync drives rendering); the id
/// is passed as a one-element argument list.
pub fn request_redraw(window_id: i64) -> (r: HelperCall)
    ensures
        r@ == positional_call("requestRedraw"@, seq![ValueView::I64(window_id)]),
{
    let mut v: Vec<HelperValue> = Vec::new();
    v.push(HelperValue::I64(window_id));
    assert(values_view(v@) =~= seq![ValueView::I64(window_id)]);
    HelperCall::positional("requestRedraw", v)
}

/// Requests user attention (through the notification manager).
pub fn request_user_attention() -> (r: HelperCall)
    ensures
        r@ == unit_call("requestUserAttention"@),
{
    HelperCall::unit("requestUserAttention")
}

/// Sets the IME cursor position (API 10+; needs a focused edit box).
pub fn set_ime_position(window_id: i64, x: i64, y: i64) -> (r: HelperCall)
    ensures
        r@ == positional_call("setImePosition"@, seq![ValueView::I64(window_id), ValueView::I64(x), ValueView::I64(y)]),
{
    HelperCall::triple("setImePosition", HelperValue::I64(window_id), HelperValue::I64(x), HelperValue::I64(y))
}

/// The configuration object passed to `createOSWindow`: every parameter and
/// the allocated id; the background color only when one is given.
pub open spec fn window_config(params: WindowCreateParams, window_id: i64) -> Seq<(Seq<char>, ValueView)> {
    let base = seq![
        ("name"@, ValueView::Text(params.name@)),
        ("windowId"@, ValueView::I64(window_id)),
        ("width"@, ValueView::I32(params.width)),
        ("height"@, ValueView::I32(params.height)),
        ("x"@, ValueView::I32(params.x)),
        ("y"@, ValueView::I32(params.y)),
        ("decorations"@, ValueView::Bool(params.decorations)),
        ("transparent"@, ValueView::Bool(params.transparent)),
    ];
    match params.background_color {
        Some(c) => base.push(("backgroundColor"@, ValueView::U32(c))),
        None => base,
    }
}

/// Creates a new OS-level window: allocates its id from `ids` first, then
/// gives the `createOSWindow` call that carries it. The window type is not
/// sent (the helper only uses the name).
pub fn create_os_window(params: WindowCreateParams, ids: &mut WindowIdAllocator) -> (r: (i64, HelperCall))
    ensures
        r.0 == old(ids).upcoming(),
        final(ids).upcoming() == next_id(r.0),
        r.1@ == object_call("createOSWindow"@, window_config(params, r.0)),
{
    let id = ids.allocate();
    let ghost p = params;
    let mut e: Vec<(String, HelperValue)> = Vec::new();
    push_entry(&mut e, "name", HelperValue::Text(params.name));
    push_entry(&mut e, "windowId", HelperValue::I64(id));
    push_entry(&mut e, "width", HelperValue::I32(params.width));
    push_entry(&mut e, "height", HelperValue::I32(params.height));
    push_entry(&mut e, "x", HelperValue::I32(params.x));
    push_entry(&mut e, "y", HelperValue::I32(params.y));
    push_entry(&mut e, "decorations", HelperValue::Bool(params.decorations));
    push_entry(&mut e, "transparent", HelperValue::Bool(params.transparent));
    match params.background_color {
        Some(c) => push_entry(&mut e, "backgroundColor", HelperValue::U32(c)),
        None => {},
    }
    assert(entries_view(e@) =~= window_config(p, id));
    (id, HelperCall::object("createOSWindow", e))
}

/// Hands out a window id for a sub-window created outside
/// `create_os_window`, from the same counter.
pub fn generate_window_id(ids: &mut WindowIdAllocator) -> (id: i64)
    ensures
        id == old(ids).upcoming(),
        final(ids).upcoming() == next_id(id),
{
    ids.allocate()
}

/// Allocates the next window id without creating a window (used before a
/// new UIAbility instance is started for it).
pub fn next_window_id(ids: &mut WindowIdAllocator) -> (id: i64)
    ensures
        id == old(ids).upcoming(),
        final(ids).upcoming() == next_id(id),
{
    ids.allocate()
}

/// The `want` object of a new EntryAbility instance hosting window
/// `window_id`; its instance key is unique per id.
pub open spec fn ui_ability_want(window_id: i64, label: Seq<char>, url: Seq<char>, multiton: bool, transparent: bool) -> Seq<(Seq<char>, ValueView)> {
    seq![
        ("abilityName"@, ValueView::Text("EntryAbility"@)),
        ("windowId"@, ValueView::I64(window_id)),
        ("label"@, ValueView::Text(label)),
        ("url"@, ValueView::Text(url)),
        ("multiton"@, ValueView::Bool(multiton)),
        ("transparent"@, ValueView::Bool(transparent)),
        ("instanceKey"@, ValueView::Text("win-"@ + signed_decimal(window_id as int))),
    ]
}

/// Starts a new EntryAbility instance to host window `window_id` (the id was
/// allocated beforehand; the instance registers its window stage against
/// it). The ability name is always `EntryAbility`.
pub fn start_ui_ability(window_id: i64, label: String, url: String, multiton: bool, transparent: bool) -> (r: HelperCall)
    ensures
        r@ == object_call("startUIAbility"@, ui_ability_want(window_id, label@, url@, multiton, transparent)),
{
    let ghost l = label@;
    let ghost u = url@;
    let mut key = String::from_str("win-");
    push_signed_decimal(&mut key, window_id);
    let mut e: Vec<(String, HelperValue)> = Vec::new();
    push_entry(&mut e, "abilityName", HelperValue::Text(String::from_str("EntryAbility")));
    push_entry(&mut e, "windowId", HelperValue::I64(window_id));
    push_entry(&mut e, "label", HelperValue::Text(label));
    push_entry(&mut e, "url", HelperValue::Text(url));
    push_entry(&mut e, "multiton", HelperValue::Bool(multiton));
    push_entry(&mut e, "transparent", HelperValue::Bool(transparent));
    push_entry(&mut e, "instanceKey", HelperValue::Text(key));
    assert(entries_view(e@) =~= ui_ability_want(window_id, l, u, multiton, transparent));
    HelperCall::object("startUIAbility", e)
}


/// The texts of a fire-and-forget call through a thread-safe function
/// (`set_window_background_color`, `set_window_blur`): the helper's
/// result is not awaited, so only the lookup and the dispatch can fail and the
/// reply texts are never used.
pub fn fire_and_forget_texts(operation: &str) -> (r: RequestTexts)
    ensures
        r@.not_initialized == operation@ + " TSFN not initialized"@,
        r@.call_failed == "TSFN call failed: "@,
        r@.not_a_promise is None,
        r@.timed_out is None,
{
    RequestTexts {
        not_initialized: String::from_str(operation).concat(" TSFN not initialized"),
        call_failed: String::from_str("TSFN call failed: "),
        not_a_promise: None,
        timed_out: None,
        receiver_dropped: String::new(),
    }
}

} // verus!
