use std::sync::{
    atomic::{AtomicUsize, Ordering},
    Arc,
};

use ohos_ability::callbacks::{
    is_close_window_url, new_window_response, CallbackDeclarationError, CallbackHandlers,
    CallbackRegistry, NavigationRoute, WebviewCallbacksBuilder, WebviewNavigationRequest,
    WebviewNavigationResponse,
};

type Notify = Arc<dyn Fn() + Send + Sync>;

struct Handlers;

impl CallbackHandlers for Handlers {
    type Navigation = Arc<dyn Fn(WebviewNavigationRequest) -> bool + Send + Sync>;
    type DownloadStart = Notify;
    type DownloadEnd = Notify;
    type TitleChange = Notify;
    type DragEnter = Notify;
    type DragOver = Notify;
    type DragDrop = Notify;
    type DragLeave = Notify;
    type NewWindow = Arc<dyn Fn() -> bool + Send + Sync>;
    type PageBegin = Notify;
    type PageEnd = Notify;
    type CloseWindow = Notify;
    type HttpsIntercept = Notify;
}

/// Follows a navigation request the way the host does: route, call the
/// callback the route names, answer ArkWeb. The request is current when its
/// native tag is the one attached to the WebView.
fn navigation_decision(
    registry: &CallbackRegistry<Handlers>,
    attached_tag: &str,
    request: WebviewNavigationRequest,
) -> WebviewNavigationResponse {
    let is_current = request.native_tag == attached_tag;
    let route = registry.navigation_route(&request, is_current);
    let answer = match &route {
        NavigationRoute::Stale => None,
        NavigationRoute::CloseWindow(close) => {
            if let Some(close) = close {
                close();
            }
            None
        }
        NavigationRoute::Navigate(navigation) => navigation.map(|cb| cb(request.clone())),
    };
    route.response(answer)
}

#[test]
fn callback_builder_rejects_an_empty_declaration() {
    let mut registry = CallbackRegistry::<Handlers>::new();
    assert!(WebviewCallbacksBuilder::<Handlers>::new("webview").build(&mut registry).is_err());
}

#[test]
fn empty_declaration_error_text() {
    let mut registry = CallbackRegistry::<Handlers>::new();
    let err = WebviewCallbacksBuilder::<Handlers>::new("webview").build(&mut registry).unwrap_err();
    assert_eq!(err, CallbackDeclarationError::NoCallback);
    assert_eq!(err.message(), "WebView callbacks must declare at least one callback");
    assert!(registry.get("webview").is_none());
}

#[test]
fn blank_webview_id_is_refused() {
    let mut registry = CallbackRegistry::<Handlers>::new();
    let notify: Notify = Arc::new(|| {});
    let err = WebviewCallbacksBuilder::<Handlers>::new(" \t\u{3000}")
        .on_page_end(notify)
        .build(&mut registry)
        .unwrap_err();
    assert_eq!(err, CallbackDeclarationError::EmptyId);
    assert_eq!(err.message(), "WebView callback id must not be empty");
    assert!(registry.get(" \t\u{3000}").is_none());
}

#[test]
fn stale_controller_callback_cannot_reach_a_replacement_webview() {
    let mut registry = CallbackRegistry::<Handlers>::new();
    let calls = Arc::new(AtomicUsize::new(0));
    let callback_calls = Arc::clone(&calls);
    WebviewCallbacksBuilder::<Handlers>::new("stale-callback-test")
        .on_navigation_request(Arc::new(move |_| {
            callback_calls.fetch_add(1, Ordering::Relaxed);
            true
        }))
        .build(&mut registry)
        .unwrap();
    let attached = "native-new";

    let stale = navigation_decision(
        &registry,
        attached,
        WebviewNavigationRequest {
            id: "stale-callback-test".to_owned(),
            native_tag: "native-old".to_owned(),
            url: "https://stale.example".to_owned(),
        },
    );
    assert!(!stale.intercept);
    assert_eq!(calls.load(Ordering::Relaxed), 0);

    let current = navigation_decision(
        &registry,
        attached,
        WebviewNavigationRequest {
            id: "stale-callback-test".to_owned(),
            native_tag: "native-new".to_owned(),
            url: "https://current.example".to_owned(),
        },
    );
    assert!(current.intercept);
    assert_eq!(calls.load(Ordering::Relaxed), 1);
}

#[test]
fn close_window_url_prefix_is_detected() {
    assert!(is_close_window_url("close-window.invalid"));
    assert!(is_close_window_url("http://close-window.invalid"));
    assert!(is_close_window_url("close-window.invalid/some/path"));
    assert!(is_close_window_url("http://close-window.invalid/foo"));
    assert!(!is_close_window_url("https://example.com"));
    assert!(!is_close_window_url("http://example.com/close-window.invalid"));
}

#[test]
fn close_window_callback_routes_and_intercepts_navigation() {
    let mut registry = CallbackRegistry::<Handlers>::new();
    let close_calls = Arc::new(AtomicUsize::new(0));
    let close_callback_calls = Arc::clone(&close_calls);
    WebviewCallbacksBuilder::<Handlers>::new("close-window-test")
        .on_close_window(Arc::new(move || {
            close_callback_calls.fetch_add(1, Ordering::Relaxed);
        }))
        .build(&mut registry)
        .unwrap();
    let attached = "native-cw";

    let response = navigation_decision(
        &registry,
        attached,
        WebviewNavigationRequest {
            id: "close-window-test".to_owned(),
            native_tag: "native-cw".to_owned(),
            url: "http://close-window.invalid".to_owned(),
        },
    );
    assert!(response.intercept);
    assert_eq!(close_calls.load(Ordering::Relaxed), 1);

    // Normal URL does not trigger close-window.
    let normal = navigation_decision(
        &registry,
        attached,
        WebviewNavigationRequest {
            id: "close-window-test".to_owned(),
            native_tag: "native-cw".to_owned(),
            url: "https://example.com".to_owned(),
        },
    );
    assert!(!normal.intercept);
    assert_eq!(close_calls.load(Ordering::Relaxed), 1);
}

#[test]
fn close_window_url_never_reaches_the_navigation_callback() {
    let mut registry = CallbackRegistry::<Handlers>::new();
    let nav_calls = Arc::new(AtomicUsize::new(0));
    let counted = Arc::clone(&nav_calls);
    WebviewCallbacksBuilder::<Handlers>::new("both")
        .on_navigation_request(Arc::new(move |_| {
            counted.fetch_add(1, Ordering::Relaxed);
            false
        }))
        .on_close_window(Arc::new(|| {}))
        .build(&mut registry)
        .unwrap();
    let response = navigation_decision(
        &registry,
        "tag",
        WebviewNavigationRequest {
            id: "both".to_owned(),
            native_tag: "tag".to_owned(),
            url: "close-window.invalid".to_owned(),
        },
    );
    assert!(response.intercept);
    assert_eq!(nav_calls.load(Ordering::Relaxed), 0);
}

#[test]
fn options_reflect_the_declaration() {
    let mut registry = CallbackRegistry::<Handlers>::new();
    let notify: Notify = Arc::new(|| {});
    WebviewCallbacksBuilder::<Handlers>::new("w")
        .on_close_window(notify.clone())
        .on_drag_leave(notify.clone())
        .on_title_change(notify)
        .build(&mut registry)
        .unwrap();
    let o = registry.options_for("w");
    assert!(o.navigation_intercept);
    assert!(o.drag_drop);
    assert!(o.title_change);
    assert!(!o.download_start && !o.download_end && !o.new_window && !o.page_begin && !o.page_end);
    assert_eq!(registry.options_for("unknown"), Default::default());
}

#[test]
fn https_only_declaration_subscribes_nothing() {
    let mut registry = CallbackRegistry::<Handlers>::new();
    let notify: Notify = Arc::new(|| {});
    WebviewCallbacksBuilder::<Handlers>::new("h")
        .on_https_intercept_request(notify)
        .build(&mut registry)
        .unwrap();
    assert!(registry.get("h").is_some());
    assert_eq!(registry.options_for("h"), Default::default());
}

#[test]
fn rebuilding_replaces_the_declaration_and_keeps_other_ids() {
    let mut registry = CallbackRegistry::<Handlers>::new();
    let notify: Notify = Arc::new(|| {});
    WebviewCallbacksBuilder::<Handlers>::new("a").on_page_begin(notify.clone()).build(&mut registry).unwrap();
    WebviewCallbacksBuilder::<Handlers>::new("b").on_page_end(notify.clone()).build(&mut registry).unwrap();
    WebviewCallbacksBuilder::<Handlers>::new("a").on_download_end(notify).build(&mut registry).unwrap();
    let a = registry.options_for("a");
    assert!(a.download_end && !a.page_begin);
    assert!(registry.options_for("b").page_end);
}

#[test]
fn current_callbacks_follow_the_controller_generation() {
    let mut registry = CallbackRegistry::<Handlers>::new();
    let notify: Notify = Arc::new(|| {});
    WebviewCallbacksBuilder::<Handlers>::new("d").on_drag_enter(notify).build(&mut registry).unwrap();
    assert!(registry.current_callbacks("d", false).is_none());
    assert!(registry.current_callbacks("d", true).unwrap().drag_enter.is_some());
    assert!(registry.current_callbacks("other", true).is_none());
}

#[test]
fn new_window_defaults_to_deny() {
    assert!(!new_window_response(None).allow);
    assert!(!new_window_response(Some(false)).allow);
    assert!(new_window_response(Some(true)).allow);
}

#[test]
fn navigation_without_callback_is_not_intercepted() {
    let mut registry = CallbackRegistry::<Handlers>::new();
    let notify: Notify = Arc::new(|| {});
    WebviewCallbacksBuilder::<Handlers>::new("n").on_page_end(notify).build(&mut registry).unwrap();
    let response = navigation_decision(
        &registry,
        "t",
        WebviewNavigationRequest { id: "n".to_owned(), native_tag: "t".to_owned(), url: "https://x".to_owned() },
    );
    assert!(!response.intercept);
}
