//! Rust-owned WebView callback declarations.
//!
//! A registry keeps, per module-local WebView id, the callbacks that the host
//! declared. ArkTS receives a boolean subscription snapshot (`options_for`) and
//! reports every ArkWeb event back; the decisions here say which declared
//! callback (if any) an event reaches. Stale events (from a native controller
//! that is no longer current for the id) reach no callback.
//!
//! How a callback is represented is left to the host through
//! [`CallbackHandlers`]: the registry only stores and hands back handlers.

use vstd::prelude::*;
use vstd::string::*;
use crate::text::{has_prefix, is_blank, same_text, starts_with, trims_to_empty};

verus! {

/// The representation a host chooses for each kind of WebView callback
/// (typically shared closures).
pub trait CallbackHandlers {
    type Navigation;
    type DownloadStart;
    type DownloadEnd;
    type TitleChange;
    type DragEnter;
    type DragOver;
    type DragDrop;
    type DragLeave;
    type NewWindow;
    type PageBegin;
    type PageEnd;
    type CloseWindow;
    type HttpsIntercept;
}

/// The callbacks declared for one WebView.
pub struct WebviewCallbacks<H: CallbackHandlers> {
    pub navigation: Option<H::Navigation>,
    pub download_start: Option<H::DownloadStart>,
    pub download_end: Option<H::DownloadEnd>,
    pub title_change: Option<H::TitleChange>,
    pub drag_enter: Option<H::DragEnter>,
    pub drag_over: Option<H::DragOver>,
    pub drag_drop: Option<H::DragDrop>,
    pub drag_leave: Option<H::DragLeave>,
    pub new_window: Option<H::NewWindow>,
    pub page_begin: Option<H::PageBegin>,
    pub page_end: Option<H::PageEnd>,
    pub close_window: Option<H::CloseWindow>,
    pub https_intercept: Option<H::HttpsIntercept>,
}

/// The subscription snapshot handed to ArkTS at WebView creation: which
/// ArkWeb events it must forward.
#[derive(Debug, Clone, Copy, PartialEq, Eq, Default)]
pub struct WebviewCallbackOptions {
    pub navigation_intercept: bool,
    pub download_start: bool,
    pub download_end: bool,
    pub title_change: bool,
    pub drag_drop: bool,
    pub new_window: bool,
    pub page_begin: bool,
    pub page_end: bool,
}

/// A navigation request reported by ArkWeb.
#[derive(Debug, Clone, PartialEq, Eq)]
pub struct WebviewNavigationRequest {
    pub id: String,
    pub native_tag: String,
    pub url: String,
}

/// Whether ArkWeb should intercept (cancel) a navigation.
#[derive(Debug, Clone, Copy, PartialEq, Eq)]
pub struct WebviewNavigationResponse {
    pub intercept: bool,
}

/// Whether ArkWeb should open a requested new window.
#[derive(Debug, Clone, Copy, PartialEq, Eq)]
pub struct WebviewNewWindowResponse {
    pub allow: bool,
}

/// The snapshot with no subscription at all.
pub open spec fn no_options() -> WebviewCallbackOptions {
    WebviewCallbackOptions {
        navigation_intercept: false,
        download_start: false,
        download_end: false,
        title_change: false,
        drag_drop: false,
        new_window: false,
        page_begin: false,
        page_end: false,
    }
}

impl<H: CallbackHandlers> WebviewCallbacks<H> {
    /// A declaration with no callback.
    pub open spec fn none() -> Self {
        WebviewCallbacks {
            navigation: None,
            download_start: None,
            download_end: None,
            title_change: None,
            drag_enter: None,
            drag_over: None,
            drag_drop: None,
            drag_leave: None,
            new_window: None,
            page_begin: None,
            page_end: None,
            close_window: None,
            https_intercept: None,
        }
    }

    /// No callback of any kind is declared.
    pub open spec fn spec_is_empty(&self) -> bool {
        &&& self.navigation is None
        &&& self.download_start is None
        &&& self.download_end is None
        &&& self.title_change is None
        &&& self.drag_enter is None
        &&& self.drag_over is None
        &&& self.drag_drop is None
        &&& self.drag_leave is None
        &&& self.new_window is None
        &&& self.page_begin is None
        &&& self.page_end is None
        &&& self.close_window is None
        &&& self.https_intercept is None
    }

    /// The subscription snapshot of this declaration. Navigation interception
    /// is needed by either the navigation or the close-window callback; one
    /// drag subscription serves all four drag callbacks. The https intercept
    /// handler needs no subscription.
    pub open spec fn spec_options(&self) -> WebviewCallbackOptions {
        WebviewCallbackOptions {
            navigation_intercept: self.navigation is Some || self.close_window is Some,
            download_start: self.download_start is Some,
            download_end: self.download_end is Some,
            title_change: self.title_change is Some,
            drag_drop: self.drag_enter is Some || self.drag_over is Some || self.drag_drop is Some
                || self.drag_leave is Some,
            new_window: self.new_window is Some,
            page_begin: self.page_begin is Some,
            page_end: self.page_end is Some,
        }
    }

    /// A declaration with no callback.
    pub fn empty() -> (r: Self)
        ensures
            r == Self::none(),
    {
        WebviewCallbacks {
            navigation: None,
            download_start: None,
            download_end: None,
            title_change: None,
            drag_enter: None,
            drag_over: None,
            drag_drop: None,
            drag_leave: None,
            new_window: None,
            page_begin: None,
            page_end: None,
            close_window: None,
            https_intercept: None,
        }
    }

    /// The subscription snapshot of this declaration.
    pub fn options(&self) -> (r: WebviewCallbackOptions)
        ensures
            r == self.spec_options(),
    {
        WebviewCallbackOptions {
            navigation_intercept: self.navigation.is_some() || self.close_window.is_some(),
            download_start: self.download_start.is_some(),
            download_end: self.download_end.is_some(),
            title_change: self.title_change.is_some(),
            drag_drop: self.drag_enter.is_some() || self.drag_over.is_some()
                || self.drag_drop.is_some() || self.drag_leave.is_some(),
            new_window: self.new_window.is_some(),
            page_begin: self.page_begin.is_some(),
            page_end: self.page_end.is_some(),
        }
    }

    /// Whether no callback of any kind is declared.
    pub fn is_empty(&self) -> (r: bool)
        ensures
            r == self.spec_is_empty(),
    {
        self.navigation.is_none() && self.download_start.is_none() && self.download_end.is_none()
            && self.title_change.is_none() && self.drag_enter.is_none()
            && self.drag_over.is_none() && self.drag_drop.is_none() && self.drag_leave.is_none()
            && self.new_window.is_none() && self.page_begin.is_none() && self.page_end.is_none()
            && self.close_window.is_none() && self.https_intercept.is_none()
    }
}


impl<H: CallbackHandlers> Default for WebviewCallbacks<H> {
    /// A declaration with no callback.
    fn default() -> (r: Self)
        ensures
            r == Self::none(),
    {
        Self::empty()
    }
}

/// `r` refers to the value that `s` holds, or is `None` when `s` is.
pub open spec fn refers_to<T>(r: Option<&T>, s: Option<T>) -> bool {
    match r {
        Some(x) => s == Some(*x),
        None => s is None,
    }
}

/// The value that `m` maps `k` to, if any.
pub open spec fn lookup<K, V>(m: Map<K, V>, k: K) -> Option<V> {
    if m.contains_key(k) {
        Some(m[k])
    } else {
        None
    }
}

/// The URL prefixes that route a navigation to the close-window callback.
pub open spec fn is_close_window_route(url: Seq<char>) -> bool {
    has_prefix(url, "close-window.invalid"@) || has_prefix(url, "http://close-window.invalid"@)
}

/// Returns true if the URL matches a close-window route prefix.
pub fn is_close_window_url(url: &str) -> (r: bool)
    ensures
        r == is_close_window_route(url@),
{
    starts_with(url, "close-window.invalid") || starts_with(url, "http://close-window.invalid")
}

/// The declarations of every WebView id, one per id. A new declaration for an
/// id replaces the previous one; declarations are never dropped, so they stay
/// valid across a remove and create cycle of the WebView.
pub struct CallbackRegistry<H: CallbackHandlers> {
    entries: Vec<(String, WebviewCallbacks<H>)>,
}

impl<H: CallbackHandlers> CallbackRegistry<H> {
    #[verifier::type_invariant]
    spec fn ids_are_unique(&self) -> bool {
        forall|i: int, j: int|
            0 <= i < j < self.entries.len() ==> #[trigger] self.entries[i].0@
                != #[trigger] self.entries[j].0@
    }

    spec fn has_id(&self, id: Seq<char>) -> bool {
        exists|i: int| 0 <= i < self.entries.len() && #[trigger] self.entries[i].0@ == id
    }

    spec fn index_of(&self, id: Seq<char>) -> int {
        choose|i: int| 0 <= i < self.entries.len() && #[trigger] self.entries[i].0@ == id
    }

    /// The declaration of each registered id.
    pub closed spec fn declarations(&self) -> Map<Seq<char>, WebviewCallbacks<H>> {
        Map::new(|id: Seq<char>| self.has_id(id), |id: Seq<char>| self.entries[self.index_of(id)].1)
    }

    proof fn lemma_index_of(&self, i: int)
        requires
            self.ids_are_unique(),
            0 <= i < self.entries.len(),
        ensures
            self.has_id(self.entries[i].0@),
            self.index_of(self.entries[i].0@) == i,
    {
        let id = self.entries[i].0@;
        assert(self.has_id(id));
        let j = self.index_of(id);
        if j < i {
            assert(self.entries[j].0@ != self.entries[i].0@);
        } else if i < j {
            assert(self.entries[i].0@ != self.entries[j].0@);
        }
    }

    /// An empty registry.
    pub fn new() -> (r: Self)
        ensures
            r@ == Map::<Seq<char>, WebviewCallbacks<H>>::empty(),
    {
        let r = CallbackRegistry { entries: Vec::new() };
        assert(r.declarations() =~= Map::<Seq<char>, WebviewCallbacks<H>>::empty());
        r
    }

    fn position(&self, id: &str) -> (r: Option<usize>)
        ensures
            match r {
                Some(i) => i < self.entries.len() && self.entries[i as int].0@ == id@,
                None => !self.has_id(id@),
            },
    {
        let n = self.entries.len();
        let mut i: usize = 0;
        while i < n
            invariant
                n == self.entries.len(),
                i <= n,
                forall|j: int| 0 <= j < i ==> #[trigger] self.entries[j].0@ != id@,
            decreases n - i,
        {
            if same_text(self.entries[i].0.as_str(), id) {
                return Some(i);
            }
            i = i + 1;
        }
        None
    }

    /// The declaration registered for `webview_id`, if any.
    pub fn get(&self, webview_id: &str) -> (r: Option<&WebviewCallbacks<H>>)
        ensures
            refers_to(r, lookup(self@, webview_id@)),
    {
        proof {
            use_type_invariant(&*self);
        }
        match self.position(webview_id) {
            Some(i) => {
                proof {
                    self.lemma_index_of(i as int);
                }
                Some(&self.entries[i].1)
            },
            None => None,
        }
    }

    /// Registers `callbacks` for `webview_id`, replacing any earlier
    /// declaration of that id.
    fn insert(&mut self, webview_id: String, callbacks: WebviewCallbacks<H>)
        ensures
            final(self)@ == old(self)@.insert(webview_id@, callbacks),
    {
        proof {
            use_type_invariant(&*self);
        }
        let ghost id = webview_id@;
        let ghost before = self.entries@;
        let ghost old_self = *self;
        let found = self.position(webview_id.as_str());
        let mut entries: Vec<(String, WebviewCallbacks<H>)> = Vec::new();
        std::mem::swap(&mut entries, &mut self.entries);
        match found {
            Some(i) => {
                entries.set(i, (webview_id, callbacks));
                assert(forall|a: int, b: int|
                    0 <= a < b < entries.len() ==> #[trigger] entries[a].0@ != #[trigger] entries[b].0@) by {
                    assert forall|a: int, b: int| 0 <= a < b < entries.len() implies #[trigger] entries[a].0@
                        != #[trigger] entries[b].0@ by {
                        assert(before[a].0@ != before[b].0@);
                    }
                }
                self.entries = entries;
                proof {
                    use_type_invariant(&*self);
                    assert forall|k: Seq<char>| #[trigger] self.has_id(k) == (old_self.has_id(k) || k == id) by {
                        if old_self.has_id(k) {
                            let j = old_self.index_of(k);
                            assert(self.entries[j].0@ == k);
                        }
                        if self.has_id(k) {
                            let j = self.index_of(k);
                            if j != i {
                                assert(old_self.entries[j].0@ == k);
                            }
                        }
                    }
                    assert forall|k: Seq<char>| #[trigger] self.has_id(k) implies self.entries[self.index_of(k)].1
                        == old_self@.insert(id, callbacks)[k] by {
                        let j = self.index_of(k);
                        self.lemma_index_of(j);
                        if k != id {
                            old_self.lemma_index_of(j);
                        }
                    }
                    assert(self@ =~= old_self@.insert(id, callbacks));
                }
            },
            None => {
                entries.push((webview_id, callbacks));
                assert(forall|a: int, b: int|
                    0 <= a < b < entries.len() ==> #[trigger] entries[a].0@ != #[trigger] entries[b].0@) by {
                    assert forall|a: int, b: int| 0 <= a < b < entries.len() implies #[trigger] entries[a].0@
                        != #[trigger] entries[b].0@ by {
                        if b < before.len() {
                            assert(before[a].0@ != before[b].0@);
                        } else {
                            assert(old_self.entries[a].0@ == before[a].0@);
                        }
                    }
                }
                self.entries = entries;
                proof {
                    use_type_invariant(&*self);
                    let n = before.len() as int;
                    assert forall|k: Seq<char>| #[trigger] self.has_id(k) == (old_self.has_id(k) || k == id) by {
                        if old_self.has_id(k) {
                            let j = old_self.index_of(k);
                            assert(self.entries[j].0@ == k);
                        }
                        if k == id {
                            assert(self.entries[n].0@ == k);
                        }
                        if self.has_id(k) {
                            let j = self.index_of(k);
                            if j != n {
                                assert(old_self.entries[j].0@ == k);
                            }
                        }
                    }
                    assert forall|k: Seq<char>| #[trigger] self.has_id(k) implies self.entries[self.index_of(k)].1
                        == old_self@.insert(id, callbacks)[k] by {
                        let j = self.index_of(k);
                        self.lemma_index_of(j);
                        if k != id {
                            old_self.lemma_index_of(j);
                        }
                    }
                    assert(self@ =~= old_self@.insert(id, callbacks));
                }
            },
        }
    }

    /// The subscription snapshot for `webview_id`: that of its declaration,
    /// or no subscription when the id has none.
    pub fn options_for(&self, webview_id: &str) -> (r: WebviewCallbackOptions)
        ensures
            r == (if self@.contains_key(webview_id@) {
                self@[webview_id@].spec_options()
            } else {
                no_options()
            }),
    {
        match self.get(webview_id) {
            Some(callbacks) => callbacks.options(),
            None => WebviewCallbackOptions {
                navigation_intercept: false,
                download_start: false,
                download_end: false,
                title_change: false,
                drag_drop: false,
                new_window: false,
                page_begin: false,
                page_end: false,
            },
        }
    }
}

impl<H: CallbackHandlers> View for CallbackRegistry<H> {
    type V = Map<Seq<char>, WebviewCallbacks<H>>;

    closed spec fn view(&self) -> Map<Seq<char>, WebviewCallbacks<H>> {
        self.declarations()
    }
}


/// Why a callback declaration was refused.
#[derive(Debug, Clone, Copy, PartialEq, Eq)]
pub enum CallbackDeclarationError {
    /// The WebView id is empty once trimmed.
    EmptyId,
    /// The declaration holds no callback.
    NoCallback,
}

/// The text of a declaration error.
pub open spec fn declaration_error_text(e: CallbackDeclarationError) -> Seq<char> {
    match e {
        CallbackDeclarationError::EmptyId => "WebView callback id must not be empty"@,
        CallbackDeclarationError::NoCallback => "WebView callbacks must declare at least one callback"@,
    }
}

impl CallbackDeclarationError {
    /// The error text reported to the caller.
    pub fn message(&self) -> (r: String)
        ensures
            r@ == declaration_error_text(*self),
    {
        match self {
            CallbackDeclarationError::EmptyId => String::from_str("WebView callback id must not be empty"),
            CallbackDeclarationError::NoCallback => String::from_str(
                "WebView callbacks must declare at least one callback",
            ),
        }
    }
}

/// Builder for Rust-owned WebView lifecycle and platform callbacks.
///
/// Build this before the WebView is created. Building for an id that already
/// has a declaration replaces it.
pub struct WebviewCallbacksBuilder<H: CallbackHandlers> {
    webview_id: String,
    callbacks: WebviewCallbacks<H>,
}

impl<H: CallbackHandlers> WebviewCallbacksBuilder<H> {
    /// The WebView id the declaration is for.
    pub closed spec fn target(&self) -> Seq<char> {
        self.webview_id@
    }

    /// The callbacks declared so far.
    pub closed spec fn declared(&self) -> WebviewCallbacks<H> {
        self.callbacks
    }

    /// A builder for `webview_id` with no callback declared.
    pub fn new(webview_id: &str) -> (r: Self)
        ensures
            r.target() == webview_id@,
            r.declared() == WebviewCallbacks::<H>::none(),
    {
        WebviewCallbacksBuilder { webview_id: String::from_str(webview_id), callbacks: WebviewCallbacks::empty() }
    }

    /// Decides whether ArkWeb should intercept a navigation. The host runs it synchronously on the active N-API main-thread callback; it must return promptly.
    pub fn on_navigation_request(self, callback: H::Navigation) -> (r: Self)
        ensures
            r.target() == self.target(),
            r.declared() == (WebviewCallbacks { navigation: Some(callback), ..self.declared() }),
    {
        let mut b = self;
        b.callbacks.navigation = Some(callback);
        b
    }

    /// Admits, cancels, or redirects a download before ArkWeb starts it; run synchronously on the active N-API main-thread callback.
    pub fn on_download_start(self, callback: H::DownloadStart) -> (r: Self)
        ensures
            r.target() == self.target(),
            r.declared() == (WebviewCallbacks { download_start: Some(callback), ..self.declared() }),
    {
        let mut b = self;
        b.callbacks.download_start = Some(callback);
        b
    }

    /// Receives successful and failed download completion notifications.
    pub fn on_download_end(self, callback: H::DownloadEnd) -> (r: Self)
        ensures
            r.target() == self.target(),
            r.declared() == (WebviewCallbacks { download_end: Some(callback), ..self.declared() }),
    {
        let mut b = self;
        b.callbacks.download_end = Some(callback);
        b
    }

    /// Receives page title updates.
    pub fn on_title_change(self, callback: H::TitleChange) -> (r: Self)
        ensures
            r.target() == self.target(),
            r.declared() == (WebviewCallbacks { title_change: Some(callback), ..self.declared() }),
    {
        let mut b = self;
        b.callbacks.title_change = Some(callback);
        b
    }

    /// Receives drag-enter notifications (paths are empty: the drag data is not readable yet).
    pub fn on_drag_enter(self, callback: H::DragEnter) -> (r: Self)
        ensures
            r.target() == self.target(),
            r.declared() == (WebviewCallbacks { drag_enter: Some(callback), ..self.declared() }),
    {
        let mut b = self;
        b.callbacks.drag_enter = Some(callback);
        b
    }

    /// Receives drag-move (over) notifications.
    pub fn on_drag_over(self, callback: H::DragOver) -> (r: Self)
        ensures
            r.target() == self.target(),
            r.declared() == (WebviewCallbacks { drag_over: Some(callback), ..self.declared() }),
    {
        let mut b = self;
        b.callbacks.drag_over = Some(callback);
        b
    }

    /// Receives drag-drop notifications, with the dropped paths.
    pub fn on_drag_drop(self, callback: H::DragDrop) -> (r: Self)
        ensures
            r.target() == self.target(),
            r.declared() == (WebviewCallbacks { drag_drop: Some(callback), ..self.declared() }),
    {
        let mut b = self;
        b.callbacks.drag_drop = Some(callback);
        b
    }

    /// Receives drag-leave notifications.
    pub fn on_drag_leave(self, callback: H::DragLeave) -> (r: Self)
        ensures
            r.target() == self.target(),
            r.declared() == (WebviewCallbacks { drag_leave: Some(callback), ..self.declared() }),
    {
        let mut b = self;
        b.callbacks.drag_leave = Some(callback);
        b
    }

    /// Decides whether ArkWeb may open a new window; without it, new windows are denied.
    pub fn on_new_window_request(self, callback: H::NewWindow) -> (r: Self)
        ensures
            r.target() == self.target(),
            r.declared() == (WebviewCallbacks { new_window: Some(callback), ..self.declared() }),
    {
        let mut b = self;
        b.callbacks.new_window = Some(callback);
        b
    }

    /// Receives page-begin (navigation started) notifications.
    pub fn on_page_begin(self, callback: H::PageBegin) -> (r: Self)
        ensures
            r.target() == self.target(),
            r.declared() == (WebviewCallbacks { page_begin: Some(callback), ..self.declared() }),
    {
        let mut b = self;
        b.callbacks.page_begin = Some(callback);
        b
    }

    /// Receives page-end (navigation completed) notifications.
    pub fn on_page_end(self, callback: H::PageEnd) -> (r: Self)
        ensures
            r.target() == self.target(),
            r.declared() == (WebviewCallbacks { page_end: Some(callback), ..self.declared() }),
    {
        let mut b = self;
        b.callbacks.page_end = Some(callback);
        b
    }

    /// Called when a close-window URL is intercepted, asking the host window to close.
    pub fn on_close_window(self, callback: H::CloseWindow) -> (r: Self)
        ensures
            r.target() == self.target(),
            r.declared() == (WebviewCallbacks { close_window: Some(callback), ..self.declared() }),
    {
        let mut b = self;
        b.callbacks.close_window = Some(callback);
        b
    }

    /// Synchronously answers an https intercept request from ArkWeb's `onInterceptRequest`.
    pub fn on_https_intercept_request(self, callback: H::HttpsIntercept) -> (r: Self)
        ensures
            r.target() == self.target(),
            r.declared() == (WebviewCallbacks { https_intercept: Some(callback), ..self.declared() }),
    {
        let mut b = self;
        b.callbacks.https_intercept = Some(callback);
        b
    }

    /// Registers the declaration in `registry`, replacing any earlier one for
    /// the same id. Refused, leaving the registry as it was, when the id is
    /// empty once trimmed or when no callback is declared.
    pub fn build(self, registry: &mut CallbackRegistry<H>) -> (r: Result<(), CallbackDeclarationError>)
        ensures
            is_blank(self.target()) ==> r == Err::<(), _>(CallbackDeclarationError::EmptyId)
                && final(registry)@ == old(registry)@,
            !is_blank(self.target()) && self.declared().spec_is_empty() ==> r == Err::<(), _>(
                CallbackDeclarationError::NoCallback,
            ) && final(registry)@ == old(registry)@,
            !is_blank(self.target()) && !self.declared().spec_is_empty() ==> r is Ok
                && final(registry)@ == old(registry)@.insert(self.target(), self.declared()),
    {
        if trims_to_empty(self.webview_id.as_str()) {
            return Err(CallbackDeclarationError::EmptyId);
        }
        if self.callbacks.is_empty() {
            return Err(CallbackDeclarationError::NoCallback);
        }
        registry.insert(self.webview_id, self.callbacks);
        Ok(())
    }
}

impl<H: CallbackHandlers> Default for WebviewCallbacksBuilder<H> {
    /// A builder for the empty id with no callback declared.
    fn default() -> (r: Self)
        ensures
            r.target() == Seq::<char>::empty(),
            r.declared() == WebviewCallbacks::<H>::none(),
    {
        WebviewCallbacksBuilder { webview_id: String::new(), callbacks: WebviewCallbacks::empty() }
    }
}

/// Where a navigation request goes.
pub enum NavigationRoute<'a, H: CallbackHandlers> {
    /// The request comes from a native controller that is no longer current
    /// for the WebView: it reaches no callback and is not intercepted.
    Stale,
    /// A close-window URL: it goes to the close-window callback (if declared)
    /// and is always intercepted.
    CloseWindow(Option<&'a H::CloseWindow>),
    /// Any other URL: the navigation callback (if declared) decides.
    Navigate(Option<&'a H::Navigation>),
}

impl<'a, H: CallbackHandlers> NavigationRoute<'a, H> {
    /// The response to ArkWeb once the route has been followed; `answer` is
    /// what the navigation callback returned, if it was called.
    pub fn response(&self, answer: Option<bool>) -> (r: WebviewNavigationResponse)
        ensures
            r.intercept == match self {
                NavigationRoute::Stale => false,
                NavigationRoute::CloseWindow(_) => true,
                NavigationRoute::Navigate(_) => answer == Some(true),
            },
    {
        match self {
            NavigationRoute::Stale => WebviewNavigationResponse { intercept: false },
            NavigationRoute::CloseWindow(_) => WebviewNavigationResponse { intercept: true },
            NavigationRoute::Navigate(_) => WebviewNavigationResponse {
                intercept: match answer {
                    Some(b) => b,
                    None => false,
                },
            },
        }
    }
}

/// The response to a new-window request; `answer` is what the new-window
/// callback returned, if it was called. Without an answer the window is
/// denied.
pub fn new_window_response(answer: Option<bool>) -> (r: WebviewNewWindowResponse)
    ensures
        r.allow == (answer == Some(true)),
{
    WebviewNewWindowResponse {
        allow: match answer {
            Some(b) => b,
            None => false,
        },
    }
}

/// The declaration that events for `id` reach: none when the reporting
/// controller is stale.
pub open spec fn reachable<H: CallbackHandlers>(
    declarations: Map<Seq<char>, WebviewCallbacks<H>>,
    id: Seq<char>,
    is_current: bool,
) -> Option<WebviewCallbacks<H>> {
    if is_current {
        lookup(declarations, id)
    } else {
        None
    }
}

impl<H: CallbackHandlers> CallbackRegistry<H> {
    /// The callbacks that an event for `webview_id` may reach: those declared
    /// for the id, unless the reporting native controller is stale
    /// (`is_current` false), in which case none.
    pub fn current_callbacks(&self, webview_id: &str, is_current: bool) -> (r: Option<&WebviewCallbacks<H>>)
        ensures
            refers_to(r, reachable(self@, webview_id@, is_current)),
    {
        if !is_current {
            return None;
        }
        self.get(webview_id)
    }

    /// Routes a navigation request. Close-window URLs go to the close-window
    /// callback before the navigation callback is considered, so the two
    /// coexist without double-firing.
    pub fn navigation_route(&self, request: &WebviewNavigationRequest, is_current: bool) -> (r: NavigationRoute<'_, H>)
        ensures
            match r {
                NavigationRoute::Stale => !is_current,
                NavigationRoute::CloseWindow(h) => is_current && is_close_window_route(request.url@)
                    && refers_to(h, match lookup(self@, request.id@) {
                        Some(c) => c.close_window,
                        None => None,
                    }),
                NavigationRoute::Navigate(h) => is_current && !is_close_window_route(request.url@)
                    && refers_to(h, match lookup(self@, request.id@) {
                        Some(c) => c.navigation,
                        None => None,
                    }),
            },
    {
        if !is_current {
            return NavigationRoute::Stale;
        }
        let declared = self.get(request.id.as_str());
        if is_close_window_url(request.url.as_str()) {
            match declared {
                Some(c) => NavigationRoute::CloseWindow(c.close_window.as_ref()),
                None => NavigationRoute::CloseWindow(None),
            }
        } else {
            match declared {
                Some(c) => NavigationRoute::Navigate(c.navigation.as_ref()),
                None => NavigationRoute::Navigate(None),
            }
        }
    }
}

} // verus!
