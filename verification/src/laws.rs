//! Properties of the library that span several calls or every state.

use vstd::prelude::*;
use vstd::string::*;
use crate::bridge::{init_choice, request_transition, InitDecision, InitSlot, Observation, Outcome, RequestPhase, TextsView};
use crate::callbacks::{lookup, no_options, reachable, CallbackHandlers, WebviewCallbacks};
use crate::helper::{entry_for, ValueView};
use crate::text::signed_decimal;
use crate::window::{cursor_grab_result, next_id, ui_ability_want, window_config, CursorGrabError, WindowCreateParams};

verus! {

/// A registry declaration for an id is replaced by the next successful build
/// for the same id, builds for one id leave every other id's declaration as it
/// was, and no build ever drops an id (declarations stay valid across a remove
/// and create cycle of the WebView).
pub proof fn declaration_replaces_only_its_own_id<H: CallbackHandlers>(
    before: Map<Seq<char>, WebviewCallbacks<H>>,
    id: Seq<char>,
    first: WebviewCallbacks<H>,
    second: WebviewCallbacks<H>,
    other: Seq<char>,
)
    ensures
        lookup(before.insert(id, first).insert(id, second), id) == Some(second),
        other != id ==> lookup(before.insert(id, first), other) == lookup(before, other),
        before.contains_key(other) ==> before.insert(id, first).contains_key(other),
{
}

/// After a declaration is registered for an id, the subscription snapshot
/// handed to ArkTS for that id is the declaration's own.
pub proof fn snapshot_follows_the_last_declaration<H: CallbackHandlers>(
    before: Map<Seq<char>, WebviewCallbacks<H>>,
    id: Seq<char>,
    declared: WebviewCallbacks<H>,
)
    ensures
        before.insert(id, declared).contains_key(id),
        before.insert(id, declared)[id].spec_options() == declared.spec_options(),
{
}

/// An event reported by a native controller that is no longer current for
/// its WebView reaches no callback, whatever was declared for the id.
pub proof fn stale_events_reach_no_callback<H: CallbackHandlers>(
    declarations: Map<Seq<char>, WebviewCallbacks<H>>,
    id: Seq<char>,
)
    ensures
        reachable(declarations, id, false) is None,
{
}

/// An event from the current controller reaches exactly the callbacks
/// declared for its id.
pub proof fn current_events_reach_the_declaration<H: CallbackHandlers>(
    declarations: Map<Seq<char>, WebviewCallbacks<H>>,
    id: Seq<char>,
)
    ensures
        reachable(declarations, id, true) == lookup(declarations, id),
{
}

/// A bridge request ends at most once: once finished, no event changes its
/// phase or produces another result.
pub proof fn finished_requests_stay_finished<T>(obs: Observation<T>, texts: TextsView)
    ensures
        request_transition(RequestPhase::Finished, obs, texts) == (RequestPhase::Finished, Outcome::<T>::Ignore),
{
}

/// A bridge request hands its caller the reply it received, unchanged, and a
/// successful result comes from nowhere else.
pub proof fn requests_deliver_the_reply<T>(phase: RequestPhase, obs: Observation<T>, texts: TextsView, v: T)
    ensures
        forall|r: Result<T, Seq<char>>| #[trigger] request_transition(RequestPhase::Awaiting, Observation::Reply(r), texts)
            == (RequestPhase::Finished, Outcome::Done(r)),
        request_transition(phase, obs, texts).1 == Outcome::Done(Ok::<T, Seq<char>>(v)) ==> phase == RequestPhase::Awaiting
            && obs == Observation::Reply(Ok::<T, Seq<char>>(v)),
{
}

/// Once an initializer has recorded the function it created, every later
/// initializer hands back that same function and creates none, and the store
/// gives out that function.
pub proof fn created_functions_are_reused<T>(slot: InitSlot<T>, created: T)
    requires
        slot@ == (true, Some(created)),
    ensures
        init_choice(slot@.0, slot@.1) == InitDecision::Existing(created),
        slot@.1 == Some(created),
{
}

/// An initializer that fails records nothing: while no initializer has
/// succeeded, the next one creates the function again, and a request that
/// looks for the function ends with the not-initialized text.
pub proof fn failed_initializations_are_retried<T, R>(slot: InitSlot<T>, texts: TextsView)
    requires
        slot@ == (false, None::<T>),
    ensures
        init_choice(slot@.0, slot@.1) is Create,
        request_transition(RequestPhase::Lookup, Observation::<R>::Handle(slot@.1 is Some), texts) == (
            RequestPhase::Finished,
            Outcome::<R>::Done(Err(texts.not_initialized)),
        ),
{
}

/// The counter after `k` allocations starting from `start`.
pub open spec fn advanced(start: i64, k: nat) -> i64
    decreases k,
{
    if k == 0 {
        start
    } else {
        next_id(advanced(start, (k - 1) as nat))
    }
}

proof fn lemma_advanced(start: i64, k: nat)
    requires
        start + k <= i64::MAX,
    ensures
        advanced(start, k) == start + k,
    decreases k,
{
    if k > 0 {
        lemma_advanced(start, (k - 1) as nat);
    }
}

/// Window ids handed out by one counter never repeat: the `i`-th and `j`-th
/// allocations from the same counter differ, as long as the `i64` range is
/// not exhausted.
pub proof fn window_ids_never_repeat(start: i64, i: nat, j: nat)
    requires
        i < j,
        start + j <= i64::MAX,
    ensures
        advanced(start, i) != advanced(start, j),
        advanced(start, i) < advanced(start, j),
{
    lemma_advanced(start, i);
    lemma_advanced(start, j);
}

/// Releasing the cursor is idempotent: unlocking a window whose lock the
/// system already released (1300002) succeeds, whereas the same code on a
/// lock is an error.
pub proof fn cursor_unlock_is_idempotent()
    ensures
        cursor_grab_result(false, 1300002) is Ok,
        cursor_grab_result(true, 1300002) == Err::<(), CursorGrabError>(CursorGrabError::OsCode(1300002)),
        forall|grab: bool| #[trigger] cursor_grab_result(grab, 801) == Err::<(), CursorGrabError>(
            CursorGrabError::NotSupported,
        ),
{
}

/// Each flag of the subscription snapshot handed to ArkTS is set exactly when
/// one of the callbacks it serves is declared: navigation interception serves
/// the navigation and close-window callbacks, the drag subscription the four
/// drag callbacks, and every other flag its own callback. An id with no
/// declaration subscribes to nothing.
pub proof fn snapshot_flags_follow_the_declared_callbacks<H: CallbackHandlers>(c: WebviewCallbacks<H>)
    ensures
        c.spec_options().navigation_intercept <==> (c.navigation is Some || c.close_window is Some),
        c.spec_options().download_start <==> c.download_start is Some,
        c.spec_options().download_end <==> c.download_end is Some,
        c.spec_options().title_change <==> c.title_change is Some,
        c.spec_options().drag_drop <==> (c.drag_enter is Some || c.drag_over is Some || c.drag_drop is Some
            || c.drag_leave is Some),
        c.spec_options().new_window <==> c.new_window is Some,
        c.spec_options().page_begin <==> c.page_begin is Some,
        c.spec_options().page_end <==> c.page_end is Some,
        !no_options().navigation_intercept && !no_options().download_start && !no_options().download_end
            && !no_options().title_change && !no_options().drag_drop && !no_options().new_window
            && !no_options().page_begin && !no_options().page_end,
{
}

/// A declaration counts as empty exactly when none of its thirteen callbacks
/// is declared: a single callback of any kind is enough for a build on a
/// non-blank id to register it.
pub proof fn one_callback_makes_a_declaration<H: CallbackHandlers>(c: WebviewCallbacks<H>)
    ensures
        c.spec_is_empty() <==> (c.navigation is None && c.download_start is None && c.download_end is None
            && c.title_change is None && c.drag_enter is None && c.drag_over is None && c.drag_drop is None
            && c.drag_leave is None && c.new_window is None && c.page_begin is None && c.page_end is None
            && c.close_window is None && c.https_intercept is None),
{
}

/// A cursor lock or unlock call that returned 0 succeeded; 801 means the
/// device does not support cursor locking; 1300002 (the lock was already
/// released) is success for an unlock and an error for a lock; every other
/// code is reported as it came.
pub proof fn cursor_grab_codes(grab: bool, code: i32)
    ensures
        code == 0 ==> cursor_grab_result(grab, code) is Ok,
        code == 801 ==> cursor_grab_result(grab, code) == Err::<(), CursorGrabError>(CursorGrabError::NotSupported),
        code == 1300002 ==> (cursor_grab_result(grab, code) is Ok <==> !grab),
        code == 1300002 && grab ==> cursor_grab_result(grab, code) == Err::<(), CursorGrabError>(
            CursorGrabError::OsCode(code),
        ),
        code != 0 && code != 801 && code != 1300002 ==> cursor_grab_result(grab, code) == Err::<
            (),
            CursorGrabError,
        >(CursorGrabError::OsCode(code)),
{
}

/// The entry at `i` is the first one keyed `key`, so lookup by `key` finds it.
proof fn lemma_entry_at(entries: Seq<(Seq<char>, ValueView)>, key: Seq<char>, i: int)
    requires
        0 <= i < entries.len(),
        entries[i].0 == key,
        forall|j: int| 0 <= j < i ==> entries[j].0 != key,
    ensures
        entry_for(entries, key) == Some(entries[i].1),
    decreases i,
{
    if i > 0 {
        let rest = entries.drop_first();
        assert forall|j: int| 0 <= j < i - 1 implies rest[j].0 != key by {
            assert(rest[j] == entries[j + 1]);
        }
        lemma_entry_at(rest, key, i - 1);
    }
}

/// No entry is keyed `key`, so lookup by `key` finds nothing.
proof fn lemma_entry_absent(entries: Seq<(Seq<char>, ValueView)>, key: Seq<char>)
    requires
        forall|j: int| 0 <= j < entries.len() ==> entries[j].0 != key,
    ensures
        entry_for(entries, key) is None,
    decreases entries.len(),
{
    if entries.len() > 0 {
        let rest = entries.drop_first();
        assert forall|j: int| 0 <= j < rest.len() implies rest[j].0 != key by {
            assert(rest[j] == entries[j + 1]);
        }
        lemma_entry_absent(rest, key);
    }
}

/// The `createOSWindow` config carries each creation parameter unchanged
/// under its own key, the allocated id under `windowId`, and a background
/// color only when one is given.
pub proof fn window_config_carries_every_parameter(params: WindowCreateParams, window_id: i64)
    ensures
        entry_for(window_config(params, window_id), "name"@) == Some(ValueView::Text(params.name@)),
        entry_for(window_config(params, window_id), "windowId"@) == Some(ValueView::I64(window_id)),
        entry_for(window_config(params, window_id), "width"@) == Some(ValueView::I32(params.width)),
        entry_for(window_config(params, window_id), "height"@) == Some(ValueView::I32(params.height)),
        entry_for(window_config(params, window_id), "x"@) == Some(ValueView::I32(params.x)),
        entry_for(window_config(params, window_id), "y"@) == Some(ValueView::I32(params.y)),
        entry_for(window_config(params, window_id), "decorations"@) == Some(ValueView::Bool(params.decorations)),
        entry_for(window_config(params, window_id), "transparent"@) == Some(ValueView::Bool(params.transparent)),
        entry_for(window_config(params, window_id), "backgroundColor"@) == match params.background_color {
            Some(c) => Some(ValueView::U32(c)),
            None => None::<ValueView>,
        },
{
    reveal_strlit("name");
    reveal_strlit("windowId");
    reveal_strlit("width");
    reveal_strlit("height");
    reveal_strlit("x");
    reveal_strlit("y");
    reveal_strlit("decorations");
    reveal_strlit("transparent");
    reveal_strlit("backgroundColor");
    let cfg = window_config(params, window_id);
    let keys = seq!["name"@, "windowId"@, "width"@, "height"@, "x"@, "y"@, "decorations"@, "transparent"@];
    assert forall|j: int| 0 <= j < 8 implies cfg[j].0 == #[trigger] keys[j] by {}
    assert(keys[0][0] == 'n' && keys[1][0] == 'w' && keys[2][0] == 'w' && keys[3][0] == 'h');
    assert(keys[4][0] == 'x' && keys[5][0] == 'y' && keys[6][0] == 'd' && keys[7][0] == 't');
    assert(keys[1][1] == 'i' && keys[2][1] == 'i' && keys[1][2] == 'n' && keys[2][2] == 'd');
    assert("backgroundColor"@[0] == 'b');
    assert forall|i: int, j: int| 0 <= i < 8 && 0 <= j < 8 && i != j implies keys[i] != keys[j] by {
        if i == 1 && j == 2 || i == 2 && j == 1 {
            assert(keys[i][2] != keys[j][2]);
        } else {
            assert(keys[i][0] != keys[j][0]);
        }
    }
    assert forall|j: int| 0 <= j < 8 implies keys[j] != "backgroundColor"@ by {
        assert(keys[j][0] != "backgroundColor"@[0]);
    }
    lemma_entry_at(cfg, "name"@, 0);
    lemma_entry_at(cfg, "windowId"@, 1);
    lemma_entry_at(cfg, "width"@, 2);
    lemma_entry_at(cfg, "height"@, 3);
    lemma_entry_at(cfg, "x"@, 4);
    lemma_entry_at(cfg, "y"@, 5);
    lemma_entry_at(cfg, "decorations"@, 6);
    lemma_entry_at(cfg, "transparent"@, 7);
    match params.background_color {
        Some(c) => lemma_entry_at(cfg, "backgroundColor"@, 8),
        None => lemma_entry_absent(cfg, "backgroundColor"@),
    }
}

/// The want that starts a UIAbility for a window carries each argument
/// unchanged under its own key, names `EntryAbility`, and keys the instance
/// by the window id.
pub proof fn ui_ability_want_carries_every_argument(
    window_id: i64,
    label: Seq<char>,
    url: Seq<char>,
    multiton: bool,
    transparent: bool,
)
    ensures
        entry_for(ui_ability_want(window_id, label, url, multiton, transparent), "abilityName"@) == Some(
            ValueView::Text("EntryAbility"@),
        ),
        entry_for(ui_ability_want(window_id, label, url, multiton, transparent), "windowId"@) == Some(
            ValueView::I64(window_id),
        ),
        entry_for(ui_ability_want(window_id, label, url, multiton, transparent), "label"@) == Some(
            ValueView::Text(label),
        ),
        entry_for(ui_ability_want(window_id, label, url, multiton, transparent), "url"@) == Some(
            ValueView::Text(url),
        ),
        entry_for(ui_ability_want(window_id, label, url, multiton, transparent), "multiton"@) == Some(
            ValueView::Bool(multiton),
        ),
        entry_for(ui_ability_want(window_id, label, url, multiton, transparent), "transparent"@) == Some(
            ValueView::Bool(transparent),
        ),
        entry_for(ui_ability_want(window_id, label, url, multiton, transparent), "instanceKey"@) == Some(
            ValueView::Text("win-"@ + signed_decimal(window_id as int)),
        ),
{
    reveal_strlit("abilityName");
    reveal_strlit("windowId");
    reveal_strlit("label");
    reveal_strlit("url");
    reveal_strlit("multiton");
    reveal_strlit("transparent");
    reveal_strlit("instanceKey");
    let want = ui_ability_want(window_id, label, url, multiton, transparent);
    let keys = seq!["abilityName"@, "windowId"@, "label"@, "url"@, "multiton"@, "transparent"@, "instanceKey"@];
    assert forall|j: int| 0 <= j < 7 implies want[j].0 == #[trigger] keys[j] by {}
    assert(keys[0][0] == 'a' && keys[1][0] == 'w' && keys[2][0] == 'l' && keys[3][0] == 'u');
    assert(keys[4][0] == 'm' && keys[5][0] == 't' && keys[6][0] == 'i');
    assert forall|i: int, j: int| 0 <= i < 7 && 0 <= j < 7 && i != j implies keys[i] != keys[j] by {
        assert(keys[i][0] != keys[j][0]);
    }
    lemma_entry_at(want, "abilityName"@, 0);
    lemma_entry_at(want, "windowId"@, 1);
    lemma_entry_at(want, "label"@, 2);
    lemma_entry_at(want, "url"@, 3);
    lemma_entry_at(want, "multiton"@, 4);
    lemma_entry_at(want, "transparent"@, 5);
    lemma_entry_at(want, "instanceKey"@, 6);
}

} // verus!
