use futures_channel::oneshot;
use ohos_ability::bridge::{
    promise_check, rejection_message, request_step, send_once, InitDecision, InitSlot, RequestAction, RequestEvent,
    RequestPhase,
};
use ohos_ability::clipboard::clipboard_texts;
use ohos_ability::opener::{open_with_system_texts, reveal_in_dir_texts, REPLY_DEADLINE_SECS};

#[test]
fn send_once_sends_only_the_first_value() {
    let (tx, mut rx) = oneshot::channel::<u32>();
    let mut slot = Some(tx);
    let first = send_once(&mut slot, 1).expect("a sender was there");
    assert_eq!(first.handed_back(), None);
    assert!(slot.is_none());
    assert!(send_once(&mut slot, 2).is_none());
    assert_eq!(rx.try_recv().unwrap(), Some(1));
}

#[test]
fn send_once_after_receiver_dropped_still_empties_the_slot() {
    let (tx, rx) = oneshot::channel::<u32>();
    drop(rx);
    let mut slot = Some(tx);
    let sent = send_once(&mut slot, 7).expect("a sender was there");
    assert_eq!(sent.handed_back(), Some(7));
    assert!(slot.is_none());
}

#[test]
fn rejection_messages() {
    assert_eq!(rejection_message(Some("boom".to_string())), "rejected: boom");
    assert_eq!(rejection_message(None), "rejected: unknown rejection");
}

fn step(phase: RequestPhase, event: RequestEvent<u8>) -> (RequestPhase, Option<Result<u8, String>>, bool) {
    let t = open_with_system_texts();
    match request_step(phase, event, &t) {
        (p, RequestAction::Finish(r)) => (p, Some(r), false),
        (p, RequestAction::Ignore) => (p, None, true),
        (p, _) => (p, None, false),
    }
}

#[test]
fn request_lifecycle_success() {
    let t = open_with_system_texts();
    let (p, a) = request_step(RequestPhase::Lookup, RequestEvent::<u8>::Handle(true), &t);
    assert_eq!(p, RequestPhase::Dispatch);
    assert!(matches!(a, RequestAction::Dispatch));
    let (p, a) = request_step(
        p,
        RequestEvent::<u8>::Dispatched { ok: true, status: "Ok".to_string() },
        &t,
    );
    assert_eq!(p, RequestPhase::Awaiting);
    assert!(matches!(a, RequestAction::Await));
    let (p, a) = request_step(p, RequestEvent::Reply(Ok(5u8)), &t);
    assert_eq!(p, RequestPhase::Finished);
    assert!(matches!(a, RequestAction::Finish(Ok(5))));
}

#[test]
fn request_without_handle_fails() {
    let (p, r, _) = step(RequestPhase::Lookup, RequestEvent::Handle(false));
    assert_eq!(p, RequestPhase::Finished);
    assert_eq!(r, Some(Err("opener open_with_system TSFN not initialized".to_string())));
}

#[test]
fn refused_dispatch_reports_the_status() {
    let (p, r, _) = step(
        RequestPhase::Dispatch,
        RequestEvent::Dispatched { ok: false, status: "Closing".to_string() },
    );
    assert_eq!(p, RequestPhase::Finished);
    assert_eq!(r, Some(Err("call openWithSystem TSFN failed: Closing".to_string())));
}

#[test]
fn waiting_request_failures() {
    let (_, r, _) = step(RequestPhase::Awaiting, RequestEvent::TimedOut);
    assert_eq!(r, Some(Err("opener open_with_system timed out".to_string())));
    let (_, r, _) = step(RequestPhase::Awaiting, RequestEvent::ReceiverDropped);
    assert_eq!(r, Some(Err("opener open_with_system receiver dropped".to_string())));
    let (_, r, _) = step(RequestPhase::Awaiting, RequestEvent::Reply(Err("rejected: x".to_string())));
    assert_eq!(r, Some(Err("rejected: x".to_string())));
}

#[test]
fn finished_request_ignores_later_events() {
    let (p, r, ignored) = step(RequestPhase::Finished, RequestEvent::Reply(Ok(1)));
    assert_eq!(p, RequestPhase::Finished);
    assert_eq!(r, None);
    assert!(ignored);
    let (p, _, ignored) = step(RequestPhase::Finished, RequestEvent::Handle(true));
    assert_eq!(p, RequestPhase::Finished);
    assert!(ignored);
}

#[test]
fn out_of_phase_events_are_ignored() {
    let (p, _, ignored) = step(RequestPhase::Lookup, RequestEvent::Reply(Ok(1)));
    assert_eq!(p, RequestPhase::Lookup);
    assert!(ignored);
}

#[test]
fn account_requests_have_no_deadline() {
    let t = ohos_ability::account::login_texts();
    let (p, a) = request_step(RequestPhase::Awaiting, RequestEvent::<u8>::TimedOut, &t);
    assert_eq!(p, RequestPhase::Awaiting);
    assert!(matches!(a, RequestAction::Ignore));
}

#[test]
fn promise_checks() {
    let opener = reveal_in_dir_texts();
    assert_eq!(promise_check(&opener, true), Ok(()));
    assert_eq!(promise_check(&opener, false), Err("expected Promise from ArkTS".to_string()));
    let clip = clipboard_texts();
    assert_eq!(
        promise_check(&clip, false),
        Err("writeImageToClipboard did not return a Promise".to_string())
    );
    let account = ohos_ability::account::logout_texts();
    assert_eq!(promise_check(&account, false), Ok(()));
}

#[test]
fn opener_texts() {
    let t = reveal_in_dir_texts();
    assert_eq!(t.not_initialized, "opener reveal_in_dir TSFN not initialized");
    assert_eq!(t.call_failed, "call revealInDir TSFN failed: ");
    assert_eq!(t.timed_out.as_deref(), Some("opener reveal_in_dir timed out"));
    assert_eq!(t.receiver_dropped, "opener reveal_in_dir receiver dropped");
    assert_eq!(REPLY_DEADLINE_SECS, 10);
}

#[test]
fn init_slot_creates_once_then_reuses() {
    let mut slot: InitSlot<u32> = InitSlot::new();
    assert!(matches!(slot.decision(), InitDecision::Create));
    assert_eq!(slot.current(), None);
    slot.record(5);
    assert!(matches!(slot.decision(), InitDecision::Existing(&5)));
    assert_eq!(slot.current(), Some(&5));
}

#[test]
fn failed_initialization_leaves_the_slot_uninitialized() {
    let slot: InitSlot<u32> = InitSlot::new();
    assert!(matches!(slot.decision(), InitDecision::Create));
    assert!(matches!(slot.decision(), InitDecision::Create));
    let t = open_with_system_texts();
    match request_step::<u8>(RequestPhase::Lookup, RequestEvent::Handle(slot.current().is_some()), &t) {
        (RequestPhase::Finished, RequestAction::Finish(Err(e))) => assert_eq!(e, t.not_initialized),
        _ => panic!("a missing function must end the request"),
    }
}
