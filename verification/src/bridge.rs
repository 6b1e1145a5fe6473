//! The request lifecycle shared by the bridges that call an ArkTS helper
//! through a thread-safe function and wait for its Promise: the one-shot reply
//! slot, the rejection texts, and the decisions taken at each step.

use vstd::prelude::*;
use vstd::string::*;
use futures_channel::oneshot::Sender;
use crate::handoff::{sender_send, Handoff};

verus! {

/// Sends `value` through the sender held in `slot`, if there still is one,
/// and empties the slot: only the first call actually sends, later calls are
/// no-ops. Returns the record of the send, made only when a sender was there.
pub fn send_once<T>(slot: &mut Option<Sender<T>>, value: T) -> (sent: Option<Handoff<T>>)
    ensures
        sent is Some <==> *old(slot) is Some,
        sent matches Some(h) ==> h.offered() == value && (h.refused() matches Some(v) ==> v == value),
        *final(slot) is None,
{
    match slot.take() {
        Some(sender) => Some(sender_send(sender, value)),
        None => None,
    }
}

/// The reply text of a rejected Promise: the rejection value as a string, or
/// `unknown rejection` when it cannot be read as one.
pub open spec fn rejection_text(reason: Option<Seq<char>>) -> Seq<char> {
    "rejected: "@ + match reason {
        Some(r) => r,
        None => "unknown rejection"@,
    }
}

/// The reply text of a rejected Promise.
pub fn rejection_message(reason: Option<String>) -> (r: String)
    ensures
        r@ == rejection_text(
            match reason {
                Some(s) => Some(s@),
                None => None,
            },
        ),
{
    let text = String::from_str("rejected: ");
    match reason {
        Some(s) => text.concat(s.as_str()),
        None => text.concat("unknown rejection"),
    }
}

/// The texts a request reports for each way it can fail.
pub struct RequestTexts {
    /// The thread-safe function was never created.
    pub not_initialized: String,
    /// Prefix of the text for a refused call; the call status follows it.
    pub call_failed: String,
    /// The helper returned something that is not a Promise, when the request
    /// checks for it.
    pub not_a_promise: Option<String>,
    /// No reply came in time, when the request has a deadline.
    pub timed_out: Option<String>,
    /// The reply channel was dropped without a reply.
    pub receiver_dropped: String,
}

/// The spec-level content of [`RequestTexts`].
pub struct TextsView {
    pub not_initialized: Seq<char>,
    pub call_failed: Seq<char>,
    pub not_a_promise: Option<Seq<char>>,
    pub timed_out: Option<Seq<char>>,
    pub receiver_dropped: Seq<char>,
}

pub open spec fn opt_view(s: Option<String>) -> Option<Seq<char>> {
    match s {
        Some(t) => Some(t@),
        None => None,
    }
}

impl View for RequestTexts {
    type V = TextsView;

    open spec fn view(&self) -> TextsView {
        TextsView {
            not_initialized: self.not_initialized@,
            call_failed: self.call_failed@,
            not_a_promise: opt_view(self.not_a_promise),
            timed_out: opt_view(self.timed_out),
            receiver_dropped: self.receiver_dropped@,
        }
    }
}

/// Where a request stands.
#[derive(Debug, Clone, Copy, PartialEq, Eq)]
pub enum RequestPhase {
    /// Looking up the thread-safe function.
    Lookup,
    /// The call to the ArkTS helper is being dispatched.
    Dispatch,
    /// Waiting for the Promise to settle.
    Awaiting,
    /// The caller has its result.
    Finished,
}

/// What the host observed.
pub enum RequestEvent<T> {
    /// Whether the thread-safe function exists.
    Handle(bool),
    /// The status of the dispatch: whether it was accepted, and its text.
    Dispatched { ok: bool, status: String },
    /// The reply that came through the channel.
    Reply(Result<T, String>),
    /// The channel closed without a reply.
    ReceiverDropped,
    /// The deadline passed.
    TimedOut,
}

/// What the host must do next.
pub enum RequestAction<T> {
    /// Dispatch the call to the ArkTS helper.
    Dispatch,
    /// Wait for the reply.
    Await,
    /// Hand this result to the caller.
    Finish(Result<T, String>),
    /// Nothing: the event does not belong to the current phase.
    Ignore,
}

/// The spec-level content of a [`RequestEvent`].
pub enum Observation<T> {
    Handle(bool),
    Dispatched(bool, Seq<char>),
    Reply(Result<T, Seq<char>>),
    ReceiverDropped,
    TimedOut,
}

/// The spec-level content of a [`RequestAction`].
pub enum Outcome<T> {
    Dispatch,
    Await,
    Done(Result<T, Seq<char>>),
    Ignore,
}

pub open spec fn result_view<T>(r: Result<T, String>) -> Result<T, Seq<char>> {
    match r {
        Ok(v) => Ok(v),
        Err(e) => Err(e@),
    }
}

impl<T> RequestEvent<T> {
    pub open spec fn observation(&self) -> Observation<T> {
        match self {
            RequestEvent::Handle(b) => Observation::Handle(*b),
            RequestEvent::Dispatched { ok, status } => Observation::Dispatched(*ok, status@),
            RequestEvent::Reply(r) => Observation::Reply(result_view(*r)),
            RequestEvent::ReceiverDropped => Observation::ReceiverDropped,
            RequestEvent::TimedOut => Observation::TimedOut,
        }
    }
}

impl<T> RequestAction<T> {
    pub open spec fn outcome(&self) -> Outcome<T> {
        match self {
            RequestAction::Dispatch => Outcome::Dispatch,
            RequestAction::Await => Outcome::Await,
            RequestAction::Finish(r) => Outcome::Done(result_view(*r)),
            RequestAction::Ignore => Outcome::Ignore,
        }
    }
}

/// The next phase and outcome of a request in `phase` on `obs`: a missing
/// function, a refused dispatch, a closed channel and a passed deadline each
/// end the request with their text; a reply ends it with the reply itself.
/// Events that do not belong to the phase, and every event once finished,
/// change nothing.
pub open spec fn request_transition<T>(phase: RequestPhase, obs: Observation<T>, texts: TextsView) -> (
    RequestPhase,
    Outcome<T>,
) {
    match (phase, obs) {
        (RequestPhase::Lookup, Observation::Handle(present)) => if present {
            (RequestPhase::Dispatch, Outcome::Dispatch)
        } else {
            (RequestPhase::Finished, Outcome::Done(Err(texts.not_initialized)))
        },
        (RequestPhase::Dispatch, Observation::Dispatched(ok, status)) => if ok {
            (RequestPhase::Awaiting, Outcome::Await)
        } else {
            (RequestPhase::Finished, Outcome::Done(Err(texts.call_failed + status)))
        },
        (RequestPhase::Awaiting, Observation::Reply(r)) => (RequestPhase::Finished, Outcome::Done(r)),
        (RequestPhase::Awaiting, Observation::ReceiverDropped) => (
            RequestPhase::Finished,
            Outcome::Done(Err(texts.receiver_dropped)),
        ),
        (RequestPhase::Awaiting, Observation::TimedOut) => match texts.timed_out {
            Some(t) => (RequestPhase::Finished, Outcome::Done(Err(t))),
            None => (phase, Outcome::Ignore),
        },
        _ => (phase, Outcome::Ignore),
    }
}

/// One step of a request: the next phase and what the host must do.
pub fn request_step<T>(phase: RequestPhase, event: RequestEvent<T>, texts: &RequestTexts) -> (r: (
    RequestPhase,
    RequestAction<T>,
))
    ensures
        (r.0, r.1.outcome()) == request_transition(phase, event.observation(), texts@),
{
    match (phase, event) {
        (RequestPhase::Lookup, RequestEvent::Handle(present)) => {
            if present {
                (RequestPhase::Dispatch, RequestAction::Dispatch)
            } else {
                (RequestPhase::Finished, RequestAction::Finish(Err(texts.not_initialized.clone())))
            }
        },
        (RequestPhase::Dispatch, RequestEvent::Dispatched { ok, status }) => {
            if ok {
                (RequestPhase::Awaiting, RequestAction::Await)
            } else {
                let text = texts.call_failed.clone().concat(status.as_str());
                (RequestPhase::Finished, RequestAction::Finish(Err(text)))
            }
        },
        (RequestPhase::Awaiting, RequestEvent::Reply(r)) => (RequestPhase::Finished, RequestAction::Finish(r)),
        (RequestPhase::Awaiting, RequestEvent::ReceiverDropped) => (
            RequestPhase::Finished,
            RequestAction::Finish(Err(texts.receiver_dropped.clone())),
        ),
        (RequestPhase::Awaiting, RequestEvent::TimedOut) => match &texts.timed_out {
            Some(t) => (RequestPhase::Finished, RequestAction::Finish(Err(t.clone()))),
            None => (phase, RequestAction::Ignore),
        },
        _ => (phase, RequestAction::Ignore),
    }
}

/// The check made on what the ArkTS helper returned before it is treated as
/// a Promise: refused with the request's text when it is not an object and
/// the request checks for it.
pub fn promise_check(texts: &RequestTexts, is_object: bool) -> (r: Result<(), String>)
    ensures
        match texts@.not_a_promise {
            Some(t) => if is_object {
                r is Ok
            } else {
                r matches Err(e) && e@ == t
            },
            None => r is Ok,
        },
{
    match &texts.not_a_promise {
        Some(t) => {
            if is_object {
                Ok(())
            } else {
                Err(t.clone())
            }
        },
        None => Ok(()),
    }
}


/// What a thread-safe-function initializer must do, given whether it already
/// ran and what its store holds.
pub enum InitDecision<T> {
    /// Not initialized yet: create the function and store it.
    Create,
    /// Already initialized: hand back the stored function.
    Existing(T),
    /// Marked initialized but nothing is stored.
    Inconsistent,
}

/// The initializer's decision: create only the first time, afterwards reuse
/// what was stored.
pub fn init_decision<T>(initialized: bool, stored: Option<T>) -> (r: InitDecision<T>)
    ensures
        !initialized ==> r is Create,
        initialized ==> match stored {
            Some(v) => r == InitDecision::Existing(v),
            None => r is Inconsistent,
        },
{
    if !initialized {
        return InitDecision::Create;
    }
    match stored {
        Some(v) => InitDecision::Existing(v),
        None => InitDecision::Inconsistent,
    }
}

/// The initializer's decision on a store that is `initialized` and holds
/// `stored`.
pub open spec fn init_choice<T>(initialized: bool, stored: Option<T>) -> InitDecision<T> {
    if !initialized {
        InitDecision::Create
    } else {
        match stored {
            Some(v) => InitDecision::Existing(v),
            None => InitDecision::Inconsistent,
        }
    }
}

/// The store of a thread-safe function that is created once: whether its
/// initializer has completed, and the function it stored.
pub struct InitSlot<T> {
    initialized: bool,
    stored: Option<T>,
}

impl<T> View for InitSlot<T> {
    type V = (bool, Option<T>);

    closed spec fn view(&self) -> (bool, Option<T>) {
        (self.initialized, self.stored)
    }
}

impl<T> InitSlot<T> {
    /// A store whose initializer has not run.
    pub fn new() -> (r: Self)
        ensures
            r@ == (false, None::<T>),
    {
        InitSlot { initialized: false, stored: None }
    }

    /// What an initializer must do now: create the function the first time,
    /// afterwards hand back the stored one.
    pub fn decision(&self) -> (r: InitDecision<&T>)
        ensures
            match init_choice(self@.0, self@.1) {
                InitDecision::Create => r is Create,
                InitDecision::Existing(v) => r matches InitDecision::Existing(w) && *w == v,
                InitDecision::Inconsistent => r is Inconsistent,
            },
    {
        init_decision(self.initialized, self.stored.as_ref())
    }

    /// The stored function, if any.
    pub fn current(&self) -> (r: Option<&T>)
        ensures
            r is Some <==> self@.1 is Some,
            r matches Some(w) ==> self@.1 == Some(*w),
    {
        self.stored.as_ref()
    }

    /// Records the function that the initializer created: from now on the
    /// store is initialized and holds it.
    pub fn record(&mut self, created: T)
        ensures
            final(self)@ == (true, Some(created)),
    {
        self.stored = Some(created);
        self.initialized = true;
    }
}

/// The text of an initializer whose flag is set while its store `store` is
/// empty.
pub fn inconsistent_store_text(store: &str) -> (r: String)
    ensures
        r@ == store@ + " flag set but TSFN is None"@,
{
    String::from_str(store).concat(" flag set but TSFN is None")
}

/// The text of a main-thread callback that could not reach helper method
/// `method` (no environment or no helper object).
pub fn helper_call_failed_text(method: &str) -> (r: String)
    ensures
        r@ == "Failed to call helper."@ + method@ + " from main thread"@,
{
    String::from_str("Failed to call helper.").concat(method).concat(" from main thread")
}

/// The text of an initializer that did not find helper method `method`;
/// `detail` is the lookup error.
pub fn helper_method_missing_text(method: &str, detail: &str) -> (r: String)
    ensures
        r@ == method@ + " not found: "@ + detail@,
{
    String::from_str(method).concat(" not found: ").concat(detail)
}

/// The text of an initializer that found no ArkTS helper object.
pub fn helper_missing_text() -> (r: String)
    ensures
        r@ == "ArkHelper not initialized"@,
{
    String::from_str("ArkHelper not initialized")
}

} // verus!
