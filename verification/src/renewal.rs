//! Keeping the access token fresh: the decisions of the token-renewal loop,
//! which subscribes to the renewal stream, stores every token it receives, and
//! resubscribes when the stream fails, giving up after five failed
//! subscriptions in a row.
use vstd::prelude::*;

use crate::app_error::AppError;
use crate::text::{chars_of, push_str, string_from_chars};

verus! {

/// Failed subscriptions in a row after which the renewal gives up.
pub const MAX_RENEWAL_ATTEMPTS: u32 = 5;

/// Where the renewal loop stands.
#[derive(Clone, Copy, Debug, PartialEq, Eq)]
pub enum RenewalPhase {
    /// Waiting for the answer to a subscription request.
    Subscribing,
    /// Reading the renewal stream.
    Streaming,
    /// Given up; nothing more happens.
    Stopped,
}

/// Model of the state of the renewal loop: its phase and the number of
/// subscription attempts that failed since the last successful one.
pub struct RenewalStateView {
    pub phase: RenewalPhase,
    pub attempts: u32,
}

/// The state of the renewal loop: its phase and the number of subscription
/// attempts that failed since the last successful one.
#[derive(Clone, Copy, Debug, PartialEq, Eq)]
pub struct RenewalState {
    phase: RenewalPhase,
    attempts: u32,
}

impl View for RenewalState {
    type V = RenewalStateView;

    closed spec fn view(&self) -> RenewalStateView {
        RenewalStateView { phase: self.phase, attempts: self.attempts }
    }
}

/// What the outside world reports to the renewal loop.
#[derive(Clone, Debug, PartialEq, Eq)]
pub enum RenewalEvent {
    /// The subscription request succeeded and the stream is open.
    Subscribed,
    /// The subscription request failed.
    SubscribeFailed,
    /// The stream delivered a new token.
    TokenReceived(String),
    /// The stream delivered an empty message.
    EmptyMessage,
    /// Reading the stream failed.
    StreamFailed,
    /// The token was stored.
    TokenStored,
    /// Storing the token failed (the text says why).
    StoreFailed(String),
}

/// What the renewal loop asks the outside world to do next.
#[derive(Clone, Debug, PartialEq, Eq)]
pub enum RenewalAction {
    /// Send a subscription request.
    Subscribe,
    /// Wait for the next message of the stream.
    AwaitMessage,
    /// Store this token where requests read it.
    StoreToken(String),
    /// Stop, reporting this error.
    GiveUp(AppError),
}

/// Model of a [`RenewalEvent`].
pub enum RenewalEventView {
    Subscribed,
    SubscribeFailed,
    TokenReceived(Seq<char>),
    EmptyMessage,
    StreamFailed,
    TokenStored,
    StoreFailed(Seq<char>),
}

/// Model of a [`RenewalAction`]; an error is given by its message and cause.
pub enum RenewalActionView {
    Subscribe,
    AwaitMessage,
    StoreToken(Seq<char>),
    GiveUp(Seq<char>, Option<Seq<char>>),
}

impl View for RenewalEvent {
    type V = RenewalEventView;

    open spec fn view(&self) -> RenewalEventView {
        match self {
            RenewalEvent::Subscribed => RenewalEventView::Subscribed,
            RenewalEvent::SubscribeFailed => RenewalEventView::SubscribeFailed,
            RenewalEvent::TokenReceived(t) => RenewalEventView::TokenReceived(t@),
            RenewalEvent::EmptyMessage => RenewalEventView::EmptyMessage,
            RenewalEvent::StreamFailed => RenewalEventView::StreamFailed,
            RenewalEvent::TokenStored => RenewalEventView::TokenStored,
            RenewalEvent::StoreFailed(d) => RenewalEventView::StoreFailed(d@),
        }
    }
}

impl View for RenewalAction {
    type V = RenewalActionView;

    open spec fn view(&self) -> RenewalActionView {
        match self {
            RenewalAction::Subscribe => RenewalActionView::Subscribe,
            RenewalAction::AwaitMessage => RenewalActionView::AwaitMessage,
            RenewalAction::StoreToken(t) => RenewalActionView::StoreToken(t@),
            RenewalAction::GiveUp(e) => RenewalActionView::GiveUp(
                e.message@,
                match e.cause {
                    Some(c) => Some(c@),
                    None => None,
                },
            ),
        }
    }
}

/// The message when the subscription attempts are used up.
pub open spec fn attempts_exceeded_message() -> Seq<char> {
    "Connection attempts exceeded for token renewal."@
}

/// The message when a token cannot be stored.
pub open spec fn store_failed_message(detail: Seq<char>) -> Seq<char> {
    "Failure while acquiring write lock: "@ + detail
}

/// The state the loop starts in.
pub open spec fn renewal_initial() -> RenewalStateView {
    RenewalStateView { phase: RenewalPhase::Subscribing, attempts: 0 }
}

/// A state the loop can be in: while it runs, fewer than the maximum number
/// of failed attempts have been counted.
pub open spec fn renewal_wf(s: RenewalStateView) -> bool {
    s.phase != RenewalPhase::Stopped ==> s.attempts < MAX_RENEWAL_ATTEMPTS
}

/// One step of the renewal loop: the next state and the action, or `None`
/// where the event does not belong to the phase (the state is then kept).
pub open spec fn renewal_next(s: RenewalStateView, e: RenewalEventView) -> (RenewalStateView, Option<RenewalActionView>) {
    match (s.phase, e) {
        (RenewalPhase::Subscribing, RenewalEventView::Subscribed) => (
            RenewalStateView { phase: RenewalPhase::Streaming, attempts: 0 },
            Some(RenewalActionView::AwaitMessage),
        ),
        (RenewalPhase::Subscribing, RenewalEventView::SubscribeFailed) => if s.attempts + 1
            == MAX_RENEWAL_ATTEMPTS {
            (
                RenewalStateView { phase: RenewalPhase::Stopped, attempts: (s.attempts + 1) as u32 },
                Some(RenewalActionView::GiveUp(attempts_exceeded_message(), None)),
            )
        } else {
            (
                RenewalStateView { phase: RenewalPhase::Subscribing, attempts: (s.attempts + 1) as u32 },
                Some(RenewalActionView::Subscribe),
            )
        },
        (RenewalPhase::Streaming, RenewalEventView::TokenReceived(t)) => (
            s,
            Some(RenewalActionView::StoreToken(t)),
        ),
        (RenewalPhase::Streaming, RenewalEventView::TokenStored) => (
            s,
            Some(RenewalActionView::AwaitMessage),
        ),
        (RenewalPhase::Streaming, RenewalEventView::EmptyMessage) => (
            s,
            Some(RenewalActionView::AwaitMessage),
        ),
        (RenewalPhase::Streaming, RenewalEventView::StoreFailed(d)) => (
            RenewalStateView { phase: RenewalPhase::Stopped, ..s },
            Some(RenewalActionView::GiveUp(store_failed_message(d), None)),
        ),
        (RenewalPhase::Streaming, RenewalEventView::StreamFailed) => (
            RenewalStateView { phase: RenewalPhase::Subscribing, ..s },
            Some(RenewalActionView::Subscribe),
        ),
        _ => (s, None),
    }
}

impl RenewalState {
    #[verifier::type_invariant]
    spec fn well_formed(self) -> bool {
        renewal_wf(self@)
    }

    /// Where the loop stands.
    pub fn phase(&self) -> (p: RenewalPhase)
        ensures
            p == self@.phase,
    {
        self.phase
    }

    /// Failed subscription attempts since the last successful one.
    pub fn attempts(&self) -> (n: u32)
        ensures
            n == self@.attempts,
    {
        self.attempts
    }

    /// The starting state, and the first action: subscribe.
    pub fn start() -> (r: (RenewalState, RenewalAction))
        ensures
            r.0@ == renewal_initial(),
            r.1@ == RenewalActionView::Subscribe,
    {
        (RenewalState { phase: RenewalPhase::Subscribing, attempts: 0 }, RenewalAction::Subscribe)
    }

    /// Decides what follows an event.
    pub fn step(self, event: RenewalEvent) -> (r: (RenewalState, Option<RenewalAction>))
        ensures
            renewal_wf(self@),
            (r.0@, match r.1 {
                Some(a) => Some(a@),
                None => None,
            }) == renewal_next(self@, event@),
    {
        proof {
            use_type_invariant(&self);
        }
        match (self.phase, event) {
            (RenewalPhase::Subscribing, RenewalEvent::Subscribed) => (
                RenewalState { phase: RenewalPhase::Streaming, attempts: 0 },
                Some(RenewalAction::AwaitMessage),
            ),
            (RenewalPhase::Subscribing, RenewalEvent::SubscribeFailed) => {
                let attempts = self.attempts + 1;
                if attempts == MAX_RENEWAL_ATTEMPTS {
                    (
                        RenewalState { phase: RenewalPhase::Stopped, attempts },
                        Some(
                            RenewalAction::GiveUp(
                                AppError::new(
                                    String::from_str(
                                        "Connection attempts exceeded for token renewal.",
                                    ),
                                ),
                            ),
                        ),
                    )
                } else {
                    (
                        RenewalState { phase: RenewalPhase::Subscribing, attempts },
                        Some(RenewalAction::Subscribe),
                    )
                }
            },
            (RenewalPhase::Streaming, RenewalEvent::TokenReceived(t)) => (
                self,
                Some(RenewalAction::StoreToken(t)),
            ),
            (RenewalPhase::Streaming, RenewalEvent::TokenStored) => (
                self,
                Some(RenewalAction::AwaitMessage),
            ),
            (RenewalPhase::Streaming, RenewalEvent::EmptyMessage) => (
                self,
                Some(RenewalAction::AwaitMessage),
            ),
            (RenewalPhase::Streaming, RenewalEvent::StoreFailed(d)) => {
                let mut msg = chars_of("Failure while acquiring write lock: ");
                push_str(&mut msg, d.as_str());
                (
                    RenewalState { phase: RenewalPhase::Stopped, attempts: self.attempts },
                    Some(RenewalAction::GiveUp(AppError::new(string_from_chars(&msg)))),
                )
            },
            (RenewalPhase::Streaming, RenewalEvent::StreamFailed) => (
                RenewalState { phase: RenewalPhase::Subscribing, attempts: self.attempts },
                Some(RenewalAction::Subscribe),
            ),
            _ => (self, None),
        }
    }
}


/// The state after a sequence of events.
pub open spec fn renewal_run(s: RenewalStateView, events: Seq<RenewalEventView>) -> RenewalStateView
    decreases events.len(),
{
    if events.len() == 0 {
        s
    } else {
        renewal_next(renewal_run(s, events.drop_last()), events.last()).0
    }
}

/// `n` failed subscriptions in a row.
pub open spec fn failed_subscriptions(n: nat) -> Seq<RenewalEventView> {
    Seq::new(n, |i: int| RenewalEventView::SubscribeFailed)
}

/// Every step keeps the loop in a state it can be in.
pub proof fn lemma_renewal_wf_preserved(s: RenewalStateView, e: RenewalEventView)
    requires
        renewal_wf(s),
    ensures
        renewal_wf(renewal_next(s, e).0),
{
}

/// Counting from a fresh start, the loop keeps resubscribing after each of
/// the first four failed subscriptions in a row and gives up, reporting that
/// the attempts are exceeded, on the fifth.
pub proof fn lemma_renewal_gives_up_on_fifth_failure(n: nat)
    requires
        n <= MAX_RENEWAL_ATTEMPTS,
    ensures
        n < MAX_RENEWAL_ATTEMPTS ==> renewal_run(renewal_initial(), failed_subscriptions(n))
            == (RenewalStateView { phase: RenewalPhase::Subscribing, attempts: n as u32 }),
        n < MAX_RENEWAL_ATTEMPTS ==> (n + 1 < MAX_RENEWAL_ATTEMPTS <==> renewal_next(
            renewal_run(renewal_initial(), failed_subscriptions(n)),
            RenewalEventView::SubscribeFailed,
        ).1 == Some(RenewalActionView::Subscribe)),
        n == MAX_RENEWAL_ATTEMPTS ==> renewal_run(renewal_initial(), failed_subscriptions(n))
            == (RenewalStateView { phase: RenewalPhase::Stopped, attempts: MAX_RENEWAL_ATTEMPTS }),
        renewal_next(
            RenewalStateView { phase: RenewalPhase::Subscribing, attempts: (MAX_RENEWAL_ATTEMPTS - 1) as u32 },
            RenewalEventView::SubscribeFailed,
        ).1 == Some(RenewalActionView::GiveUp(attempts_exceeded_message(), None)),
    decreases n,
{
    if n > 0 {
        lemma_renewal_gives_up_on_fifth_failure((n - 1) as nat);
        assert(failed_subscriptions(n).drop_last() =~= failed_subscriptions((n - 1) as nat));
    }
}

/// A successful subscription resets the count of failed attempts: once the
/// stream it opened fails, the loop subscribes again as at the start, so five
/// more failures in a row are needed to give up.
pub proof fn lemma_renewal_success_resets(s: RenewalStateView)
    requires
        s.phase == RenewalPhase::Subscribing,
        renewal_wf(s),
    ensures
        renewal_run(s, seq![RenewalEventView::Subscribed, RenewalEventView::StreamFailed])
            == renewal_initial(),
{
    let ev = seq![RenewalEventView::Subscribed, RenewalEventView::StreamFailed];
    assert(ev.drop_last() =~= seq![RenewalEventView::Subscribed]);
    assert(ev.drop_last().drop_last() =~= Seq::<RenewalEventView>::empty());
    assert(renewal_run(s, ev.drop_last().drop_last()) == s);
    assert(renewal_run(s, ev.drop_last()) == RenewalStateView {
        phase: RenewalPhase::Streaming,
        attempts: 0,
    });
}

/// Once stopped, the loop stays stopped and asks for nothing; while streaming,
/// every received token is stored as it was received, and an empty message
/// only leads to waiting for the next one.
pub proof fn lemma_renewal_tokens_and_stop(s: RenewalStateView, e: RenewalEventView, t: Seq<char>)
    ensures
        s.phase == RenewalPhase::Stopped ==> renewal_next(s, e) == (s, None::<RenewalActionView>),
        s.phase == RenewalPhase::Streaming ==> renewal_next(s, RenewalEventView::TokenReceived(t))
            == (s, Some(RenewalActionView::StoreToken(t))),
        s.phase == RenewalPhase::Streaming ==> renewal_next(s, RenewalEventView::EmptyMessage)
            == (s, Some(RenewalActionView::AwaitMessage)),
{
}


/// Every event of the sequence was accepted by the loop: it belonged to the
/// phase the loop was in when it came.
pub open spec fn renewal_accepts(s: RenewalStateView, events: Seq<RenewalEventView>) -> bool
    decreases events.len(),
{
    events.len() == 0 || (renewal_accepts(s, events.drop_last()) && renewal_next(
        renewal_run(s, events.drop_last()),
        events.last(),
    ).1 is Some)
}

/// The token the holder has after a sequence of events, where it held
/// `first` at the start and every `StoreToken` action is carried out.
pub open spec fn renewal_held(s: RenewalStateView, first: Seq<char>, events: Seq<RenewalEventView>) -> Seq<char>
    decreases events.len(),
{
    if events.len() == 0 {
        first
    } else {
        match renewal_next(renewal_run(s, events.drop_last()), events.last()).1 {
            Some(RenewalActionView::StoreToken(t)) => t,
            _ => renewal_held(s, first, events.drop_last()),
        }
    }
}

/// The last token received in a sequence of events, or `first` where none
/// was received.
pub open spec fn last_received(first: Seq<char>, events: Seq<RenewalEventView>) -> Seq<char>
    decreases events.len(),
{
    if events.len() == 0 {
        first
    } else {
        match events.last() {
            RenewalEventView::TokenReceived(t) => t,
            _ => last_received(first, events.drop_last()),
        }
    }
}

/// The token holder always holds the latest token: as long as every event
/// belongs to the phase it comes in and every `StoreToken` action is carried
/// out, the holder has the token of the last renewal message received (the
/// first token where none was), whatever empty messages, stream failures and
/// failed subscriptions came in between.
pub proof fn lemma_holder_has_latest_token(
    s: RenewalStateView,
    first: Seq<char>,
    events: Seq<RenewalEventView>,
)
    requires
        renewal_accepts(s, events),
    ensures
        renewal_held(s, first, events) == last_received(first, events),
    decreases events.len(),
{
    if events.len() > 0 {
        lemma_holder_has_latest_token(s, first, events.drop_last());
    }
}

} // verus!
