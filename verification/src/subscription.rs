//! Receiving market-data bars: the decisions of the subscription loop, which
//! subscribes to the bars stream, hands every bar it receives to the
//! subscriber, resubscribes when the stream fails, waits before retrying a
//! failed subscription, and gives up after five failed subscriptions in a row.
use vstd::prelude::*;

use crate::app_error::AppError;
use hyper::http::uri::InvalidUri;
use hyper::Uri;

verus! {

/// `hyper::Uri` (the `http` crate's URI), declared so that a parsed address
/// can be handed on; nothing is known of what it holds.
#[verifier::external_type_specification]
#[verifier::external_body]
pub struct ExUri(Uri);

/// The `http` crate's URI parse error, declared so that it can be handed on.
#[verifier::external_type_specification]
#[verifier::external_body]
pub struct ExInvalidUri(InvalidUri);

/// Whether `http` reads the text as a URI (`<Uri as FromStr>::from_str`
/// succeeds); the URI grammar is the `http` crate's.
pub uninterp spec fn uri_accepts(s: Seq<char>) -> bool;

/// The URI that `http` reads from the text (`<Uri as FromStr>::from_str`),
/// where it reads one.
pub uninterp spec fn uri_of(s: Seq<char>) -> Uri;

/// Parses a URI with `<hyper::Uri as FromStr>::from_str`. Trusted: it
/// succeeds exactly when `uri_accepts` holds of the text, and the URI it gives
/// is `uri_of` the text; both depend on the text alone.
#[verifier::external_body]
fn parse_uri(s: &str) -> (r: Result<Uri, InvalidUri>)
    ensures
        r is Ok <==> uri_accepts(s@),
        r matches Ok(u) ==> u == uri_of(s@),
{
    <Uri as std::str::FromStr>::from_str(s)
}

/// The address of the market-data service, parsed from the configured URL.
pub fn api_uri(api_url: &str) -> (r: Result<Uri, InvalidUri>)
    ensures
        r is Ok <==> uri_accepts(api_url@),
        r matches Ok(u) ==> u == uri_of(api_url@),
{
    parse_uri(api_url)
}

/// The error when the TLS configuration of the market-data channel fails;
/// `cause` is the pretty `Debug` text of the failure.
pub fn tls_config_error(cause: String) -> (e: AppError)
    ensures
        e.message@ == "Failed to configure tls for MarketDataSubscriber"@,
        e.cause matches Some(c) && c@ == cause@,
{
    AppError::with_cause(String::from_str("Failed to configure tls for MarketDataSubscriber"), cause)
}

/// The error when the market-data channel cannot be opened; `cause` is the
/// pretty `Debug` text of the failure.
pub fn channel_error(cause: String) -> (e: AppError)
    ensures
        e.message@ == "Failed to open gRPC channel for MarketDataSubscriber"@,
        e.cause matches Some(c) && c@ == cause@,
{
    AppError::with_cause(
        String::from_str("Failed to open gRPC channel for MarketDataSubscriber"),
        cause,
    )
}

/// The error of a failed subscription; `cause` is the pretty `Debug` text of
/// the failure.
pub fn subscribe_error(cause: String) -> (e: AppError)
    ensures
        e.message@ == subscribe_failed_message(),
        e.cause matches Some(c) && c@ == cause@,
{
    AppError::with_cause(String::from_str("Failed to subscribe to bars"), cause)
}

/// Failed subscriptions in a row after which the subscription gives up.
pub const MAX_SUBSCRIBE_ATTEMPTS: u32 = 5;

/// Milliseconds to wait after a failed subscription.
pub const RETRY_DELAY_MILLIS: u64 = 200;

/// The instrument whose bars are subscribed to.
pub open spec fn bars_symbol() -> Seq<char> {
    "IMOEXF@RTSX"@
}

/// The instrument whose bars are subscribed to.
pub fn bars_symbol_text() -> (s: String)
    ensures
        s@ == bars_symbol(),
{
    String::from_str("IMOEXF@RTSX")
}

/// The length of the bars subscribed to.
#[derive(Clone, Copy, Debug, PartialEq, Eq)]
pub enum BarsTimeFrame {
    /// One-minute bars.
    M1,
}

/// The subscription request: the instrument and the bar length.
#[derive(Clone, Debug, PartialEq, Eq)]
pub struct BarsRequest {
    pub symbol: String,
    pub timeframe: BarsTimeFrame,
}

/// The request sent on every subscription attempt: one-minute bars of
/// [`bars_symbol`].
pub fn bars_request() -> (r: BarsRequest)
    ensures
        r.symbol@ == bars_symbol(),
        r.timeframe == BarsTimeFrame::M1,
{
    BarsRequest { symbol: bars_symbol_text(), timeframe: BarsTimeFrame::M1 }
}

/// The instrument whose bars the stand-alone market-data client streams.
pub open spec fn client_bars_symbol() -> Seq<char> {
    "IMOEXF"@
}

/// The request of the stand-alone market-data client: one-minute bars of
/// [`client_bars_symbol`].
pub fn client_bars_request() -> (r: BarsRequest)
    ensures
        r.symbol@ == client_bars_symbol(),
        r.timeframe == BarsTimeFrame::M1,
{
    BarsRequest { symbol: String::from_str("IMOEXF"), timeframe: BarsTimeFrame::M1 }
}

/// Where the subscription loop stands.
#[derive(Clone, Debug, PartialEq, Eq)]
pub enum SubscriptionPhase {
    /// Waiting for the answer to a subscription request.
    Subscribing,
    /// Waiting before deciding on a failed subscription; the cause of the
    /// failure (its pretty `Debug` text) is kept for the error report.
    BackingOff { cause: String },
    /// Reading the bars stream.
    Streaming,
    /// Given up; nothing more happens.
    Stopped,
}

/// The state of the subscription loop: its phase and the number of
/// subscription attempts that failed since the last successful one.
#[derive(Debug, PartialEq, Eq)]
pub struct SubscriptionState {
    phase: SubscriptionPhase,
    attempts: u32,
}

/// Model of a [`SubscriptionPhase`].
pub enum SubscriptionPhaseView {
    Subscribing,
    BackingOff { cause: Seq<char> },
    Streaming,
    Stopped,
}

/// Model of a [`SubscriptionState`].
pub struct SubscriptionStateView {
    pub phase: SubscriptionPhaseView,
    pub attempts: u32,
}

impl View for SubscriptionPhase {
    type V = SubscriptionPhaseView;

    open spec fn view(&self) -> SubscriptionPhaseView {
        match self {
            SubscriptionPhase::Subscribing => SubscriptionPhaseView::Subscribing,
            SubscriptionPhase::BackingOff { cause } => SubscriptionPhaseView::BackingOff {
                cause: cause@,
            },
            SubscriptionPhase::Streaming => SubscriptionPhaseView::Streaming,
            SubscriptionPhase::Stopped => SubscriptionPhaseView::Stopped,
        }
    }
}

impl View for SubscriptionState {
    type V = SubscriptionStateView;

    closed spec fn view(&self) -> SubscriptionStateView {
        SubscriptionStateView { phase: self.phase@, attempts: self.attempts }
    }
}

/// What the outside world reports to the subscription loop.
#[derive(Clone, Debug, PartialEq, Eq)]
pub enum SubscriptionEvent {
    /// The subscription request succeeded and the stream is open.
    Subscribed,
    /// The subscription request failed; the text is the pretty `Debug` text
    /// of the failure.
    SubscribeFailed(String),
    /// The wait after a failure is over.
    Waited,
    /// The stream delivered a message with bars.
    BarsReceived,
    /// The stream delivered an empty message.
    EmptyMessage,
    /// Reading the stream failed.
    StreamFailed,
}

/// Model of a [`SubscriptionEvent`].
pub enum SubscriptionEventView {
    Subscribed,
    SubscribeFailed(Seq<char>),
    Waited,
    BarsReceived,
    EmptyMessage,
    StreamFailed,
}

impl View for SubscriptionEvent {
    type V = SubscriptionEventView;

    open spec fn view(&self) -> SubscriptionEventView {
        match self {
            SubscriptionEvent::Subscribed => SubscriptionEventView::Subscribed,
            SubscriptionEvent::SubscribeFailed(c) => SubscriptionEventView::SubscribeFailed(c@),
            SubscriptionEvent::Waited => SubscriptionEventView::Waited,
            SubscriptionEvent::BarsReceived => SubscriptionEventView::BarsReceived,
            SubscriptionEvent::EmptyMessage => SubscriptionEventView::EmptyMessage,
            SubscriptionEvent::StreamFailed => SubscriptionEventView::StreamFailed,
        }
    }
}

/// What the subscription loop asks the outside world to do next.
#[derive(Clone, Debug, PartialEq, Eq)]
pub enum SubscriptionAction {
    /// Send a subscription request.
    Subscribe,
    /// Wait this many milliseconds.
    Wait(u64),
    /// Hand every bar of the message just received to the subscriber, in
    /// order, then wait for the next message.
    DeliverAndAwait,
    /// Wait for the next message of the stream.
    AwaitMessage,
    /// Stop, reporting this error.
    GiveUp(AppError),
}

/// Model of a [`SubscriptionAction`]; an error is given by its message and
/// cause.
pub enum SubscriptionActionView {
    Subscribe,
    Wait(u64),
    DeliverAndAwait,
    AwaitMessage,
    GiveUp(Seq<char>, Option<Seq<char>>),
}

impl View for SubscriptionAction {
    type V = SubscriptionActionView;

    open spec fn view(&self) -> SubscriptionActionView {
        match self {
            SubscriptionAction::Subscribe => SubscriptionActionView::Subscribe,
            SubscriptionAction::Wait(ms) => SubscriptionActionView::Wait(*ms),
            SubscriptionAction::DeliverAndAwait => SubscriptionActionView::DeliverAndAwait,
            SubscriptionAction::AwaitMessage => SubscriptionActionView::AwaitMessage,
            SubscriptionAction::GiveUp(e) => SubscriptionActionView::GiveUp(
                e.message@,
                match e.cause {
                    Some(c) => Some(c@),
                    None => None,
                },
            ),
        }
    }
}

/// The message of the error reported when subscribing fails.
pub open spec fn subscribe_failed_message() -> Seq<char> {
    "Failed to subscribe to bars"@
}

/// The state the loop starts in.
pub open spec fn subscription_initial() -> SubscriptionStateView {
    SubscriptionStateView { phase: SubscriptionPhaseView::Subscribing, attempts: 0 }
}

/// A state the loop can be in: while it subscribes or streams, fewer than the
/// maximum number of failed attempts have been counted; while it waits, the
/// failure just counted is included.
pub open spec fn subscription_wf(s: SubscriptionStateView) -> bool {
    match s.phase {
        SubscriptionPhaseView::Subscribing => s.attempts < MAX_SUBSCRIBE_ATTEMPTS,
        SubscriptionPhaseView::Streaming => s.attempts < MAX_SUBSCRIBE_ATTEMPTS,
        SubscriptionPhaseView::BackingOff { .. } => 1 <= s.attempts <= MAX_SUBSCRIBE_ATTEMPTS,
        SubscriptionPhaseView::Stopped => true,
    }
}

/// One step of the subscription loop: the next state and the action, or
/// `None` where the event does not belong to the phase (the state is then
/// kept).
pub open spec fn subscription_next(s: SubscriptionStateView, e: SubscriptionEventView) -> (SubscriptionStateView, Option<SubscriptionActionView>) {
    match (s.phase, e) {
        (SubscriptionPhaseView::Subscribing, SubscriptionEventView::Subscribed) => (
            SubscriptionStateView { phase: SubscriptionPhaseView::Streaming, attempts: 0 },
            Some(SubscriptionActionView::AwaitMessage),
        ),
        (SubscriptionPhaseView::Subscribing, SubscriptionEventView::SubscribeFailed(c)) => (
            SubscriptionStateView {
                phase: SubscriptionPhaseView::BackingOff { cause: c },
                attempts: (s.attempts + 1) as u32,
            },
            Some(SubscriptionActionView::Wait(RETRY_DELAY_MILLIS)),
        ),
        (SubscriptionPhaseView::BackingOff { cause }, SubscriptionEventView::Waited) => if s.attempts
            >= MAX_SUBSCRIBE_ATTEMPTS {
            (
                SubscriptionStateView { phase: SubscriptionPhaseView::Stopped, attempts: s.attempts },
                Some(SubscriptionActionView::GiveUp(subscribe_failed_message(), Some(cause))),
            )
        } else {
            (
                SubscriptionStateView {
                    phase: SubscriptionPhaseView::Subscribing,
                    attempts: s.attempts,
                },
                Some(SubscriptionActionView::Subscribe),
            )
        },
        (SubscriptionPhaseView::Streaming, SubscriptionEventView::BarsReceived) => (
            s,
            Some(SubscriptionActionView::DeliverAndAwait),
        ),
        (SubscriptionPhaseView::Streaming, SubscriptionEventView::EmptyMessage) => (
            s,
            Some(SubscriptionActionView::AwaitMessage),
        ),
        (SubscriptionPhaseView::Streaming, SubscriptionEventView::StreamFailed) => (
            SubscriptionStateView { phase: SubscriptionPhaseView::Subscribing, attempts: s.attempts },
            Some(SubscriptionActionView::Subscribe),
        ),
        _ => (s, None),
    }
}

impl SubscriptionState {
    #[verifier::type_invariant]
    spec fn well_formed(self) -> bool {
        subscription_wf(self@)
    }

    /// Where the loop stands.
    pub fn phase(&self) -> (p: &SubscriptionPhase)
        ensures
            p@ == self@.phase,
    {
        &self.phase
    }

    /// Failed subscription attempts since the last successful one.
    pub fn attempts(&self) -> (n: u32)
        ensures
            n == self@.attempts,
    {
        self.attempts
    }

    /// The starting state, and the first action: subscribe.
    pub fn start() -> (r: (SubscriptionState, SubscriptionAction))
        ensures
            r.0@ == subscription_initial(),
            r.1@ == SubscriptionActionView::Subscribe,
    {
        (
            SubscriptionState { phase: SubscriptionPhase::Subscribing, attempts: 0 },
            SubscriptionAction::Subscribe,
        )
    }

    /// Decides what follows an event.
    pub fn step(self, event: SubscriptionEvent) -> (r: (SubscriptionState, Option<SubscriptionAction>))
        ensures
            subscription_wf(self@),
            (r.0@, match r.1 {
                Some(a) => Some(a@),
                None => None,
            }) == subscription_next(self@, event@),
    {
        proof {
            use_type_invariant(&self);
        }
        let attempts = self.attempts;
        match (self.phase, event) {
            (SubscriptionPhase::Subscribing, SubscriptionEvent::Subscribed) => (
                SubscriptionState { phase: SubscriptionPhase::Streaming, attempts: 0 },
                Some(SubscriptionAction::AwaitMessage),
            ),
            (SubscriptionPhase::Subscribing, SubscriptionEvent::SubscribeFailed(c)) => (
                SubscriptionState {
                    phase: SubscriptionPhase::BackingOff { cause: c },
                    attempts: attempts + 1,
                },
                Some(SubscriptionAction::Wait(RETRY_DELAY_MILLIS)),
            ),
            (SubscriptionPhase::BackingOff { cause }, SubscriptionEvent::Waited) => {
                if attempts >= MAX_SUBSCRIBE_ATTEMPTS {
                    (
                        SubscriptionState { phase: SubscriptionPhase::Stopped, attempts },
                        Some(
                            SubscriptionAction::GiveUp(subscribe_error(cause)),
                        ),
                    )
                } else {
                    (
                        SubscriptionState { phase: SubscriptionPhase::Subscribing, attempts },
                        Some(SubscriptionAction::Subscribe),
                    )
                }
            },
            (SubscriptionPhase::Streaming, SubscriptionEvent::BarsReceived) => (
                SubscriptionState { phase: SubscriptionPhase::Streaming, attempts },
                Some(SubscriptionAction::DeliverAndAwait),
            ),
            (SubscriptionPhase::Streaming, SubscriptionEvent::EmptyMessage) => (
                SubscriptionState { phase: SubscriptionPhase::Streaming, attempts },
                Some(SubscriptionAction::AwaitMessage),
            ),
            (SubscriptionPhase::Streaming, SubscriptionEvent::StreamFailed) => (
                SubscriptionState { phase: SubscriptionPhase::Subscribing, attempts },
                Some(SubscriptionAction::Subscribe),
            ),
            (phase, _) => (SubscriptionState { phase, attempts }, None),
        }
    }
}


/// The state after a sequence of events.
pub open spec fn subscription_run(s: SubscriptionStateView, events: Seq<SubscriptionEventView>) -> SubscriptionStateView
    decreases events.len(),
{
    if events.len() == 0 {
        s
    } else {
        subscription_next(subscription_run(s, events.drop_last()), events.last()).0
    }
}

/// Failed subscriptions in a row, each followed by the end of the wait after
/// it; `causes` are the failures' texts, in order.
pub open spec fn failed_rounds(causes: Seq<Seq<char>>) -> Seq<SubscriptionEventView>
    decreases causes.len(),
{
    if causes.len() == 0 {
        Seq::empty()
    } else {
        failed_rounds(causes.drop_last()) + seq![
            SubscriptionEventView::SubscribeFailed(causes.last()),
            SubscriptionEventView::Waited,
        ]
    }
}

/// Every step keeps the loop in a state it can be in.
pub proof fn lemma_subscription_wf_preserved(s: SubscriptionStateView, e: SubscriptionEventView)
    requires
        subscription_wf(s),
    ensures
        subscription_wf(subscription_next(s, e).0),
{
}

/// A failed subscription is always followed by a wait of the retry delay, and
/// only after that wait does the loop retry or give up; giving up reports the
/// cause of the failure that used up the attempts.
pub proof fn lemma_subscription_waits_after_failure(s: SubscriptionStateView, c: Seq<char>)
    requires
        s.phase is Subscribing,
        subscription_wf(s),
    ensures
        subscription_next(s, SubscriptionEventView::SubscribeFailed(c)).1 == Some(
            SubscriptionActionView::Wait(RETRY_DELAY_MILLIS),
        ),
        s.attempts + 1 < MAX_SUBSCRIBE_ATTEMPTS ==> subscription_next(
            subscription_next(s, SubscriptionEventView::SubscribeFailed(c)).0,
            SubscriptionEventView::Waited,
        ) == (SubscriptionStateView {
            phase: SubscriptionPhaseView::Subscribing,
            attempts: (s.attempts + 1) as u32,
        }, Some(SubscriptionActionView::Subscribe)),
        s.attempts + 1 == MAX_SUBSCRIBE_ATTEMPTS ==> subscription_next(
            subscription_next(s, SubscriptionEventView::SubscribeFailed(c)).0,
            SubscriptionEventView::Waited,
        ).1 == Some(SubscriptionActionView::GiveUp(subscribe_failed_message(), Some(c))),
{
}

/// Counting from a fresh start, the loop keeps resubscribing after each of
/// the first four failed subscriptions in a row and stops after the fifth.
pub proof fn lemma_subscription_gives_up_on_fifth_failure(causes: Seq<Seq<char>>)
    requires
        causes.len() <= MAX_SUBSCRIBE_ATTEMPTS,
    ensures
        causes.len() < MAX_SUBSCRIBE_ATTEMPTS ==> subscription_run(
            subscription_initial(),
            failed_rounds(causes),
        ) == (SubscriptionStateView {
            phase: SubscriptionPhaseView::Subscribing,
            attempts: causes.len() as u32,
        }),
        causes.len() == MAX_SUBSCRIBE_ATTEMPTS ==> subscription_run(
            subscription_initial(),
            failed_rounds(causes),
        ) == (SubscriptionStateView {
            phase: SubscriptionPhaseView::Stopped,
            attempts: MAX_SUBSCRIBE_ATTEMPTS,
        }),
    decreases causes.len(),
{
    if causes.len() > 0 {
        let prev = causes.drop_last();
        lemma_subscription_gives_up_on_fifth_failure(prev);
        let ev = failed_rounds(causes);
        assert(ev.drop_last() =~= failed_rounds(prev) + seq![
            SubscriptionEventView::SubscribeFailed(causes.last()),
        ]);
        assert(ev.drop_last().drop_last() =~= failed_rounds(prev));
        let before = subscription_run(subscription_initial(), failed_rounds(prev));
        assert(subscription_run(subscription_initial(), ev.drop_last().drop_last()) == before);
        assert(subscription_run(subscription_initial(), ev.drop_last()) == SubscriptionStateView {
            phase: SubscriptionPhaseView::BackingOff { cause: causes.last() },
            attempts: (prev.len() + 1) as u32,
        });
    } else {
        assert(failed_rounds(causes) =~= Seq::<SubscriptionEventView>::empty());
    }
}

/// A successful subscription resets the count of failed attempts: once the
/// stream it opened fails, the loop subscribes again as at the start, so five
/// more failures in a row are needed to give up.
pub proof fn lemma_subscription_success_resets(s: SubscriptionStateView)
    requires
        s.phase is Subscribing,
        subscription_wf(s),
    ensures
        subscription_run(
            s,
            seq![SubscriptionEventView::Subscribed, SubscriptionEventView::StreamFailed],
        ) == subscription_initial(),
{
    let ev = seq![SubscriptionEventView::Subscribed, SubscriptionEventView::StreamFailed];
    assert(ev.drop_last() =~= seq![SubscriptionEventView::Subscribed]);
    assert(ev.drop_last().drop_last() =~= Seq::<SubscriptionEventView>::empty());
    assert(subscription_run(s, ev.drop_last().drop_last()) == s);
    assert(subscription_run(s, ev.drop_last()) == SubscriptionStateView {
        phase: SubscriptionPhaseView::Streaming,
        attempts: 0,
    });
}

/// While streaming, a message with bars is delivered and the next awaited,
/// an empty message only leads to awaiting the next; once stopped, the loop
/// stays stopped and asks for nothing.
pub proof fn lemma_subscription_stream_and_stop(s: SubscriptionStateView, e: SubscriptionEventView)
    ensures
        s.phase is Streaming ==> subscription_next(s, SubscriptionEventView::BarsReceived) == (s, Some(
            SubscriptionActionView::DeliverAndAwait,
        )),
        s.phase is Streaming ==> subscription_next(s, SubscriptionEventView::EmptyMessage) == (s, Some(
            SubscriptionActionView::AwaitMessage,
        )),
        s.phase is Stopped ==> subscription_next(s, e) == (s, None::<SubscriptionActionView>),
{
}

} // verus!
