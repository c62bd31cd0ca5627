use finam_bot::app_error::AppError;
use finam_bot::renewal::{RenewalAction, RenewalEvent, RenewalPhase, RenewalState};
use finam_bot::subscription::{
    SubscriptionAction, SubscriptionEvent, SubscriptionPhase, SubscriptionState,
};

#[test]
fn renewal_gives_up_on_fifth_failed_subscription() {
    let (mut state, first) = RenewalState::start();
    assert_eq!(first, RenewalAction::Subscribe);
    for n in 1..5u32 {
        let (next, action) = state.step(RenewalEvent::SubscribeFailed);
        assert_eq!(action, Some(RenewalAction::Subscribe));
        assert_eq!(next.phase(), RenewalPhase::Subscribing);
        assert_eq!(next.attempts(), n);
        state = next;
    }
    let (last, action) = state.step(RenewalEvent::SubscribeFailed);
    assert_eq!(last.phase(), RenewalPhase::Stopped);
    assert_eq!(
        action,
        Some(RenewalAction::GiveUp(AppError::new(
            "Connection attempts exceeded for token renewal.".to_string()
        )))
    );
    assert_eq!(last.step(RenewalEvent::Subscribed), (last, None));
}

#[test]
fn renewal_success_resets_attempts() {
    let (mut state, _) = RenewalState::start();
    for _ in 0..4 {
        state = state.step(RenewalEvent::SubscribeFailed).0;
    }
    let (streaming, action) = state.step(RenewalEvent::Subscribed);
    assert_eq!(action, Some(RenewalAction::AwaitMessage));
    assert_eq!(streaming.phase(), RenewalPhase::Streaming);
    assert_eq!(streaming.attempts(), 0);
    let (again, action) = streaming.step(RenewalEvent::StreamFailed);
    assert_eq!(action, Some(RenewalAction::Subscribe));
    assert_eq!(again, RenewalState::start().0);
    let mut s = again;
    for _ in 0..4 {
        let (next, action) = s.step(RenewalEvent::SubscribeFailed);
        assert_eq!(action, Some(RenewalAction::Subscribe));
        s = next;
    }
}

#[test]
fn renewal_stores_received_tokens() {
    let streaming = RenewalState::start().0.step(RenewalEvent::Subscribed).0;
    let (s, action) = streaming.step(RenewalEvent::TokenReceived("jwt-1".to_string()));
    assert_eq!(action, Some(RenewalAction::StoreToken("jwt-1".to_string())));
    let (s, action) = s.step(RenewalEvent::TokenStored);
    assert_eq!(action, Some(RenewalAction::AwaitMessage));
    let (s, action) = s.step(RenewalEvent::EmptyMessage);
    assert_eq!(action, Some(RenewalAction::AwaitMessage));
    let (s, action) = s.step(RenewalEvent::StoreFailed("poisoned lock".to_string()));
    assert_eq!(s.phase(), RenewalPhase::Stopped);
    assert_eq!(
        action,
        Some(RenewalAction::GiveUp(AppError::new(
            "Failure while acquiring write lock: poisoned lock".to_string()
        )))
    );
}

#[test]
fn renewal_ignores_events_of_other_phases() {
    let start = RenewalState::start().0;
    assert_eq!(start.step(RenewalEvent::TokenReceived("t".to_string())), (start, None));
    assert_eq!(start.step(RenewalEvent::StreamFailed), (start, None));
}

#[test]
fn subscription_waits_then_gives_up_on_fifth_failure() {
    let (mut state, first) = SubscriptionState::start();
    assert_eq!(first, SubscriptionAction::Subscribe);
    for n in 1..5u32 {
        let (waiting, action) = state.step(SubscriptionEvent::SubscribeFailed(format!("cause {}", n)));
        assert_eq!(action, Some(SubscriptionAction::Wait(200)));
        assert_eq!(waiting.attempts(), n);
        assert_eq!(waiting.phase(), &SubscriptionPhase::BackingOff { cause: format!("cause {}", n) });
        let (next, action) = waiting.step(SubscriptionEvent::Waited);
        assert_eq!(action, Some(SubscriptionAction::Subscribe));
        assert_eq!(next.phase(), &SubscriptionPhase::Subscribing);
        assert_eq!(next.attempts(), n);
        state = next;
    }
    let (waiting, action) = state.step(SubscriptionEvent::SubscribeFailed("cause 5".to_string()));
    assert_eq!(action, Some(SubscriptionAction::Wait(200)));
    let (stopped, action) = waiting.step(SubscriptionEvent::Waited);
    assert_eq!(stopped.phase(), &SubscriptionPhase::Stopped);
    assert_eq!(
        action,
        Some(SubscriptionAction::GiveUp(AppError::with_cause(
            "Failed to subscribe to bars".to_string(),
            "cause 5".to_string()
        )))
    );
    let (after, action) = stopped.step(SubscriptionEvent::Subscribed);
    assert_eq!(action, None);
    assert_eq!(after.phase(), &SubscriptionPhase::Stopped);
    assert_eq!(after.attempts(), 5);
}

#[test]
fn subscription_streams_and_resubscribes() {
    let (state, _) = SubscriptionState::start();
    let (state, _) = state.step(SubscriptionEvent::SubscribeFailed("x".to_string()));
    let (state, _) = state.step(SubscriptionEvent::Waited);
    let (streaming, action) = state.step(SubscriptionEvent::Subscribed);
    assert_eq!(action, Some(SubscriptionAction::AwaitMessage));
    assert_eq!(streaming.attempts(), 0);
    let (s, action) = streaming.step(SubscriptionEvent::BarsReceived);
    assert_eq!(action, Some(SubscriptionAction::DeliverAndAwait));
    let (s, action) = s.step(SubscriptionEvent::EmptyMessage);
    assert_eq!(action, Some(SubscriptionAction::AwaitMessage));
    let (s, action) = s.step(SubscriptionEvent::StreamFailed);
    assert_eq!(action, Some(SubscriptionAction::Subscribe));
    assert_eq!(s, SubscriptionState::start().0);
}

#[test]
fn subscription_symbol() {
    assert_eq!(finam_bot::subscription::bars_symbol_text(), "IMOEXF@RTSX");
}

#[test]
fn subscription_setup_errors() {
    let e = finam_bot::subscription::tls_config_error("bad".to_string());
    assert_eq!(e.to_display_string(), "(message: Failed to configure tls for MarketDataSubscriber, cause: bad)");
    let e = finam_bot::subscription::channel_error("down".to_string());
    assert_eq!(e.message, "Failed to open gRPC channel for MarketDataSubscriber");
}

#[test]
fn api_uri_accepts_urls() {
    assert!(finam_bot::subscription::api_uri("https://api.finam.ru:443").is_ok());
    assert!(finam_bot::subscription::api_uri("not a url").is_err());
    assert!(finam_bot::subscription::api_uri("").is_err());
}

#[test]
fn holder_keeps_latest_token() {
    let mut holder = "t0".to_string();
    let (mut state, mut action) = RenewalState::start();
    let events = vec![
        RenewalEvent::SubscribeFailed,
        RenewalEvent::Subscribed,
        RenewalEvent::TokenReceived("t1".to_string()),
        RenewalEvent::TokenStored,
        RenewalEvent::EmptyMessage,
        RenewalEvent::StreamFailed,
        RenewalEvent::Subscribed,
        RenewalEvent::TokenReceived("t2".to_string()),
        RenewalEvent::TokenStored,
        RenewalEvent::StreamFailed,
        RenewalEvent::SubscribeFailed,
    ];
    let mut held_after = Vec::new();
    for event in events {
        if let RenewalAction::StoreToken(t) = &action {
            holder = t.clone();
        }
        let (next, next_action) = state.step(event);
        state = next;
        action = next_action.expect("event belongs to the phase");
        if let RenewalAction::StoreToken(t) = &action {
            holder = t.clone();
        }
        held_after.push(holder.clone());
    }
    assert_eq!(held_after, vec!["t0", "t0", "t1", "t1", "t1", "t1", "t1", "t2", "t2", "t2", "t2"]);
}

#[test]
fn bars_request_is_one_minute_bars() {
    let r = finam_bot::subscription::bars_request();
    assert_eq!(r.symbol, "IMOEXF@RTSX");
    assert_eq!(r.timeframe, finam_bot::subscription::BarsTimeFrame::M1);
}

#[test]
fn client_bars_request_is_one_minute_bars() {
    let r = finam_bot::subscription::client_bars_request();
    assert_eq!(r.symbol, "IMOEXF");
    assert_eq!(r.timeframe, finam_bot::subscription::BarsTimeFrame::M1);
}
