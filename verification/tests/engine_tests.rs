use finam_bot::app_error::AppError;
use finam_bot::trade_engine::{EngineError, TradeEngine, TradeState};

#[test]
fn new_engine_is_empty() {
    let engine = TradeEngine::new();
    assert!(engine.state().is_none());
    assert!(!engine.position_opened());
}

#[test]
fn set_state_replaces_configuration() {
    let mut engine = TradeEngine::new();
    let config = TradeState { ticker: Some("SBER".to_string()), mic: None, amount: Some(3) };
    engine.set_state(config.clone());
    assert_eq!(engine.state(), Some(&config));
    assert!(!engine.position_opened());
}

#[test]
fn trading_is_not_implemented() {
    let mut engine = TradeEngine::new();
    assert_eq!(engine.buy(), Err(EngineError::NotImplemented));
    assert_eq!(engine.sell(), Err(EngineError::NotImplemented));
    assert!(engine.state().is_none());
}

#[test]
fn app_error_display() {
    let plain = AppError::new("Something failed".to_string());
    assert_eq!(plain.to_display_string(), "(message: Something failed, cause: None)");
    let caused = AppError::with_cause("Failed to authenticate".to_string(), "Status {\n    code: Unavailable,\n}".to_string());
    assert_eq!(
        caused.to_display_string(),
        "(message: Failed to authenticate, cause: Status {\n    code: Unavailable,\n})"
    );
}

#[test]
fn debug_layout_from_field_texts() {
    let text: String = finam_bot::trade_engine::layout_debug(Some("\"X\""), None, Some("7")).into_iter().collect();
    assert_eq!(
        text,
        "TradeState {\n    ticker: Some(\n        \"X\",\n    ),\n    mic: None,\n    amount: Some(\n        7,\n    ),\n}"
    );
}

#[test]
fn debug_text_matches_derived_debug() {
    let state = TradeState { ticker: Some("A\u{301}\u{0}".to_string()), mic: Some("'q'".to_string()), amount: None };
    let text: String = state.debug_text().into_iter().collect();
    assert_eq!(text, format!("{:#?}", state));
}
