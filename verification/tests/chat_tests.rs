use finam_bot::command::{Command, ParseError};
use finam_bot::control_chat::{self, ChatState};
use finam_bot::trade_chat::{Step, TgChat};
use finam_bot::trade_engine::TradeState;

fn reply(text: &str) -> Step {
    Step::Reply(text.to_string())
}

const TEXT_EXPECTED: &str = "Text command is expected. Type /start to see command list.";
const INVALID: &str = "Command is invalid. Type /start to see command list.";

#[test]
fn message_without_text_gets_a_hint() {
    let mut state = TradeState::empty();
    assert_eq!(TgChat::handle_message(&mut state, None), reply(TEXT_EXPECTED));
    assert_eq!(state, TradeState::empty());
}

#[test]
fn message_that_is_not_a_command_gets_a_hint() {
    let mut state = TradeState::empty();
    assert_eq!(TgChat::handle_message(&mut state, Some("hello")), reply(INVALID));
    assert_eq!(TgChat::handle_message(&mut state, Some("start")), reply(INVALID));
    assert_eq!(TgChat::handle_message(&mut state, Some(" /start")), reply(INVALID));
    assert_eq!(TgChat::handle_message(&mut state, Some(" /setamount 5")), reply(INVALID));
    assert_eq!(TgChat::handle_message(&mut state, Some("/setamount ten")), reply(INVALID));
    assert_eq!(TgChat::handle_message(&mut state, Some("/start@someone")), reply(INVALID));
    assert_eq!(state, TradeState::empty());
}

#[test]
fn start_answers_with_help() {
    let mut state = TradeState::empty();
    assert_eq!(
        TgChat::handle_message(&mut state, Some("/start")),
        Step::Reply(Command::descriptions())
    );
    assert_eq!(
        TgChat::handle_message(&mut state, Some("\t/start\n")),
        Step::Reply(Command::descriptions())
    );
    assert_eq!(TgChat::start(), Command::descriptions());
}

#[test]
fn chat_setters_store_arguments() {
    let mut state = TradeState::empty();
    assert_eq!(TgChat::handle_message(&mut state, Some("/setamount 10")), reply("Saved: amount = 10"));
    assert_eq!(state, TradeState { ticker: None, mic: None, amount: Some(10) });

    let mut state = TradeState { ticker: None, mic: Some("MISX".to_string()), amount: Some(5) };
    assert_eq!(TgChat::handle_message(&mut state, Some("/setinstrument SBER")), reply("Saved: ticker = SBER"));
    assert_eq!(
        state,
        TradeState { ticker: Some("SBER".to_string()), mic: Some("MISX".to_string()), amount: Some(5) }
    );

    assert_eq!(TgChat::handle_message(&mut state, Some("\t/setmic TQBR")), reply("Saved: mic = TQBR"));
    assert_eq!(state.mic, Some("TQBR".to_string()));
    assert_eq!(state.ticker, Some("SBER".to_string()));
    assert_eq!(state.amount, Some(5));

    assert_eq!(TgChat::handle_message(&mut state, Some("/setinstrument")), reply("Saved: ticker = "));
    assert_eq!(state.ticker, Some(String::new()));
}

#[test]
fn commands_without_handler_are_reported() {
    let mut state = TradeState::empty();
    assert_eq!(TgChat::handle_message(&mut state, Some("/buy")), Step::NoHandler(Command::Buy));
    assert_eq!(
        TgChat::handle_message(&mut state, Some("/getsystemhealth")),
        Step::NoHandler(Command::GetSystemHealth)
    );
    assert_eq!(state, TradeState::empty());
}

#[test]
fn current_config_of_empty_state() {
    let mut state = TradeState::empty();
    let expected = "Current config: TradeState {\n    ticker: None,\n    mic: None,\n    amount: None,\n}";
    assert_eq!(TgChat::handle_message(&mut state, Some("/getcurrentconfig")), reply(expected));
    assert_eq!(format!("Current config: {:#?}", state), expected);
}

#[test]
fn config_after_set_reports_the_values() {
    let mut state = TradeState::empty();
    assert_eq!(
        TgChat::execute(&mut state, Command::SetInstrument { ticker: "SBER".to_string() }),
        reply("Saved: ticker = SBER")
    );
    assert_eq!(
        TgChat::execute(&mut state, Command::SetAmount { amount: 10 }),
        reply("Saved: amount = 10")
    );
    let expected = "Current config: TradeState {\n    ticker: Some(\n        \"SBER\",\n    ),\n    mic: None,\n    amount: Some(\n        10,\n    ),\n}";
    assert_eq!(TgChat::execute(&mut state, Command::GetCurrentConfig), reply(expected));
    assert_eq!(format!("Current config: {:#?}", state), expected);
    assert_eq!(TgChat::get_current_config(&state), expected);
}

#[test]
fn config_text_escapes_like_debug() {
    let mut state = TradeState::empty();
    TgChat::set_instrument(&mut state, "S\"B\\R\n");
    TgChat::set_mic(&mut state, "MISX");
    TgChat::set_amount(&mut state, &4294967295);
    let shown = TgChat::get_current_config(&state);
    assert_eq!(shown, format!("Current config: {:#?}", state));
    assert!(shown.contains("\"S\\\"B\\\\R\\n\""));
    TgChat::set_amount(&mut state, &0);
    assert_eq!(TgChat::get_current_config(&state), format!("Current config: {:#?}", state));
}

#[test]
fn last_set_wins() {
    let mut state = TradeState::empty();
    TgChat::set_instrument(&mut state, "SBER");
    TgChat::set_instrument(&mut state, "GAZP");
    assert_eq!(state.ticker, Some("GAZP".to_string()));
    assert_eq!(state.mic, None);
}

#[test]
fn control_chat_answers_start_only() {
    assert_eq!(control_chat::TgChat::commands_handler("/start"), Ok(Step::Reply(Command::descriptions())));
    assert_eq!(
        control_chat::TgChat::commands_handler("/setamount 7"),
        Ok(Step::NoHandler(Command::SetAmount { amount: 7 }))
    );
    assert_eq!(
        control_chat::TgChat::commands_handler("/nope"),
        Err(ParseError::UnknownCommand("/nope".to_string()))
    );
}

#[test]
fn control_chat_setters_reply_what_was_saved() {
    let mut state = ChatState { ticker: None, mic: None, amount: None };
    assert_eq!(control_chat::TgChat::set_instrument(&mut state, "SBER".to_string()), "Saved: ticker = SBER");
    assert_eq!(control_chat::TgChat::set_mic(&mut state, "MISX".to_string()), "Saved: mic = MISX");
    assert_eq!(control_chat::TgChat::set_amount(&mut state, 250), "Saved: amount = 250");
    assert_eq!(state.ticker, Some("SBER".to_string()));
    assert_eq!(state.mic, Some("MISX".to_string()));
    assert_eq!(state.amount, Some(250));
}

#[test]
fn saved_amount_reads_back() {
    for n in [0u32, 7, 42, 1000, 4294967295] {
        let mut state = ChatState { ticker: None, mic: None, amount: None };
        let reply = control_chat::TgChat::set_amount(&mut state, n);
        let shown = reply.strip_prefix("Saved: amount = ").unwrap();
        assert_eq!(
            Command::parse(&format!("/setamount {}", shown), "bot_username"),
            Ok(Command::SetAmount { amount: n })
        );
    }
}
