use finam_bot::command::{Command, ParseError};
use finam_bot::text::IntErrorKind;

const HELP: &str = "These commands are supported:\n\n\
/start — Display this text.\n\
/getsystemhealth — Show system health status.\n\
/getcurrentconfig — Show all properties and their values.\n\
/getchoseninstrumentinfo — Show detailed information about chosen instrument.\n\
/setinstrument — Set instrument to be traded.\n\
/setmic — Set market identifier code for chosen stock exchange.\n\
/setamount — Set amount to be traded in 1 operation.\n\
/buy — Execute buy operation.\n\
/sell — Execute sell operation.\n\
/closeposition — Close current position.";

#[test]
fn descriptions_list_every_command() {
    assert_eq!(Command::descriptions(), HELP);
}

#[test]
fn listed_commands_parse_back() {
    let expected = vec![
        Ok(Command::Start),
        Ok(Command::GetSystemHealth),
        Ok(Command::GetCurrentConfig),
        Ok(Command::GetChosenInstrumentInfo { ticker: String::new() }),
        Ok(Command::SetInstrument { ticker: String::new() }),
        Ok(Command::SetMic { mic: String::new() }),
        Err(ParseError::IncorrectFormat(IntErrorKind::Empty)),
        Ok(Command::Buy),
        Ok(Command::Sell),
        Ok(Command::ClosePosition),
    ];
    let help = Command::descriptions();
    let lines: Vec<&str> = help.lines().skip(2).collect();
    assert_eq!(lines.len(), 10);
    for (line, want) in lines.iter().zip(expected.into_iter()) {
        let name = line.split(" — ").next().unwrap();
        assert_eq!(Command::parse(name, "any_bot"), want);
    }
}

#[test]
fn parse_unit_commands_ignore_arguments() {
    assert_eq!(Command::parse("/start", "bot_username"), Ok(Command::Start));
    assert_eq!(Command::parse("/buy now please", "bot_username"), Ok(Command::Buy));
    assert_eq!(Command::parse("/closeposition", "bot_username"), Ok(Command::ClosePosition));
}

#[test]
fn parse_text_arguments_are_the_rest_of_the_message() {
    assert_eq!(
        Command::parse("/setinstrument SBER", "bot_username"),
        Ok(Command::SetInstrument { ticker: "SBER".to_string() })
    );
    assert_eq!(
        Command::parse("/setmic MISX extra words", "bot_username"),
        Ok(Command::SetMic { mic: "MISX extra words".to_string() })
    );
    assert_eq!(
        Command::parse("/getchoseninstrumentinfo  GAZP", "bot_username"),
        Ok(Command::GetChosenInstrumentInfo { ticker: " GAZP".to_string() })
    );
}

#[test]
fn parse_amounts() {
    assert_eq!(Command::parse("/setamount 12", "b"), Ok(Command::SetAmount { amount: 12 }));
    assert_eq!(Command::parse("/setamount +7", "b"), Ok(Command::SetAmount { amount: 7 }));
    assert_eq!(
        Command::parse("/setamount 4294967295", "b"),
        Ok(Command::SetAmount { amount: 4294967295 })
    );
    assert_eq!(
        Command::parse("/setamount 4294967296", "b"),
        Err(ParseError::IncorrectFormat(IntErrorKind::PosOverflow))
    );
    assert_eq!(
        Command::parse("/setamount", "b"),
        Err(ParseError::IncorrectFormat(IntErrorKind::Empty))
    );
    assert_eq!(
        Command::parse("/setamount 1x", "b"),
        Err(ParseError::IncorrectFormat(IntErrorKind::InvalidDigit))
    );
    assert_eq!(
        Command::parse("/setamount -1", "b"),
        Err(ParseError::IncorrectFormat(IntErrorKind::InvalidDigit))
    );
    assert_eq!(
        Command::parse("/setamount +", "b"),
        Err(ParseError::IncorrectFormat(IntErrorKind::InvalidDigit))
    );
    assert_eq!(
        Command::parse("/setamount 99999999999x", "b"),
        Err(ParseError::IncorrectFormat(IntErrorKind::PosOverflow))
    );
}

#[test]
fn parse_amounts_agree_with_std() {
    for text in ["0", "42", "+0", "007", "4294967295", "4294967296", "", "+", "-", "-0", "1 2", "٣"] {
        let ours = Command::parse(&format!("/setamount {}", text), "b");
        match text.parse::<u32>() {
            Ok(n) => assert_eq!(ours, Ok(Command::SetAmount { amount: n })),
            Err(_) => assert!(matches!(ours, Err(ParseError::IncorrectFormat(_)))),
        }
    }
}

#[test]
fn parse_addressed_commands() {
    assert_eq!(Command::parse("/start@bot_username", "bot_username"), Ok(Command::Start));
    assert_eq!(Command::parse("/start@Bot_UserName", "bot_username"), Ok(Command::Start));
    assert_eq!(
        Command::parse("/start@other_bot", "bot_username"),
        Err(ParseError::WrongBotName("other_bot".to_string()))
    );
    assert_eq!(Command::parse("/start@bot_username@x", "bot_username"), Ok(Command::Start));
    assert_eq!(
        Command::parse("/setmic@bot_username MISX", "bot_username"),
        Ok(Command::SetMic { mic: "MISX".to_string() })
    );
}

#[test]
fn parse_unknown_commands() {
    assert_eq!(
        Command::parse("/foo", "bot_username"),
        Err(ParseError::UnknownCommand("/foo".to_string()))
    );
    assert_eq!(
        Command::parse("start", "bot_username"),
        Err(ParseError::UnknownCommand("start".to_string()))
    );
    assert_eq!(
        Command::parse("/Start", "bot_username"),
        Err(ParseError::UnknownCommand("/Start".to_string()))
    );
    assert_eq!(Command::parse("", "bot_username"), Err(ParseError::UnknownCommand(String::new())));
}

#[test]
fn default_command_is_start() {
    assert_eq!(Command::default(), Command::Start);
}
