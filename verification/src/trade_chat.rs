//! What the trading bot answers to a chat message and how the message changes
//! the trading configuration.
use vstd::prelude::*;

use crate::command::{help_text, spec_parse, Command, CommandView};
use crate::text::{
    chars_of, decimal, push_decimal, push_str, split_first, split_first_exec, string_from_chars, trim,
    trim_exec,
};
use crate::trade_engine::{debug_trade_state, TradeState, TradeStateView};

verus! {

/// What the bot does in answer to a message.
#[derive(Debug, PartialEq, Eq)]
pub enum Step {
    /// Send this text back to the chat.
    Reply(String),
    /// The command was understood but has no handler.
    NoHandler(Command),
}

/// Mathematical model of a [`Step`].
pub enum StepView {
    Reply(Seq<char>),
    NoHandler(CommandView),
}

impl View for Step {
    type V = StepView;

    open spec fn view(&self) -> StepView {
        match self {
            Step::Reply(t) => StepView::Reply(t@),
            Step::NoHandler(c) => StepView::NoHandler(c@),
        }
    }
}

/// The user name under which the bot reads commands.
pub open spec fn bot_username() -> Seq<char> {
    "bot_username"@
}

/// The answer to a message without text.
pub open spec fn text_expected_reply() -> Seq<char> {
    "Text command is expected. Type /start to see command list."@
}

/// The answer to a message that is not a command.
pub open spec fn invalid_command_reply() -> Seq<char> {
    "Command is invalid. Type /start to see command list."@
}

/// The text the bot reads as a command: the message's first word (up to its
/// first space) without surrounding whitespace, followed, where the message
/// has a space, by that space and the rest of the message as the argument.
pub open spec fn command_text(text: Seq<char>) -> Seq<char> {
    match split_first(text, ' ') {
        Some((head, rest)) => trim(head) + " "@ + rest,
        None => trim(text),
    }
}

/// The configuration with the instrument set.
pub open spec fn with_ticker(s: TradeStateView, ticker: Seq<char>) -> TradeStateView {
    TradeStateView { ticker: Some(ticker), ..s }
}

/// The configuration with the market identifier code set.
pub open spec fn with_mic(s: TradeStateView, mic: Seq<char>) -> TradeStateView {
    TradeStateView { mic: Some(mic), ..s }
}

/// The configuration with the amount set.
pub open spec fn with_amount(s: TradeStateView, amount: u32) -> TradeStateView {
    TradeStateView { amount: Some(amount), ..s }
}

/// The answer to `/getcurrentconfig`.
pub open spec fn config_reply(s: TradeStateView) -> Seq<char> {
    "Current config: "@ + debug_trade_state(s)
}

/// What executing a command does: the new configuration and the step.
pub open spec fn spec_execute(s: TradeStateView, c: CommandView) -> (TradeStateView, StepView) {
    match c {
        CommandView::Start => (s, StepView::Reply(help_text())),
        CommandView::GetCurrentConfig => (s, StepView::Reply(config_reply(s))),
        CommandView::SetInstrument { ticker } => (
            with_ticker(s, ticker),
            StepView::Reply("Saved: ticker = "@ + ticker),
        ),
        CommandView::SetMic { mic } => (with_mic(s, mic), StepView::Reply("Saved: mic = "@ + mic)),
        CommandView::SetAmount { amount } => (
            with_amount(s, amount),
            StepView::Reply("Saved: amount = "@ + decimal(amount as nat)),
        ),
        _ => (s, StepView::NoHandler(c)),
    }
}

/// What a message does: the new configuration and the step.
pub open spec fn spec_handle(s: TradeStateView, text: Option<Seq<char>>) -> (TradeStateView, StepView) {
    match text {
        None => (s, StepView::Reply(text_expected_reply())),
        Some(t) => match spec_parse(command_text(t), bot_username()) {
            Err(_) => (s, StepView::Reply(invalid_command_reply())),
            Ok(c) => spec_execute(s, c),
        },
    }
}

/// The chat of the trading bot.
pub struct TgChat;

impl TgChat {
    /// The answer to `/start`: the help text.
    pub fn start() -> (text: String)
        ensures
            text@ == help_text(),
    {
        Command::descriptions()
    }

    /// The answer to `/getcurrentconfig`: the pretty `Debug` text of the
    /// configuration after `Current config: `.
    pub fn get_current_config(state: &TradeState) -> (text: String)
        ensures
            text@ == config_reply(state@),
    {
        let config = state.snapshot();
        let mut out = chars_of("Current config: ");
        let mut body = config.debug_text();
        out.append(&mut body);
        string_from_chars(&out)
    }

    /// Sets the instrument and tells what was saved.
    pub fn set_instrument(state: &mut TradeState, ticker: &str) -> (text: String)
        ensures
            final(state)@ == with_ticker(old(state)@, ticker@),
            text@ == "Saved: ticker = "@ + ticker@,
    {
        state.ticker = Some(String::from_str(ticker));
        let mut out = chars_of("Saved: ticker = ");
        push_str(&mut out, ticker);
        string_from_chars(&out)
    }

    /// Sets the market identifier code and tells what was saved.
    pub fn set_mic(state: &mut TradeState, mic: &str) -> (text: String)
        ensures
            final(state)@ == with_mic(old(state)@, mic@),
            text@ == "Saved: mic = "@ + mic@,
    {
        state.mic = Some(String::from_str(mic));
        let mut out = chars_of("Saved: mic = ");
        push_str(&mut out, mic);
        string_from_chars(&out)
    }

    /// Sets the amount and tells what was saved.
    pub fn set_amount(state: &mut TradeState, amount: &u32) -> (text: String)
        ensures
            final(state)@ == with_amount(old(state)@, *amount),
            text@ == "Saved: amount = "@ + decimal(*amount as nat),
    {
        state.amount = Some(*amount);
        let mut out = chars_of("Saved: amount = ");
        push_decimal(&mut out, *amount);
        string_from_chars(&out)
    }

    /// Executes a command on the configuration.
    pub fn execute(state: &mut TradeState, cmd: Command) -> (step: Step)
        ensures
            (final(state)@, step@) == spec_execute(old(state)@, cmd@),
    {
        match cmd {
            Command::Start => Step::Reply(Self::start()),
            Command::GetCurrentConfig => Step::Reply(Self::get_current_config(state)),
            Command::SetInstrument { ticker } => Step::Reply(
                Self::set_instrument(state, ticker.as_str()),
            ),
            Command::SetMic { mic } => Step::Reply(Self::set_mic(state, mic.as_str())),
            Command::SetAmount { amount } => Step::Reply(Self::set_amount(state, &amount)),
            other => Step::NoHandler(other),
        }
    }

    /// Handles one chat message: a message without text, or whose
    /// [`command_text`] is not a command, is answered with a hint; otherwise
    /// the command is executed with its argument.
    pub fn handle_message(state: &mut TradeState, text: Option<&str>) -> (step: Step)
        ensures
            (final(state)@, step@) == spec_handle(old(state)@, match text {
                Some(t) => Some(t@),
                None => None,
            }),
    {
        match text {
            None => Step::Reply(String::from_str("Text command is expected. Type /start to see command list.")),
            Some(t) => {
                let chars = chars_of(t);
                let line = match split_first_exec(&chars, ' ') {
                    Some((head, rest)) => {
                        let mut line = trim_exec(&head);
                        push_str(&mut line, " ");
                        let mut tail = rest;
                        line.append(&mut tail);
                        line
                    },
                    None => trim_exec(&chars),
                };
                let word = string_from_chars(&line);
                match Command::parse(word.as_str(), "bot_username") {
                    Err(_) => Step::Reply(String::from_str("Command is invalid. Type /start to see command list.")),
                    Ok(cmd) => Self::execute(state, cmd),
                }
            },
        }
    }
}


/// What `/getcurrentconfig` shows after a value was set is the configuration
/// with that value and every other field as before; setting a field twice
/// keeps the second value.
pub proof fn lemma_config_after_set(s: TradeStateView, ticker: Seq<char>, mic: Seq<char>, amount: u32)
    ensures
        spec_execute(spec_execute(s, CommandView::SetInstrument { ticker }).0, CommandView::GetCurrentConfig)
            == (with_ticker(s, ticker), StepView::Reply(config_reply(with_ticker(s, ticker)))),
        spec_execute(spec_execute(s, CommandView::SetMic { mic }).0, CommandView::GetCurrentConfig)
            == (with_mic(s, mic), StepView::Reply(config_reply(with_mic(s, mic)))),
        spec_execute(spec_execute(s, CommandView::SetAmount { amount }).0, CommandView::GetCurrentConfig)
            == (with_amount(s, amount), StepView::Reply(config_reply(with_amount(s, amount)))),
        with_ticker(s, ticker).ticker == Some(ticker) && with_ticker(s, ticker).mic == s.mic
            && with_ticker(s, ticker).amount == s.amount,
        with_mic(s, mic).mic == Some(mic) && with_mic(s, mic).ticker == s.ticker && with_mic(s, mic).amount
            == s.amount,
        with_amount(s, amount).amount == Some(amount) && with_amount(s, amount).ticker == s.ticker
            && with_amount(s, amount).mic == s.mic,
        forall|t1: Seq<char>, t2: Seq<char>| #[trigger] with_ticker(with_ticker(s, t1), t2) == with_ticker(s, t2),
{
}

/// Only the three setting commands change the configuration; every other
/// command, and every message that is not read as a command, leaves it as it
/// was.
pub proof fn lemma_only_setters_change_config(s: TradeStateView, c: CommandView, text: Option<Seq<char>>)
    ensures
        !(c is SetInstrument || c is SetMic || c is SetAmount) ==> spec_execute(s, c).0 == s,
        match text {
            None => spec_handle(s, text).0 == s,
            Some(t) => spec_parse(command_text(t), bot_username()) is Err ==> spec_handle(s, text).0 == s,
        },
{
}


proof fn lemma_setter_message(s: TradeStateView, name: Seq<char>, i: int, arg: Seq<char>)
    requires
        3 < i < 7,
        name == crate::command::command_prefix() + crate::command::command_name(i),
    ensures
        command_text(name + " "@ + arg) == name + " "@ + arg,
        spec_parse(command_text(name + " "@ + arg), bot_username())
            == crate::command::command_with_args(i, arg),
{
    reveal_strlit(" ");
    reveal_strlit("/");
    reveal_strlit("setinstrument");
    reveal_strlit("setmic");
    reveal_strlit("setamount");
    let t = name + " "@ + arg;
    assert(name[0] == '/');
    assert(!crate::text::is_whitespace(name[name.len() - 1]));
    crate::text::lemma_trim_identity(name);
    let k = name.len() as int;
    assert(crate::text::is_first_at(t, ' ', k)) by {
        assert forall|j: int| 0 <= j < k implies t[j] != ' ' by {
            assert(t[j] == name[j]);
        }
    }
    crate::text::lemma_split_first_at(t, ' ', k);
    assert(t.take(k) =~= name);
    assert(t.skip(k + 1) =~= arg);
    assert forall|j: int| 0 <= j < name.len() implies name[j] != '@' by {}
    crate::command::lemma_split_first_absent(name, '@');
    crate::command::lemma_listed_commands_parse(i, bot_username());
    crate::command::lemma_split_first_absent(name, ' ');
}

/// A setting command sent in the chat with its argument sets that value and
/// tells what was saved: `/setinstrument {ticker}`, `/setmic {mic}` and
/// `/setamount {n}` change only that field.
pub proof fn lemma_chat_setters(s: TradeStateView, ticker: Seq<char>, mic: Seq<char>, amount: u32)
    ensures
        spec_handle(s, Some("/setinstrument "@ + ticker)) == (
            with_ticker(s, ticker),
            StepView::Reply("Saved: ticker = "@ + ticker),
        ),
        spec_handle(s, Some("/setmic "@ + mic)) == (
            with_mic(s, mic),
            StepView::Reply("Saved: mic = "@ + mic),
        ),
        spec_handle(s, Some("/setamount "@ + decimal(amount as nat))) == (
            with_amount(s, amount),
            StepView::Reply("Saved: amount = "@ + decimal(amount as nat)),
        ),
{
    reveal_strlit("/setinstrument ");
    reveal_strlit("/setmic ");
    reveal_strlit("/setamount ");
    reveal_strlit(" ");
    reveal_strlit("/");
    reveal_strlit("setinstrument");
    reveal_strlit("setmic");
    reveal_strlit("setamount");
    let p = crate::command::command_prefix();
    let n4 = p + crate::command::command_name(4);
    let n5 = p + crate::command::command_name(5);
    let n6 = p + crate::command::command_name(6);
    assert("/setinstrument "@ + ticker =~= n4 + " "@ + ticker);
    assert("/setmic "@ + mic =~= n5 + " "@ + mic);
    let digits = decimal(amount as nat);
    crate::text::lemma_decimal_parses_back(amount);
    assert("/setamount "@ + digits =~= n6 + " "@ + digits);
    lemma_setter_message(s, n4, 4, ticker);
    lemma_setter_message(s, n5, 5, mic);
    lemma_setter_message(s, n6, 6, digits);
}


/// `/start` is answered with the help text whatever has been configured:
/// executed on any two configurations it gives the same answer, keeps the
/// configuration, and the message `/start` gives that answer too, the one
/// the control bot gives to `/start`.
pub proof fn lemma_start_answers_help(s1: TradeStateView, s2: TradeStateView)
    ensures
        spec_execute(s1, CommandView::Start).1 == spec_execute(s2, CommandView::Start).1,
        spec_execute(s1, CommandView::Start) == (s1, StepView::Reply(help_text())),
        spec_handle(s1, Some("/start"@)) == (s1, StepView::Reply(help_text())),
        crate::control_chat::spec_control_step("/start"@) == Ok::<StepView, crate::command::ParseErrorView>(
            spec_execute(s2, CommandView::Start).1,
        ),
{
    reveal_strlit("/start");
    reveal_strlit("/");
    reveal_strlit("start");
    let w = "/start"@;
    assert(w =~= crate::command::command_prefix() + crate::command::command_name(0));
    assert forall|j: int| 0 <= j < w.len() implies w[j] != ' ' && w[j] != '@' by {}
    crate::command::lemma_split_first_absent(w, ' ');
    assert(w[0] == '/');
    assert(!crate::text::is_whitespace(w[w.len() - 1]));
    crate::text::lemma_trim_identity(w);
    crate::command::lemma_listed_commands_parse(0, bot_username());
    let u = bot_username();
    reveal_strlit("bot_username");
    assert forall|j: int| 0 <= j < u.len() implies u[j] != ' ' && u[j] != '@' by {}
    crate::control_chat::lemma_control_reads_own_name(w, u);
}

/// A message whose first word, once trimmed, is not a command is answered
/// with the hint and changes nothing, even where a command follows later in
/// the message or the message starts with a space.
pub proof fn lemma_leading_space_is_invalid(s: TradeStateView, rest: Seq<char>)
    ensures
        spec_handle(s, Some(" "@ + rest)) == (s, StepView::Reply(invalid_command_reply())),
{
    reveal_strlit(" ");
    let t = " "@ + rest;
    assert(crate::text::is_first_at(t, ' ', 0));
    crate::text::lemma_split_first_at(t, ' ', 0);
    assert(t.take(0) =~= Seq::<char>::empty());
    crate::text::lemma_trim_range_exists(Seq::<char>::empty());
    let e = Seq::<char>::empty();
    assert(trim(e) =~= e);
    let line = e + " "@ + t.skip(1);
    assert(crate::text::is_first_at(line, ' ', 0));
    crate::text::lemma_split_first_at(line, ' ', 0);
    assert(line.take(0) =~= e);
    crate::command::lemma_split_first_absent(e, '@');
    assert(crate::command::command_index_from(e, 0) is None) by {
        crate::command::lemma_empty_is_no_command(0);
    }
}

} // verus!
