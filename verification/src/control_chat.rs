//! What the control bot answers to a chat message.
use vstd::prelude::*;

use crate::command::{help_text, parse_result_view, spec_parse, Command, ParseError, ParseErrorView};
use crate::text::{chars_of, decimal, push_decimal, push_str, string_from_chars};
use crate::trade_chat::{bot_username, with_amount, with_mic, with_ticker, Step, StepView};
use crate::trade_engine::{opt_text, TradeStateView};

verus! {

/// The configuration a user sets up in the control chat.
pub struct ChatState {
    pub ticker: Option<String>,
    pub mic: Option<String>,
    pub amount: Option<u32>,
}

impl View for ChatState {
    type V = TradeStateView;

    open spec fn view(&self) -> TradeStateView {
        TradeStateView { ticker: opt_text(self.ticker), mic: opt_text(self.mic), amount: self.amount }
    }
}

/// What the control bot does with a message text: a text that is not a
/// command is an error; `/start` is answered with the help text; every other
/// command has no handler.
pub open spec fn spec_control_step(text: Seq<char>) -> Result<StepView, ParseErrorView> {
    match spec_parse(text, bot_username()) {
        Err(e) => Err(e),
        Ok(c) => Ok(
            match c {
                crate::command::CommandView::Start => StepView::Reply(help_text()),
                _ => StepView::NoHandler(c),
            },
        ),
    }
}

/// The chat of the control bot.
pub struct TgChat;

impl TgChat {
    /// Sets the instrument and tells what was saved.
    pub fn set_instrument(state: &mut ChatState, ticker: String) -> (text: String)
        ensures
            final(state)@ == with_ticker(old(state)@, ticker@),
            text@ == "Saved: ticker = "@ + ticker@,
    {
        state.ticker = Some(ticker.clone());
        let mut out = chars_of("Saved: ticker = ");
        push_str(&mut out, ticker.as_str());
        string_from_chars(&out)
    }

    /// Sets the market identifier code and tells what was saved.
    pub fn set_mic(state: &mut ChatState, mic: String) -> (text: String)
        ensures
            final(state)@ == with_mic(old(state)@, mic@),
            text@ == "Saved: mic = "@ + mic@,
    {
        state.mic = Some(mic.clone());
        let mut out = chars_of("Saved: mic = ");
        push_str(&mut out, mic.as_str());
        string_from_chars(&out)
    }

    /// Sets the amount and tells what was saved.
    pub fn set_amount(state: &mut ChatState, amount: u32) -> (text: String)
        ensures
            final(state)@ == with_amount(old(state)@, amount),
            text@ == "Saved: amount = "@ + decimal(amount as nat),
    {
        state.amount = Some(amount);
        let mut out = chars_of("Saved: amount = ");
        push_decimal(&mut out, amount);
        string_from_chars(&out)
    }

    /// Reads a message text as a command and decides the answer.
    pub fn commands_handler(text: &str) -> (r: Result<Step, ParseError>)
        ensures
            match r {
                Ok(step) => spec_control_step(text@) == Ok::<StepView, ParseErrorView>(step@),
                Err(e) => spec_control_step(text@) == Err::<StepView, ParseErrorView>(e@),
            },
    {
        let parsed = Command::parse(text, "bot_username");
        assert(parse_result_view(parsed) == spec_parse(text@, bot_username()));
        match parsed {
            Err(e) => Err(e),
            Ok(Command::Start) => Ok(Step::Reply(Command::descriptions())),
            Ok(c) => Ok(Step::NoHandler(c)),
        }
    }
}

/// The control bot reads commands as the bot named `bot_username`: a command
/// addressed to that name (in any ASCII case) is answered as the command
/// alone, one addressed to any other name is refused with that name, and
/// `/start` is answered with the help text whether or not it names the bot.
pub proof fn lemma_control_reads_own_name(word: Seq<char>, name: Seq<char>)
    requires
        forall|j: int| 0 <= j < word.len() ==> word[j] != ' ' && word[j] != '@',
        forall|j: int| 0 <= j < name.len() ==> name[j] != ' ' && name[j] != '@',
    ensures
        (name.len() == "bot_username"@.len() && forall|i: int|
            0 <= i < name.len() ==> crate::text::ascii_lower(name[i]) == crate::text::ascii_lower(
                "bot_username"@[i],
            )) ==> spec_control_step(word + "@"@ + name) == spec_control_step(word),
        !(name.len() == "bot_username"@.len() && forall|i: int|
            0 <= i < name.len() ==> crate::text::ascii_lower(name[i]) == crate::text::ascii_lower(
                "bot_username"@[i],
            )) ==> spec_control_step(word + "@"@ + name) == Err::<StepView, ParseErrorView>(
            ParseErrorView::WrongBotName(name),
        ),
        spec_control_step("/start"@) == Ok::<StepView, ParseErrorView>(StepView::Reply(help_text())),
        spec_control_step("/start@bot_username"@) == Ok::<StepView, ParseErrorView>(
            StepView::Reply(help_text()),
        ),
{
    reveal_strlit("bot_username");
    crate::command::lemma_addressed_command(word, name, "bot_username"@);
    reveal_strlit("/start");
    reveal_strlit("/start@bot_username");
    reveal_strlit("/");
    reveal_strlit("start");
    reveal_strlit("@");
    crate::command::lemma_listed_commands_parse(0, "bot_username"@);
    let w = "/start"@;
    assert(w =~= crate::command::command_prefix() + crate::command::command_name(0));
    assert forall|j: int| 0 <= j < w.len() implies w[j] != ' ' && w[j] != '@' by {}
    let u = "bot_username"@;
    assert forall|j: int| 0 <= j < u.len() implies u[j] != ' ' && u[j] != '@' by {}
    crate::command::lemma_addressed_command(w, u, u);
    crate::text::lemma_eq_ignore_ascii_case_laws(u, u);
    assert("/start@bot_username"@ =~= w + "@"@ + u);
}

} // verus!
