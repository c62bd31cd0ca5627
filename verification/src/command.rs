//! The chat command grammar: the commands, how a message text is read as one,
//! and the help text that lists them.
use vstd::prelude::*;

use crate::text::{
    chars_of, eq_ignore_ascii_case, eq_ignore_ascii_case_exec, parse_u32, parse_u32_exec,
    push_str, same_chars, split_first, split_first_exec, string_from_chars, IntErrorKind,
};

verus! {

/// A chat command. Commands are written `/name`, the name being the variant's
/// name in lower case, optionally followed by `@bot_username` and, after a
/// space, the argument.
#[derive(Clone, Debug, PartialEq, Eq)]
pub enum Command {
    /// Display this text.
    Start,
    /// Show system health status.
    GetSystemHealth,
    /// Show all properties and their values.
    GetCurrentConfig,
    /// Show detailed information about chosen instrument.
    GetChosenInstrumentInfo { ticker: String },
    /// Set instrument to be traded.
    SetInstrument { ticker: String },
    /// Set market identifier code for chosen stock exchange.
    SetMic { mic: String },
    /// Set amount to be traded in 1 operation.
    SetAmount { amount: u32 },
    /// Execute buy operation.
    Buy,
    /// Execute sell operation.
    Sell,
    /// Close current position.
    ClosePosition,
}

/// Mathematical model of a [`Command`].
pub enum CommandView {
    Start,
    GetSystemHealth,
    GetCurrentConfig,
    GetChosenInstrumentInfo { ticker: Seq<char> },
    SetInstrument { ticker: Seq<char> },
    SetMic { mic: Seq<char> },
    SetAmount { amount: u32 },
    Buy,
    Sell,
    ClosePosition,
}

impl View for Command {
    type V = CommandView;

    open spec fn view(&self) -> CommandView {
        match self {
            Command::Start => CommandView::Start,
            Command::GetSystemHealth => CommandView::GetSystemHealth,
            Command::GetCurrentConfig => CommandView::GetCurrentConfig,
            Command::GetChosenInstrumentInfo { ticker } => CommandView::GetChosenInstrumentInfo {
                ticker: ticker@,
            },
            Command::SetInstrument { ticker } => CommandView::SetInstrument { ticker: ticker@ },
            Command::SetMic { mic } => CommandView::SetMic { mic: mic@ },
            Command::SetAmount { amount } => CommandView::SetAmount { amount: *amount },
            Command::Buy => CommandView::Buy,
            Command::Sell => CommandView::Sell,
            Command::ClosePosition => CommandView::ClosePosition,
        }
    }
}

impl Default for Command {
    fn default() -> (c: Command)
        ensures
            c@ == CommandView::Start,
    {
        Command::Start
    }
}

/// Why a text is not a command.
#[derive(Clone, Debug, PartialEq, Eq)]
pub enum ParseError {
    /// The argument of `/setamount` is not a `u32`.
    IncorrectFormat(IntErrorKind),
    /// No command has this name (the name is given with its `/`).
    UnknownCommand(String),
    /// The command is addressed to another bot (its name is given).
    WrongBotName(String),
}

/// Mathematical model of a [`ParseError`].
pub enum ParseErrorView {
    IncorrectFormat(IntErrorKind),
    UnknownCommand(Seq<char>),
    WrongBotName(Seq<char>),
}

impl View for ParseError {
    type V = ParseErrorView;

    open spec fn view(&self) -> ParseErrorView {
        match self {
            ParseError::IncorrectFormat(k) => ParseErrorView::IncorrectFormat(*k),
            ParseError::UnknownCommand(c) => ParseErrorView::UnknownCommand(c@),
            ParseError::WrongBotName(n) => ParseErrorView::WrongBotName(n@),
        }
    }
}

/// Model of the result of [`Command::parse`].
pub open spec fn parse_result_view(r: Result<Command, ParseError>) -> Result<CommandView, ParseErrorView> {
    match r {
        Ok(c) => Ok(c@),
        Err(e) => Err(e@),
    }
}

/// The number of commands.
pub open spec fn command_count() -> int {
    10
}

/// The prefix that starts every command.
pub open spec fn command_prefix() -> Seq<char> {
    "/"@
}

/// The name of the `i`-th command, in declaration order.
pub open spec fn command_name(i: int) -> Seq<char> {
    if i == 0 {
        "start"@
    } else if i == 1 {
        "getsystemhealth"@
    } else if i == 2 {
        "getcurrentconfig"@
    } else if i == 3 {
        "getchoseninstrumentinfo"@
    } else if i == 4 {
        "setinstrument"@
    } else if i == 5 {
        "setmic"@
    } else if i == 6 {
        "setamount"@
    } else if i == 7 {
        "buy"@
    } else if i == 8 {
        "sell"@
    } else {
        "closeposition"@
    }
}

/// The description of the `i`-th command, shown in the help text.
pub open spec fn command_description(i: int) -> Seq<char> {
    if i == 0 {
        "Display this text."@
    } else if i == 1 {
        "Show system health status."@
    } else if i == 2 {
        "Show all properties and their values."@
    } else if i == 3 {
        "Show detailed information about chosen instrument."@
    } else if i == 4 {
        "Set instrument to be traded."@
    } else if i == 5 {
        "Set market identifier code for chosen stock exchange."@
    } else if i == 6 {
        "Set amount to be traded in 1 operation."@
    } else if i == 7 {
        "Execute buy operation."@
    } else if i == 8 {
        "Execute sell operation."@
    } else {
        "Close current position."@
    }
}

/// The `i`-th command built from its argument text: commands without an
/// argument ignore it, text arguments take it as it is, and the amount must be
/// a `u32`.
pub open spec fn command_with_args(i: int, args: Seq<char>) -> Result<CommandView, ParseErrorView> {
    if i == 0 {
        Ok(CommandView::Start)
    } else if i == 1 {
        Ok(CommandView::GetSystemHealth)
    } else if i == 2 {
        Ok(CommandView::GetCurrentConfig)
    } else if i == 3 {
        Ok(CommandView::GetChosenInstrumentInfo { ticker: args })
    } else if i == 4 {
        Ok(CommandView::SetInstrument { ticker: args })
    } else if i == 5 {
        Ok(CommandView::SetMic { mic: args })
    } else if i == 6 {
        match parse_u32(args) {
            Ok(n) => Ok(CommandView::SetAmount { amount: n as u32 }),
            Err(k) => Err(ParseErrorView::IncorrectFormat(k)),
        }
    } else if i == 7 {
        Ok(CommandView::Buy)
    } else if i == 8 {
        Ok(CommandView::Sell)
    } else {
        Ok(CommandView::ClosePosition)
    }
}

/// The first command, from the `i`-th on, whose prefixed name is `command`.
pub open spec fn command_index_from(command: Seq<char>, i: int) -> Option<int>
    decreases command_count() - i,
{
    if i >= command_count() || i < 0 {
        None
    } else if command == command_prefix() + command_name(i) {
        Some(i)
    } else {
        command_index_from(command, i + 1)
    }
}

/// The command whose prefixed name is `command`, if any.
pub open spec fn command_index(command: Seq<char>) -> Option<int> {
    command_index_from(command, 0)
}

/// The first word of `s` (up to its first space) and the rest after that
/// space; the rest is empty where `s` has no space.
pub open spec fn head_and_args(s: Seq<char>) -> (Seq<char>, Seq<char>) {
    match split_first(s, ' ') {
        Some((h, a)) => (h, a),
        None => (s, Seq::empty()),
    }
}

/// The command part of a first word (up to its first `@`) and the bot name
/// after that `@` (up to the next `@`), if the word has one.
pub open spec fn command_and_bot(head: Seq<char>) -> (Seq<char>, Option<Seq<char>>) {
    match split_first(head, '@') {
        Some((c, after)) => (
            c,
            Some(
                match split_first(after, '@') {
                    Some((u, _)) => u,
                    None => after,
                },
            ),
        ),
        None => (head, None),
    }
}

/// What reading the text `s` as a command gives, for a bot named `bot`:
/// a bot name after `@` that differs from `bot` (ignoring ASCII case) is
/// refused; otherwise the command part must be a known prefixed name, and the
/// text after the first space is its argument.
pub open spec fn spec_parse(s: Seq<char>, bot: Seq<char>) -> Result<CommandView, ParseErrorView> {
    let (head, args) = head_and_args(s);
    let (command, username) = command_and_bot(head);
    if username matches Some(u) && !eq_ignore_ascii_case(u, bot) {
        Err(ParseErrorView::WrongBotName(username->0))
    } else {
        match command_index(command) {
            Some(i) => command_with_args(i, args),
            None => Err(ParseErrorView::UnknownCommand(command)),
        }
    }
}

/// One line of the help text: prefix, command name, and description.
pub struct DescriptionEntry {
    pub prefix: String,
    pub command: String,
    pub description: String,
}

impl View for DescriptionEntry {
    type V = (Seq<char>, Seq<char>, Seq<char>);

    open spec fn view(&self) -> (Seq<char>, Seq<char>, Seq<char>) {
        (self.prefix@, self.command@, self.description@)
    }
}

/// The line of one command: `{prefix}{command}`, then ` — {description}`
/// unless the description is empty.
pub open spec fn description_line(e: (Seq<char>, Seq<char>, Seq<char>)) -> Seq<char> {
    if e.2.len() > 0 {
        e.0 + e.1 + " — "@ + e.2
    } else {
        e.0 + e.1
    }
}

/// The lines of the commands, separated by newlines.
pub open spec fn description_lines(es: Seq<(Seq<char>, Seq<char>, Seq<char>)>) -> Seq<char>
    decreases es.len(),
{
    if es.len() == 0 {
        Seq::empty()
    } else if es.len() == 1 {
        description_line(es[0])
    } else {
        description_lines(es.drop_last()) + "\n"@ + description_line(es.last())
    }
}

/// The displayed text of a list of command descriptions with a global
/// description: the global description, an empty line, then the lines.
pub open spec fn descriptions_text(global: Seq<char>, es: Seq<(Seq<char>, Seq<char>, Seq<char>)>) -> Seq<char> {
    global + "\n\n"@ + description_lines(es)
}

/// Displays command descriptions with teloxide's
/// `Display for CommandDescriptions` (no aliases, no bot user name). Trusted:
/// the text is the global description, `"\n\n"`, then one line per entry,
/// `{prefix}{command}` followed by ` — {description}` where the description is
/// not empty, the lines joined by `"\n"`; this is what that impl's source writes.
#[verifier::external_body]
fn render_descriptions(global: &str, entries: &Vec<DescriptionEntry>) -> (text: String)
    ensures
        text@ == descriptions_text(global@, entries@.map_values(|e: DescriptionEntry| e@)),
{
    let descriptions: Vec<teloxide::utils::command::CommandDescription<'_>> = entries.iter().map(
        |e| teloxide::utils::command::CommandDescription {
            prefix: e.prefix.as_str(),
            command: e.command.as_str(),
            aliases: &[],
            description: e.description.as_str(),
        },
    ).collect();
    teloxide::utils::command::CommandDescriptions::new(&descriptions).global_description(
        global,
    ).to_string()
}

/// The header line of the help text.
pub open spec fn help_header() -> Seq<char> {
    "These commands are supported:"@
}

/// The help line data of the `i`-th command.
pub open spec fn command_entry(i: int) -> (Seq<char>, Seq<char>, Seq<char>) {
    (command_prefix(), command_name(i), command_description(i))
}

/// The help line data of all commands, in declaration order.
pub open spec fn command_entries() -> Seq<(Seq<char>, Seq<char>, Seq<char>)> {
    Seq::new(command_count() as nat, |i: int| command_entry(i))
}

/// The help text that lists every command with its description.
pub open spec fn help_text() -> Seq<char> {
    descriptions_text(help_header(), command_entries())
}

fn name_of(i: usize) -> (name: &'static str)
    requires
        i < 10,
    ensures
        name@ == command_name(i as int),
{
    if i == 0 {
        "start"
    } else if i == 1 {
        "getsystemhealth"
    } else if i == 2 {
        "getcurrentconfig"
    } else if i == 3 {
        "getchoseninstrumentinfo"
    } else if i == 4 {
        "setinstrument"
    } else if i == 5 {
        "setmic"
    } else if i == 6 {
        "setamount"
    } else if i == 7 {
        "buy"
    } else if i == 8 {
        "sell"
    } else {
        "closeposition"
    }
}

fn description_of(i: usize) -> (d: &'static str)
    requires
        i < 10,
    ensures
        d@ == command_description(i as int),
{
    if i == 0 {
        "Display this text."
    } else if i == 1 {
        "Show system health status."
    } else if i == 2 {
        "Show all properties and their values."
    } else if i == 3 {
        "Show detailed information about chosen instrument."
    } else if i == 4 {
        "Set instrument to be traded."
    } else if i == 5 {
        "Set market identifier code for chosen stock exchange."
    } else if i == 6 {
        "Set amount to be traded in 1 operation."
    } else if i == 7 {
        "Execute buy operation."
    } else if i == 8 {
        "Execute sell operation."
    } else {
        "Close current position."
    }
}

fn prefixed_name(i: usize) -> (v: Vec<char>)
    requires
        i < 10,
    ensures
        v@ == command_prefix() + command_name(i as int),
{
    let mut v = chars_of("/");
    push_str(&mut v, name_of(i));
    v
}

fn build_command(i: usize, args: &Vec<char>) -> (r: Result<Command, ParseError>)
    requires
        i < 10,
    ensures
        parse_result_view(r) == command_with_args(i as int, args@),
{
    if i == 0 {
        Ok(Command::Start)
    } else if i == 1 {
        Ok(Command::GetSystemHealth)
    } else if i == 2 {
        Ok(Command::GetCurrentConfig)
    } else if i == 3 {
        Ok(Command::GetChosenInstrumentInfo { ticker: string_from_chars(args) })
    } else if i == 4 {
        Ok(Command::SetInstrument { ticker: string_from_chars(args) })
    } else if i == 5 {
        Ok(Command::SetMic { mic: string_from_chars(args) })
    } else if i == 6 {
        match parse_u32_exec(args) {
            Ok(n) => Ok(Command::SetAmount { amount: n }),
            Err(k) => Err(ParseError::IncorrectFormat(k)),
        }
    } else if i == 7 {
        Ok(Command::Buy)
    } else if i == 8 {
        Ok(Command::Sell)
    } else {
        Ok(Command::ClosePosition)
    }
}

impl Command {
    /// Reads the text `s` as a command addressed to the bot `bot_username`
    /// (the grammar of [`spec_parse`]).
    pub fn parse(s: &str, bot_username: &str) -> (r: Result<Command, ParseError>)
        ensures
            parse_result_view(r) == spec_parse(s@, bot_username@),
    {
        let text = chars_of(s);
        let (head, args) = match split_first_exec(&text, ' ') {
            Some((h, a)) => (h, a),
            None => (text, Vec::new()),
        };
        let (command, username) = match split_first_exec(&head, '@') {
            Some((c, after)) => {
                let u = match split_first_exec(&after, '@') {
                    Some((u, _)) => u,
                    None => after,
                };
                (c, Some(u))
            },
            None => (head, None),
        };
        assert(command_and_bot(head_and_args(s@).0) == (command@, match username {
            Some(u) => Some(u@),
            None => None::<Seq<char>>,
        }));
        if let Some(u) = &username {
            let bot = chars_of(bot_username);
            if !eq_ignore_ascii_case_exec(u, &bot) {
                return Err(ParseError::WrongBotName(string_from_chars(u)));
            }
        }
        let ghost parts = head_and_args(s@);
        let ghost named = command_and_bot(parts.0);
        assert(parts.1 == args@);
        assert(!(named.1 matches Some(u) && !eq_ignore_ascii_case(u, bot_username@)));
        let mut i: usize = 0;
        while i < 10
            invariant
                i <= 10,
                parts == head_and_args(s@),
                named == command_and_bot(parts.0),
                parts.1 == args@,
                named.0 == command@,
                !(named.1 matches Some(u) && !eq_ignore_ascii_case(u, bot_username@)),
                command_index(command@) == command_index_from(command@, i as int),
            decreases 10 - i,
        {
            let name = prefixed_name(i);
            if same_chars(&command, &name) {
                return build_command(i, &args);
            }
            i = i + 1;
        }
        Err(ParseError::UnknownCommand(string_from_chars(&command)))
    }

    /// The help text: the header line, an empty line, then one line
    /// `/name — description` per command (what teloxide displays for the
    /// command descriptions).
    pub fn descriptions() -> (text: String)
        ensures
            text@ == help_text(),
    {
        let mut entries: Vec<DescriptionEntry> = Vec::new();
        let mut i: usize = 0;
        while i < 10
            invariant
                i <= 10,
                entries@.len() == i,
                forall|j: int| 0 <= j < i ==> #[trigger] entries@[j]@ == command_entry(j),
            decreases 10 - i,
        {
            entries.push(
                DescriptionEntry {
                    prefix: String::from_str("/"),
                    command: String::from_str(name_of(i)),
                    description: String::from_str(description_of(i)),
                },
            );
            i = i + 1;
        }
        assert(entries@.map_values(|e: DescriptionEntry| e@) =~= command_entries());
        render_descriptions("These commands are supported:", &entries)
    }
}


/// A text in which the character `c` does not occur has no split at `c`.
pub proof fn lemma_split_first_absent(s: Seq<char>, c: char)
    requires
        forall|j: int| 0 <= j < s.len() ==> s[j] != c,
    ensures
        split_first(s, c) is None,
{
    if exists|i: int| crate::text::is_first_at(s, c, i) {
        let i = choose|i: int| crate::text::is_first_at(s, c, i);
        assert(s[i] != c);
    }
}

proof fn lemma_command_names_distinct(i: int, j: int)
    requires
        0 <= i < command_count(),
        0 <= j < command_count(),
        i != j,
    ensures
        command_prefix() + command_name(i) != command_prefix() + command_name(j),
{
    reveal_strlit("/");
    reveal_strlit("start");
    reveal_strlit("getsystemhealth");
    reveal_strlit("getcurrentconfig");
    reveal_strlit("getchoseninstrumentinfo");
    reveal_strlit("setinstrument");
    reveal_strlit("setmic");
    reveal_strlit("setamount");
    reveal_strlit("buy");
    reveal_strlit("sell");
    reveal_strlit("closeposition");
    let a = command_prefix() + command_name(i);
    let b = command_prefix() + command_name(j);
    if a == b {
        assert(a.len() == b.len());
        assert(a[1] == b[1]);
        assert(a[4] == b[4]);
        assert(a[5] == b[5]);
    }
}

proof fn lemma_command_index_from(i: int, k: int)
    requires
        0 <= k <= i < command_count(),
    ensures
        command_index_from(command_prefix() + command_name(i), k) == Some(i),
    decreases i - k,
{
    if k < i {
        lemma_command_names_distinct(i, k);
        lemma_command_index_from(i, k + 1);
    }
}

/// No command has the empty name.
pub proof fn lemma_empty_is_no_command(k: int)
    requires
        0 <= k <= command_count(),
    ensures
        command_index_from(Seq::empty(), k) is None,
    decreases command_count() - k,
{
    reveal_strlit("/");
    if k < command_count() {
        assert((command_prefix() + command_name(k)).len() > 0);
        lemma_empty_is_no_command(k + 1);
    }
}

/// Every command that the help text lists is read back by the parser: the
/// prefixed name alone, for any bot name, gives that command with an empty
/// argument.
pub proof fn lemma_listed_commands_parse(i: int, bot: Seq<char>)
    requires
        0 <= i < command_count(),
    ensures
        spec_parse(command_prefix() + command_name(i), bot) == command_with_args(i, Seq::empty()),
        command_entries()[i].0 + command_entries()[i].1 == command_prefix() + command_name(i),
{
    reveal_strlit("/");
    reveal_strlit("start");
    reveal_strlit("getsystemhealth");
    reveal_strlit("getcurrentconfig");
    reveal_strlit("getchoseninstrumentinfo");
    reveal_strlit("setinstrument");
    reveal_strlit("setmic");
    reveal_strlit("setamount");
    reveal_strlit("buy");
    reveal_strlit("sell");
    reveal_strlit("closeposition");
    let w = command_prefix() + command_name(i);
    assert forall|j: int| 0 <= j < w.len() implies w[j] != ' ' && w[j] != '@' by {
        assert(w[j] != ' ' && w[j] != '@');
    }
    lemma_split_first_absent(w, ' ');
    lemma_split_first_absent(w, '@');
    lemma_command_index_from(i, 0);
}


/// A command addressed to a bot: `{word}@{name}`, where neither part holds a
/// space or an `@`. Addressed to this bot (its name in any ASCII case), it
/// reads as the word alone; addressed to another bot, it is refused with that
/// bot's name.
pub proof fn lemma_addressed_command(word: Seq<char>, name: Seq<char>, bot: Seq<char>)
    requires
        forall|j: int| 0 <= j < word.len() ==> word[j] != ' ' && word[j] != '@',
        forall|j: int| 0 <= j < name.len() ==> name[j] != ' ' && name[j] != '@',
    ensures
        eq_ignore_ascii_case(name, bot) ==> spec_parse(word + "@"@ + name, bot) == spec_parse(
            word,
            bot,
        ),
        !eq_ignore_ascii_case(name, bot) ==> spec_parse(word + "@"@ + name, bot)
            == Err::<CommandView, ParseErrorView>(ParseErrorView::WrongBotName(name)),
{
    reveal_strlit("@");
    let s = word + "@"@ + name;
    assert forall|j: int| 0 <= j < s.len() implies s[j] != ' ' by {
        if j < word.len() {
            assert(s[j] == word[j]);
        } else if j > word.len() {
            assert(s[j] == name[j - word.len() - 1]);
        }
    }
    lemma_split_first_absent(s, ' ');
    assert(crate::text::is_first_at(s, '@', word.len() as int)) by {
        assert forall|j: int| 0 <= j < word.len() implies s[j] != '@' by {
            assert(s[j] == word[j]);
        }
    }
    crate::text::lemma_split_first_at(s, '@', word.len() as int);
    assert(s.take(word.len() as int) =~= word);
    assert(s.skip(word.len() as int + 1) =~= name);
    lemma_split_first_absent(name, '@');
    lemma_split_first_absent(word, ' ');
    lemma_split_first_absent(word, '@');
}

/// The bot name after `@` decides whether a command is read: `{word}@{name}`
/// (neither part holding a space or an `@`) is refused with
/// `WrongBotName(name)` exactly when `name` is not the bot's name letter for
/// letter up to ASCII case; a name that only starts with the bot's name, such
/// as `bot_username_dev` for `bot_username`, is always refused.
pub proof fn lemma_bot_name_must_match(word: Seq<char>, name: Seq<char>, bot: Seq<char>)
    requires
        forall|j: int| 0 <= j < word.len() ==> word[j] != ' ' && word[j] != '@',
        forall|j: int| 0 <= j < name.len() ==> name[j] != ' ' && name[j] != '@',
    ensures
        (spec_parse(word + "@"@ + name, bot) matches Err(ParseErrorView::WrongBotName(n)) && n == name)
            <==> !(name.len() == bot.len() && forall|i: int|
            0 <= i < name.len() ==> crate::text::ascii_lower(name[i]) == crate::text::ascii_lower(
                bot[i],
            )),
        (spec_parse(word + "@"@ + name, bot) is Err && spec_parse(word + "@"@ + name, bot)->Err_0
            is WrongBotName) ==> name.len() != bot.len() || exists|i: int|
            0 <= i < name.len() && crate::text::ascii_lower(name[i]) != crate::text::ascii_lower(
                #[trigger] bot[i],
            ),
        forall|x: Seq<char>|
            #![trigger bot + x]
            x.len() > 0 && name == bot + x ==> spec_parse(word + "@"@ + name, bot) == Err::<
                CommandView,
                ParseErrorView,
            >(ParseErrorView::WrongBotName(bot + x)),
{
    lemma_addressed_command(word, name, bot);
    lemma_split_first_absent(word, ' ');
    lemma_split_first_absent(word, '@');
    assert forall|x: Seq<char>| x.len() > 0 && name == bot + x implies !eq_ignore_ascii_case(
        name,
        bot,
    ) by {
        assert(name.len() == bot.len() + x.len());
    }
}


/// An amount written in decimal after `/setamount ` is read back as that
/// amount: the amount a reply reports as saved sets the same amount again.
pub proof fn lemma_amount_reads_back(n: u32, bot: Seq<char>)
    ensures
        spec_parse("/setamount "@ + crate::text::decimal(n as nat), bot) == Ok::<
            CommandView,
            ParseErrorView,
        >(CommandView::SetAmount { amount: n }),
{
    reveal_strlit("/setamount ");
    reveal_strlit("/");
    reveal_strlit("setamount");
    let digits = crate::text::decimal(n as nat);
    crate::text::lemma_decimal_parses_back(n);
    let s = "/setamount "@ + digits;
    assert(crate::text::is_first_at(s, ' ', 10));
    crate::text::lemma_split_first_at(s, ' ', 10);
    let head = s.take(10);
    assert(head =~= command_prefix() + command_name(6));
    assert(s.skip(11) =~= digits);
    assert forall|j: int| 0 <= j < head.len() implies head[j] != '@' by {}
    lemma_split_first_absent(head, '@');
    lemma_command_index_from(6, 0);
}

} // verus!
