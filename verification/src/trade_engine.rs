//! The trading configuration that the chat edits, and the engine that will
//! trade with it.
use vstd::prelude::*;

use crate::text::{
    chars_of, debug_quoted, decimal, push_decimal, push_str, str_debug, string_from_chars,
};

verus! {

/// Whether a position is open, and in which direction.
#[derive(Clone, Copy, Debug, PartialEq, Eq)]
pub enum SimpleState {
    Closed,
    Opened { direction: Direction },
}

/// Direction of an open position.
#[derive(Clone, Copy, Debug, PartialEq, Eq)]
pub enum Direction {
    Long,
    Short,
}

/// The configuration a user sets up in the chat: the instrument, its market
/// identifier code and the amount traded in one operation.
#[derive(Debug, Clone, PartialEq, Eq)]
pub struct TradeState {
    pub ticker: Option<String>,
    pub mic: Option<String>,
    pub amount: Option<u32>,
}

/// Mathematical model of a [`TradeState`].
pub struct TradeStateView {
    pub ticker: Option<Seq<char>>,
    pub mic: Option<Seq<char>>,
    pub amount: Option<u32>,
}

/// Model of an optional text.
pub open spec fn opt_text(o: Option<String>) -> Option<Seq<char>> {
    match o {
        Some(s) => Some(s@),
        None => None,
    }
}

impl View for TradeState {
    type V = TradeStateView;

    open spec fn view(&self) -> TradeStateView {
        TradeStateView { ticker: opt_text(self.ticker), mic: opt_text(self.mic), amount: self.amount }
    }
}

/// Pretty `Debug` text (`{:#?}`) of an optional field, given the `Debug`
/// text of its value where it has one.
pub open spec fn debug_field(inner: Option<Seq<char>>) -> Seq<char> {
    match inner {
        None => "None"@,
        Some(i) => "Some(\n        "@ + i + ",\n    )"@,
    }
}

/// The `Debug` text of an optional string's value.
pub open spec fn quoted(o: Option<Seq<char>>) -> Option<Seq<char>> {
    match o {
        Some(s) => Some(str_debug(s)),
        None => None,
    }
}

/// The `Debug` text of an optional number's value.
pub open spec fn amount_text(o: Option<u32>) -> Option<Seq<char>> {
    match o {
        Some(n) => Some(decimal(n as nat)),
        None => None,
    }
}

/// Pretty `Debug` text (`{:#?}`) of a trading configuration whose fields'
/// values have the given `Debug` texts.
pub open spec fn debug_layout(
    ticker: Option<Seq<char>>,
    mic: Option<Seq<char>>,
    amount: Option<Seq<char>>,
) -> Seq<char> {
    "TradeState {\n    ticker: "@ + debug_field(ticker) + ",\n    mic: "@ + debug_field(mic)
        + ",\n    amount: "@ + debug_field(amount) + ",\n}"@
}

/// Pretty `Debug` text (`{:#?}`) of a trading configuration.
pub open spec fn debug_trade_state(v: TradeStateView) -> Seq<char> {
    debug_layout(quoted(v.ticker), quoted(v.mic), amount_text(v.amount))
}

fn push_debug_field(out: &mut Vec<char>, inner: Option<&str>)
    ensures
        final(out)@ == old(out)@ + debug_field(
            match inner {
                Some(i) => Some(i@),
                None => None,
            },
        ),
{
    match inner {
        None => push_str(out, "None"),
        Some(i) => {
            push_str(out, "Some(\n        ");
            push_str(out, i);
            push_str(out, ",\n    )");
        },
    }
}

/// Model of an optional text slice.
pub open spec fn opt_view(o: Option<&str>) -> Option<Seq<char>> {
    match o {
        Some(s) => Some(s@),
        None => None,
    }
}

/// Lays out the pretty `Debug` text of a trading configuration from the
/// `Debug` texts of its fields' values.
pub fn layout_debug(ticker: Option<&str>, mic: Option<&str>, amount: Option<&str>) -> (out: Vec<char>)
    ensures
        out@ == debug_layout(opt_view(ticker), opt_view(mic), opt_view(amount)),
{
    let mut out = chars_of("TradeState {\n    ticker: ");
    push_debug_field(&mut out, ticker);
    push_str(&mut out, ",\n    mic: ");
    push_debug_field(&mut out, mic);
    push_str(&mut out, ",\n    amount: ");
    push_debug_field(&mut out, amount);
    push_str(&mut out, ",\n}");
    out
}

fn quote_field(o: &Option<String>) -> (q: Option<String>)
    ensures
        match q {
            Some(t) => quoted(opt_text(*o)) == Some(t@),
            None => o is None,
        },
{
    match o {
        Some(s) => Some(debug_quoted(s.as_str())),
        None => None,
    }
}

impl TradeState {
    /// A configuration with nothing set.
    pub fn empty() -> (s: TradeState)
        ensures
            s@.ticker is None,
            s@.mic is None,
            s@.amount is None,
    {
        TradeState { ticker: None, mic: None, amount: None }
    }

    /// A copy of this configuration.
    pub fn snapshot(&self) -> (s: TradeState)
        ensures
            s@ == self@,
    {
        let ticker = match &self.ticker {
            Some(t) => Some(t.clone()),
            None => None,
        };
        let mic = match &self.mic {
            Some(m) => Some(m.clone()),
            None => None,
        };
        TradeState { ticker, mic, amount: self.amount }
    }

    /// The text of `format!("{:#?}", self)`.
    pub fn debug_text(&self) -> (out: Vec<char>)
        ensures
            out@ == debug_trade_state(self@),
    {
        let ticker = quote_field(&self.ticker);
        let mic = quote_field(&self.mic);
        let amount = match self.amount {
            Some(n) => {
                let mut digits: Vec<char> = Vec::new();
                push_decimal(&mut digits, n);
                Some(string_from_chars(&digits))
            },
            None => None,
        };
        let t = match &ticker {
            Some(t) => Some(t.as_str()),
            None => None,
        };
        let m = match &mic {
            Some(m) => Some(m.as_str()),
            None => None,
        };
        let a = match &amount {
            Some(a) => Some(a.as_str()),
            None => None,
        };
        layout_debug(t, m, a)
    }
}

/// Whether `part` occurs somewhere in `text`.
pub open spec fn has_part(text: Seq<char>, part: Seq<char>) -> bool {
    exists|i: int|
        0 <= i && i + part.len() <= text.len() && #[trigger] text.skip(i).take(part.len() as int)
            == part
}

proof fn lemma_part_between(s: Seq<char>, p: Seq<char>, t: Seq<char>, q: Seq<char>)
    requires
        s =~= p + t + q,
    ensures
        has_part(s, t),
{
    assert(s.skip(p.len() as int).take(t.len() as int) =~= t);
}

proof fn lemma_layout_lines(tk: Option<Seq<char>>, mc: Option<Seq<char>>, am: Option<Seq<char>>)
    ensures
        has_part(debug_layout(tk, mc, am), "TradeState {\n    ticker: "@ + debug_field(tk) + ",\n"@),
        has_part(debug_layout(tk, mc, am), "\n    mic: "@ + debug_field(mc) + ",\n"@),
        has_part(debug_layout(tk, mc, am), "\n    amount: "@ + debug_field(am) + ",\n}"@),
{
    reveal_strlit("TradeState {\n    ticker: ");
    reveal_strlit(",\n    mic: ");
    reveal_strlit(",\n    amount: ");
    reveal_strlit(",\n}");
    reveal_strlit(",\n");
    reveal_strlit(",");
    reveal_strlit("\n    mic: ");
    reveal_strlit("\n    amount: ");
    reveal_strlit("    amount: ");
    reveal_strlit("}");
    let s = debug_layout(tk, mc, am);
    let a = "TradeState {\n    ticker: "@;
    let (t, m, n) = (debug_field(tk), debug_field(mc), debug_field(am));
    assert(",\n    mic: "@ =~= ","@ + "\n    mic: "@);
    assert(",\n    amount: "@ =~= ","@ + "\n    amount: "@);
    assert(",\n    amount: "@ =~= ",\n"@ + "    amount: "@);
    reveal_strlit("    mic: ");
    assert(",\n    mic: "@ =~= ",\n"@ + "    mic: "@);
    lemma_part_between(
        s,
        Seq::empty(),
        a + t + ",\n"@,
        "    mic: "@ + m + ",\n    amount: "@ + n + ",\n}"@,
    );
    lemma_part_between(s, a + t + ","@, "\n    mic: "@ + m + ",\n"@, "    amount: "@ + n + ",\n}"@);
    lemma_part_between(s, a + t + ",\n    mic: "@ + m + ","@, "\n    amount: "@ + n + ",\n}"@, Seq::empty());
}

/// The configuration text shows every field from that field's own value and
/// from nothing else: the ticker on the line after the opening, then the
/// market identifier code, then the amount, each as `Some(..)` with its
/// value's `Debug` text where it is set and as `None` where it is not.
pub proof fn lemma_config_shows_each_field(v: TradeStateView)
    ensures
        match v.ticker {
            Some(t) => has_part(
                debug_trade_state(v),
                "TradeState {\n    ticker: Some(\n        "@ + str_debug(t) + ",\n    ),\n"@,
            ),
            None => has_part(debug_trade_state(v), "TradeState {\n    ticker: None,\n"@),
        },
        match v.mic {
            Some(m) => has_part(
                debug_trade_state(v),
                "\n    mic: Some(\n        "@ + str_debug(m) + ",\n    ),\n"@,
            ),
            None => has_part(debug_trade_state(v), "\n    mic: None,\n"@),
        },
        match v.amount {
            Some(n) => has_part(
                debug_trade_state(v),
                "\n    amount: Some(\n        "@ + decimal(n as nat) + ",\n    ),\n}"@,
            ),
            None => has_part(debug_trade_state(v), "\n    amount: None,\n}"@),
        },
{
    lemma_layout_lines(quoted(v.ticker), quoted(v.mic), amount_text(v.amount));
    reveal_strlit("TradeState {\n    ticker: ");
    reveal_strlit("TradeState {\n    ticker: Some(\n        ");
    reveal_strlit("TradeState {\n    ticker: None,\n");
    reveal_strlit("\n    mic: ");
    reveal_strlit("\n    mic: Some(\n        ");
    reveal_strlit("\n    mic: None,\n");
    reveal_strlit("\n    amount: ");
    reveal_strlit("\n    amount: Some(\n        ");
    reveal_strlit("\n    amount: None,\n}");
    reveal_strlit("Some(\n        ");
    reveal_strlit(",\n    )");
    reveal_strlit(",\n    ),\n");
    reveal_strlit(",\n    ),\n}");
    reveal_strlit(",\n");
    reveal_strlit(",\n}");
    reveal_strlit("None");
    let a = "TradeState {\n    ticker: "@;
    match v.ticker {
        Some(t) => {
            let d = str_debug(t);
            assert(a + debug_field(quoted(v.ticker)) + ",\n"@
                =~= "TradeState {\n    ticker: Some(\n        "@ + d + ",\n    ),\n"@);
        },
        None => {
            assert(a + debug_field(quoted(v.ticker)) + ",\n"@ =~= "TradeState {\n    ticker: None,\n"@);
        },
    }
    match v.mic {
        Some(m) => {
            let d = str_debug(m);
            assert("\n    mic: "@ + debug_field(quoted(v.mic)) + ",\n"@
                =~= "\n    mic: Some(\n        "@ + d + ",\n    ),\n"@);
        },
        None => {
            assert("\n    mic: "@ + debug_field(quoted(v.mic)) + ",\n"@ =~= "\n    mic: None,\n"@);
        },
    }
    match v.amount {
        Some(n) => {
            let d = decimal(n as nat);
            assert("\n    amount: "@ + debug_field(amount_text(v.amount)) + ",\n}"@
                =~= "\n    amount: Some(\n        "@ + d + ",\n    ),\n}"@);
        },
        None => {
            assert("\n    amount: "@ + debug_field(amount_text(v.amount)) + ",\n}"@
                =~= "\n    amount: None,\n}"@);
        },
    }
}

/// Why the engine refused an operation.
#[derive(Debug, PartialEq, Eq)]
pub enum EngineError {
    /// The operation has no implementation yet.
    NotImplemented,
}

/// Holds the configuration to trade with and whether a position is open.
pub struct TradeEngine {
    state: Option<TradeState>,
    position_opened: bool,
}

/// Mathematical model of a [`TradeEngine`].
pub struct TradeEngineView {
    pub state: Option<TradeStateView>,
    pub position_opened: bool,
}

impl View for TradeEngine {
    type V = TradeEngineView;

    closed spec fn view(&self) -> TradeEngineView {
        TradeEngineView {
            state: match self.state {
                Some(s) => Some(s@),
                None => None,
            },
            position_opened: self.position_opened,
        }
    }
}

impl TradeEngine {
    /// An engine with no configuration and no open position.
    pub fn new() -> (e: TradeEngine)
        ensures
            e@.state is None,
            !e@.position_opened,
    {
        TradeEngine { state: None, position_opened: false }
    }

    /// Replaces the configuration to trade with; the position flag is kept.
    pub fn set_state(&mut self, state: TradeState)
        ensures
            final(self)@.state == Some(state@),
            final(self)@.position_opened == old(self)@.position_opened,
    {
        self.state = Some(state)
    }

    /// Buying has no implementation yet: the call is refused and the engine is
    /// left as it was.
    pub fn buy(&mut self) -> (r: Result<(), EngineError>)
        ensures
            r == Err::<(), EngineError>(EngineError::NotImplemented),
            final(self)@ == old(self)@,
    {
        Err(EngineError::NotImplemented)
    }

    /// Selling has no implementation yet: the call is refused and the engine is
    /// left as it was.
    pub fn sell(&mut self) -> (r: Result<(), EngineError>)
        ensures
            r == Err::<(), EngineError>(EngineError::NotImplemented),
            final(self)@ == old(self)@,
    {
        Err(EngineError::NotImplemented)
    }

    /// The configuration the engine holds, if any.
    pub fn state(&self) -> (s: Option<&TradeState>)
        ensures
            match s {
                Some(t) => self@.state == Some(t@),
                None => self@.state is None,
            },
    {
        match &self.state {
            Some(t) => Some(t),
            None => None,
        }
    }

    /// Whether a position is open.
    pub fn position_opened(&self) -> (b: bool)
        ensures
            b == self@.position_opened,
    {
        self.position_opened
    }
}

} // verus!
