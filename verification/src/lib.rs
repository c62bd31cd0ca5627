//! Decision logic of a trading assistant: the chat command grammar, the
//! per-chat trading configuration, the retry policies of the market-data and
//! token-renewal streams, and the texts shown to the user.
use vstd::prelude::*;

pub mod text;
pub mod trade_engine;
pub mod app_error;
pub mod broker;
pub mod command;
pub mod trade_chat;
pub mod control_chat;
pub mod renewal;
pub mod subscription;
pub mod auth;

verus! {

} // verus!
