//! The program's stored accounts.
use vstd::prelude::*;

verus! {

/// The global launch counter: how many tokens the program has created, and
/// whether the counter account has been set up.
#[derive(Clone, Copy, Debug, PartialEq, Eq, Structural)]
pub struct Counter {
    pub count: u64,
    pub is_initialized: bool,
}

/// The trading state of one token: `trade_status` is `true` once the token
/// has left the bonding curve, after which it no longer trades there.
#[derive(Clone, Copy, Debug, PartialEq, Eq, Structural)]
pub struct TokenTradeStatus {
    pub trade_status: bool,
}

} // verus!
