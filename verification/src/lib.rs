//! The launch-and-trade rules of a bonding-curve token program: account
//! state, the checks that admit or refuse a trade, the lamport settlement of
//! a sale, the seeds of the program's derived addresses and the program's
//! error codes.
use vstd::prelude::*;

pub mod error;
pub mod metadata;
pub mod program;
pub mod seeds;
pub mod state;

pub use error::AmiErrorCode;
pub use program::{buy, create_token, init_program, sell, settle_sale};
pub use state::{Counter, TokenTradeStatus};

verus! {

} // verus!
