//! Invitation-gated NFT minting and per-owner pool deployment, written as
//! host-neutral state machines.
//!
//! Every contract method is a function from the contract state and the
//! values the host supplies (caller, block time, callback results) to a new
//! state and a plan of the cross-contract calls to issue next. The host glue
//! executes the plans and feeds the results back into the callbacks.
use vstd::prelude::*;

pub mod account;
pub mod decimal;
pub mod nft;
pub mod pool;
pub mod table;
