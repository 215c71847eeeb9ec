//! A custodial escrow settlement engine for fungible tokens on a replicated
//! ledger runtime. A seller lists a quantity of tokens at a fixed unit price,
//! any buyer may purchase some or all of it in settlement currency, and a
//! percentage fee of every trade is routed to a platform treasury.
//!
//! The library is the verified core: the request decoder, the fixed-width
//! record codec, custody-address derivation, and the five operation handlers.
//! Each handler validates the supplied accounts and returns the exact record
//! updates and transfers to perform; the host-facing shell around the library
//! executes those effects against the ledger runtime.

pub mod addr;
pub mod error;
pub mod instruction;
pub mod pda;
pub mod processor;
pub mod state;
