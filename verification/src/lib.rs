//! Core logic of a fixed-supply fungible-token program: a singleton
//! configuration record bound to a program-derived authority address, a
//! one-time mint, and owner/delegate-gated balance operations.
//!
//! Every entry point validates account relationships and signer identity
//! first, applies at most one mutation to the configuration record, and
//! describes at most one call into the external token-accounting or
//! metadata service as a plain value; the surrounding host program performs
//! that call.

pub mod actions;
pub mod addr;
pub mod errors;
pub mod instructions;
pub mod pda;
pub mod state;
pub mod supply;
