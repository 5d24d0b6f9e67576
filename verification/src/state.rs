//! The persistent configuration record and the snapshot of an external
//! balance account.

use vstd::prelude::*;
use crate::addr::is_address;

verus! {

/// The one amount the one-time mint issues: 500,000,000 whole tokens at 9
/// decimal places, in base units.
pub const INITIAL_SUPPLY: u64 = 500_000_000_000_000_000;

/// The fixed number of decimal places of the token.
pub const TOKEN_DECIMALS: u8 = 9;

/// The longest name the configuration record may hold.
pub const MAX_NAME_LEN: usize = 50;

/// The longest symbol the configuration record may hold.
pub const MAX_SYMBOL_LEN: usize = 10;

/// The singleton configuration record of the token. It lives at the
/// address derived from the fixed salt and `bump`; `authority` alone may
/// perform privileged operations; `total_supply` is the only field that
/// ever changes after creation.
pub struct TokenData {
    pub authority: Vec<u8>,
    pub mint: Vec<u8>,
    pub total_supply: u64,
    pub decimals: u8,
    pub name: String,
    pub symbol: String,
    pub bump: u8,
}

impl TokenData {
    /// Well-formedness: the identities are real addresses, the strings are
    /// within their persisted bounds, and the decimal count is the fixed one.
    pub open spec fn wf(self) -> bool {
        &&& is_address(self.authority@)
        &&& is_address(self.mint@)
        &&& self.name@.len() <= MAX_NAME_LEN
        &&& self.symbol@.len() <= MAX_SYMBOL_LEN
        &&& self.decimals == TOKEN_DECIMALS
    }
}

/// Everything observable of a configuration record except the supply
/// counter is the same in `a` and `b`.
pub open spec fn eq_except_supply(a: TokenData, b: TokenData) -> bool {
    &&& a.authority@ == b.authority@
    &&& a.mint@ == b.mint@
    &&& a.decimals == b.decimals
    &&& a.name@ == b.name@
    &&& a.symbol@ == b.symbol@
    &&& a.bump == b.bump
}

/// Everything observable of a configuration record is the same in `a` and `b`.
pub open spec fn record_unchanged(a: TokenData, b: TokenData) -> bool {
    eq_except_supply(a, b) && a.total_supply == b.total_supply
}

/// What this program reads of a balance account owned by the external
/// token-accounting service: its own address, its balance, its owner, and
/// any recorded delegation. The service is the source of truth for these
/// fields; this is a snapshot taken at the start of an operation.
pub struct TokenAccountState {
    pub address: Vec<u8>,
    pub owner: Vec<u8>,
    pub amount: u64,
    pub delegate: Option<Vec<u8>>,
    pub delegated_amount: u64,
}

} // verus!
