//! The delegated calls an operation asks the host to perform.
//!
//! Each successful operation describes at most one call into an external
//! service as a plain value; the host program executes it within the same
//! atomic unit of work, so the operation either commits with its call or
//! is discarded whole.

use vstd::prelude::*;

verus! {

/// One call into the external token-accounting service. The `authority`
/// field names the signer the host must present: the re-derived program
/// authority for `MintTo`, the owner or delegate passed through for the
/// rest.
pub enum CpiAction {
    MintTo { mint: Vec<u8>, to: Vec<u8>, authority: Vec<u8>, amount: u64 },
    Transfer { from: Vec<u8>, to: Vec<u8>, authority: Vec<u8>, amount: u64 },
    Approve { account: Vec<u8>, delegate: Vec<u8>, authority: Vec<u8>, amount: u64 },
    Revoke { account: Vec<u8>, authority: Vec<u8> },
    Burn { mint: Vec<u8>, account: Vec<u8>, authority: Vec<u8>, amount: u64 },
}

/// The single call into the external metadata-issuance service: create the
/// metadata record for the mint, with the derived authority as both mint
/// and update authority, and the fixed classification fields.
pub struct MetadataAction {
    pub metadata: Vec<u8>,
    pub mint: Vec<u8>,
    pub authority: Vec<u8>,
    pub payer: Vec<u8>,
    pub update_authority: Vec<u8>,
    pub name: String,
    pub symbol: String,
    pub uri: String,
    pub seller_fee_basis_points: u16,
    pub primary_sale_happened: bool,
    pub is_mutable: bool,
    pub fungible: bool,
    pub decimals: u8,
}

} // verus!
