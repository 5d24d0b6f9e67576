//! The program's entry points.
//!
//! Each operation receives the identities and snapshots of the accounts the
//! host hands it, validates the account relationships and the signer first,
//! applies at most one mutation to the configuration record, and returns
//! the one delegated call the host must perform — or the specific error,
//! with nothing changed. The host ledger verifies that every address
//! marked as a signer actually co-signed the transaction; these functions
//! take that verification as given and check everything else.

use vstd::prelude::*;
use crate::actions::{CpiAction, MetadataAction};
use crate::addr::{is_address, addr_eq, copy_bytes};
use crate::errors::ErrorCode;
use crate::pda::{rederives, check_derived};
use crate::state::{
    TokenData, TokenAccountState, eq_except_supply, record_unchanged, INITIAL_SUPPLY,
    TOKEN_DECIMALS,
};
use crate::supply::{mint_supply_outcome, burn_supply_outcome};

verus! {

/// The accounts of `initialize`: the record to create at its derived
/// address, the fresh mint, and the funding authority (a signer).
pub struct Initialize {
    pub token_data_address: Vec<u8>,
    pub bump: u8,
    pub mint: Vec<u8>,
    pub authority: Vec<u8>,
}

/// Creates the configuration record: authority and mint as supplied, zero
/// supply, nine decimals, the fixed name and symbol, and the discriminant
/// that derives the record's own address. Rejected, creating nothing, when
/// the discriminant does not derive the record address — the host ledger's
/// account-creation check, made explicit.
pub fn initialize(accounts: &Initialize, program_id: &Vec<u8>) -> (r: Result<TokenData, ErrorCode>)
    requires
        is_address(program_id@),
        is_address(accounts.authority@),
        is_address(accounts.mint@),
    ensures
        r is Ok <==> rederives(accounts.bump, accounts.token_data_address@, program_id@),
        (r matches Ok(td) ==> {
            &&& td.authority@ == accounts.authority@
            &&& td.mint@ == accounts.mint@
            &&& td.total_supply == 0
            &&& td.decimals == TOKEN_DECIMALS
            &&& td.name@ == "SecureChain AI"@
            &&& td.symbol@ == "SCAI"@
            &&& td.bump == accounts.bump
            &&& td.wf()
        }),
        (r matches Err(e) ==> e == ErrorCode::Unauthorized),
{
    if !check_derived(&accounts.token_data_address, accounts.bump, program_id) {
        return Err(ErrorCode::Unauthorized);
    }
    let name = "SecureChain AI".to_owned();
    let symbol = "SCAI".to_owned();
    proof {
        reveal_strlit("SecureChain AI");
        reveal_strlit("SCAI");
    }
    Ok(TokenData {
        authority: copy_bytes(&accounts.authority),
        mint: copy_bytes(&accounts.mint),
        total_supply: 0,
        decimals: TOKEN_DECIMALS,
        name,
        symbol,
        bump: accounts.bump,
    })
}

/// The accounts of `mint_initial_supply`: the record at its derived
/// address, its mint, the authority's associated balance account, and the
/// authority itself (a signer).
pub struct MintInitialSupply {
    pub token_data_address: Vec<u8>,
    pub mint: Vec<u8>,
    pub authority_token_account: Vec<u8>,
    pub authority: Vec<u8>,
}

/// The one-time mint. After the derivation and relationship checks it
/// succeeds exactly while the supply counter is zero, setting the counter
/// to the fixed initial supply and requesting one mint into the
/// authority's balance account, signed by the re-derived program
/// authority. A second invocation finds a non-zero counter and is rejected
/// with `AlreadyMinted`, changing nothing. No other path increases supply.
pub fn mint_initial_supply(
    td: &mut TokenData,
    accounts: &MintInitialSupply,
    program_id: &Vec<u8>,
) -> (r: Result<CpiAction, ErrorCode>)
    requires
        is_address(program_id@),
    ensures
        eq_except_supply(*final(td), *old(td)),
        ({
            let rel_ok = rederives(old(td).bump, accounts.token_data_address@, program_id@)
                && old(td).authority@ == accounts.authority@
                && old(td).mint@ == accounts.mint@;
            if !rel_ok {
                r matches Err(e) && e == ErrorCode::Unauthorized
                    && record_unchanged(*final(td), *old(td))
            } else {
                match mint_supply_outcome(old(td).total_supply) {
                    Ok(s) => final(td).total_supply == s
                        && (r matches Ok(a) && a matches CpiAction::MintTo { mint, to, authority, amount }
                            && mint@ == accounts.mint@
                            && to@ == accounts.authority_token_account@
                            && authority@ == accounts.token_data_address@
                            && amount == INITIAL_SUPPLY),
                    Err(e) => r matches Err(e2) && e2 == e
                        && record_unchanged(*final(td), *old(td)),
                }
            }
        }),
{
    if !check_derived(&accounts.token_data_address, td.bump, program_id) {
        return Err(ErrorCode::Unauthorized);
    }
    if !addr_eq(&td.authority, &accounts.authority) {
        return Err(ErrorCode::Unauthorized);
    }
    if !addr_eq(&td.mint, &accounts.mint) {
        return Err(ErrorCode::Unauthorized);
    }
    if td.total_supply != 0 {
        return Err(ErrorCode::AlreadyMinted);
    }
    td.total_supply = INITIAL_SUPPLY;
    Ok(CpiAction::MintTo {
        mint: copy_bytes(&accounts.mint),
        to: copy_bytes(&accounts.authority_token_account),
        authority: copy_bytes(&accounts.token_data_address),
        amount: INITIAL_SUPPLY,
    })
}

/// The accounts of `transfer`: the source balance account's snapshot, the
/// destination's address, and the owner presenting the transfer (a signer).
pub struct TransferTokens {
    pub from_token_account: TokenAccountState,
    pub to_token_account: Vec<u8>,
    pub from_authority: Vec<u8>,
}

/// Transfers `amount` base units between balance accounts, signed by the
/// source owner. The source's recorded owner must be the presented signer
/// (`Unauthorized`) and the amount must be positive (`InvalidAmount`);
/// then the external service is asked to move exactly `amount`.
pub fn transfer(accounts: &TransferTokens, amount: u64) -> (r: Result<CpiAction, ErrorCode>)
    ensures
        ({
            if accounts.from_token_account.owner@ != accounts.from_authority@ {
                r matches Err(e) && e == ErrorCode::Unauthorized
            } else if amount == 0 {
                r matches Err(e) && e == ErrorCode::InvalidAmount
            } else {
                r matches Ok(a) && a matches CpiAction::Transfer { from, to, authority, amount: amt }
                    && from@ == accounts.from_token_account.address@
                    && to@ == accounts.to_token_account@
                    && authority@ == accounts.from_authority@
                    && amt == amount
            }
        }),
{
    if !addr_eq(&accounts.from_token_account.owner, &accounts.from_authority) {
        return Err(ErrorCode::Unauthorized);
    }
    if amount == 0 {
        return Err(ErrorCode::InvalidAmount);
    }
    Ok(CpiAction::Transfer {
        from: copy_bytes(&accounts.from_token_account.address),
        to: copy_bytes(&accounts.to_token_account),
        authority: copy_bytes(&accounts.from_authority),
        amount,
    })
}

/// The accounts of `approve`: the balance account's snapshot, the delegate
/// to record, and the owner (a signer).
pub struct ApproveDelegate {
    pub token_account: TokenAccountState,
    pub delegate: Vec<u8>,
    pub owner: Vec<u8>,
}

/// Records a delegate allowed to move up to `amount` base units from the
/// owner's balance account. The account's recorded owner must be the
/// presented signer (`Unauthorized`); the delegation itself lives in the
/// external service's record, not here.
pub fn approve(accounts: &ApproveDelegate, amount: u64) -> (r: Result<CpiAction, ErrorCode>)
    ensures
        ({
            if accounts.token_account.owner@ != accounts.owner@ {
                r matches Err(e) && e == ErrorCode::Unauthorized
            } else {
                r matches Ok(a) && a matches CpiAction::Approve { account, delegate, authority, amount: amt }
                    && account@ == accounts.token_account.address@
                    && delegate@ == accounts.delegate@
                    && authority@ == accounts.owner@
                    && amt == amount
            }
        }),
{
    if !addr_eq(&accounts.token_account.owner, &accounts.owner) {
        return Err(ErrorCode::Unauthorized);
    }
    Ok(CpiAction::Approve {
        account: copy_bytes(&accounts.token_account.address),
        delegate: copy_bytes(&accounts.delegate),
        authority: copy_bytes(&accounts.owner),
        amount,
    })
}

/// The accounts of `transfer_from`: the source balance account's snapshot,
/// the destination's address, and the calling delegate (a signer).
pub struct TransferFrom {
    pub from_token_account: TokenAccountState,
    pub to_token_account: Vec<u8>,
    pub delegate: Vec<u8>,
}

/// Delegated transfer. The amount must be positive (`InvalidAmount`), the
/// source's recorded delegate must be the calling signer
/// (`InvalidDelegate`), and the recorded delegated amount must cover the
/// request (`InsufficientAllowance`) — all checked before anything moves;
/// then the external service is asked to move exactly `amount`, signed by
/// the delegate, and it decrements the remaining allowance itself.
pub fn transfer_from(accounts: &TransferFrom, amount: u64) -> (r: Result<CpiAction, ErrorCode>)
    ensures
        ({
            let recorded = accounts.from_token_account.delegate;
            if amount == 0 {
                r matches Err(e) && e == ErrorCode::InvalidAmount
            } else if !(recorded matches Some(d) && d@ == accounts.delegate@) {
                r matches Err(e) && e == ErrorCode::InvalidDelegate
            } else if accounts.from_token_account.delegated_amount < amount {
                r matches Err(e) && e == ErrorCode::InsufficientAllowance
            } else {
                r matches Ok(a) && a matches CpiAction::Transfer { from, to, authority, amount: amt }
                    && from@ == accounts.from_token_account.address@
                    && to@ == accounts.to_token_account@
                    && authority@ == accounts.delegate@
                    && amt == amount
            }
        }),
{
    if amount == 0 {
        return Err(ErrorCode::InvalidAmount);
    }
    let delegate_ok = match &accounts.from_token_account.delegate {
        Some(d) => addr_eq(d, &accounts.delegate),
        None => false,
    };
    if !delegate_ok {
        return Err(ErrorCode::InvalidDelegate);
    }
    if accounts.from_token_account.delegated_amount < amount {
        return Err(ErrorCode::InsufficientAllowance);
    }
    Ok(CpiAction::Transfer {
        from: copy_bytes(&accounts.from_token_account.address),
        to: copy_bytes(&accounts.to_token_account),
        authority: copy_bytes(&accounts.delegate),
        amount,
    })
}

/// The accounts of `burn`: the record at its derived address, the mint,
/// the balance account to burn from, and its owner (a signer).
pub struct BurnTokens {
    pub token_data_address: Vec<u8>,
    pub mint: Vec<u8>,
    pub token_account: TokenAccountState,
    pub authority: Vec<u8>,
}

/// Burns `amount` base units and decrements the supply counter. After the
/// derivation and owner checks, the amount must be positive
/// (`InvalidAmount`), covered by the account's balance
/// (`InsufficientBalance`), and covered by the counter — the decrement is a
/// checked subtraction that rejects with `Overflow` rather than wrap.
pub fn burn(
    td: &mut TokenData,
    accounts: &BurnTokens,
    program_id: &Vec<u8>,
    amount: u64,
) -> (r: Result<CpiAction, ErrorCode>)
    requires
        is_address(program_id@),
    ensures
        eq_except_supply(*final(td), *old(td)),
        ({
            let rel_ok = rederives(old(td).bump, accounts.token_data_address@, program_id@)
                && accounts.token_account.owner@ == accounts.authority@;
            if !rel_ok {
                r matches Err(e) && e == ErrorCode::Unauthorized
                    && record_unchanged(*final(td), *old(td))
            } else {
                match burn_supply_outcome(
                    old(td).total_supply,
                    accounts.token_account.amount,
                    amount,
                ) {
                    Ok(s) => final(td).total_supply == s
                        && (r matches Ok(a) && a matches CpiAction::Burn { mint, account, authority, amount: amt }
                            && mint@ == accounts.mint@
                            && account@ == accounts.token_account.address@
                            && authority@ == accounts.authority@
                            && amt == amount),
                    Err(e) => r matches Err(e2) && e2 == e
                        && record_unchanged(*final(td), *old(td)),
                }
            }
        }),
{
    if !check_derived(&accounts.token_data_address, td.bump, program_id) {
        return Err(ErrorCode::Unauthorized);
    }
    if !addr_eq(&accounts.token_account.owner, &accounts.authority) {
        return Err(ErrorCode::Unauthorized);
    }
    if amount == 0 {
        return Err(ErrorCode::InvalidAmount);
    }
    if accounts.token_account.amount < amount {
        return Err(ErrorCode::InsufficientBalance);
    }
    if td.total_supply < amount {
        return Err(ErrorCode::Overflow);
    }
    td.total_supply = td.total_supply - amount;
    Ok(CpiAction::Burn {
        mint: copy_bytes(&accounts.mint),
        account: copy_bytes(&accounts.token_account.address),
        authority: copy_bytes(&accounts.authority),
        amount,
    })
}

/// The accounts of `revoke`: the balance account's snapshot and its owner
/// (a signer).
pub struct RevokeDelegate {
    pub token_account: TokenAccountState,
    pub owner: Vec<u8>,
}

/// Clears any recorded delegation on the balance account. The account's
/// recorded owner must be the presented signer (`Unauthorized`).
pub fn revoke(accounts: &RevokeDelegate) -> (r: Result<CpiAction, ErrorCode>)
    ensures
        ({
            if accounts.token_account.owner@ != accounts.owner@ {
                r matches Err(e) && e == ErrorCode::Unauthorized
            } else {
                r matches Ok(a) && a matches CpiAction::Revoke { account, authority }
                    && account@ == accounts.token_account.address@
                    && authority@ == accounts.owner@
            }
        }),
{
    if !addr_eq(&accounts.token_account.owner, &accounts.owner) {
        return Err(ErrorCode::Unauthorized);
    }
    Ok(CpiAction::Revoke {
        account: copy_bytes(&accounts.token_account.address),
        authority: copy_bytes(&accounts.owner),
    })
}

/// The accounts of `create_metadata`: the record at its derived address,
/// the mint it must reference, the metadata account to create, and the
/// payer (a signer).
pub struct CreateMetadata {
    pub token_data_address: Vec<u8>,
    pub mint: Vec<u8>,
    pub metadata: Vec<u8>,
    pub payer: Vec<u8>,
}

/// Requests the external metadata-issuance service to create the metadata
/// record for the mint. The record's discriminant must re-derive its own
/// address and its stored mint reference must match the supplied mint
/// (`Unauthorized` otherwise). The request presents the derived authority
/// as both mint and update authority, carries the supplied name, symbol
/// and URI, and the fixed fields: fungible classification, zero royalty,
/// mutable, nine decimals, no collection, creators or rule set. The
/// service itself rejects a second creation for the same mint; no guard
/// against that exists here.
pub fn create_metadata(
    td: &TokenData,
    accounts: &CreateMetadata,
    program_id: &Vec<u8>,
    name: String,
    symbol: String,
    uri: String,
) -> (r: Result<MetadataAction, ErrorCode>)
    requires
        is_address(program_id@),
    ensures
        ({
            let rel_ok = rederives(td.bump, accounts.token_data_address@, program_id@)
                && td.mint@ == accounts.mint@;
            if !rel_ok {
                r matches Err(e) && e == ErrorCode::Unauthorized
            } else {
                r matches Ok(m) && {
                    &&& m.metadata@ == accounts.metadata@
                    &&& m.mint@ == accounts.mint@
                    &&& m.authority@ == accounts.token_data_address@
                    &&& m.update_authority@ == accounts.token_data_address@
                    &&& m.payer@ == accounts.payer@
                    &&& m.name@ == name@
                    &&& m.symbol@ == symbol@
                    &&& m.uri@ == uri@
                    &&& m.seller_fee_basis_points == 0u16
                    &&& m.primary_sale_happened == false
                    &&& m.is_mutable == true
                    &&& m.fungible == true
                    &&& m.decimals == TOKEN_DECIMALS
                }
            }
        }),
{
    if !check_derived(&accounts.token_data_address, td.bump, program_id) {
        return Err(ErrorCode::Unauthorized);
    }
    if !addr_eq(&td.mint, &accounts.mint) {
        return Err(ErrorCode::Unauthorized);
    }
    Ok(MetadataAction {
        metadata: copy_bytes(&accounts.metadata),
        mint: copy_bytes(&accounts.mint),
        authority: copy_bytes(&accounts.token_data_address),
        payer: copy_bytes(&accounts.payer),
        update_authority: copy_bytes(&accounts.token_data_address),
        name,
        symbol,
        uri,
        seller_fee_basis_points: 0,
        primary_sale_happened: false,
        is_mutable: true,
        fungible: true,
        decimals: TOKEN_DECIMALS,
    })
}

} // verus!
