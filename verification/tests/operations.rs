use securechain_ai::actions::CpiAction;
use securechain_ai::errors::ErrorCode;
use securechain_ai::instructions::{
    initialize, mint_initial_supply, transfer, approve, transfer_from, burn, revoke,
    create_metadata, Initialize, MintInitialSupply, TransferTokens, ApproveDelegate, TransferFrom,
    BurnTokens, RevokeDelegate, CreateMetadata,
};
use securechain_ai::pda::find_authority_address;
use securechain_ai::state::{TokenAccountState, TokenData, INITIAL_SUPPLY};

fn addr(b: u8) -> Vec<u8> {
    vec![b; 32]
}

fn plain_account(address: u8, owner: u8, amount: u64) -> TokenAccountState {
    TokenAccountState {
        address: addr(address),
        owner: addr(owner),
        amount,
        delegate: None,
        delegated_amount: 0,
    }
}

fn fresh_record() -> (TokenData, Vec<u8>, Vec<u8>) {
    let pid = addr(7);
    let (tda, bump) = find_authority_address(&pid).unwrap();
    let accounts = Initialize {
        token_data_address: tda.clone(),
        bump,
        mint: addr(2),
        authority: addr(1),
    };
    let td = initialize(&accounts, &pid).unwrap();
    (td, tda, pid)
}

fn do_mint(td: &mut TokenData, tda: &[u8], pid: &Vec<u8>) -> Result<CpiAction, ErrorCode> {
    let accounts = MintInitialSupply {
        token_data_address: tda.to_vec(),
        mint: addr(2),
        authority_token_account: addr(3),
        authority: addr(1),
    };
    mint_initial_supply(td, &accounts, pid)
}

fn do_burn(
    td: &mut TokenData,
    tda: &[u8],
    pid: &Vec<u8>,
    balance: u64,
    amount: u64,
) -> Result<CpiAction, ErrorCode> {
    let accounts = BurnTokens {
        token_data_address: tda.to_vec(),
        mint: addr(2),
        token_account: plain_account(4, 1, balance),
        authority: addr(1),
    };
    burn(td, &accounts, pid, amount)
}

#[test]
fn initialize_sets_fixed_fields() {
    let (td, _, _) = fresh_record();
    assert_eq!(td.authority, addr(1));
    assert_eq!(td.mint, addr(2));
    assert_eq!(td.total_supply, 0);
    assert_eq!(td.decimals, 9);
    assert_eq!(td.name, "SecureChain AI");
    assert_eq!(td.symbol, "SCAI");
}

#[test]
fn mint_then_burn_then_second_mint() {
    let (mut td, tda, pid) = fresh_record();

    let r = do_mint(&mut td, &tda, &pid);
    assert!(r.is_ok());
    assert_eq!(td.total_supply, 500_000_000_000_000_000);

    let r = do_burn(&mut td, &tda, &pid, 2_000_000_000, 1_000_000_000);
    match r {
        Ok(CpiAction::Burn { amount, .. }) => assert_eq!(amount, 1_000_000_000),
        _ => panic!("burn was rejected"),
    }
    assert_eq!(td.total_supply, 499_999_999_000_000_000);

    let r = do_mint(&mut td, &tda, &pid);
    assert!(matches!(r, Err(ErrorCode::AlreadyMinted)));
    assert_eq!(td.total_supply, 499_999_999_000_000_000);
}

#[test]
fn mint_emits_full_supply_to_authority_account() {
    let (mut td, tda, pid) = fresh_record();
    match do_mint(&mut td, &tda, &pid) {
        Ok(CpiAction::MintTo { mint, to, authority, amount }) => {
            assert_eq!(mint, addr(2));
            assert_eq!(to, addr(3));
            assert_eq!(authority, tda);
            assert_eq!(amount, INITIAL_SUPPLY);
        }
        _ => panic!("mint was rejected"),
    }
}

#[test]
fn mint_requires_recorded_authority_and_mint() {
    let (mut td, tda, pid) = fresh_record();
    let accounts = MintInitialSupply {
        token_data_address: tda.clone(),
        mint: addr(2),
        authority_token_account: addr(3),
        authority: addr(9),
    };
    let r = mint_initial_supply(&mut td, &accounts, &pid);
    assert!(matches!(r, Err(ErrorCode::Unauthorized)));
    assert_eq!(td.total_supply, 0);

    let accounts = MintInitialSupply {
        token_data_address: tda,
        mint: addr(9),
        authority_token_account: addr(3),
        authority: addr(1),
    };
    let r = mint_initial_supply(&mut td, &accounts, &pid);
    assert!(matches!(r, Err(ErrorCode::Unauthorized)));
    assert_eq!(td.total_supply, 0);
}

#[test]
fn supply_tracks_mints_minus_burns() {
    let (mut td, tda, pid) = fresh_record();
    do_mint(&mut td, &tda, &pid).unwrap();
    do_burn(&mut td, &tda, &pid, 500, 100).unwrap();
    do_burn(&mut td, &tda, &pid, 500, 250).unwrap();
    assert!(do_burn(&mut td, &tda, &pid, 10, 25).is_err());
    assert_eq!(td.total_supply, INITIAL_SUPPLY - 100 - 250);
}

#[test]
fn transfer_zero_amount_is_rejected() {
    let accounts = TransferTokens {
        from_token_account: plain_account(4, 1, 10),
        to_token_account: addr(5),
        from_authority: addr(1),
    };
    let r = transfer(&accounts, 0);
    assert!(matches!(r, Err(ErrorCode::InvalidAmount)));
}

#[test]
fn transfer_moves_exactly_the_amount() {
    let accounts = TransferTokens {
        from_token_account: plain_account(4, 1, 10),
        to_token_account: addr(5),
        from_authority: addr(1),
    };
    match transfer(&accounts, 7) {
        Ok(CpiAction::Transfer { from, to, authority, amount }) => {
            assert_eq!(from, addr(4));
            assert_eq!(to, addr(5));
            assert_eq!(authority, addr(1));
            assert_eq!(amount, 7);
        }
        _ => panic!("transfer was rejected"),
    }
}

#[test]
fn transfer_requires_recorded_owner() {
    let accounts = TransferTokens {
        from_token_account: plain_account(4, 1, 10),
        to_token_account: addr(5),
        from_authority: addr(9),
    };
    let r = transfer(&accounts, 7);
    assert!(matches!(r, Err(ErrorCode::Unauthorized)));
}

#[test]
fn burn_zero_amount_is_rejected() {
    let (mut td, tda, pid) = fresh_record();
    do_mint(&mut td, &tda, &pid).unwrap();
    let r = do_burn(&mut td, &tda, &pid, 100, 0);
    assert!(matches!(r, Err(ErrorCode::InvalidAmount)));
    assert_eq!(td.total_supply, INITIAL_SUPPLY);
}

#[test]
fn burn_requires_covering_balance() {
    let (mut td, tda, pid) = fresh_record();
    do_mint(&mut td, &tda, &pid).unwrap();
    let r = do_burn(&mut td, &tda, &pid, 10, 11);
    assert!(matches!(r, Err(ErrorCode::InsufficientBalance)));
    assert_eq!(td.total_supply, INITIAL_SUPPLY);
}

#[test]
fn burn_never_underflows_the_supply() {
    let (mut td, tda, pid) = fresh_record();
    let r = do_burn(&mut td, &tda, &pid, 10, 5);
    assert!(matches!(r, Err(ErrorCode::Overflow)));
    assert_eq!(td.total_supply, 0);
}

#[test]
fn burn_requires_account_owner() {
    let (mut td, tda, pid) = fresh_record();
    do_mint(&mut td, &tda, &pid).unwrap();
    let accounts = BurnTokens {
        token_data_address: tda,
        mint: addr(2),
        token_account: plain_account(4, 8, 100),
        authority: addr(1),
    };
    let r = burn(&mut td, &accounts, &pid, 5);
    assert!(matches!(r, Err(ErrorCode::Unauthorized)));
    assert_eq!(td.total_supply, INITIAL_SUPPLY);
}

#[test]
fn approve_records_delegation_for_owner() {
    let accounts = ApproveDelegate {
        token_account: plain_account(4, 1, 10),
        delegate: addr(6),
        owner: addr(1),
    };
    match approve(&accounts, 100) {
        Ok(CpiAction::Approve { account, delegate, authority, amount }) => {
            assert_eq!(account, addr(4));
            assert_eq!(delegate, addr(6));
            assert_eq!(authority, addr(1));
            assert_eq!(amount, 100);
        }
        _ => panic!("approve was rejected"),
    }
}

#[test]
fn approve_zero_amount_is_allowed() {
    let accounts = ApproveDelegate {
        token_account: plain_account(4, 1, 10),
        delegate: addr(6),
        owner: addr(1),
    };
    match approve(&accounts, 0) {
        Ok(CpiAction::Approve { amount, .. }) => assert_eq!(amount, 0),
        _ => panic!("approve was rejected"),
    }
}

#[test]
fn mint_requires_the_derived_record_address() {
    let (mut td, _, pid) = fresh_record();
    let accounts = MintInitialSupply {
        token_data_address: addr(13),
        mint: addr(2),
        authority_token_account: addr(3),
        authority: addr(1),
    };
    let r = mint_initial_supply(&mut td, &accounts, &pid);
    assert!(matches!(r, Err(ErrorCode::Unauthorized)));
    assert_eq!(td.total_supply, 0);
}

#[test]
fn approve_requires_recorded_owner() {
    let accounts = ApproveDelegate {
        token_account: plain_account(4, 1, 10),
        delegate: addr(6),
        owner: addr(9),
    };
    assert!(matches!(approve(&accounts, 100), Err(ErrorCode::Unauthorized)));
}

#[test]
fn delegate_allowance_scenario() {
    let accounts = ApproveDelegate {
        token_account: plain_account(4, 1, 1000),
        delegate: addr(6),
        owner: addr(1),
    };
    let approved = approve(&accounts, 100);
    assert!(approved.is_ok());

    let mut from = plain_account(4, 1, 1000);
    from.delegate = Some(addr(6));
    from.delegated_amount = 100;
    let accounts = TransferFrom {
        from_token_account: from,
        to_token_account: addr(5),
        delegate: addr(6),
    };
    let r = transfer_from(&accounts, 150);
    assert!(matches!(r, Err(ErrorCode::InsufficientAllowance)));

    match transfer_from(&accounts, 100) {
        Ok(CpiAction::Transfer { from, to, authority, amount }) => {
            assert_eq!(from, addr(4));
            assert_eq!(to, addr(5));
            assert_eq!(authority, addr(6));
            assert_eq!(amount, 100);
        }
        _ => panic!("delegated transfer was rejected"),
    }
}

#[test]
fn transfer_from_requires_recorded_delegate() {
    let mut from = plain_account(4, 1, 1000);
    from.delegate = Some(addr(8));
    from.delegated_amount = 100;
    let accounts = TransferFrom {
        from_token_account: from,
        to_token_account: addr(5),
        delegate: addr(6),
    };
    assert!(matches!(transfer_from(&accounts, 10), Err(ErrorCode::InvalidDelegate)));
}

#[test]
fn transfer_from_without_any_delegation_is_rejected() {
    let accounts = TransferFrom {
        from_token_account: plain_account(4, 1, 1000),
        to_token_account: addr(5),
        delegate: addr(6),
    };
    assert!(matches!(transfer_from(&accounts, 10), Err(ErrorCode::InvalidDelegate)));
}

#[test]
fn transfer_from_zero_amount_is_rejected() {
    let mut from = plain_account(4, 1, 1000);
    from.delegate = Some(addr(6));
    from.delegated_amount = 100;
    let accounts = TransferFrom {
        from_token_account: from,
        to_token_account: addr(5),
        delegate: addr(6),
    };
    assert!(matches!(transfer_from(&accounts, 0), Err(ErrorCode::InvalidAmount)));
}

#[test]
fn revoke_clears_delegation_for_owner() {
    let accounts = RevokeDelegate { token_account: plain_account(4, 1, 10), owner: addr(1) };
    match revoke(&accounts) {
        Ok(CpiAction::Revoke { account, authority }) => {
            assert_eq!(account, addr(4));
            assert_eq!(authority, addr(1));
        }
        _ => panic!("revoke was rejected"),
    }
}

#[test]
fn revoke_requires_recorded_owner() {
    let accounts = RevokeDelegate { token_account: plain_account(4, 1, 10), owner: addr(9) };
    assert!(matches!(revoke(&accounts), Err(ErrorCode::Unauthorized)));
}

#[test]
fn create_metadata_carries_fixed_fields() {
    let (td, tda, pid) = fresh_record();
    let accounts = CreateMetadata {
        token_data_address: tda.clone(),
        mint: addr(2),
        metadata: addr(11),
        payer: addr(12),
    };
    let r = create_metadata(
        &td,
        &accounts,
        &pid,
        "SecureChain AI".to_string(),
        "SCAI".to_string(),
        "https://example.org/token.json".to_string(),
    );
    let m = r.unwrap_or_else(|_| panic!("metadata creation was rejected"));
    assert_eq!(m.metadata, addr(11));
    assert_eq!(m.mint, addr(2));
    assert_eq!(m.authority, tda);
    assert_eq!(m.update_authority, tda);
    assert_eq!(m.payer, addr(12));
    assert_eq!(m.name, "SecureChain AI");
    assert_eq!(m.symbol, "SCAI");
    assert_eq!(m.uri, "https://example.org/token.json");
    assert_eq!(m.seller_fee_basis_points, 0);
    assert!(!m.primary_sale_happened);
    assert!(m.is_mutable);
    assert!(m.fungible);
    assert_eq!(m.decimals, 9);
}

#[test]
fn create_metadata_requires_recorded_mint() {
    let (td, tda, pid) = fresh_record();
    let accounts = CreateMetadata {
        token_data_address: tda,
        mint: addr(9),
        metadata: addr(11),
        payer: addr(12),
    };
    let r = create_metadata(
        &td,
        &accounts,
        &pid,
        "a".to_string(),
        "b".to_string(),
        "c".to_string(),
    );
    assert!(matches!(r, Err(ErrorCode::Unauthorized)));
}

#[test]
fn error_messages_name_each_failure() {
    assert_eq!(
        ErrorCode::InvalidAmount.message(),
        "Invalid amount: must be greater than 0"
    );
    assert_eq!(ErrorCode::Overflow.message(), "Arithmetic overflow occurred");
    assert_eq!(
        ErrorCode::Unauthorized.message(),
        "Unauthorized: caller is not the owner"
    );
    assert_eq!(ErrorCode::InsufficientBalance.message(), "Insufficient balance");
    assert_eq!(
        ErrorCode::AlreadyMinted.message(),
        "Initial supply has already been minted"
    );
    assert_eq!(ErrorCode::InvalidDelegate.message(), "Invalid delegate");
    assert_eq!(
        ErrorCode::InsufficientAllowance.message(),
        "Insufficient allowance"
    );
}
