use securechain_ai::errors::ErrorCode;
use securechain_ai::instructions::{initialize, Initialize};
use securechain_ai::pda::{check_derived, derive_authority_address, find_authority_address};

fn addr(b: u8) -> Vec<u8> {
    vec![b; 32]
}

#[test]
fn found_discriminant_rederives_the_record_address() {
    let pid = addr(7);
    let (tda, bump) = find_authority_address(&pid).unwrap();
    assert_eq!(tda.len(), 32);
    assert!(check_derived(&tda, bump, &pid));

    let again = derive_authority_address(bump, &pid).unwrap();
    assert_eq!(again, tda);
}

#[test]
fn derivation_depends_on_the_program_id() {
    let (a1, b1) = find_authority_address(&addr(7)).unwrap();
    let (a2, _) = find_authority_address(&addr(8)).unwrap();
    assert_ne!(a1, a2);
    assert_ne!(a1, addr(7));
    assert!(!check_derived(&a1, b1, &addr(8)));
}

#[test]
fn wrong_discriminant_is_rejected_before_any_state_change() {
    let pid = addr(7);
    let (tda, bump) = find_authority_address(&pid).unwrap();
    let wrong = bump.wrapping_add(1);
    assert!(!check_derived(&tda, wrong, &pid));
    let accounts = Initialize {
        token_data_address: tda,
        bump: wrong,
        mint: addr(2),
        authority: addr(1),
    };
    let r = initialize(&accounts, &pid);
    assert!(matches!(r, Err(ErrorCode::Unauthorized)));
}

#[test]
fn wrong_record_address_is_rejected() {
    let pid = addr(7);
    let (_, bump) = find_authority_address(&pid).unwrap();
    assert!(!check_derived(&addr(9), bump, &pid));
    let accounts = Initialize {
        token_data_address: addr(9),
        bump,
        mint: addr(2),
        authority: addr(1),
    };
    assert!(matches!(initialize(&accounts, &pid), Err(ErrorCode::Unauthorized)));
}
