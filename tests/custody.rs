use anchor_lang::prelude::Pubkey;
use escrow::custody::{derive_address, same_address, verify_address, Role};

const PROGRAM: [u8; 32] = [7u8; 32];
const MAKER: [u8; 32] = [1u8; 32];
const TAKER: [u8; 32] = [2u8; 32];

#[test]
fn derived_address_verifies() {
    for role in [Role::Deal, Role::Controller, Role::Holding, Role::Obligation, Role::VaultState, Role::Vault] {
        let (address, proof) = derive_address(role, &MAKER, &PROGRAM).unwrap();
        assert!(verify_address(role, &MAKER, proof, &PROGRAM, &address));
    }
}

#[test]
fn derived_proof_is_canonical() {
    for role in [Role::Deal, Role::Controller, Role::Holding, Role::Obligation] {
        let (_, proof) = derive_address(role, &TAKER, &PROGRAM).unwrap();
        assert!(proof >= 1);
        let tag = role.tag();
        let program = Pubkey::new_from_array(PROGRAM);
        for higher in (proof as u16 + 1)..=255u16 {
            let bump = [higher as u8];
            let seeds: [&[u8]; 3] = [&tag, &TAKER, &bump];
            assert!(Pubkey::create_program_address(&seeds, &program).is_err());
        }
    }
}

#[test]
fn derivation_is_deterministic() {
    let first = derive_address(Role::Holding, &TAKER, &PROGRAM).unwrap();
    let second = derive_address(Role::Holding, &TAKER, &PROGRAM).unwrap();
    assert_eq!(first, second);
}

#[test]
fn other_identity_does_not_verify() {
    let (address, proof) = derive_address(Role::Holding, &MAKER, &PROGRAM).unwrap();
    assert!(!verify_address(Role::Holding, &TAKER, proof, &PROGRAM, &address));
}

#[test]
fn other_role_does_not_verify() {
    let (address, proof) = derive_address(Role::Holding, &MAKER, &PROGRAM).unwrap();
    assert!(!verify_address(Role::Obligation, &MAKER, proof, &PROGRAM, &address));
    assert!(!verify_address(Role::Deal, &MAKER, proof, &PROGRAM, &address));
}

#[test]
fn other_address_does_not_verify() {
    let (address, proof) = derive_address(Role::Deal, &MAKER, &PROGRAM).unwrap();
    let mut other = address;
    other[0] ^= 1;
    assert!(!verify_address(Role::Deal, &MAKER, proof, &PROGRAM, &other));
}

#[test]
fn roles_derive_distinct_addresses() {
    let (deal, _) = derive_address(Role::Deal, &MAKER, &PROGRAM).unwrap();
    let (controller, _) = derive_address(Role::Controller, &MAKER, &PROGRAM).unwrap();
    let (holding, _) = derive_address(Role::Holding, &MAKER, &PROGRAM).unwrap();
    assert_ne!(deal, controller);
    assert_ne!(deal, holding);
    assert_ne!(controller, holding);
    assert_ne!(deal, MAKER);
}

#[test]
fn role_tags_are_the_seed_words() {
    assert_eq!(Role::Deal.tag(), b"deal".to_vec());
    assert_eq!(Role::Controller.tag(), b"controller".to_vec());
    assert_eq!(Role::Holding.tag(), b"token".to_vec());
    assert_eq!(Role::Obligation.tag(), b"user_details".to_vec());
    assert_eq!(Role::VaultState.tag(), b"state".to_vec());
    assert_eq!(Role::Vault.tag(), b"vault".to_vec());
}

#[test]
fn same_address_compares_every_byte() {
    let a = [5u8; 32];
    let mut b = [5u8; 32];
    assert!(same_address(&a, &b));
    b[31] = 6;
    assert!(!same_address(&a, &b));
}
