use pda_token_mint::authority::{authority_label_bytes, derive_authority, DerivationProof};
use pda_token_mint::ledger::{address_eq, Ledger, LedgerError};
use pda_token_mint::program::{create_mint, create_token_account, mint_tokens};

const PROGRAM_ID: [u8; 32] = [7u8; 32];
const OTHER_PROGRAM_ID: [u8; 32] = [8u8; 32];
const OWNER_A: [u8; 32] = [1u8; 32];
const CALLER_B: [u8; 32] = [2u8; 32];
const FUNDS: u64 = 10;
const COST: u64 = 5;

#[test]
fn authority_label_is_mint() {
    assert_eq!(authority_label_bytes(), b"mint".to_vec());
}

#[test]
fn derivation_deterministic() {
    let first = derive_authority(&PROGRAM_ID).expect("no disambiguation byte found");
    let second = derive_authority(&PROGRAM_ID).expect("no disambiguation byte found");
    assert_eq!(first.0, second.0);
    assert_eq!(first.1, second.1);
}

#[test]
fn derivation_depends_on_program_identity() {
    let (addr, _) = derive_authority(&PROGRAM_ID).expect("no disambiguation byte found");
    let (other, _) = derive_authority(&OTHER_PROGRAM_ID).expect("no disambiguation byte found");
    assert_ne!(addr, other);
    assert_ne!(addr, PROGRAM_ID);
}

#[test]
fn address_eq_compares_bytes() {
    let mut b = OWNER_A;
    assert!(address_eq(&OWNER_A, &b));
    b[31] = 99;
    assert!(!address_eq(&OWNER_A, &b));
}

#[test]
fn bind_mint_sets_both_authorities() {
    let mut l = Ledger::new();
    let (addr, _) = derive_authority(&PROGRAM_ID).expect("no disambiguation byte found");
    assert_eq!(create_mint(&mut l, &PROGRAM_ID, FUNDS, COST), Ok(()));
    let m = l.mint.expect("mint missing after creation");
    assert_eq!(m.minting_authority, addr);
    assert_eq!(m.freeze_authority, addr);
    assert_eq!(m.decimals, 6);
    assert_eq!(m.supply, 0);
}

#[test]
fn bind_mint_twice_fails_and_changes_nothing() {
    let mut l = Ledger::new();
    assert_eq!(create_mint(&mut l, &PROGRAM_ID, FUNDS, COST), Ok(()));
    let after_first = l.mint.expect("mint missing after creation");
    assert_eq!(
        create_mint(&mut l, &PROGRAM_ID, FUNDS, COST),
        Err(LedgerError::AlreadyExists)
    );
    let after_second = l.mint.expect("mint missing after second attempt");
    assert_eq!(after_second.supply, after_first.supply);
    assert_eq!(after_second.decimals, after_first.decimals);
    assert_eq!(after_second.minting_authority, after_first.minting_authority);
    assert_eq!(after_second.freeze_authority, after_first.freeze_authority);
    assert!(l.holding.is_none());
}

#[test]
fn holding_account_before_mint_fails_without_creating() {
    let mut l = Ledger::new();
    assert_eq!(
        create_token_account(&mut l, &OWNER_A, FUNDS, COST),
        Err(LedgerError::MintNotFound)
    );
    assert!(l.mint.is_none());
    assert!(l.holding.is_none());
}

#[test]
fn holding_account_links_to_mint() {
    let mut l = Ledger::new();
    assert_eq!(create_mint(&mut l, &PROGRAM_ID, FUNDS, COST), Ok(()));
    assert_eq!(create_token_account(&mut l, &OWNER_A, FUNDS, COST), Ok(()));
    let h = l.holding.expect("holding account missing after creation");
    assert_eq!(h.owner, OWNER_A);
    assert_eq!(h.balance, 0);
    assert_eq!(h.mint_ref, l.mint.unwrap().minting_authority);
    assert_eq!(
        create_token_account(&mut l, &CALLER_B, FUNDS, COST),
        Err(LedgerError::AlreadyExists)
    );
}

#[test]
fn creation_requires_funding() {
    let mut l = Ledger::new();
    assert_eq!(
        create_mint(&mut l, &PROGRAM_ID, COST - 1, COST),
        Err(LedgerError::FundingFailed)
    );
    assert!(l.mint.is_none());
    assert_eq!(create_mint(&mut l, &PROGRAM_ID, FUNDS, COST), Ok(()));
    assert_eq!(
        create_token_account(&mut l, &OWNER_A, COST - 1, COST),
        Err(LedgerError::FundingFailed)
    );
    assert!(l.holding.is_none());
}

#[test]
fn any_caller_can_mint_into_the_owned_account() {
    let mut l = Ledger::new();
    assert_eq!(create_mint(&mut l, &PROGRAM_ID, FUNDS, COST), Ok(()));
    assert_eq!(create_token_account(&mut l, &OWNER_A, FUNDS, COST), Ok(()));
    assert_eq!(mint_tokens(&mut l, &PROGRAM_ID, &CALLER_B, 1_000_000), Ok(()));
    assert_eq!(l.holding.unwrap().balance, 1_000_000);
    assert_eq!(l.holding.unwrap().owner, OWNER_A);
    assert_eq!(l.mint.unwrap().supply, 1_000_000);
    // A further mint by a third caller adds exactly its amount again.
    assert_eq!(mint_tokens(&mut l, &PROGRAM_ID, &[3u8; 32], 25), Ok(()));
    assert_eq!(l.holding.unwrap().balance, 1_000_025);
    assert_eq!(l.mint.unwrap().supply, 1_000_025);
}

#[test]
fn minting_without_holding_account_fails() {
    let mut l = Ledger::new();
    assert_eq!(create_mint(&mut l, &PROGRAM_ID, FUNDS, COST), Ok(()));
    assert_eq!(
        mint_tokens(&mut l, &PROGRAM_ID, &CALLER_B, 1),
        Err(LedgerError::HoldingAccountNotFound)
    );
    assert_eq!(l.mint.unwrap().supply, 0);
}

#[test]
fn minting_before_mint_fails() {
    let mut l = Ledger::new();
    assert_eq!(
        mint_tokens(&mut l, &PROGRAM_ID, &CALLER_B, 1),
        Err(LedgerError::MintNotFound)
    );
    assert!(l.mint.is_none());
    assert!(l.holding.is_none());
}

#[test]
fn mismatched_derivation_is_rejected() {
    let mut l = Ledger::new();
    assert_eq!(create_mint(&mut l, &PROGRAM_ID, FUNDS, COST), Ok(()));
    assert_eq!(create_token_account(&mut l, &OWNER_A, FUNDS, COST), Ok(()));
    assert_eq!(
        mint_tokens(&mut l, &OTHER_PROGRAM_ID, &CALLER_B, 1),
        Err(LedgerError::AuthorizationMismatch)
    );
    assert_eq!(l.mint.unwrap().supply, 0);
    assert_eq!(l.holding.unwrap().balance, 0);
}

#[test]
fn only_a_faithful_proof_authorizes() {
    let mut l = Ledger::new();
    assert_eq!(create_mint(&mut l, &PROGRAM_ID, FUNDS, COST), Ok(()));
    assert_eq!(create_token_account(&mut l, &OWNER_A, FUNDS, COST), Ok(()));
    let (_, bump) = derive_authority(&PROGRAM_ID).expect("no disambiguation byte found");
    let wrong_bump = DerivationProof {
        label: authority_label_bytes(),
        bump: bump.wrapping_add(1),
        program_id: PROGRAM_ID,
    };
    assert_eq!(
        l.increase_supply(&wrong_bump, 5),
        Err(LedgerError::AuthorizationMismatch)
    );
    let wrong_label = DerivationProof {
        label: b"tint".to_vec(),
        bump,
        program_id: PROGRAM_ID,
    };
    assert_eq!(
        l.increase_supply(&wrong_label, 5),
        Err(LedgerError::AuthorizationMismatch)
    );
    assert_eq!(l.holding.unwrap().balance, 0);
    let faithful = DerivationProof {
        label: authority_label_bytes(),
        bump,
        program_id: PROGRAM_ID,
    };
    assert_eq!(l.increase_supply(&faithful, 5), Ok(()));
    assert_eq!(l.holding.unwrap().balance, 5);
    assert_eq!(l.mint.unwrap().supply, 5);
}

#[test]
fn overflow_is_rejected_and_changes_nothing() {
    let mut l = Ledger::new();
    assert_eq!(create_mint(&mut l, &PROGRAM_ID, FUNDS, COST), Ok(()));
    assert_eq!(create_token_account(&mut l, &OWNER_A, FUNDS, COST), Ok(()));
    assert_eq!(mint_tokens(&mut l, &PROGRAM_ID, &CALLER_B, u64::MAX), Ok(()));
    assert_eq!(l.mint.unwrap().supply, u64::MAX);
    assert_eq!(
        mint_tokens(&mut l, &PROGRAM_ID, &CALLER_B, 1),
        Err(LedgerError::Overflow)
    );
    assert_eq!(l.mint.unwrap().supply, u64::MAX);
    assert_eq!(l.holding.unwrap().balance, u64::MAX);
}
