//! The caller-facing entry points: one-time setup of the mint and of the
//! holding account, and the privileged mint operation that authorizes
//! itself by reconstructing the authority derivation.

use vstd::prelude::*;
use crate::authority::{authority_label_bytes, derive_authority, spec_authority, DerivationProof};
use crate::ledger::{
    create_holding_account_spec, HoldingRecord, Ledger, LedgerError, MintRecord,
};

verus! {

/// Outcome of the mint operation for a ledger, a program identity, a caller
/// and an amount: the result and the next state. The caller appears as an
/// input but never influences the outcome: authorization is bound to the
/// derivation, not to the caller's identity.
pub open spec fn mint_tokens_spec(l: Ledger, program_id: Seq<u8>, caller: Seq<u8>, amount: u64) -> (
    Result<(), LedgerError>,
    Ledger,
) {
    match spec_authority(program_id) {
        None => (Err(LedgerError::DerivationFailed), l),
        Some((addr, bump)) => match l.mint {
            None => (Err(LedgerError::MintNotFound), l),
            Some(m) => match l.holding {
                None => (Err(LedgerError::HoldingAccountNotFound), l),
                Some(h) => if addr != m.minting_authority@ {
                    (Err(LedgerError::AuthorizationMismatch), l)
                } else if m.supply + amount > u64::MAX || h.balance + amount > u64::MAX {
                    (Err(LedgerError::Overflow), l)
                } else {
                    (
                        Ok(()),
                        Ledger {
                            mint: Some(
                                MintRecord {
                                    decimals: m.decimals,
                                    supply: (m.supply + amount) as u64,
                                    minting_authority: m.minting_authority,
                                    freeze_authority: m.freeze_authority,
                                },
                            ),
                            holding: Some(
                                HoldingRecord {
                                    mint_ref: h.mint_ref,
                                    owner: h.owner,
                                    balance: (h.balance + amount) as u64,
                                },
                            ),
                        },
                    )
                },
            },
        },
    }
}

/// Create the mint: derive the authority for this program identity and bind
/// a fresh mint to it, paid for from the funder's balance. Rejected when the
/// mint already exists or the funder cannot pay; the ledger is unchanged on
/// every error.
pub fn create_mint(
    ledger: &mut Ledger,
    program_id: &[u8; 32],
    funder_balance: u64,
    creation_cost: u64,
) -> (r: Result<(), LedgerError>)
    ensures
        (match spec_authority(program_id@) {
            None => r == Err::<(), LedgerError>(LedgerError::DerivationFailed) && *final(ledger)
                == *old(ledger),
            Some((addr, bump)) => {
                &&& (old(ledger).mint is Some ==> r == Err::<(), LedgerError>(
                    LedgerError::AlreadyExists,
                ) && *final(ledger) == *old(ledger))
                &&& (old(ledger).mint is None && funder_balance < creation_cost ==> r == Err::<
                    (),
                    LedgerError,
                >(LedgerError::FundingFailed) && *final(ledger) == *old(ledger))
                &&& (old(ledger).mint is None && funder_balance >= creation_cost ==> {
                    &&& r == Ok::<(), LedgerError>(())
                    &&& final(ledger).holding == old(ledger).holding
                    &&& (final(ledger).mint matches Some(m) && m.decimals == 6 && m.supply == 0
                        && m.minting_authority@ == addr && m.freeze_authority@ == addr)
                })
            },
        }),
        old(ledger).wf() ==> final(ledger).wf(),
{
    let derived = derive_authority(program_id);
    let (authority, _bump) = match derived {
        Some(p) => p,
        None => { return Err(LedgerError::DerivationFailed) },
    };
    ledger.create_mint_resource(6, authority, authority, funder_balance, creation_cost)
}

/// Create the holding account for `owner`, linked to the already-created
/// mint, paid for from the funder's balance. Rejected when the mint is
/// missing, the account already exists, or the funder cannot pay; the
/// ledger is unchanged on every error.
pub fn create_token_account(
    ledger: &mut Ledger,
    owner: &[u8; 32],
    funder_balance: u64,
    creation_cost: u64,
) -> (r: Result<(), LedgerError>)
    ensures
        r == create_holding_account_spec(*old(ledger), *owner, funder_balance, creation_cost).0,
        *final(ledger) == create_holding_account_spec(
            *old(ledger),
            *owner,
            funder_balance,
            creation_cost,
        ).1,
        old(ledger).wf() ==> final(ledger).wf(),
{
    ledger.create_holding_account(*owner, funder_balance, creation_cost)
}

/// Mint `amount` tokens into the holding account: reconstruct the
/// authority's derivation proof and present it to the ledger in place of a
/// signature. Any caller may invoke this; the caller's identity plays no
/// part in authorization or in the outcome.
#[allow(unused_variables)]
pub fn mint_tokens(
    ledger: &mut Ledger,
    program_id: &[u8; 32],
    caller: &[u8; 32],
    amount: u64,
) -> (r: Result<(), LedgerError>)
    ensures
        r == mint_tokens_spec(*old(ledger), program_id@, caller@, amount).0,
        *final(ledger) == mint_tokens_spec(*old(ledger), program_id@, caller@, amount).1,
        old(ledger).wf() ==> final(ledger).wf(),
{
    let derived = derive_authority(program_id);
    let (authority, bump) = match derived {
        Some(p) => p,
        None => { return Err(LedgerError::DerivationFailed) },
    };
    let authorization = DerivationProof {
        label: authority_label_bytes(),
        bump,
        program_id: *program_id,
    };
    ledger.increase_supply(&authorization, amount)
}

/// Minting does not depend on the caller: for one ledger, program identity
/// and amount, any two callers get the same result and leave the same state.
pub proof fn lemma_mint_caller_independent(
    l: Ledger,
    program_id: Seq<u8>,
    caller1: Seq<u8>,
    caller2: Seq<u8>,
    amount: u64,
)
    ensures
        mint_tokens_spec(l, program_id, caller1, amount) == mint_tokens_spec(
            l,
            program_id,
            caller2,
            amount,
        ),
{
}

/// A successful mint increases the holding account's balance and the mint's
/// supply by exactly the requested amount and changes nothing else about
/// either record.
pub proof fn lemma_mint_tokens_exact(l: Ledger, program_id: Seq<u8>, caller: Seq<u8>, amount: u64)
    ensures
        mint_tokens_spec(l, program_id, caller, amount).0 is Ok ==> ({
            let l2 = mint_tokens_spec(l, program_id, caller, amount).1;
            &&& (l.mint matches Some(m) && (l2.mint matches Some(m2) && m2.supply == m.supply
                + amount && m2.decimals == m.decimals && m2.minting_authority@
                == m.minting_authority@ && m2.freeze_authority@ == m.freeze_authority@))
            &&& (l.holding matches Some(h) && (l2.holding matches Some(h2) && h2.balance
                == h.balance + amount && h2.owner@ == h.owner@ && h2.mint_ref@ == h.mint_ref@))
        }),
{
}

/// Under the program identity whose derived authority the mint was bound
/// to, proof reconstruction always matches the recorded authority: an
/// authorization mismatch can only signal a mint bound under a different
/// identity.
pub proof fn lemma_reconstruction_matches(
    l: Ledger,
    program_id: Seq<u8>,
    caller: Seq<u8>,
    amount: u64,
)
    ensures
        (l.mint matches Some(m) && (spec_authority(program_id) matches Some((addr, bump)) && addr
            == m.minting_authority@)) ==> mint_tokens_spec(l, program_id, caller, amount).0
            != Err::<(), LedgerError>(LedgerError::AuthorizationMismatch),
{
}

/// A failing mint operation is atomic: on every error the ledger is
/// returned exactly as it was.
pub proof fn lemma_mint_tokens_atomic(l: Ledger, program_id: Seq<u8>, caller: Seq<u8>, amount: u64)
    ensures
        mint_tokens_spec(l, program_id, caller, amount).0 is Err ==> mint_tokens_spec(
            l,
            program_id,
            caller,
            amount,
        ).1 == l,
{
}

/// An amount that would push the supply past the numeric range makes the
/// mint operation fail with `Overflow` and leaves balance and supply
/// unchanged, even when the derivation proof is valid.
pub proof fn lemma_mint_tokens_overflow(
    l: Ledger,
    program_id: Seq<u8>,
    caller: Seq<u8>,
    amount: u64,
)
    ensures
        (l.mint matches Some(m) && l.holding matches Some(h) && (spec_authority(
            program_id,
        ) matches Some((addr, bump)) && addr == m.minting_authority@) && m.supply + amount
            > u64::MAX) ==> (mint_tokens_spec(l, program_id, caller, amount).0 == Err::<
            (),
            LedgerError,
        >(LedgerError::Overflow) && mint_tokens_spec(l, program_id, caller, amount).1 == l),
{
}

} // verus!
