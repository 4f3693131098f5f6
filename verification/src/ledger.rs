//! The ledger: the mint resource, the holding account, the capability
//! binder that creates each of them exactly once, and the authorized
//! supply increase.

use vstd::prelude::*;
use crate::authority::{find_program_address, pda_of, DerivationProof};

verus! {

/// The errors surfaced by the setup and minting operations. No error is
/// recovered internally: each one aborts its operation with no state change.
#[derive(Clone, Copy, Debug, PartialEq, Eq, Structural)]
pub enum LedgerError {
    /// A creation found its storage slot already occupied.
    AlreadyExists,
    /// An operation that depends on the mint came before the mint was bound.
    MintNotFound,
    /// A supply increase found no holding account to credit.
    HoldingAccountNotFound,
    /// The funding account cannot pay the creation cost.
    FundingFailed,
    /// The address re-derived from the presented proof does not match the
    /// recorded minting authority.
    AuthorizationMismatch,
    /// The supply increase would leave the numeric range.
    Overflow,
    /// No disambiguation byte yields a qualifying authority address.
    DerivationFailed,
}

/// The mint resource: one token type, its supply, and the two authority
/// references baked in at creation.
#[derive(Clone, Copy, Debug)]
pub struct MintRecord {
    pub decimals: u8,
    pub supply: u64,
    pub minting_authority: [u8; 32],
    pub freeze_authority: [u8; 32],
}

/// The holding account: the balance ledger entry for one owner under the
/// mint it is linked to.
#[derive(Clone, Copy, Debug)]
pub struct HoldingRecord {
    pub mint_ref: [u8; 32],
    pub owner: [u8; 32],
    pub balance: u64,
}

/// The ledger state this program controls: one mint slot and one holding
/// account slot, each empty until its one-time creation.
#[derive(Clone, Copy, Debug)]
pub struct Ledger {
    pub mint: Option<MintRecord>,
    pub holding: Option<HoldingRecord>,
}

/// A mint as its creation leaves it: zero supply, the requested precision,
/// and the two authority references baked in.
pub open spec fn fresh_mint(
    decimals: u8,
    minting_authority: [u8; 32],
    freeze_authority: [u8; 32],
) -> MintRecord {
    MintRecord { decimals, supply: 0, minting_authority, freeze_authority }
}

/// A holding account as its creation leaves it: zero balance, owned by
/// the caller, linked to the mint.
pub open spec fn fresh_holding(mint_ref: [u8; 32], owner: [u8; 32]) -> HoldingRecord {
    HoldingRecord { mint_ref, owner, balance: 0 }
}

/// Whether a presented derivation proof authorizes a privileged operation
/// on a mint: the address re-derived from the proof's label and program
/// identity exists, carries the proof's disambiguation byte, and equals the
/// mint's recorded minting authority.
pub open spec fn proof_authorizes(p: DerivationProof, m: MintRecord) -> bool {
    pda_of(p.label@, p.program_id@) matches Some((addr, bump)) && bump == p.bump && addr
        == m.minting_authority@
}

/// Outcome of creating the mint resource: the result and the next state.
pub open spec fn create_mint_resource_spec(
    l: Ledger,
    decimals: u8,
    minting_authority: [u8; 32],
    freeze_authority: [u8; 32],
    funder_balance: u64,
    creation_cost: u64,
) -> (Result<(), LedgerError>, Ledger) {
    if l.mint is Some {
        (Err(LedgerError::AlreadyExists), l)
    } else if funder_balance < creation_cost {
        (Err(LedgerError::FundingFailed), l)
    } else {
        (
            Ok(()),
            Ledger {
                mint: Some(fresh_mint(decimals, minting_authority, freeze_authority)),
                holding: l.holding,
            },
        )
    }
}

/// Outcome of creating the holding account: the result and the next
/// state. The mint must exist first; the new account is linked to it.
pub open spec fn create_holding_account_spec(
    l: Ledger,
    owner: [u8; 32],
    funder_balance: u64,
    creation_cost: u64,
) -> (Result<(), LedgerError>, Ledger) {
    match l.mint {
        None => (Err(LedgerError::MintNotFound), l),
        Some(m) => if l.holding is Some {
            (Err(LedgerError::AlreadyExists), l)
        } else if funder_balance < creation_cost {
            (Err(LedgerError::FundingFailed), l)
        } else {
            (
                Ok(()),
                Ledger {
                    mint: l.mint,
                    holding: Some(fresh_holding(m.minting_authority, owner)),
                },
            )
        },
    }
}

/// Outcome of an authorized supply increase: the result and the next state.
/// Both resources must exist, the proof must re-derive to the recorded
/// authority, and both the supply and the balance must stay in range;
/// otherwise nothing changes.
pub open spec fn increase_supply_spec(l: Ledger, p: DerivationProof, amount: u64) -> (
    Result<(), LedgerError>,
    Ledger,
) {
    match l.mint {
        None => (Err(LedgerError::MintNotFound), l),
        Some(m) => match l.holding {
            None => (Err(LedgerError::HoldingAccountNotFound), l),
            Some(h) => if !proof_authorizes(p, m) {
                (Err(LedgerError::AuthorizationMismatch), l)
            } else if m.supply + amount > u64::MAX || h.balance + amount > u64::MAX {
                (Err(LedgerError::Overflow), l)
            } else {
                (
                    Ok(()),
                    Ledger {
                        mint: Some(
                            MintRecord {
                                decimals: m.decimals,
                                supply: (m.supply + amount) as u64,
                                minting_authority: m.minting_authority,
                                freeze_authority: m.freeze_authority,
                            },
                        ),
                        holding: Some(
                            HoldingRecord {
                                mint_ref: h.mint_ref,
                                owner: h.owner,
                                balance: (h.balance + amount) as u64,
                            },
                        ),
                    },
                )
            },
        },
    }
}

/// Compare two 32-byte addresses.
pub fn address_eq(a: &[u8; 32], b: &[u8; 32]) -> (r: bool)
    ensures
        r <==> a@ == b@,
{
    let mut i: usize = 0;
    while i < 32
        invariant
            0 <= i <= 32,
            forall|j: int| 0 <= j < i ==> a@[j] == b@[j],
        decreases 32 - i,
    {
        if a[i] != b[i] {
            return false;
        }
        i += 1;
    }
    proof {
        assert(a@ =~= b@);
    }
    true
}

impl Ledger {
    /// Well-formedness: the mint's two authority references agree and its
    /// precision is fixed; the holding account exists only after the mint,
    /// is linked to it, and never records more than the supply.
    pub open spec fn wf(self) -> bool {
        &&& (self.mint matches Some(m) ==> m.freeze_authority@ == m.minting_authority@
            && m.decimals == 6)
        &&& (self.holding matches Some(h) ==> (self.mint matches Some(m) && h.mint_ref@
            == m.minting_authority@ && h.balance <= m.supply))
    }

    /// A ledger with both slots empty, as before any setup call.
    pub fn new() -> (r: Ledger)
        ensures
            r.mint is None,
            r.holding is None,
            r.wf(),
    {
        Ledger { mint: None, holding: None }
    }

    /// Create the mint resource once, with the requested precision and the
    /// two given authority references, rejecting a second creation.
    pub fn create_mint_resource(
        &mut self,
        decimals: u8,
        minting_authority: [u8; 32],
        freeze_authority: [u8; 32],
        funder_balance: u64,
        creation_cost: u64,
    ) -> (r: Result<(), LedgerError>)
        ensures
            r == create_mint_resource_spec(
                *old(self),
                decimals,
                minting_authority,
                freeze_authority,
                funder_balance,
                creation_cost,
            ).0,
            *final(self) == create_mint_resource_spec(
                *old(self),
                decimals,
                minting_authority,
                freeze_authority,
                funder_balance,
                creation_cost,
            ).1,
            r is Ok <==> old(self).mint is None && funder_balance >= creation_cost,
            old(self).wf() && decimals == 6 && minting_authority@ == freeze_authority@
                ==> final(self).wf(),
    {
        if self.mint.is_some() {
            Err(LedgerError::AlreadyExists)
        } else if funder_balance < creation_cost {
            Err(LedgerError::FundingFailed)
        } else {
            self.mint = Some(
                MintRecord { decimals, supply: 0, minting_authority, freeze_authority },
            );
            Ok(())
        }
    }

    /// Create the holding account once, owned by the
    /// caller and linked to the already-bound mint.
    pub fn create_holding_account(
        &mut self,
        owner: [u8; 32],
        funder_balance: u64,
        creation_cost: u64,
    ) -> (r: Result<(), LedgerError>)
        ensures
            r == create_holding_account_spec(*old(self), owner, funder_balance, creation_cost).0,
            *final(self) == create_holding_account_spec(
                *old(self),
                owner,
                funder_balance,
                creation_cost,
            ).1,
            r is Ok <==> old(self).mint is Some && old(self).holding is None && funder_balance
                >= creation_cost,
            old(self).wf() ==> final(self).wf(),
    {
        let m = match self.mint {
            Some(m) => m,
            None => { return Err(LedgerError::MintNotFound) },
        };
        if self.holding.is_some() {
            Err(LedgerError::AlreadyExists)
        } else if funder_balance < creation_cost {
            Err(LedgerError::FundingFailed)
        } else {
            self.holding = Some(
                HoldingRecord { mint_ref: m.minting_authority, owner, balance: 0 },
            );
            Ok(())
        }
    }

    /// The privileged supply increase: honored only when the presented
    /// derivation proof re-derives to the mint's recorded authority, and
    /// only when supply and balance stay in range. On success both grow by
    /// exactly `amount`; on any error nothing changes.
    pub fn increase_supply(&mut self, authorization: &DerivationProof, amount: u64) -> (r: Result<
        (),
        LedgerError,
    >)
        ensures
            r == increase_supply_spec(*old(self), *authorization, amount).0,
            *final(self) == increase_supply_spec(*old(self), *authorization, amount).1,
            old(self).wf() ==> final(self).wf(),
    {
        let m = match self.mint {
            Some(m) => m,
            None => { return Err(LedgerError::MintNotFound) },
        };
        let h = match self.holding {
            Some(h) => h,
            None => { return Err(LedgerError::HoldingAccountNotFound) },
        };
        let derived = find_program_address(&authorization.label, &authorization.program_id);
        let authorized = match derived {
            Some((addr, bump)) => bump == authorization.bump && address_eq(
                &addr,
                &m.minting_authority,
            ),
            None => false,
        };
        proof {
            assert(authorized == proof_authorizes(*authorization, m));
        }
        if !authorized {
            return Err(LedgerError::AuthorizationMismatch);
        }
        if amount > u64::MAX - m.supply || amount > u64::MAX - h.balance {
            return Err(LedgerError::Overflow);
        }
        self.mint = Some(
            MintRecord {
                decimals: m.decimals,
                supply: m.supply + amount,
                minting_authority: m.minting_authority,
                freeze_authority: m.freeze_authority,
            },
        );
        self.holding = Some(
            HoldingRecord { mint_ref: h.mint_ref, owner: h.owner, balance: h.balance + amount },
        );
        Ok(())
    }
}

/// Creating the mint twice: once a creation has succeeded, a second attempt
/// fails with `AlreadyExists` whatever its arguments, and the ledger after
/// both attempts equals the ledger after the first alone.
pub proof fn lemma_create_mint_twice(
    l: Ledger,
    decimals1: u8,
    minting1: [u8; 32],
    freeze1: [u8; 32],
    funder1: u64,
    cost1: u64,
    decimals2: u8,
    minting2: [u8; 32],
    freeze2: [u8; 32],
    funder2: u64,
    cost2: u64,
)
    requires
        create_mint_resource_spec(l, decimals1, minting1, freeze1, funder1, cost1).0 is Ok,
    ensures
        ({
            let l1 = create_mint_resource_spec(l, decimals1, minting1, freeze1, funder1, cost1).1;
            &&& create_mint_resource_spec(l1, decimals2, minting2, freeze2, funder2, cost2).0
                == Err::<(), LedgerError>(LedgerError::AlreadyExists)
            &&& create_mint_resource_spec(l1, decimals2, minting2, freeze2, funder2, cost2).1 == l1
        }),
{
}

/// Every error aborts its operation atomically: a failing creation or
/// supply increase returns the ledger exactly as it found it.
pub proof fn lemma_errors_change_nothing(
    l: Ledger,
    decimals: u8,
    minting_authority: [u8; 32],
    freeze_authority: [u8; 32],
    owner: [u8; 32],
    p: DerivationProof,
    amount: u64,
    funder_balance: u64,
    creation_cost: u64,
)
    ensures
        create_mint_resource_spec(
            l,
            decimals,
            minting_authority,
            freeze_authority,
            funder_balance,
            creation_cost,
        ).0 is Err ==> create_mint_resource_spec(
            l,
            decimals,
            minting_authority,
            freeze_authority,
            funder_balance,
            creation_cost,
        ).1 == l,
        create_holding_account_spec(l, owner, funder_balance, creation_cost).0 is Err
            ==> create_holding_account_spec(l, owner, funder_balance, creation_cost).1 == l,
        increase_supply_spec(l, p, amount).0 is Err ==> increase_supply_spec(l, p, amount).1 == l,
{
}

/// Binding the holding account before the mint: with no mint bound, Bind
/// HoldingAccount fails with `MintNotFound` and creates nothing.
pub proof fn lemma_holding_account_needs_mint(
    l: Ledger,
    owner: [u8; 32],
    funder_balance: u64,
    creation_cost: u64,
)
    requires
        l.mint is None,
    ensures
        create_holding_account_spec(l, owner, funder_balance, creation_cost).0 == Err::<
            (),
            LedgerError,
        >(LedgerError::MintNotFound),
        create_holding_account_spec(l, owner, funder_balance, creation_cost).1 == l,
{
}

/// A successful mint creation bakes in exactly the requested bindings: the
/// new mint carries the two authority references and the precision it was
/// created with, and starts with zero supply.
pub proof fn lemma_bound_authorities(
    l: Ledger,
    decimals: u8,
    minting_authority: [u8; 32],
    freeze_authority: [u8; 32],
    funder_balance: u64,
    creation_cost: u64,
)
    requires
        create_mint_resource_spec(
            l,
            decimals,
            minting_authority,
            freeze_authority,
            funder_balance,
            creation_cost,
        ).0 is Ok,
    ensures
        ({
            let l1 = create_mint_resource_spec(
                l,
                decimals,
                minting_authority,
                freeze_authority,
                funder_balance,
                creation_cost,
            ).1;
            l1.mint matches Some(m) && m.minting_authority == minting_authority
                && m.freeze_authority == freeze_authority && m.decimals == decimals && m.supply
                == 0
        }),
{
}

} // verus!
