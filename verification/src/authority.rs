//! The authority deriver: a deterministic, keyless address computed from a
//! fixed label and a program identity, together with the disambiguation byte
//! ("bump") that pushes the address outside the valid-key space.

use vstd::prelude::*;

verus! {

/// The fixed label from which the single global authority is derived:
/// the bytes of `"mint"`.
pub open spec fn authority_label() -> Seq<u8> {
    seq![109u8, 105u8, 110u8, 116u8]
}

/// What the platform's program-address derivation returns for a seed label
/// and a program identity: either a 32-byte address and its disambiguation
/// byte, or nothing when no byte in the search range yields an address
/// outside the valid-key space. The result is a function of the label and
/// the program identity alone.
pub uninterp spec fn pda_of(label: Seq<u8>, program_id: Seq<u8>) -> Option<(Seq<u8>, u8)>;

/// The authority for a given program identity: the derivation of the fixed
/// label under that identity.
pub open spec fn spec_authority(program_id: Seq<u8>) -> Option<(Seq<u8>, u8)> {
    pda_of(authority_label(), program_id)
}

/// Relies on `anchor_lang::prelude::Pubkey::try_find_program_address`: it
/// searches the disambiguation bytes from high to low and returns the first
/// off-curve address, a deterministic function of the seeds and the program
/// identity alone; it returns `None` when no byte qualifies, and never
/// panics.
#[verifier::external_body]
pub(crate) fn find_program_address(label: &Vec<u8>, program_id: &[u8; 32]) -> (r: Option<
    ([u8; 32], u8),
>)
    ensures
        (match r {
            Some((addr, bump)) => pda_of(label@, program_id@) == Some((addr@, bump)),
            None => pda_of(label@, program_id@) is None,
        }),
{
    let pid = anchor_lang::prelude::Pubkey::new_from_array(*program_id);
    match anchor_lang::prelude::Pubkey::try_find_program_address(&[label.as_slice()], &pid) {
        Some((addr, bump)) => Some((addr.to_bytes(), bump)),
        None => None,
    }
}

/// The authority label as bytes, for building a derivation proof.
pub fn authority_label_bytes() -> (r: Vec<u8>)
    ensures
        r@ == authority_label(),
{
    let mut v: Vec<u8> = Vec::new();
    v.push(109u8);
    v.push(105u8);
    v.push(110u8);
    v.push(116u8);
    proof {
        assert(v@ =~= authority_label());
    }
    v
}

/// Derive the authority for a program identity: the address and the
/// disambiguation byte for the fixed label. Fails only when no
/// disambiguation byte yields a qualifying address, a fatal configuration
/// error that is not expected in practice.
pub fn derive_authority(program_id: &[u8; 32]) -> (r: Option<([u8; 32], u8)>)
    ensures
        (match r {
            Some((addr, bump)) => spec_authority(program_id@) == Some((addr@, bump)),
            None => spec_authority(program_id@) is None,
        }),
{
    let label = authority_label_bytes();
    find_program_address(&label, program_id)
}

/// A derivation proof: the (label, disambiguation byte, program identity)
/// tuple that a privileged call presents in place of a signature. The
/// ledger re-derives the address from it and compares the result with the
/// recorded authority.
pub struct DerivationProof {
    pub label: Vec<u8>,
    pub bump: u8,
    pub program_id: [u8; 32],
}

/// Derivation is deterministic: the authority is a function of the program
/// identity alone, so the same identity always yields the same
/// (address, disambiguation byte) pair.
pub proof fn lemma_derivation_deterministic(pid1: Seq<u8>, pid2: Seq<u8>)
    requires
        pid1 == pid2,
    ensures
        spec_authority(pid1) == spec_authority(pid2),
{
}

} // verus!
