//! Deterministic derivation of the managed account's address.

use vstd::prelude::*;
use crate::addr::Addr;
use crate::error::LifecycleError;

verus! {

/// The derived address and bump that the host computes for a seed and a
/// program identity, or `None` in the statistically improbable event that no
/// bump yields an off-curve address (or the seed is over the host's limits).
/// The derivation is a pure hash-based search, so it is a function of the
/// seed and the program identity alone.
pub uninterp spec fn derivation_of(seed: Seq<u8>, program_id: Seq<u8>) -> Option<(Seq<u8>, u8)>;

/// Relies on `solana_program::pubkey::Pubkey::try_find_program_address`: a
/// pure search over bump bytes for an off-curve hash of
/// `(seed, bump, program_id)`, deterministic in its arguments, returning a
/// 32-byte address.  `None` is returned rather than panicking when the
/// search fails.
#[verifier::external_body]
fn find_derived_raw(seed: &Vec<u8>, program_id: &Addr) -> (r: Option<(Addr, u8)>)
    requires
        program_id.wf(),
    ensures
        match r {
            Some(p) => derivation_of(seed@, program_id@) == Some((p.0@, p.1)) && p.0.wf(),
            None => derivation_of(seed@, program_id@) is None,
        },
{
    let pid = solana_program::pubkey::Pubkey::try_from(program_id.bytes.as_slice()).ok()?;
    let (address, bump) =
        solana_program::pubkey::Pubkey::try_find_program_address(&[seed.as_slice()], &pid)?;
    Some((Addr { bytes: address.to_bytes().to_vec() }, bump))
}

/// Derives the address and bump for a seed under a program identity.
///
/// Identical inputs always yield identical output: the result equals
/// `derivation_of(seed@, program_id@)` on every call.
pub fn derive_address(seed: &Vec<u8>, program_id: &Addr) -> (r: Option<(Addr, u8)>)
    requires
        program_id.wf(),
    ensures
        match r {
            Some(p) => derivation_of(seed@, program_id@) == Some((p.0@, p.1)) && p.0.wf(),
            None => derivation_of(seed@, program_id@) is None,
        },
{
    find_derived_raw(seed, program_id)
}

/// Law: address derivation is deterministic.  Any two results that the
/// derivation contract admits for the same seed and program identity are
/// equal.
pub proof fn lemma_derivation_deterministic(
    seed: Seq<u8>,
    program_id: Seq<u8>,
    r1: Option<(Seq<u8>, u8)>,
    r2: Option<(Seq<u8>, u8)>,
)
    requires
        r1 == derivation_of(seed, program_id),
        r2 == derivation_of(seed, program_id),
    ensures
        r1 == r2,
{
}

/// Whether `asserted` is exactly the address the derivation yields, with
/// `bump` its bump byte.
pub open spec fn derivation_matches(
    seed: Seq<u8>,
    program_id: Seq<u8>,
    asserted: Seq<u8>,
    bump: u8,
) -> bool {
    derivation_of(seed, program_id) == Some((asserted, bump))
}

/// Recomputes the derivation and tells whether the `(seed, bump)` proof
/// yields exactly `addr` under `program_id`.
pub fn check_derivation_proof(seed: &Vec<u8>, bump: u8, addr: &Addr, program_id: &Addr) -> (r:
    bool)
    requires
        program_id.wf(),
    ensures
        r == (derivation_of(seed@, program_id@) == Some((addr@, bump))),
{
    match find_derived_raw(seed, program_id) {
        Some(p) => p.0.matches(addr) && p.1 == bump,
        None => false,
    }
}

/// Recomputes the derivation and compares it to a caller-asserted address.
///
/// A mismatch (or a failed derivation) is a hard validation failure and is
/// never silently corrected.
pub fn verify_derived_account(asserted: &Addr, seed: &Vec<u8>, program_id: &Addr) -> (r: Result<
    u8,
    LifecycleError,
>)
    requires
        program_id.wf(),
    ensures
        match r {
            Ok(bump) => derivation_matches(seed@, program_id@, asserted@, bump),
            Err(e) => {
                &&& e == LifecycleError::AuthorityMismatch
                &&& match derivation_of(seed@, program_id@) {
                    Some(p) => p.0 != asserted@,
                    None => true,
                }
            },
        },
{
    match find_derived_raw(seed, program_id) {
        Some(p) => {
            if asserted.matches(&p.0) {
                Ok(p.1)
            } else {
                Err(LifecycleError::AuthorityMismatch)
            }
        },
        None => Err(LifecycleError::AuthorityMismatch),
    }
}

} // verus!
