//! The manager's global guarantees, stated and proved over the invocation
//! specification.
//!
//! That an invocation which fails leaves the store untouched is part of
//! [`crate::router::process_instruction`]'s own contract; the laws here pin
//! down *which* failure each situation produces, and what a successful
//! round trip leaves behind.

use vstd::prelude::*;
use crate::derive::derivation_of;
use crate::error::LifecycleError;
use crate::router::{
    decode_spec, invocation_effect, invocation_result, MetaV, Opcode,
};
use crate::state::{absent_account, account_at, EntryV, RecordV};

verus! {

/// Law: whenever the supplied derived account does not equal the recomputed
/// derivation, the invocation fails with `AuthorityMismatch`, regardless of
/// opcode and of the store's state.
pub proof fn lemma_authority_mismatch_wins(
    s: Seq<EntryV>,
    program_id: Seq<u8>,
    seed: Seq<u8>,
    metas: Seq<MetaV>,
    data: Seq<u8>,
    rate: u64,
)
    requires
        metas.len() >= 1,
        match derivation_of(seed, program_id) {
            Some(p) => p.0 != metas[0].addr,
            None => true,
        },
    ensures
        invocation_result(s, program_id, seed, metas, data, rate) == Err::<
            (),
            LifecycleError,
        >(LifecycleError::AuthorityMismatch),
{
}

/// Law: an opcode byte that names no defined instruction fails the
/// invocation with `UnsupportedInstruction`; no flow and no service is
/// reached, and the store is untouched.
pub proof fn lemma_unsupported_opcode(
    s: Seq<EntryV>,
    program_id: Seq<u8>,
    seed: Seq<u8>,
    metas: Seq<MetaV>,
    data: Seq<u8>,
    rate: u64,
)
    requires
        metas.len() >= 1,
        derivation_of(seed, program_id) matches Some(p) && p.0 == metas[0].addr,
        data.len() == 0 || (data[0] != 0 && data[0] != 1),
    ensures
        invocation_result(s, program_id, seed, metas, data, rate) == Err::<
            (),
            LifecycleError,
        >(LifecycleError::UnsupportedInstruction),
{
}

/// Law: Close on an address holding no resource record fails with
/// `InvalidAccountState` (and, by the processor's contract, leaves no state
/// change).
pub proof fn lemma_close_without_record_fails(
    s: Seq<EntryV>,
    program_id: Seq<u8>,
    seed: Seq<u8>,
    metas: Seq<MetaV>,
    data: Seq<u8>,
    rate: u64,
)
    requires
        metas.len() >= 3,
        derivation_of(seed, program_id) matches Some(p) && p.0 == metas[0].addr,
        decode_spec(data) == Ok::<Opcode, LifecycleError>(Opcode::Close),
        account_at(s, metas[0].addr).record is None,
    ensures
        invocation_result(s, program_id, seed, metas, data, rate) == Err::<
            (),
            LifecycleError,
        >(LifecycleError::InvalidAccountState),
{
}

/// Law: Create on an address that already holds a resource record fails
/// with `AccountAlreadyExists` (and, by the processor's contract, the
/// existing record is left untouched).
pub proof fn lemma_create_on_existing_record_fails(
    s: Seq<EntryV>,
    program_id: Seq<u8>,
    seed: Seq<u8>,
    metas: Seq<MetaV>,
    data: Seq<u8>,
    rate: u64,
)
    requires
        metas.len() >= 6,
        derivation_of(seed, program_id) matches Some(p) && p.0 == metas[0].addr,
        decode_spec(data) == Ok::<Opcode, LifecycleError>(Opcode::Create),
        metas[1].is_signer,
        account_at(s, metas[0].addr).record is Some,
    ensures
        invocation_result(s, program_id, seed, metas, data, rate) == Err::<
            (),
            LifecycleError,
        >(LifecycleError::AccountAlreadyExists),
{
    assert(account_at(s, metas[0].addr) != absent_account());
}

/// Law: no invocation succeeds unless its first account is exactly the
/// address derived from the seed and the program identity — so only the
/// program that derives an address can have a record created or destroyed
/// at it.
pub proof fn lemma_success_is_derivation_authorized(
    s: Seq<EntryV>,
    program_id: Seq<u8>,
    seed: Seq<u8>,
    metas: Seq<MetaV>,
    data: Seq<u8>,
    rate: u64,
)
    requires
        invocation_result(s, program_id, seed, metas, data, rate) == Ok::<(), LifecycleError>(()),
    ensures
        metas.len() >= 1,
        derivation_of(seed, program_id) matches Some(p) && p.0 == metas[0].addr,
{
}

/// Law: the Create-then-Close round trip.  After a successful Create the
/// derived address holds a record with the requested backing asset,
/// controlled by the derived address itself; after a subsequent successful
/// Close the account is absent again — zero balance, no data, default
/// ownership — and the recipient's balance grew by exactly what the account
/// held.
pub proof fn lemma_create_then_close_round_trip(
    s: Seq<EntryV>,
    mid: Seq<EntryV>,
    post: Seq<EntryV>,
    program_id: Seq<u8>,
    seed: Seq<u8>,
    create_metas: Seq<MetaV>,
    create_data: Seq<u8>,
    close_metas: Seq<MetaV>,
    close_data: Seq<u8>,
    rate: u64,
)
    requires
        decode_spec(create_data) == Ok::<Opcode, LifecycleError>(Opcode::Create),
        decode_spec(close_data) == Ok::<Opcode, LifecycleError>(Opcode::Close),
        create_metas.len() >= 6,
        close_metas.len() >= 3,
        close_metas[0].addr == create_metas[0].addr,
        invocation_result(s, program_id, seed, create_metas, create_data, rate) == Ok::<
            (),
            LifecycleError,
        >(()),
        invocation_effect(s, mid, create_metas, create_data, rate),
        invocation_result(mid, program_id, seed, close_metas, close_data, rate) == Ok::<
            (),
            LifecycleError,
        >(()),
        invocation_effect(mid, post, close_metas, close_data, rate),
    ensures
        account_at(mid, create_metas[0].addr).record == Some(
            RecordV { backing_asset: create_metas[2].addr, authority: create_metas[0].addr },
        ),
        account_at(post, create_metas[0].addr) == absent_account(),
        account_at(post, close_metas[1].addr).lamports == account_at(mid, close_metas[1].addr).lamports
            + account_at(mid, create_metas[0].addr).lamports,
{
}

} // verus!
