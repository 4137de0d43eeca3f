//! Instruction decoding and the two lifecycle flows.
//!
//! An invocation consumes the first account reference as the derived
//! account, verifies it against a fresh derivation, reads the opcode byte,
//! and routes to the provisioning or teardown flow with the remaining
//! account references in the fixed order each flow expects.  Extra trailing
//! account references are tolerated and ignored.

use vstd::prelude::*;
use crate::addr::Addr;
use crate::derive::{derivation_matches, derivation_of, verify_derived_account};
use crate::error::LifecycleError;
use crate::services::{
    close_account_effect, required_funding, required_funding_spec, svc_close_account,
    svc_create_account, svc_initialize_account, Authorization, MAX_RENT_RATE,
};
use crate::state::{absent_account, account_at, lookup, AccountStore, AccountV, EntryV, RecordV};
use crate::RESOURCE_RECORD_LEN;

verus! {

/// The two defined instructions.
#[derive(Clone, Copy, Debug, PartialEq, Eq, Structural)]
pub enum Opcode {
    Create,
    Close,
}

/// A positional account reference supplied by the caller.
pub struct AccountMeta {
    pub addr: Addr,
    pub is_signer: bool,
    pub is_writable: bool,
}

/// Mathematical image of an [`AccountMeta`].
pub struct MetaV {
    pub addr: Seq<u8>,
    pub is_signer: bool,
    pub is_writable: bool,
}

impl View for AccountMeta {
    type V = MetaV;

    open spec fn view(&self) -> MetaV {
        MetaV { addr: self.addr@, is_signer: self.is_signer, is_writable: self.is_writable }
    }
}

/// The images of a supplied account list.
pub open spec fn views_of(metas: Seq<AccountMeta>) -> Seq<MetaV> {
    metas.map_values(|m: AccountMeta| m@)
}

/// What the opcode byte decodes to: byte `0` is Create, byte `1` is Close,
/// and a missing or unknown byte is an unsupported instruction.
pub open spec fn decode_spec(data: Seq<u8>) -> Result<Opcode, LifecycleError> {
    if data.len() == 0 {
        Err(LifecycleError::UnsupportedInstruction)
    } else if data[0] == 0 {
        Ok(Opcode::Create)
    } else if data[0] == 1 {
        Ok(Opcode::Close)
    } else {
        Err(LifecycleError::UnsupportedInstruction)
    }
}

/// Reads the opcode byte of an instruction payload.
pub fn decode_opcode(data: &Vec<u8>) -> (r: Result<Opcode, LifecycleError>)
    ensures
        r == decode_spec(data@),
{
    if data.len() == 0 {
        Err(LifecycleError::UnsupportedInstruction)
    } else if data[0] == 0 {
        Ok(Opcode::Create)
    } else if data[0] == 1 {
        Ok(Opcode::Close)
    } else {
        Err(LifecycleError::UnsupportedInstruction)
    }
}

/// Copies a byte string.
fn clone_bytes(v: &Vec<u8>) -> (r: Vec<u8>)
    ensures
        r@ == v@,
{
    let n = v.len();
    let mut r: Vec<u8> = Vec::new();
    let mut i: usize = 0;
    while i < n
        invariant
            n == v@.len(),
            i <= n,
            r@.len() == i,
            forall|j: int| 0 <= j < i ==> r@[j] == v@[j],
        decreases n - i,
    {
        r.push(v[i]);
        i += 1;
    }
    proof {
        assert(r@ =~= v@);
    }
    r
}

/// Outcome of the provisioning flow, once the derived account is verified:
/// the funder must have signed, the derived address must be free, and the
/// funder must cover the required funding.
pub open spec fn create_flow_result(
    s: Seq<EntryV>,
    funder: MetaV,
    derived: Seq<u8>,
    rate: u64,
) -> Result<(), LifecycleError> {
    let lamports = required_funding_spec(rate);
    if !funder.is_signer {
        Err(LifecycleError::MissingSignature)
    } else if account_at(s, derived) != absent_account() {
        Err(LifecycleError::AccountAlreadyExists)
    } else if account_at(s, funder.addr).lamports < lamports {
        Err(LifecycleError::InsufficientFunds)
    } else {
        Ok(())
    }
}

/// Effect of a successful provisioning: the derived account exists, funded
/// with the required amount, sized to the record format, owned by the
/// resource service, and holding a record backed by `backing` whose
/// controlling authority is the derived address itself; the funding left
/// the funder, and every other account kept its state.
pub open spec fn create_flow_effect(
    s: Seq<EntryV>,
    post: Seq<EntryV>,
    funder: Seq<u8>,
    derived: Seq<u8>,
    backing: Seq<u8>,
    service: Seq<u8>,
    rate: u64,
) -> bool {
    let lamports = required_funding_spec(rate) as u64;
    let f = account_at(s, funder);
    &&& lookup(post, derived) == Some(
        AccountV {
            lamports,
            space: RESOURCE_RECORD_LEN,
            owner: Some(service),
            record: Some(RecordV { backing_asset: backing, authority: derived }),
        },
    )
    &&& funder != derived ==> lookup(post, funder) == Some(
        AccountV {
            lamports: (f.lamports - lamports) as u64,
            space: f.space,
            owner: f.owner,
            record: f.record,
        },
    )
    &&& forall|k: Seq<u8>| k != funder && k != derived ==> lookup(post, k) == lookup(s, k)
}

/// The provisioning flow: allocates the derived account through the
/// allocation service, authorized by the derivation proof, then has the
/// resource service initialize it as a self-custodied record.  Any failure
/// leaves the store untouched.
pub fn create_flow(
    store: &mut AccountStore,
    program_id: &Addr,
    seed: &Vec<u8>,
    bump: u8,
    derived: &Addr,
    funder: &AccountMeta,
    backing: &Addr,
    service: &Addr,
    rate: u64,
) -> (r: Result<(), LifecycleError>)
    requires
        old(store).wf(),
        program_id.wf(),
        derived.wf(),
        funder.addr.wf(),
        backing.wf(),
        service.wf(),
        rate <= MAX_RENT_RATE,
        derivation_matches(seed@, program_id@, derived@, bump),
    ensures
        final(store).wf(),
        r == create_flow_result(old(store)@, funder@, derived@, rate),
        r is Ok ==> create_flow_effect(
            old(store)@,
            final(store)@,
            funder.addr@,
            derived@,
            backing@,
            service@,
            rate,
        ),
        r is Err ==> final(store)@ == old(store)@,
{
    let lamports = required_funding(rate);
    let proof_auth = Authorization::DerivationProof { seed: clone_bytes(seed), bump };
    let ghost pre = store@;
    match svc_create_account(
        store,
        program_id,
        &funder.addr,
        funder.is_signer,
        derived,
        &proof_auth,
        lamports,
        RESOURCE_RECORD_LEN,
        service,
    ) {
        Ok(()) => {},
        Err(e) => {
            return Err(e);
        },
    }
    let r = svc_initialize_account(store, service, derived, backing, derived);
    proof {
        assert(account_at(store@, derived@).owner == Some(service@));
        assert(r is Ok);
    }
    match r {
        Ok(()) => Ok(()),
        Err(e) => Err(e),
    }
}

/// Outcome of the teardown flow, once the derived account is verified: the
/// derived address must hold a record owned by the resource service whose
/// controlling authority is the derived address itself, the recipient must
/// be a different account, and the drained balance must fit it.
pub open spec fn close_flow_result(
    s: Seq<EntryV>,
    derived: Seq<u8>,
    recipient: Seq<u8>,
    service: Seq<u8>,
) -> Result<(), LifecycleError> {
    let a = account_at(s, derived);
    match a.record {
        None => Err(LifecycleError::InvalidAccountState),
        Some(rec) => if a.owner != Some(service) {
            Err(LifecycleError::InvalidAccountState)
        } else if rec.authority != derived {
            Err(LifecycleError::AuthorityMismatch)
        } else if recipient == derived {
            Err(LifecycleError::InvalidAccountState)
        } else if account_at(s, recipient).lamports + a.lamports > u64::MAX {
            Err(LifecycleError::InsufficientFunds)
        } else {
            Ok(())
        },
    }
}

/// The teardown flow: has the resource service close the record at the
/// derived address, naming the recipient as balance destination and the
/// derived address as its own controlling authority, authorized by the
/// derivation proof.  Any failure leaves the store untouched.
pub fn close_flow(
    store: &mut AccountStore,
    program_id: &Addr,
    seed: &Vec<u8>,
    bump: u8,
    derived: &Addr,
    recipient: &Addr,
    service: &Addr,
) -> (r: Result<(), LifecycleError>)
    requires
        old(store).wf(),
        program_id.wf(),
        derived.wf(),
        recipient.wf(),
        service.wf(),
        derivation_matches(seed@, program_id@, derived@, bump),
    ensures
        final(store).wf(),
        r == close_flow_result(old(store)@, derived@, recipient@, service@),
        r is Ok ==> close_account_effect(old(store)@, final(store)@, derived@, recipient@),
        r is Err ==> final(store)@ == old(store)@,
{
    let proof_auth = Authorization::DerivationProof { seed: clone_bytes(seed), bump };
    svc_close_account(store, program_id, service, derived, recipient, derived, &proof_auth)
}

/// The result of one whole invocation: the derived account is verified
/// first, regardless of opcode; then the opcode is read; then the selected
/// flow runs with the accounts it expects.
pub open spec fn invocation_result(
    s: Seq<EntryV>,
    program_id: Seq<u8>,
    seed: Seq<u8>,
    metas: Seq<MetaV>,
    data: Seq<u8>,
    rate: u64,
) -> Result<(), LifecycleError> {
    if metas.len() < 1 {
        Err(LifecycleError::MissingAccount)
    } else {
        match derivation_of(seed, program_id) {
            None => Err(LifecycleError::AuthorityMismatch),
            Some(p) => if p.0 != metas[0].addr {
                Err(LifecycleError::AuthorityMismatch)
            } else {
                match decode_spec(data) {
                    Err(e) => Err(e),
                    Ok(Opcode::Create) => if metas.len() < 6 {
                        Err(LifecycleError::MissingAccount)
                    } else {
                        create_flow_result(s, metas[1], metas[0].addr, rate)
                    },
                    Ok(Opcode::Close) => if metas.len() < 3 {
                        Err(LifecycleError::MissingAccount)
                    } else {
                        close_flow_result(s, metas[0].addr, metas[1].addr, metas[2].addr)
                    },
                }
            },
        }
    }
}

/// The store transition of one successful invocation.
pub open spec fn invocation_effect(
    s: Seq<EntryV>,
    post: Seq<EntryV>,
    metas: Seq<MetaV>,
    data: Seq<u8>,
    rate: u64,
) -> bool {
    match decode_spec(data) {
        Ok(Opcode::Create) => create_flow_effect(
            s,
            post,
            metas[1].addr,
            metas[0].addr,
            metas[2].addr,
            metas[4].addr,
            rate,
        ),
        Ok(Opcode::Close) => close_account_effect(s, post, metas[0].addr, metas[1].addr),
        Err(_) => false,
    }
}

/// Processes one invocation against the account store.
///
/// The account order is part of the contract: Create expects the derived
/// account, the funder (a transaction signer), the backing-asset identity,
/// the allocation service, the resource service and the rent schedule;
/// Close expects the derived account, the recipient and the resource
/// service.  `rate` is the rent schedule's lamports-per-byte rate.  On any
/// failure the store is left exactly as it was.
pub fn process_instruction(
    store: &mut AccountStore,
    program_id: &Addr,
    seed: &Vec<u8>,
    accounts: &Vec<AccountMeta>,
    data: &Vec<u8>,
    rate: u64,
) -> (r: Result<(), LifecycleError>)
    requires
        old(store).wf(),
        program_id.wf(),
        rate <= MAX_RENT_RATE,
        forall|i: int| 0 <= i < accounts@.len() ==> (#[trigger] accounts@[i]).addr.wf(),
    ensures
        final(store).wf(),
        r == invocation_result(
            old(store)@,
            program_id@,
            seed@,
            views_of(accounts@),
            data@,
            rate,
        ),
        r is Ok ==> invocation_effect(old(store)@, final(store)@, views_of(accounts@), data@, rate),
        r is Err ==> final(store)@ == old(store)@,
{
    let ghost metas = views_of(accounts@);
    if accounts.len() < 1 {
        return Err(LifecycleError::MissingAccount);
    }
    assert(metas[0] == accounts@[0]@);
    let bump = match verify_derived_account(&accounts[0].addr, seed, program_id) {
        Ok(b) => b,
        Err(e) => {
            return Err(e);
        },
    };
    let op = match decode_opcode(data) {
        Ok(o) => o,
        Err(e) => {
            return Err(e);
        },
    };
    match op {
        Opcode::Create => {
            if accounts.len() < 6 {
                return Err(LifecycleError::MissingAccount);
            }
            assert(metas[1] == accounts@[1]@ && metas[2] == accounts@[2]@ && metas[4]
                == accounts@[4]@);
            create_flow(
                store,
                program_id,
                seed,
                bump,
                &accounts[0].addr,
                &accounts[1],
                &accounts[2].addr,
                &accounts[4].addr,
                rate,
            )
        },
        Opcode::Close => {
            if accounts.len() < 3 {
                return Err(LifecycleError::MissingAccount);
            }
            assert(metas[1] == accounts@[1]@ && metas[2] == accounts@[2]@);
            close_flow(
                store,
                program_id,
                seed,
                bump,
                &accounts[0].addr,
                &accounts[1].addr,
                &accounts[2].addr,
            )
        },
    }
}

} // verus!
