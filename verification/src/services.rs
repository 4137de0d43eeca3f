//! The two external services the flows consume — generic account allocation
//! and resource management — together with the rent schedule, modelled as
//! exact transitions over the account store.
//!
//! Every call into a service carries an [`Authorization`]: either a real
//! transaction signature, attested by the host's signer flag, or a
//! derivation proof, the `(seed, bump)` pair that a service accepts in place
//! of a signature for a derived address after recomputing the derivation.

use vstd::prelude::*;
use crate::addr::Addr;
use crate::derive::{check_derivation_proof, derivation_of};
use crate::error::LifecycleError;
use crate::state::{
    absent_account, account_at, lookup, AccountState, AccountStore, AccountV, EntryV, RecordV,
    ResourceRecord,
};
use crate::{FUNDING_FLOOR, RESOURCE_RECORD_LEN};

verus! {

/// Highest rental rate the rent schedule can price without overflowing.
pub const MAX_RENT_RATE: u64 = 1_759_197_129_867;

/// Largest account size the rent schedule prices.
pub const MAX_RENT_SPACE: u64 = 10_485_760;

/// How a caller authorizes a service to act for an address.
pub enum Authorization {
    /// A real transaction signature; the host's signer flag attests it.
    Signature { signed: bool },
    /// A derivation proof: the seed and bump whose derivation under the
    /// calling program must yield the address, since no private key exists
    /// for it.
    DerivationProof { seed: Vec<u8>, bump: u8 },
}

/// Mathematical image of an [`Authorization`].
pub enum AuthorizationV {
    Signature { signed: bool },
    DerivationProof { seed: Seq<u8>, bump: u8 },
}

impl View for Authorization {
    type V = AuthorizationV;

    open spec fn view(&self) -> AuthorizationV {
        match self {
            Authorization::Signature { signed } => AuthorizationV::Signature { signed: *signed },
            Authorization::DerivationProof { seed, bump } => AuthorizationV::DerivationProof {
                seed: seed@,
                bump: *bump,
            },
        }
    }
}

/// Whether `auth` lets the program `caller` act for `addr`: a signature must
/// be attested, and a derivation proof must recompute to exactly `addr` with
/// its bump.
pub open spec fn authorization_valid(auth: AuthorizationV, addr: Seq<u8>, caller: Seq<u8>) -> bool {
    match auth {
        AuthorizationV::Signature { signed } => signed,
        AuthorizationV::DerivationProof { seed, bump } => derivation_of(seed, caller) == Some(
            (addr, bump),
        ),
    }
}

/// Recomputes whether `auth` authorizes `caller` to act for `addr`.
pub fn check_authorization(auth: &Authorization, addr: &Addr, caller: &Addr) -> (r: bool)
    requires
        caller.wf(),
    ensures
        r == authorization_valid(auth@, addr@, caller@),
{
    match auth {
        Authorization::Signature { signed } => *signed,
        Authorization::DerivationProof { seed, bump } => check_derivation_proof(
            seed,
            *bump,
            addr,
            caller,
        ),
    }
}

/// Relies on `solana_program::rent::Rent::minimum_balance`: with the default
/// exemption threshold it returns `(128 + data_len) * lamports_per_byte`,
/// and panics only above the schedule's size and rate limits, which the
/// preconditions rule out.
#[verifier::external_body]
fn rent_minimum_balance(lamports_per_byte: u64, data_len: u64) -> (r: u64)
    requires
        lamports_per_byte <= MAX_RENT_RATE,
        data_len <= MAX_RENT_SPACE,
    ensures
        r == (128 + data_len) * lamports_per_byte,
{
    let rent = solana_program::rent::Rent { lamports_per_byte, ..Default::default() };
    rent.minimum_balance(data_len as usize)
}

/// The lamports a fresh record account is funded with: the rent-exemption
/// minimum for the record size, clamped to the funding floor so that the
/// account is never created empty-handed on a rent-free network.
pub open spec fn required_funding_spec(rate: u64) -> int {
    let m = (128 + RESOURCE_RECORD_LEN) * rate;
    if m >= FUNDING_FLOOR {
        m
    } else {
        FUNDING_FLOOR as int
    }
}

/// Queries the rent schedule for the record size and applies the funding
/// floor.
pub fn required_funding(rate: u64) -> (r: u64)
    requires
        rate <= MAX_RENT_RATE,
    ensures
        r == required_funding_spec(rate),
{
    let m = rent_minimum_balance(rate, RESOURCE_RECORD_LEN);
    if m >= FUNDING_FLOOR {
        m
    } else {
        FUNDING_FLOOR
    }
}

/// Outcome of `CreateAccount(funder, new_account, lamports, space, owner)`:
/// the funder must have signed, the new account must be authorized, must not
/// already exist, and the funder must cover the funding.  The checks are
/// made in that order.
pub open spec fn create_account_result(
    s: Seq<EntryV>,
    caller: Seq<u8>,
    funder: Seq<u8>,
    funder_signed: bool,
    new_addr: Seq<u8>,
    new_auth: AuthorizationV,
    lamports: u64,
) -> Result<(), LifecycleError> {
    if !funder_signed {
        Err(LifecycleError::MissingSignature)
    } else if !authorization_valid(new_auth, new_addr, caller) {
        Err(LifecycleError::AuthorityMismatch)
    } else if account_at(s, new_addr) != absent_account() {
        Err(LifecycleError::AccountAlreadyExists)
    } else if account_at(s, funder).lamports < lamports {
        Err(LifecycleError::InsufficientFunds)
    } else {
        Ok(())
    }
}

/// Effect of a successful `CreateAccount`: the funding moves from the funder
/// to the new account, which is sized and owned as requested; every other
/// account keeps its state.
pub open spec fn create_account_effect(
    s: Seq<EntryV>,
    post: Seq<EntryV>,
    funder: Seq<u8>,
    new_addr: Seq<u8>,
    lamports: u64,
    space: u64,
    owner: Seq<u8>,
) -> bool {
    let f = account_at(s, funder);
    &&& lookup(post, new_addr) == Some(
        AccountV { lamports, space, owner: Some(owner), record: None },
    )
    &&& funder != new_addr ==> lookup(post, funder) == Some(
        AccountV {
            lamports: (f.lamports - lamports) as u64,
            space: f.space,
            owner: f.owner,
            record: f.record,
        },
    )
    &&& forall|k: Seq<u8>| k != funder && k != new_addr ==> lookup(post, k) == lookup(s, k)
}

/// The allocation service: creates a new account at `new_addr`, funded by
/// `funder` with `lamports`, sized to `space` and owned by `owner`.
pub fn svc_create_account(
    store: &mut AccountStore,
    caller: &Addr,
    funder: &Addr,
    funder_signed: bool,
    new_addr: &Addr,
    new_auth: &Authorization,
    lamports: u64,
    space: u64,
    owner: &Addr,
) -> (r: Result<(), LifecycleError>)
    requires
        old(store).wf(),
        caller.wf(),
        funder.wf(),
        new_addr.wf(),
        owner.wf(),
    ensures
        final(store).wf(),
        r == create_account_result(
            old(store)@,
            caller@,
            funder@,
            funder_signed,
            new_addr@,
            new_auth@,
            lamports,
        ),
        r is Ok ==> create_account_effect(
            old(store)@,
            final(store)@,
            funder@,
            new_addr@,
            lamports,
            space,
            owner@,
        ),
        r is Err ==> final(store)@ == old(store)@,
{
    if !funder_signed {
        return Err(LifecycleError::MissingSignature);
    }
    if !check_authorization(new_auth, new_addr, caller) {
        return Err(LifecycleError::AuthorityMismatch);
    }
    let target = store.read(new_addr);
    if !(target.lamports == 0 && target.space == 0 && target.owner.is_none()
        && target.record.is_none()) {
        assert(account_at(store@, new_addr@) != absent_account());
        return Err(LifecycleError::AccountAlreadyExists);
    }
    assert(target@ == absent_account());
    let f = store.read(funder);
    if f.lamports < lamports {
        return Err(LifecycleError::InsufficientFunds);
    }
    let debited = AccountState {
        lamports: f.lamports - lamports,
        space: f.space,
        owner: f.owner,
        record: f.record,
    };
    store.write(funder, debited);
    store.write(
        new_addr,
        AccountState { lamports, space, owner: Some(owner.clone()), record: None },
    );
    Ok(())
}

/// Outcome of `InitializeAccount(account, backing_asset, authority)`: the
/// account must be owned by the resource service and sized to the record
/// format, and must not already hold a record.
pub open spec fn initialize_account_result(s: Seq<EntryV>, service: Seq<u8>, target: Seq<u8>) -> Result<
    (),
    LifecycleError,
> {
    let a = account_at(s, target);
    if a.owner != Some(service) || a.space != RESOURCE_RECORD_LEN {
        Err(LifecycleError::InvalidAccountState)
    } else if a.record is Some {
        Err(LifecycleError::AccountAlreadyExists)
    } else {
        Ok(())
    }
}

/// Effect of a successful `InitializeAccount`: the account now holds a
/// record with the requested backing asset and controlling authority;
/// everything else keeps its state.
pub open spec fn initialize_account_effect(
    s: Seq<EntryV>,
    post: Seq<EntryV>,
    target: Seq<u8>,
    backing_asset: Seq<u8>,
    authority: Seq<u8>,
) -> bool {
    let a = account_at(s, target);
    &&& lookup(post, target) == Some(
        AccountV {
            lamports: a.lamports,
            space: a.space,
            owner: a.owner,
            record: Some(RecordV { backing_asset, authority }),
        },
    )
    &&& forall|k: Seq<u8>| k != target ==> lookup(post, k) == lookup(s, k)
}

/// The resource service's initialization: turns the freshly allocated
/// account at `target` into a record backed by `backing_asset` and
/// controlled by `authority`.
pub fn svc_initialize_account(
    store: &mut AccountStore,
    service: &Addr,
    target: &Addr,
    backing_asset: &Addr,
    authority: &Addr,
) -> (r: Result<(), LifecycleError>)
    requires
        old(store).wf(),
        service.wf(),
        target.wf(),
        backing_asset.wf(),
        authority.wf(),
    ensures
        final(store).wf(),
        r == initialize_account_result(old(store)@, service@, target@),
        r is Ok ==> initialize_account_effect(
            old(store)@,
            final(store)@,
            target@,
            backing_asset@,
            authority@,
        ),
        r is Err ==> final(store)@ == old(store)@,
{
    let a = store.read(target);
    let owned = match &a.owner {
        Some(o) => o.matches(service),
        None => false,
    };
    if !owned || a.space != RESOURCE_RECORD_LEN {
        return Err(LifecycleError::InvalidAccountState);
    }
    if a.record.is_some() {
        return Err(LifecycleError::AccountAlreadyExists);
    }
    let initialized = AccountState {
        lamports: a.lamports,
        space: a.space,
        owner: a.owner,
        record: Some(
            ResourceRecord { backing_asset: backing_asset.clone(), authority: authority.clone() },
        ),
    };
    store.write(target, initialized);
    Ok(())
}

/// Outcome of `CloseAccount(account, recipient, authority)`: the account
/// must hold a record owned by the resource service, the presented authority
/// must be the record's controlling authority and must be validly
/// authorized, the recipient must be a different account, and the drained
/// balance must fit it.
pub open spec fn close_account_result(
    s: Seq<EntryV>,
    caller: Seq<u8>,
    service: Seq<u8>,
    target: Seq<u8>,
    recipient: Seq<u8>,
    authority: Seq<u8>,
    auth: AuthorizationV,
) -> Result<(), LifecycleError> {
    let a = account_at(s, target);
    match a.record {
        None => Err(LifecycleError::InvalidAccountState),
        Some(rec) => if a.owner != Some(service) {
            Err(LifecycleError::InvalidAccountState)
        } else if rec.authority != authority {
            Err(LifecycleError::AuthorityMismatch)
        } else if !authorization_valid(auth, authority, caller) {
            Err(LifecycleError::AuthorityMismatch)
        } else if recipient == target {
            Err(LifecycleError::InvalidAccountState)
        } else if account_at(s, recipient).lamports + a.lamports > u64::MAX {
            Err(LifecycleError::InsufficientFunds)
        } else {
            Ok(())
        },
    }
}

/// Effect of a successful `CloseAccount`: the account's balance moves to the
/// recipient and the account itself becomes absent — zero balance, no data,
/// default ownership; everything else keeps its state.
pub open spec fn close_account_effect(
    s: Seq<EntryV>,
    post: Seq<EntryV>,
    target: Seq<u8>,
    recipient: Seq<u8>,
) -> bool {
    let drained = account_at(s, target).lamports;
    let rc = account_at(s, recipient);
    &&& lookup(post, target) == Some(absent_account())
    &&& lookup(post, recipient) == Some(
        AccountV {
            lamports: (rc.lamports + drained) as u64,
            space: rc.space,
            owner: rc.owner,
            record: rc.record,
        },
    )
    &&& forall|k: Seq<u8>| k != target && k != recipient ==> lookup(post, k) == lookup(s, k)
}

/// The resource service's teardown: drains the record account at `target`
/// into `recipient` and releases its data and ownership back to the system.
pub fn svc_close_account(
    store: &mut AccountStore,
    caller: &Addr,
    service: &Addr,
    target: &Addr,
    recipient: &Addr,
    authority: &Addr,
    auth: &Authorization,
) -> (r: Result<(), LifecycleError>)
    requires
        old(store).wf(),
        caller.wf(),
        service.wf(),
        target.wf(),
        recipient.wf(),
        authority.wf(),
    ensures
        final(store).wf(),
        r == close_account_result(
            old(store)@,
            caller@,
            service@,
            target@,
            recipient@,
            authority@,
            auth@,
        ),
        r is Ok ==> close_account_effect(old(store)@, final(store)@, target@, recipient@),
        r is Err ==> final(store)@ == old(store)@,
{
    let a = store.read(target);
    let rec = match &a.record {
        Some(r) => r,
        None => {
            return Err(LifecycleError::InvalidAccountState);
        },
    };
    let owned = match &a.owner {
        Some(o) => o.matches(service),
        None => false,
    };
    if !owned {
        return Err(LifecycleError::InvalidAccountState);
    }
    if !rec.authority.matches(authority) {
        return Err(LifecycleError::AuthorityMismatch);
    }
    if !check_authorization(auth, authority, caller) {
        return Err(LifecycleError::AuthorityMismatch);
    }
    if recipient.matches(target) {
        return Err(LifecycleError::InvalidAccountState);
    }
    let rc = store.read(recipient);
    if rc.lamports > u64::MAX - a.lamports {
        return Err(LifecycleError::InsufficientFunds);
    }
    let credited = AccountState {
        lamports: rc.lamports + a.lamports,
        space: rc.space,
        owner: rc.owner,
        record: rc.record,
    };
    store.write(target, AccountState::absent());
    store.write(recipient, credited);
    Ok(())
}

} // verus!
