//! End-to-end checks of the lifecycle manager against a concrete store.

use pda_lifecycle::addr::Addr;
use pda_lifecycle::derive::derive_address;
use pda_lifecycle::error::LifecycleError;
use pda_lifecycle::router::{process_instruction, AccountMeta};
use pda_lifecycle::services::required_funding;
use pda_lifecycle::state::{AccountState, AccountStore, ResourceRecord};

const RATE: u64 = 6_960;
const FUNDING: u64 = (128 + 165) * RATE;

fn addr(tag: u8) -> Addr {
    Addr::from_bytes(vec![tag; 32])
}

fn seed() -> Vec<u8> {
    b"program-token".to_vec()
}

fn program_id() -> Addr {
    addr(7)
}

fn derived() -> (Addr, u8) {
    derive_address(&seed(), &program_id()).expect("derivation must succeed for this seed")
}

fn meta(a: Addr, is_signer: bool) -> AccountMeta {
    AccountMeta { addr: a, is_signer, is_writable: true }
}

/// Create's account order: derived, funder (signer), backing asset,
/// allocation service, resource service, rent schedule.
fn create_accounts(derived_addr: Addr) -> Vec<AccountMeta> {
    vec![
        meta(derived_addr, false),
        meta(addr(1), true),
        meta(addr(2), false),
        meta(addr(3), false),
        meta(addr(4), false),
        meta(addr(5), false),
    ]
}

/// Close's account order: derived, recipient, resource service.
fn close_accounts(derived_addr: Addr) -> Vec<AccountMeta> {
    vec![meta(derived_addr, false), meta(addr(1), false), meta(addr(4), false)]
}

fn funded_store(lamports: u64) -> AccountStore {
    let mut store = AccountStore::new();
    store.write(
        &addr(1),
        AccountState { lamports, space: 0, owner: None, record: None },
    );
    store
}

#[test]
fn derivation_is_deterministic() {
    let (a1, b1) = derived();
    let (a2, b2) = derived();
    assert_eq!(a1.bytes, a2.bytes);
    assert_eq!(b1, b2);
    assert_eq!(a1.bytes.len(), 32);
}

#[test]
fn derivation_matches_host_search() {
    let pid = solana_program::pubkey::Pubkey::new_from_array([7u8; 32]);
    let (expected, expected_bump) =
        solana_program::pubkey::Pubkey::find_program_address(&[b"program-token"], &pid);
    let (a, bump) = derived();
    assert_eq!(a.bytes, expected.to_bytes().to_vec());
    assert_eq!(bump, expected_bump);
}

#[test]
fn funding_matches_host_rent_schedule() {
    let rent = solana_program::rent::Rent { lamports_per_byte: RATE, ..Default::default() };
    assert_eq!(required_funding(RATE), rent.minimum_balance(165));
    assert_eq!(required_funding(RATE), FUNDING);
}

#[test]
fn funding_is_floored_on_rent_free_networks() {
    assert_eq!(required_funding(0), 1);
}

#[test]
fn create_provisions_a_self_custodied_record() {
    let (d, _) = derived();
    let mut store = funded_store(10 * FUNDING);
    let r = process_instruction(
        &mut store,
        &program_id(),
        &seed(),
        &create_accounts(d.clone()),
        &vec![0],
        RATE,
    );
    assert_eq!(r, Ok(()));
    let account = store.read(&d);
    assert_eq!(account.lamports, FUNDING);
    assert_eq!(account.space, 165);
    assert_eq!(account.owner.as_ref().unwrap().bytes, addr(4).bytes);
    let record = account.record.as_ref().unwrap();
    assert_eq!(record.backing_asset.bytes, addr(2).bytes);
    assert_eq!(record.authority.bytes, d.bytes);
    assert_eq!(store.read(&addr(1)).lamports, 9 * FUNDING);
}

#[test]
fn create_then_close_round_trip() {
    let (d, _) = derived();
    let mut store = funded_store(10 * FUNDING);
    let r = process_instruction(
        &mut store,
        &program_id(),
        &seed(),
        &create_accounts(d.clone()),
        &vec![0],
        RATE,
    );
    assert_eq!(r, Ok(()));
    let r = process_instruction(
        &mut store,
        &program_id(),
        &seed(),
        &close_accounts(d.clone()),
        &vec![1],
        RATE,
    );
    assert_eq!(r, Ok(()));
    let account = store.read(&d);
    assert_eq!(account.lamports, 0);
    assert_eq!(account.space, 0);
    assert!(account.owner.is_none());
    assert!(account.record.is_none());
    // The recipient got the drained balance back: the funder is whole again.
    assert_eq!(store.read(&addr(1)).lamports, 10 * FUNDING);
}

#[test]
fn wrong_derived_account_is_an_authority_mismatch() {
    let mut store = funded_store(10 * FUNDING);
    // The first account asserts the funder's address instead of the derivation.
    let r = process_instruction(
        &mut store,
        &program_id(),
        &seed(),
        &create_accounts(addr(1)),
        &vec![0],
        RATE,
    );
    assert_eq!(r, Err(LifecycleError::AuthorityMismatch));
    assert_eq!(store.read(&addr(1)).lamports, 10 * FUNDING);
}

#[test]
fn wrong_derived_account_mismatches_for_close_too() {
    let (d, _) = derived();
    let mut store = funded_store(10 * FUNDING);
    let mut accounts = close_accounts(d);
    accounts[0] = meta(addr(9), false);
    let r = process_instruction(&mut store, &program_id(), &seed(), &accounts, &vec![1], RATE);
    assert_eq!(r, Err(LifecycleError::AuthorityMismatch));
}

#[test]
fn close_without_record_fails_and_changes_nothing() {
    let (d, _) = derived();
    let mut store = funded_store(10 * FUNDING);
    let r = process_instruction(
        &mut store,
        &program_id(),
        &seed(),
        &close_accounts(d.clone()),
        &vec![1],
        RATE,
    );
    assert_eq!(r, Err(LifecycleError::InvalidAccountState));
    assert_eq!(store.read(&addr(1)).lamports, 10 * FUNDING);
    assert_eq!(store.read(&d).lamports, 0);
    assert!(store.read(&d).record.is_none());
}

#[test]
fn create_on_existing_record_fails_and_keeps_it() {
    let (d, _) = derived();
    let mut store = funded_store(10 * FUNDING);
    let r = process_instruction(
        &mut store,
        &program_id(),
        &seed(),
        &create_accounts(d.clone()),
        &vec![0],
        RATE,
    );
    assert_eq!(r, Ok(()));
    let r = process_instruction(
        &mut store,
        &program_id(),
        &seed(),
        &create_accounts(d.clone()),
        &vec![0],
        RATE,
    );
    assert_eq!(r, Err(LifecycleError::AccountAlreadyExists));
    let account = store.read(&d);
    assert_eq!(account.lamports, FUNDING);
    assert_eq!(account.record.as_ref().unwrap().backing_asset.bytes, addr(2).bytes);
    assert_eq!(store.read(&addr(1)).lamports, 9 * FUNDING);
}

#[test]
fn unsupported_opcode_fails_without_touching_accounts() {
    let (d, _) = derived();
    let mut store = funded_store(10 * FUNDING);
    let r = process_instruction(
        &mut store,
        &program_id(),
        &seed(),
        &create_accounts(d),
        &vec![2],
        RATE,
    );
    assert_eq!(r, Err(LifecycleError::UnsupportedInstruction));
    assert_eq!(store.read(&addr(1)).lamports, 10 * FUNDING);
}

#[test]
fn empty_payload_is_unsupported() {
    let (d, _) = derived();
    let mut store = funded_store(10 * FUNDING);
    let r = process_instruction(
        &mut store,
        &program_id(),
        &seed(),
        &create_accounts(d),
        &Vec::new(),
        RATE,
    );
    assert_eq!(r, Err(LifecycleError::UnsupportedInstruction));
}

#[test]
fn missing_accounts_are_reported() {
    let (d, _) = derived();
    let mut store = funded_store(10 * FUNDING);
    let r = process_instruction(&mut store, &program_id(), &seed(), &Vec::new(), &vec![0], RATE);
    assert_eq!(r, Err(LifecycleError::MissingAccount));
    let short = vec![meta(d.clone(), false), meta(addr(1), true)];
    let r = process_instruction(&mut store, &program_id(), &seed(), &short, &vec![0], RATE);
    assert_eq!(r, Err(LifecycleError::MissingAccount));
    let short = vec![meta(d, false), meta(addr(1), false)];
    let r = process_instruction(&mut store, &program_id(), &seed(), &short, &vec![1], RATE);
    assert_eq!(r, Err(LifecycleError::MissingAccount));
}

#[test]
fn unsigned_funder_is_rejected() {
    let (d, _) = derived();
    let mut store = funded_store(10 * FUNDING);
    let mut accounts = create_accounts(d);
    accounts[1].is_signer = false;
    let r = process_instruction(&mut store, &program_id(), &seed(), &accounts, &vec![0], RATE);
    assert_eq!(r, Err(LifecycleError::MissingSignature));
}

#[test]
fn underfunded_funder_is_rejected() {
    let (d, _) = derived();
    let mut store = funded_store(FUNDING - 1);
    let r = process_instruction(
        &mut store,
        &program_id(),
        &seed(),
        &create_accounts(d),
        &vec![0],
        RATE,
    );
    assert_eq!(r, Err(LifecycleError::InsufficientFunds));
    assert_eq!(store.read(&addr(1)).lamports, FUNDING - 1);
}

#[test]
fn close_with_foreign_authority_is_a_mismatch() {
    let (d, _) = derived();
    let mut store = funded_store(10 * FUNDING);
    // A record at the derived address whose authority is some other account.
    store.write(
        &d,
        AccountState {
            lamports: 42,
            space: 165,
            owner: Some(addr(4)),
            record: Some(ResourceRecord { backing_asset: addr(2), authority: addr(9) }),
        },
    );
    let r = process_instruction(
        &mut store,
        &program_id(),
        &seed(),
        &close_accounts(d.clone()),
        &vec![1],
        RATE,
    );
    assert_eq!(r, Err(LifecycleError::AuthorityMismatch));
    assert_eq!(store.read(&d).lamports, 42);
}

#[test]
fn close_to_the_record_itself_is_rejected() {
    let (d, _) = derived();
    let mut store = funded_store(10 * FUNDING);
    let r = process_instruction(
        &mut store,
        &program_id(),
        &seed(),
        &create_accounts(d.clone()),
        &vec![0],
        RATE,
    );
    assert_eq!(r, Ok(()));
    let accounts = vec![meta(d.clone(), false), meta(d.clone(), false), meta(addr(4), false)];
    let r = process_instruction(&mut store, &program_id(), &seed(), &accounts, &vec![1], RATE);
    assert_eq!(r, Err(LifecycleError::InvalidAccountState));
    assert!(store.read(&d).record.is_some());
}

#[test]
fn extra_trailing_accounts_are_tolerated() {
    let (d, _) = derived();
    let mut store = funded_store(10 * FUNDING);
    let mut accounts = create_accounts(d.clone());
    accounts.push(meta(addr(8), false));
    accounts.push(meta(addr(9), false));
    let r = process_instruction(&mut store, &program_id(), &seed(), &accounts, &vec![0], RATE);
    assert_eq!(r, Ok(()));
    assert!(store.read(&d).record.is_some());
}
