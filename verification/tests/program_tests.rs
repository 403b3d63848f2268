use counter::error::ProgramError;
use counter::instruction::{create_instruction_data, increase_instruction_data};
use counter::pda::{get_counter_address, get_program_id, system_program_id};
use counter::processor::{process_create, process_increase, process_instruction, AccountState};
use counter::state::Counter;

fn authority_key() -> Vec<u8> {
    (100u8..132u8).collect()
}

fn fresh_counter_account(authority: &[u8]) -> (AccountState, u8) {
    let program_id = get_program_id();
    let (address, bump) = get_counter_address(&authority.to_vec(), &program_id).unwrap();
    let account = AccountState {
        key: address,
        owner: system_program_id(),
        data: Vec::new(),
        is_signer: false,
        is_writable: true,
    };
    (account, bump)
}

fn authority_account(authority: &[u8], is_signer: bool) -> AccountState {
    AccountState {
        key: authority.to_vec(),
        owner: system_program_id(),
        data: Vec::new(),
        is_signer,
        is_writable: true,
    }
}

#[test]
fn create_initializes_the_counter() {
    let program_id = get_program_id();
    let authority = authority_key();
    let (counter, bump) = fresh_counter_account(&authority);
    let signer = authority_account(&authority, true);
    let created = process_create(&program_id, &counter, &signer).unwrap();
    assert_eq!(created.owner, program_id);
    assert_eq!(created.key, counter.key);
    let stored = Counter::load(&created.data).unwrap();
    assert_eq!(stored.authority, authority);
    assert_eq!(stored.value, 0);
    assert_eq!(stored.bump, bump);
}

#[test]
fn create_succeeds_exactly_once() {
    let program_id = get_program_id();
    let authority = authority_key();
    let (counter, _) = fresh_counter_account(&authority);
    let signer = authority_account(&authority, true);
    let created = process_create(&program_id, &counter, &signer).unwrap();
    assert_eq!(
        process_create(&program_id, &created, &signer).unwrap_err(),
        ProgramError::AccountAlreadyInitialized
    );
}

#[test]
fn create_requires_a_signing_authority() {
    let program_id = get_program_id();
    let authority = authority_key();
    let (counter, _) = fresh_counter_account(&authority);
    let not_signer = authority_account(&authority, false);
    assert_eq!(
        process_create(&program_id, &counter, &not_signer).unwrap_err(),
        ProgramError::MissingRequiredSignature
    );
}

#[test]
fn create_rejects_a_wrong_address() {
    let program_id = get_program_id();
    let authority = authority_key();
    let (mut counter, _) = fresh_counter_account(&authority);
    counter.key = vec![42u8; 32];
    let signer = authority_account(&authority, true);
    assert_eq!(
        process_create(&program_id, &counter, &signer).unwrap_err(),
        ProgramError::InvalidAddress
    );
}

#[test]
fn create_rejects_a_wrong_owner() {
    let program_id = get_program_id();
    let authority = authority_key();
    let (mut counter, _) = fresh_counter_account(&authority);
    counter.owner = vec![42u8; 32];
    let signer = authority_account(&authority, true);
    assert_eq!(
        process_create(&program_id, &counter, &signer).unwrap_err(),
        ProgramError::InvalidOwner
    );
}

#[test]
fn increase_before_create_fails() {
    let program_id = get_program_id();
    let authority = authority_key();
    let (counter, _) = fresh_counter_account(&authority);
    let reader = authority_account(&authority, false);
    assert_eq!(
        process_increase(&program_id, &counter, &reader, 1).unwrap_err(),
        ProgramError::InvalidOwner
    );
}

#[test]
fn increase_adds_the_amount() {
    let program_id = get_program_id();
    let authority = authority_key();
    let (counter, _) = fresh_counter_account(&authority);
    let signer = authority_account(&authority, true);
    let created = process_create(&program_id, &counter, &signer).unwrap();
    let reader = authority_account(&authority, false);
    let once = process_increase(&program_id, &created, &reader, 11).unwrap();
    assert_eq!(Counter::load(&once.data).unwrap().value, 11);
    let twice = process_increase(&program_id, &once, &reader, 31).unwrap();
    assert_eq!(Counter::load(&twice.data).unwrap().value, 42);
}

#[test]
fn increase_wraps_at_the_value_boundary() {
    let program_id = get_program_id();
    let authority = authority_key();
    let (counter, _) = fresh_counter_account(&authority);
    let signer = authority_account(&authority, true);
    let created = process_create(&program_id, &counter, &signer).unwrap();
    let reader = authority_account(&authority, false);
    let at_max = process_increase(&program_id, &created, &reader, u64::MAX).unwrap();
    assert_eq!(Counter::load(&at_max.data).unwrap().value, u64::MAX);
    let wrapped = process_increase(&program_id, &at_max, &reader, 5).unwrap();
    assert_eq!(Counter::load(&wrapped.data).unwrap().value, 4);
}

#[test]
fn increase_rejects_a_wrong_authority() {
    let program_id = get_program_id();
    let authority = authority_key();
    let (counter, _) = fresh_counter_account(&authority);
    let signer = authority_account(&authority, true);
    let created = process_create(&program_id, &counter, &signer).unwrap();
    let other = authority_account(&vec![9u8; 32], false);
    assert_eq!(
        process_increase(&program_id, &created, &other, 1).unwrap_err(),
        ProgramError::AuthorityMismatch
    );
}

#[test]
fn increase_rejects_a_wrong_size() {
    let program_id = get_program_id();
    let authority = authority_key();
    let (mut counter, _) = fresh_counter_account(&authority);
    counter.owner = program_id.clone();
    counter.data = vec![0u8; 40];
    let reader = authority_account(&authority, false);
    assert_eq!(
        process_increase(&program_id, &counter, &reader, 1).unwrap_err(),
        ProgramError::InvalidAccountData
    );
}

#[test]
fn dispatch_runs_create_then_increase() {
    let program_id = get_program_id();
    let authority = authority_key();
    let (counter, _) = fresh_counter_account(&authority);
    let signer = authority_account(&authority, true);
    let system = AccountState {
        key: system_program_id(),
        owner: system_program_id(),
        data: Vec::new(),
        is_signer: false,
        is_writable: false,
    };
    let accounts = vec![counter, signer, system];
    let after_create =
        process_instruction(&program_id, &accounts, &create_instruction_data()).unwrap();
    assert_eq!(after_create.len(), 3);
    assert_eq!(Counter::load(&after_create[0].data).unwrap().value, 0);
    assert_eq!(after_create[1].key, authority);

    let reader = authority_account(&authority, false);
    let accounts = vec![
        AccountState {
            key: after_create[0].key.clone(),
            owner: after_create[0].owner.clone(),
            data: after_create[0].data.clone(),
            is_signer: false,
            is_writable: true,
        },
        reader,
    ];
    let after_increase =
        process_instruction(&program_id, &accounts, &increase_instruction_data(15)).unwrap();
    assert_eq!(Counter::load(&after_increase[0].data).unwrap().value, 15);
}

#[test]
fn dispatch_rejects_missing_accounts_and_bad_payloads() {
    let program_id = get_program_id();
    let authority = authority_key();
    let (counter, _) = fresh_counter_account(&authority);
    let accounts = vec![counter];
    assert_eq!(
        process_instruction(&program_id, &accounts, &create_instruction_data()).unwrap_err(),
        ProgramError::NotEnoughAccounts
    );
    assert_eq!(
        process_instruction(&program_id, &accounts, &increase_instruction_data(1)).unwrap_err(),
        ProgramError::NotEnoughAccounts
    );
    assert_eq!(
        process_instruction(&program_id, &accounts, &vec![7u8]).unwrap_err(),
        ProgramError::InvalidInstructionData
    );
}
