use counter::error::ClientError;
use counter::instruction::{create_instruction_data, increase_instruction_data};
use counter::pda::{get_counter_address, get_program_id, system_program_id};
use counter::processor::{process_create, process_increase, AccountState};
use counter::client::{
    create_counter_plan, fetch_counter_result, increase_counter_plan, parse_keypair_json,
};

fn authority_key() -> Vec<u8> {
    (200u8..232u8).collect()
}

#[test]
fn derivation_is_deterministic() {
    let program_id = get_program_id();
    let authority = authority_key();
    let first = get_counter_address(&authority, &program_id).unwrap();
    let second = get_counter_address(&authority, &program_id).unwrap();
    assert_eq!(first, second);
}

#[test]
fn derivation_matches_the_sdk() {
    let program_id = get_program_id();
    let authority = authority_key();
    let (address, bump) = get_counter_address(&authority, &program_id).unwrap();
    let sdk_program_id = solana_sdk::pubkey::Pubkey::try_from(program_id.as_slice()).unwrap();
    let (sdk_address, sdk_bump) = solana_sdk::pubkey::Pubkey::find_program_address(
        &[b"counter", authority.as_slice()],
        &sdk_program_id,
    );
    assert_eq!(address, sdk_address.to_bytes().to_vec());
    assert_eq!(bump, sdk_bump);
}

#[test]
fn create_plan_refuses_an_existing_counter() {
    let program_id = get_program_id();
    let authority = authority_key();
    let (address, _) = get_counter_address(&authority, &program_id).unwrap();
    assert_eq!(
        create_counter_plan(&program_id, &address, &authority, true).unwrap_err(),
        ClientError::AlreadyExists
    );
}

#[test]
fn create_plan_builds_the_create_instruction() {
    let program_id = get_program_id();
    let authority = authority_key();
    let (address, _) = get_counter_address(&authority, &program_id).unwrap();
    let ix = create_counter_plan(&program_id, &address, &authority, false).unwrap();
    assert_eq!(ix.program_id, program_id);
    assert_eq!(ix.data, create_instruction_data());
    assert_eq!(ix.accounts.len(), 3);
    assert_eq!(ix.accounts[0].pubkey, address);
    assert!(!ix.accounts[0].is_signer && ix.accounts[0].is_writable);
    assert_eq!(ix.accounts[1].pubkey, authority);
    assert!(ix.accounts[1].is_signer && ix.accounts[1].is_writable);
    assert_eq!(ix.accounts[2].pubkey, system_program_id());
    assert!(!ix.accounts[2].is_signer && !ix.accounts[2].is_writable);
}

#[test]
fn increase_plan_refuses_a_missing_counter() {
    let program_id = get_program_id();
    let authority = authority_key();
    let (address, _) = get_counter_address(&authority, &program_id).unwrap();
    assert_eq!(
        increase_counter_plan(&program_id, &address, &authority, false, 3).unwrap_err(),
        ClientError::DoesNotExist
    );
}

#[test]
fn increase_plan_builds_the_increase_instruction() {
    let program_id = get_program_id();
    let authority = authority_key();
    let (address, _) = get_counter_address(&authority, &program_id).unwrap();
    let ix = increase_counter_plan(&program_id, &address, &authority, true, 7).unwrap();
    assert_eq!(ix.program_id, program_id);
    assert_eq!(ix.data, increase_instruction_data(7));
    assert_eq!(ix.accounts.len(), 2);
    assert_eq!(ix.accounts[0].pubkey, address);
    assert!(!ix.accounts[0].is_signer && ix.accounts[0].is_writable);
    assert_eq!(ix.accounts[1].pubkey, authority);
    assert!(!ix.accounts[1].is_signer && !ix.accounts[1].is_writable);
}

#[test]
fn fetch_refuses_a_missing_counter() {
    assert_eq!(fetch_counter_result(None).unwrap_err(), ClientError::DoesNotExist);
}

#[test]
fn fetch_refuses_malformed_bytes() {
    assert_eq!(
        fetch_counter_result(Some(vec![0u8; 40])).unwrap_err(),
        ClientError::MalformedAccount
    );
}

#[test]
fn scenario_create_increase_twice_then_fetch() {
    let program_id = get_program_id();
    let authority = authority_key();
    let (address, bump) = get_counter_address(&authority, &program_id).unwrap();
    let counter = AccountState {
        key: address,
        owner: system_program_id(),
        data: Vec::new(),
        is_signer: false,
        is_writable: true,
    };
    let signer = AccountState {
        key: authority.clone(),
        owner: system_program_id(),
        data: Vec::new(),
        is_signer: true,
        is_writable: true,
    };
    let created = process_create(&program_id, &counter, &signer).unwrap();

    let fetched = fetch_counter_result(Some(created.data.clone())).unwrap();
    assert_eq!(fetched.authority, authority);
    assert_eq!(fetched.value, 0);
    assert_eq!(fetched.bump, bump);

    let reader = AccountState {
        key: authority.clone(),
        owner: system_program_id(),
        data: Vec::new(),
        is_signer: false,
        is_writable: false,
    };
    let once = process_increase(&program_id, &created, &reader, 5).unwrap();
    let twice = process_increase(&program_id, &once, &reader, 10).unwrap();
    let fetched = fetch_counter_result(Some(twice.data.clone())).unwrap();
    assert_eq!(fetched.value, 15);
    assert_eq!(fetched.authority, authority);
    assert_eq!(fetched.bump, bump);
}

#[test]
fn keypair_json_round_trips_through_the_parser() {
    let bytes: Vec<u8> = (0u8..64u8).collect();
    let json = serde_json::to_string(&bytes).unwrap();
    assert_eq!(parse_keypair_json(&json).unwrap(), bytes);
}

#[test]
fn keypair_json_refuses_what_is_not_an_array() {
    assert_eq!(
        parse_keypair_json("not json at all").unwrap_err(),
        ClientError::KeyNotJsonArray
    );
    assert_eq!(
        parse_keypair_json("{\"key\": 1}").unwrap_err(),
        ClientError::KeyNotJsonArray
    );
}

#[test]
fn keypair_json_refuses_a_wrong_length() {
    assert_eq!(
        parse_keypair_json("[1, 2, 3]").unwrap_err(),
        ClientError::InvalidKeyBytes
    );
}
