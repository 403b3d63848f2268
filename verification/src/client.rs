//! Client-side command logic.
//!
//! Each command derives the counter address, has its caller perform the
//! network read, and then decides: create refuses an existing counter,
//! increase and fetch refuse a missing one. On success create and
//! increase hand back the exact instruction to sign and submit, and
//! fetch decodes the account bytes.

use vstd::prelude::*;
use vstd::bytes::spec_u64_to_le_bytes;
use crate::error::ClientError;
use crate::instruction::{
    create_instruction_data, increase_instruction_data, CREATE_DISCRIMINATOR,
    INCREASE_DISCRIMINATOR,
};
use crate::pda::system_program_id;
use crate::state::{stored_authority, stored_bump, stored_value, Counter, COUNTER_LEN};

verus! {

/// The length of a signing-key file's payload: a 32-byte secret key
/// followed by its 32-byte public key.
pub const KEYPAIR_LEN: usize = 64;

/// One account a transaction names: its address and the flags the
/// instruction demands of it.
#[derive(Debug)]
pub struct AccountMeta {
    /// The account's 32-byte address.
    pub pubkey: Vec<u8>,
    /// Whether the account must sign the transaction.
    pub is_signer: bool,
    /// Whether the instruction may write to the account.
    pub is_writable: bool,
}

/// An instruction ready to be placed in a transaction: the program to
/// invoke, the accounts it operates on in order, and its payload.
#[derive(Debug)]
pub struct Instruction {
    /// The invoked program's 32-byte address.
    pub program_id: Vec<u8>,
    /// The accounts the instruction operates on, in order.
    pub accounts: Vec<AccountMeta>,
    /// The instruction payload.
    pub data: Vec<u8>,
}

/// The entry names an account with exactly these address and flags.
pub open spec fn meta_is(m: AccountMeta, pubkey: Seq<u8>, is_signer: bool, is_writable: bool) -> bool {
    m.pubkey@ == pubkey && m.is_signer == is_signer && m.is_writable == is_writable
}

/// The instruction is exactly the create instruction for this counter
/// and authority: the create discriminator alone as payload, and the
/// counter (writable), the authority (writable signer) and the system
/// default owner (read-only) as accounts.
pub open spec fn is_create_instruction(
    ix: Instruction,
    program_id: Seq<u8>,
    counter_address: Seq<u8>,
    authority: Seq<u8>,
) -> bool {
    &&& ix.program_id@ == program_id
    &&& ix.data@ == seq![CREATE_DISCRIMINATOR]
    &&& ix.accounts@.len() == 3
    &&& meta_is(ix.accounts@[0], counter_address, false, true)
    &&& meta_is(ix.accounts@[1], authority, true, true)
    &&& meta_is(ix.accounts@[2], crate::pda::system_program_id_spec(), false, false)
}

/// The instruction is exactly the increase instruction for this counter
/// and amount: the increase discriminator followed by the little-endian
/// amount as payload, and the counter (writable) and the authority
/// (read-only) as accounts.
pub open spec fn is_increase_instruction(
    ix: Instruction,
    program_id: Seq<u8>,
    counter_address: Seq<u8>,
    authority: Seq<u8>,
    amount: u64,
) -> bool {
    &&& ix.program_id@ == program_id
    &&& ix.data@ == seq![INCREASE_DISCRIMINATOR] + spec_u64_to_le_bytes(amount)
    &&& ix.accounts@.len() == 2
    &&& meta_is(ix.accounts@[0], counter_address, false, true)
    &&& meta_is(ix.accounts@[1], authority, false, false)
}

/// Decides the create command once the network read is in: refuses an
/// authority whose counter already exists, and otherwise builds the
/// create instruction.
pub fn create_counter_plan(
    program_id: &Vec<u8>,
    counter_address: &Vec<u8>,
    authority: &Vec<u8>,
    account_exists: bool,
) -> (r: Result<Instruction, ClientError>)
    ensures
        r is Ok <==> !account_exists,
        (r matches Ok(ix) ==> is_create_instruction(ix, program_id@, counter_address@, authority@)),
        (r matches Err(e) ==> e == ClientError::AlreadyExists),
{
    if account_exists {
        return Err(ClientError::AlreadyExists);
    }
    let mut accounts: Vec<AccountMeta> = Vec::new();
    accounts.push(AccountMeta {
        pubkey: copy_key(counter_address),
        is_signer: false,
        is_writable: true,
    });
    accounts.push(AccountMeta { pubkey: copy_key(authority), is_signer: true, is_writable: true });
    accounts.push(AccountMeta { pubkey: system_program_id(), is_signer: false, is_writable: false });
    Ok(Instruction { program_id: copy_key(program_id), accounts, data: create_instruction_data() })
}

/// Decides the increase command once the network read is in: refuses an
/// authority whose counter does not exist yet, and otherwise builds the
/// increase instruction for the requested amount.
pub fn increase_counter_plan(
    program_id: &Vec<u8>,
    counter_address: &Vec<u8>,
    authority: &Vec<u8>,
    account_exists: bool,
    amount: u64,
) -> (r: Result<Instruction, ClientError>)
    ensures
        r is Ok <==> account_exists,
        (r matches Ok(ix) ==> is_increase_instruction(
            ix,
            program_id@,
            counter_address@,
            authority@,
            amount,
        )),
        (r matches Err(e) ==> e == ClientError::DoesNotExist),
{
    if !account_exists {
        return Err(ClientError::DoesNotExist);
    }
    let mut accounts: Vec<AccountMeta> = Vec::new();
    accounts.push(AccountMeta {
        pubkey: copy_key(counter_address),
        is_signer: false,
        is_writable: true,
    });
    accounts.push(AccountMeta { pubkey: copy_key(authority), is_signer: false, is_writable: false });
    Ok(Instruction {
        program_id: copy_key(program_id),
        accounts,
        data: increase_instruction_data(amount),
    })
}

/// Decides the fetch command once the network read is in: refuses an
/// authority whose counter does not exist, and otherwise decodes the
/// fetched bytes.
pub fn fetch_counter_result(found: Option<Vec<u8>>) -> (r: Result<Counter, ClientError>)
    ensures
        (found is None ==> r == Err::<Counter, ClientError>(ClientError::DoesNotExist)),
        (found matches Some(d) ==> {
            if d@.len() == COUNTER_LEN {
                r matches Ok(c) && c.wf() && c.authority@ == stored_authority(d@)
                    && c.value == stored_value(d@) && c.bump == stored_bump(d@)
            } else {
                r == Err::<Counter, ClientError>(ClientError::MalformedAccount)
            }
        }),
{
    match found {
        None => Err(ClientError::DoesNotExist),
        Some(d) => match Counter::load(&d) {
            Ok(c) => Ok(c),
            Err(_) => Err(ClientError::MalformedAccount),
        },
    }
}

/// What the outside JSON parser makes of a string when asked for an
/// array of bytes: the byte values, or nothing when the string is not
/// such an array. The result depends on the string alone.
pub uninterp spec fn json_byte_vec_of(s: Seq<char>) -> Option<Seq<u8>>;

/// Relies on serde_json::from_str deserializing into a Vec of bytes:
/// acceptance and the values read depend on the input string alone.
#[verifier::external_body]
fn parse_json_byte_array(contents: &str) -> (r: Option<Vec<u8>>)
    ensures
        (match r {
            Some(v) => json_byte_vec_of(contents@) == Some(v@),
            None => json_byte_vec_of(contents@) is None,
        }),
{
    match serde_json::from_str::<Vec<u8>>(contents) {
        Ok(v) => Some(v),
        Err(_) => None,
    }
}

/// Reads a signing key out of a key file's contents: the contents must
/// be a JSON array of exactly the 64 bytes of a keypair. The caller
/// still has to check that the bytes form a valid key.
pub fn parse_keypair_json(contents: &str) -> (r: Result<Vec<u8>, ClientError>)
    ensures
        (json_byte_vec_of(contents@) is None ==> r == Err::<Vec<u8>, ClientError>(
            ClientError::KeyNotJsonArray,
        )),
        (json_byte_vec_of(contents@) matches Some(b) ==> {
            if b.len() == KEYPAIR_LEN {
                r matches Ok(v) && v@ == b
            } else {
                r == Err::<Vec<u8>, ClientError>(ClientError::InvalidKeyBytes)
            }
        }),
{
    match parse_json_byte_array(contents) {
        None => Err(ClientError::KeyNotJsonArray),
        Some(bytes) => {
            if bytes.len() != KEYPAIR_LEN {
                return Err(ClientError::InvalidKeyBytes);
            }
            Ok(bytes)
        },
    }
}

/// A fresh buffer with the same bytes.
fn copy_key(v: &Vec<u8>) -> (r: Vec<u8>)
    ensures
        r@ == v@,
{
    let mut r: Vec<u8> = Vec::new();
    let mut i: usize = 0;
    while i < v.len()
        invariant
            i <= v@.len(),
            r@.len() == i,
            forall|j: int| 0 <= j < i ==> r@[j] == v@[j],
        decreases v@.len() - i,
    {
        r.push(v[i]);
        i = i + 1;
    }
    proof {
        assert(r@ =~= v@);
    }
    r
}

} // verus!
