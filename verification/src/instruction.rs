//! Instruction encoding and parsing.
//!
//! An instruction payload is a one-byte discriminator followed by the
//! operation's payload: nothing for create, an 8-byte little-endian
//! amount for increase. Bytes after the required payload are ignored.

use vstd::prelude::*;
use vstd::bytes::{spec_u64_from_le_bytes, spec_u64_to_le_bytes, u64_from_le_bytes, u64_to_le_bytes};
use crate::error::ProgramError;

verus! {

/// The discriminator byte selecting the create operation.
pub const CREATE_DISCRIMINATOR: u8 = 0;

/// The discriminator byte selecting the increase operation.
pub const INCREASE_DISCRIMINATOR: u8 = 1;

/// The two operations the program performs, as a closed tagged type.
/// An unrecognized discriminator never reaches a variant: parsing
/// rejects it instead.
#[derive(Clone, Copy, Debug, PartialEq, Eq, Structural)]
pub enum CounterInstruction {
    /// Initialize the counter account for an authority.
    Create,
    /// Add the given amount to the stored value.
    Increase { amount: u64 },
}

/// What an instruction payload means: create for discriminator 0,
/// increase with the little-endian amount of the next 8 bytes for
/// discriminator 1, and an invalid-data failure for anything else or
/// for a payload shorter than the operation requires.
pub open spec fn parse_instruction_spec(data: Seq<u8>) -> Result<CounterInstruction, ProgramError> {
    if data.len() == 0 {
        Err(ProgramError::InvalidInstructionData)
    } else if data[0] == CREATE_DISCRIMINATOR {
        Ok(CounterInstruction::Create)
    } else if data[0] == INCREASE_DISCRIMINATOR {
        if data.len() < 9 {
            Err(ProgramError::InvalidInstructionData)
        } else {
            Ok(CounterInstruction::Increase { amount: spec_u64_from_le_bytes(data.subrange(1, 9)) })
        }
    } else {
        Err(ProgramError::InvalidInstructionData)
    }
}

/// Parses an instruction payload.
pub fn parse_instruction(data: &Vec<u8>) -> (r: Result<CounterInstruction, ProgramError>)
    ensures
        r == parse_instruction_spec(data@),
{
    if data.len() == 0 {
        return Err(ProgramError::InvalidInstructionData);
    }
    if data[0] == CREATE_DISCRIMINATOR {
        Ok(CounterInstruction::Create)
    } else if data[0] == INCREASE_DISCRIMINATOR {
        if data.len() < 9 {
            return Err(ProgramError::InvalidInstructionData);
        }
        let mut amount_bytes: Vec<u8> = Vec::new();
        let mut i: usize = 1;
        while i < 9
            invariant
                1 <= i <= 9,
                data@.len() >= 9,
                amount_bytes@.len() == i - 1,
                forall|j: int| 0 <= j < i - 1 ==> amount_bytes@[j] == data@[1 + j],
            decreases 9 - i,
        {
            amount_bytes.push(data[i]);
            i = i + 1;
        }
        proof {
            assert(amount_bytes@ =~= data@.subrange(1, 9));
        }
        let amount = u64_from_le_bytes(amount_bytes.as_slice());
        Ok(CounterInstruction::Increase { amount })
    } else {
        Err(ProgramError::InvalidInstructionData)
    }
}

/// Builds the payload of a create instruction: the discriminator alone.
pub fn create_instruction_data() -> (r: Vec<u8>)
    ensures
        r@ == seq![CREATE_DISCRIMINATOR],
{
    let r: Vec<u8> = vec![CREATE_DISCRIMINATOR];
    proof {
        assert(r@ =~= seq![CREATE_DISCRIMINATOR]);
    }
    r
}

/// Builds the payload of an increase instruction: the discriminator
/// followed by the amount in little-endian order.
pub fn increase_instruction_data(amount: u64) -> (r: Vec<u8>)
    ensures
        r@ == seq![INCREASE_DISCRIMINATOR] + spec_u64_to_le_bytes(amount),
        r@.len() == 9,
{
    let mut r: Vec<u8> = vec![INCREASE_DISCRIMINATOR];
    let amount_bytes = u64_to_le_bytes(amount);
    let mut i: usize = 0;
    while i < 8
        invariant
            i <= 8,
            amount_bytes@ == spec_u64_to_le_bytes(amount),
            amount_bytes@.len() == 8,
            r@.len() == 1 + i,
            r@[0] == INCREASE_DISCRIMINATOR,
            forall|j: int| 0 <= j < i ==> r@[1 + j] == amount_bytes@[j],
        decreases 8 - i,
    {
        r.push(amount_bytes[i]);
        i = i + 1;
    }
    proof {
        assert(r@ =~= seq![INCREASE_DISCRIMINATOR] + spec_u64_to_le_bytes(amount));
    }
    r
}

/// The payload round trip: parsing what the builders encode yields the
/// operation they encoded.
pub proof fn lemma_instruction_round_trip(amount: u64)
    ensures
        parse_instruction_spec(seq![CREATE_DISCRIMINATOR]) == Ok::<CounterInstruction, ProgramError>(
            CounterInstruction::Create,
        ),
        parse_instruction_spec(seq![INCREASE_DISCRIMINATOR] + spec_u64_to_le_bytes(amount))
            == Ok::<CounterInstruction, ProgramError>(CounterInstruction::Increase { amount }),
{
    vstd::bytes::lemma_auto_spec_u64_to_from_le_bytes();
    let data = seq![INCREASE_DISCRIMINATOR] + spec_u64_to_le_bytes(amount);
    assert(data.subrange(1, 9) =~= spec_u64_to_le_bytes(amount));
}

} // verus!
