//! The counter account layout and its codec.
//!
//! A counter account's data is a fixed 41-byte buffer with no header and
//! no versioning: the 32-byte authority key, the 64-bit counter value in
//! little-endian order, and the single-byte derivation bump.

use vstd::prelude::*;
use vstd::bytes::{spec_u64_from_le_bytes, spec_u64_to_le_bytes, u64_from_le_bytes, u64_to_le_bytes};
use crate::error::ProgramError;

verus! {

/// The exact size of a counter account's data: 32 + 8 + 1 bytes.
pub const COUNTER_LEN: usize = 41;

/// A decoded counter account.
#[derive(Debug)]
pub struct Counter {
    /// The 32-byte public key that owns and controls this counter.
    pub authority: Vec<u8>,
    /// The counter's current value.
    pub value: u64,
    /// The nonce that made the address derivation land off-curve.
    pub bump: u8,
}

impl Counter {
    /// A counter is well formed when its authority has the length of a
    /// public key.
    pub open spec fn wf(self) -> bool {
        self.authority@.len() == 32
    }

    /// Decodes a raw account buffer. Fails exactly when the buffer is
    /// not exactly the layout size.
    pub fn load(data: &Vec<u8>) -> (r: Result<Counter, ProgramError>)
        ensures
            r is Ok <==> data@.len() == COUNTER_LEN,
            (r matches Ok(c) ==> {
                &&& c.wf()
                &&& c.authority@ == stored_authority(data@)
                &&& c.value == stored_value(data@)
                &&& c.bump == stored_bump(data@)
            }),
            (r matches Err(e) ==> e == ProgramError::InvalidAccountData),
    {
        if data.len() != COUNTER_LEN {
            return Err(ProgramError::InvalidAccountData);
        }
        let mut authority: Vec<u8> = Vec::new();
        let mut i: usize = 0;
        while i < 32
            invariant
                i <= 32,
                data@.len() == 41,
                authority@.len() == i,
                forall|j: int| 0 <= j < i ==> authority@[j] == data@[j],
            decreases 32 - i,
        {
            authority.push(data[i]);
            i = i + 1;
        }
        let mut value_bytes: Vec<u8> = Vec::new();
        let mut k: usize = 32;
        while k < 40
            invariant
                32 <= k <= 40,
                data@.len() == 41,
                value_bytes@.len() == k - 32,
                forall|j: int| 0 <= j < k - 32 ==> value_bytes@[j] == data@[32 + j],
            decreases 40 - k,
        {
            value_bytes.push(data[k]);
            k = k + 1;
        }
        let value = u64_from_le_bytes(value_bytes.as_slice());
        let bump = data[40];
        proof {
            assert(authority@ =~= stored_authority(data@));
            assert(value_bytes@ =~= data@.subrange(32, 40));
        }
        Ok(Counter { authority, value, bump })
    }
}

/// The encoding of a counter with the given fields: the authority bytes,
/// then the value in little-endian order, then the bump.
pub open spec fn counter_bytes(authority: Seq<u8>, value: u64, bump: u8) -> Seq<u8> {
    authority + spec_u64_to_le_bytes(value) + seq![bump]
}

/// The authority field of an encoded counter buffer.
pub open spec fn stored_authority(data: Seq<u8>) -> Seq<u8> {
    data.subrange(0, 32)
}

/// The value field of an encoded counter buffer.
pub open spec fn stored_value(data: Seq<u8>) -> u64 {
    spec_u64_from_le_bytes(data.subrange(32, 40))
}

/// The bump field of an encoded counter buffer.
pub open spec fn stored_bump(data: Seq<u8>) -> u8 {
    data[40]
}

/// Encodes a counter into a fresh 41-byte buffer.
pub fn to_bytes(counter: &Counter) -> (r: Vec<u8>)
    requires
        counter.wf(),
    ensures
        r@ == counter_bytes(counter.authority@, counter.value, counter.bump),
        r@.len() == COUNTER_LEN,
{
    let mut out: Vec<u8> = Vec::new();
    let mut i: usize = 0;
    while i < 32
        invariant
            i <= 32,
            counter.authority@.len() == 32,
            out@.len() == i,
            forall|j: int| 0 <= j < i ==> out@[j] == counter.authority@[j],
        decreases 32 - i,
    {
        out.push(counter.authority[i]);
        i = i + 1;
    }
    let mut value_bytes = u64_to_le_bytes(counter.value);
    let ghost out_prefix = out@;
    let mut k: usize = 0;
    while k < 8
        invariant
            k <= 8,
            value_bytes@ == spec_u64_to_le_bytes(counter.value),
            value_bytes@.len() == 8,
            out@ == out_prefix + value_bytes@.subrange(0, k as int),
            out_prefix.len() == 32,
        decreases 8 - k,
    {
        out.push(value_bytes[k]);
        proof {
            assert(out@ =~= out_prefix + value_bytes@.subrange(0, k + 1));
        }
        k = k + 1;
    }
    out.push(counter.bump);
    proof {
        assert(out_prefix =~= counter.authority@);
        assert(out@ =~= counter_bytes(counter.authority@, counter.value, counter.bump)) by {
            vstd::bytes::lemma_auto_spec_u64_to_from_le_bytes();
        }
    }
    out
}

/// Initializes a counter layout in place, without an intermediate
/// allocation: writes the authority, a value of zero, and the bump over
/// an existing buffer of the layout size.
pub fn set_inner(data: &mut Vec<u8>, authority: &Vec<u8>, bump: u8)
    requires
        old(data)@.len() == COUNTER_LEN,
        authority@.len() == 32,
    ensures
        final(data)@ == counter_bytes(authority@, 0, bump),
{
    let mut i: usize = 0;
    while i < 32
        invariant
            i <= 32,
            data@.len() == 41,
            authority@.len() == 32,
            forall|j: int| 0 <= j < i ==> data@[j] == authority@[j],
        decreases 32 - i,
    {
        data.set(i, authority[i]);
        i = i + 1;
    }
    let mut k: usize = 32;
    while k < 40
        invariant
            32 <= k <= 40,
            data@.len() == 41,
            authority@.len() == 32,
            forall|j: int| 0 <= j < 32 ==> data@[j] == authority@[j],
            forall|j: int| 32 <= j < k ==> data@[j] == 0u8,
        decreases 40 - k,
    {
        data.set(k, 0u8);
        k = k + 1;
    }
    data.set(40, bump);
    proof {
        vstd::bytes::lemma_auto_spec_u64_to_from_le_bytes();
        vstd::bytes::spec_u64_to_le_bytes_to_open(0u64);
        assert((0u64 & 0xff) == 0u64 && ((0u64 >> 8) & 0xff) == 0u64 && ((0u64 >> 16) & 0xff) == 0u64
            && ((0u64 >> 24) & 0xff) == 0u64 && ((0u64 >> 32) & 0xff) == 0u64
            && ((0u64 >> 40) & 0xff) == 0u64 && ((0u64 >> 48) & 0xff) == 0u64
            && ((0u64 >> 56) & 0xff) == 0u64) by (bit_vector);
        assert(data@ =~= counter_bytes(authority@, 0, bump));
    }
}

/// The layout round trip: the fields read back from an encoded counter
/// buffer are exactly the fields it was encoded from, and the buffer has
/// the layout size.
pub proof fn lemma_counter_round_trip(authority: Seq<u8>, value: u64, bump: u8)
    requires
        authority.len() == 32,
    ensures
        counter_bytes(authority, value, bump).len() == COUNTER_LEN,
        stored_authority(counter_bytes(authority, value, bump)) == authority,
        stored_value(counter_bytes(authority, value, bump)) == value,
        stored_bump(counter_bytes(authority, value, bump)) == bump,
{
    vstd::bytes::lemma_auto_spec_u64_to_from_le_bytes();
    let data = counter_bytes(authority, value, bump);
    assert(stored_authority(data) =~= authority);
    assert(data.subrange(32, 40) =~= spec_u64_to_le_bytes(value));
}

} // verus!
