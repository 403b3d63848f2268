//! Derivation of the per-authority counter address.
//!
//! A counter account lives at a program-derived address computed from a
//! fixed textual seed, the authority's public key, and the program's own
//! address. The derivation is deterministic and lands off-curve, so no
//! signing key can ever control the account; the single-byte bump is the
//! nonce that made the search succeed.

use vstd::prelude::*;
use crate::error::ClientError;

verus! {

/// The result of the outside program-derived-address search for the
/// given seed, authority key and program address: the derived 32-byte
/// address and its bump, or nothing in the statistically improbable
/// event that no bump lands off-curve. The search is a pure function of
/// these three inputs.
pub uninterp spec fn pda_of(seed: Seq<u8>, authority: Seq<u8>, program_id: Seq<u8>) -> Option<(Seq<u8>, u8)>;

/// Relies on solana_sdk's Pubkey::try_find_program_address: the derived
/// address and bump depend on the seeds and the program address alone,
/// the returned address is a 32-byte key, and the improbable failure of
/// the bump search is reported as None rather than by panicking.
#[verifier::external_body]
fn try_find_counter_address(seed: &Vec<u8>, authority: &Vec<u8>, program_id: &Vec<u8>) -> (r: Option<(Vec<u8>, u8)>)
    requires
        program_id@.len() == 32,
    ensures
        (match r {
            Some(p) => pda_of(seed@, authority@, program_id@) == Some((p.0@, p.1)) && p.0@.len() == 32,
            None => pda_of(seed@, authority@, program_id@) is None,
        }),
{
    let pid = solana_sdk::pubkey::Pubkey::try_from(program_id.as_slice()).unwrap();
    match solana_sdk::pubkey::Pubkey::try_find_program_address(
        &[seed.as_slice(), authority.as_slice()],
        &pid,
    ) {
        Some((address, bump)) => Some((address.to_bytes().to_vec(), bump)),
        None => None,
    }
}

/// The fixed textual seed, the ASCII bytes of the word "counter".
pub open spec fn counter_seed_spec() -> Seq<u8> {
    seq![99u8, 111u8, 117u8, 110u8, 116u8, 101u8, 114u8]
}

/// The fixed textual seed that every counter address is derived from.
pub fn counter_seed() -> (r: Vec<u8>)
    ensures
        r@ == counter_seed_spec(),
{
    let r: Vec<u8> = vec![99u8, 111u8, 117u8, 110u8, 116u8, 101u8, 114u8];
    proof {
        assert(r@ =~= counter_seed_spec());
    }
    r
}

/// The address this program is deployed at.
pub open spec fn program_id_spec() -> Seq<u8> {
    seq![
        11u8, 59u8, 222u8, 140u8, 31u8, 74u8, 118u8, 203u8,
        7u8, 90u8, 155u8, 38u8, 249u8, 66u8, 181u8, 24u8,
        99u8, 172u8, 45u8, 210u8, 133u8, 16u8, 87u8, 240u8,
        53u8, 126u8, 199u8, 72u8, 165u8, 238u8, 61u8, 144u8,
    ]
}

/// The address this program is deployed at, as raw key bytes.
pub fn get_program_id() -> (r: Vec<u8>)
    ensures
        r@ == program_id_spec(),
        r@.len() == 32,
{
    let r: Vec<u8> = vec![
        11u8, 59u8, 222u8, 140u8, 31u8, 74u8, 118u8, 203u8,
        7u8, 90u8, 155u8, 38u8, 249u8, 66u8, 181u8, 24u8,
        99u8, 172u8, 45u8, 210u8, 133u8, 16u8, 87u8, 240u8,
        53u8, 126u8, 199u8, 72u8, 165u8, 238u8, 61u8, 144u8,
    ];
    proof {
        assert(r@ =~= program_id_spec());
    }
    r
}

/// The system default owner's address: the all-zero key that owns every
/// account not yet assigned to a program.
pub open spec fn system_program_id_spec() -> Seq<u8> {
    Seq::new(32, |i: int| 0u8)
}

/// The system default owner's address, as raw key bytes.
pub fn system_program_id() -> (r: Vec<u8>)
    ensures
        r@ == system_program_id_spec(),
        r@.len() == 32,
{
    let mut r: Vec<u8> = Vec::new();
    let mut i: usize = 0;
    while i < 32
        invariant
            i <= 32,
            r@.len() == i,
            forall|j: int| 0 <= j < i ==> r@[j] == 0u8,
        decreases 32 - i,
    {
        r.push(0u8);
        i = i + 1;
    }
    proof {
        assert(r@ =~= system_program_id_spec());
    }
    r
}

/// Derives the counter address and bump for an authority under the
/// given program. Fails only when no bump lands off-curve, which is
/// effectively unreachable for this seed space.
pub fn get_counter_address(authority: &Vec<u8>, program_id: &Vec<u8>) -> (r: Result<(Vec<u8>, u8), ClientError>)
    requires
        authority@.len() == 32,
        program_id@.len() == 32,
    ensures
        (r matches Ok(p) ==> pda_of(counter_seed_spec(), authority@, program_id@) == Some((p.0@, p.1))
            && p.0@.len() == 32),
        (r matches Err(e) ==> e == ClientError::DerivationFailed
            && pda_of(counter_seed_spec(), authority@, program_id@) is None),
{
    let seed = counter_seed();
    match try_find_counter_address(&seed, authority, program_id) {
        Some(p) => Ok(p),
        None => Err(ClientError::DerivationFailed),
    }
}

/// The derived counter address is a function of the seed, the authority
/// and the program address alone: any two derivations on the same
/// inputs agree.
pub proof fn lemma_derivation_deterministic(
    seed: Seq<u8>,
    authority: Seq<u8>,
    program_id: Seq<u8>,
    r1: Option<(Seq<u8>, u8)>,
    r2: Option<(Seq<u8>, u8)>,
)
    ensures
        r1 == pda_of(seed, authority, program_id) && r2 == pda_of(seed, authority, program_id)
            ==> r1 == r2,
{
}

} // verus!
