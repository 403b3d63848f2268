//! The on-chain state-transition function.
//!
//! The host VM hands the program its own address, an ordered list of
//! account handles and an opaque instruction payload. The program
//! dispatches on the payload's discriminator, validates the accounts,
//! and produces the accounts' new states; any failure aborts the whole
//! transaction, so there is never a partial write. Value arithmetic
//! wraps on overflow.

use vstd::prelude::*;
use crate::error::ProgramError;
use crate::instruction::{parse_instruction, parse_instruction_spec, CounterInstruction};
use crate::pda::{counter_seed_spec, pda_of, system_program_id};
use crate::state::{
    counter_bytes, stored_authority, stored_bump, stored_value, to_bytes, Counter, COUNTER_LEN,
};

verus! {

/// One account handle as the host VM presents it: its address, the
/// program that owns it, its raw data, and the transaction's flags.
#[derive(Debug)]
pub struct AccountState {
    /// The account's 32-byte address.
    pub key: Vec<u8>,
    /// The 32-byte address of the program that owns the account.
    pub owner: Vec<u8>,
    /// The account's raw data.
    pub data: Vec<u8>,
    /// Whether this account signed the transaction.
    pub is_signer: bool,
    /// Whether the transaction may write to this account.
    pub is_writable: bool,
}

impl AccountState {
    /// An account handle is well formed when its address and owner have
    /// the length of a public key.
    pub open spec fn wf(self) -> bool {
        self.key@.len() == 32 && self.owner@.len() == 32
    }
}

/// Two account handles hold the same state.
pub open spec fn account_eq(a: AccountState, b: AccountState) -> bool {
    &&& a.key@ == b.key@
    &&& a.owner@ == b.owner@
    &&& a.data@ == b.data@
    &&& a.is_signer == b.is_signer
    &&& a.is_writable == b.is_writable
}

/// Addition on the stored value: wraps modulo 2^64.
pub open spec fn wrap_add_u64(a: u64, b: u64) -> u64 {
    ((a + b) % 0x1_0000_0000_0000_0000) as u64
}

proof fn lemma_wrap_add_u64(a: u64, b: u64)
    ensures
        a + b <= u64::MAX ==> wrap_add_u64(a, b) == a + b,
        a + b > u64::MAX ==> wrap_add_u64(a, b) == a + b - 0x1_0000_0000_0000_0000,
{
    let m: int = 0x1_0000_0000_0000_0000;
    if a + b <= u64::MAX {
        vstd::arithmetic::div_mod::lemma_small_mod((a + b) as nat, m as nat);
    } else {
        vstd::arithmetic::div_mod::lemma_mod_sub_multiples_vanish((a + b) as int, m);
        vstd::arithmetic::div_mod::lemma_small_mod((a + b - m) as nat, m as nat);
    }
}

/// What create decides: the exact error for the first failing check, or
/// the bump of the derived address on success.
pub open spec fn create_result_spec(
    program_id: Seq<u8>,
    counter: AccountState,
    authority: AccountState,
) -> Result<u8, ProgramError> {
    if counter.data@.len() != 0 {
        Err(ProgramError::AccountAlreadyInitialized)
    } else if counter.owner@ != crate::pda::system_program_id_spec() {
        Err(ProgramError::InvalidOwner)
    } else if !authority.is_signer {
        Err(ProgramError::MissingRequiredSignature)
    } else {
        match pda_of(counter_seed_spec(), authority.key@, program_id) {
            None => Err(ProgramError::DerivationFailure),
            Some(p) => if counter.key@ != p.0 {
                Err(ProgramError::InvalidAddress)
            } else {
                Ok(p.1)
            },
        }
    }
}

/// The counter account's state after a successful create: same address
/// and flags, now owned by the program, holding the authority, a value
/// of zero and the derivation's bump.
pub open spec fn created_from(
    program_id: Seq<u8>,
    counter: AccountState,
    authority: AccountState,
    new_counter: AccountState,
) -> bool {
    &&& (create_result_spec(program_id, counter, authority) matches Ok(bump)
        && new_counter.data@ == counter_bytes(authority.key@, 0, bump))
    &&& new_counter.key@ == counter.key@
    &&& new_counter.owner@ == program_id
    &&& new_counter.is_signer == counter.is_signer
    &&& new_counter.is_writable == counter.is_writable
}

/// What increase decides: the exact error for the first failing check,
/// or the wrapped new value on success. Increase demands only that the
/// supplied authority's key equals the stored one; it does not demand a
/// fresh signature.
pub open spec fn increase_result_spec(
    program_id: Seq<u8>,
    counter: AccountState,
    authority: AccountState,
    amount: u64,
) -> Result<u64, ProgramError> {
    if counter.owner@ != program_id {
        Err(ProgramError::InvalidOwner)
    } else if counter.data@.len() != COUNTER_LEN {
        Err(ProgramError::InvalidAccountData)
    } else if stored_authority(counter.data@) != authority.key@ {
        Err(ProgramError::AuthorityMismatch)
    } else {
        Ok(wrap_add_u64(stored_value(counter.data@), amount))
    }
}

/// The counter account's state after a successful increase: unchanged
/// but for the stored value, which grew by the amount, wrapping.
pub open spec fn increased_from(
    program_id: Seq<u8>,
    counter: AccountState,
    authority: AccountState,
    amount: u64,
    new_counter: AccountState,
) -> bool {
    &&& increase_result_spec(program_id, counter, authority, amount) is Ok
    &&& new_counter.data@ == counter_bytes(
        stored_authority(counter.data@),
        wrap_add_u64(stored_value(counter.data@), amount),
        stored_bump(counter.data@),
    )
    &&& new_counter.key@ == counter.key@
    &&& new_counter.owner@ == counter.owner@
    &&& new_counter.is_signer == counter.is_signer
    &&& new_counter.is_writable == counter.is_writable
}

/// Byte-for-byte equality of two buffers.
fn bytes_eq(a: &Vec<u8>, b: &Vec<u8>) -> (r: bool)
    ensures
        r == (a@ == b@),
{
    if a.len() != b.len() {
        return false;
    }
    let mut i: usize = 0;
    while i < a.len()
        invariant
            i <= a@.len(),
            a@.len() == b@.len(),
            forall|j: int| 0 <= j < i ==> a@[j] == b@[j],
        decreases a@.len() - i,
    {
        if a[i] != b[i] {
            return false;
        }
        i = i + 1;
    }
    proof {
        assert(a@ =~= b@);
    }
    true
}

/// A fresh buffer with the same bytes.
fn copy_bytes(v: &Vec<u8>) -> (r: Vec<u8>)
    ensures
        r@ == v@,
{
    let mut r: Vec<u8> = Vec::new();
    let mut i: usize = 0;
    while i < v.len()
        invariant
            i <= v@.len(),
            r@.len() == i,
            forall|j: int| 0 <= j < i ==> r@[j] == v@[j],
        decreases v@.len() - i,
    {
        r.push(v[i]);
        i = i + 1;
    }
    proof {
        assert(r@ =~= v@);
    }
    r
}

/// A fresh handle with the same state.
fn clone_account(a: &AccountState) -> (r: AccountState)
    ensures
        account_eq(r, *a),
{
    AccountState {
        key: copy_bytes(&a.key),
        owner: copy_bytes(&a.owner),
        data: copy_bytes(&a.data),
        is_signer: a.is_signer,
        is_writable: a.is_writable,
    }
}

/// The create handler: validates that the target account is unused and
/// system-owned, that its address is the derived counter address for
/// the signing authority, and produces the initialized account.
pub fn process_create(
    program_id: &Vec<u8>,
    counter: &AccountState,
    authority: &AccountState,
) -> (r: Result<AccountState, ProgramError>)
    requires
        program_id@.len() == 32,
        authority.wf(),
    ensures
        r is Ok <==> create_result_spec(program_id@, *counter, *authority) is Ok,
        (r matches Ok(nc) ==> created_from(program_id@, *counter, *authority, nc)),
        (r matches Err(e) ==> create_result_spec(program_id@, *counter, *authority)
            == Err::<u8, ProgramError>(e)),
{
    if counter.data.len() != 0 {
        return Err(ProgramError::AccountAlreadyInitialized);
    }
    let sys = system_program_id();
    if !bytes_eq(&counter.owner, &sys) {
        return Err(ProgramError::InvalidOwner);
    }
    if !authority.is_signer {
        return Err(ProgramError::MissingRequiredSignature);
    }
    match crate::pda::get_counter_address(&authority.key, program_id) {
        Err(_) => Err(ProgramError::DerivationFailure),
        Ok((address, bump)) => {
            if !bytes_eq(&counter.key, &address) {
                return Err(ProgramError::InvalidAddress);
            }
            let new_counter = Counter { authority: copy_bytes(&authority.key), value: 0, bump };
            let data = to_bytes(&new_counter);
            Ok(AccountState {
                key: copy_bytes(&counter.key),
                owner: copy_bytes(program_id),
                data,
                is_signer: counter.is_signer,
                is_writable: counter.is_writable,
            })
        },
    }
}

/// The increase handler: validates that the target is this program's
/// correctly sized counter account and that the supplied authority
/// matches the stored one, then adds the amount, wrapping on overflow.
pub fn process_increase(
    program_id: &Vec<u8>,
    counter: &AccountState,
    authority: &AccountState,
    amount: u64,
) -> (r: Result<AccountState, ProgramError>)
    ensures
        r is Ok <==> increase_result_spec(program_id@, *counter, *authority, amount) is Ok,
        (r matches Ok(nc) ==> increased_from(program_id@, *counter, *authority, amount, nc)),
        (r matches Err(e) ==> increase_result_spec(program_id@, *counter, *authority, amount)
            == Err::<u64, ProgramError>(e)),
{
    if !bytes_eq(&counter.owner, program_id) {
        return Err(ProgramError::InvalidOwner);
    }
    let stored = match Counter::load(&counter.data) {
        Err(_) => {
            return Err(ProgramError::InvalidAccountData);
        },
        Ok(c) => c,
    };
    if !bytes_eq(&stored.authority, &authority.key) {
        return Err(ProgramError::AuthorityMismatch);
    }
    let new_value = stored.value.wrapping_add(amount);
    proof {
        lemma_wrap_add_u64(stored.value, amount);
    }
    let data = to_bytes(&Counter { authority: stored.authority, value: new_value, bump: stored.bump });
    Ok(AccountState {
        key: copy_bytes(&counter.key),
        owner: copy_bytes(&counter.owner),
        data,
        is_signer: counter.is_signer,
        is_writable: counter.is_writable,
    })
}

/// What the entry point decides for a whole invocation: the payload's
/// parse failure, a missing account, or the selected handler's decision.
pub open spec fn dispatch_result_spec(
    program_id: Seq<u8>,
    accounts: Seq<AccountState>,
    data: Seq<u8>,
) -> Result<(), ProgramError> {
    match parse_instruction_spec(data) {
        Err(e) => Err(e),
        Ok(CounterInstruction::Create) => if accounts.len() < 3 {
            Err(ProgramError::NotEnoughAccounts)
        } else {
            match create_result_spec(program_id, accounts[0], accounts[1]) {
                Ok(_) => Ok(()),
                Err(e) => Err(e),
            }
        },
        Ok(CounterInstruction::Increase { amount }) => if accounts.len() < 2 {
            Err(ProgramError::NotEnoughAccounts)
        } else {
            match increase_result_spec(program_id, accounts[0], accounts[1], amount) {
                Ok(_) => Ok(()),
                Err(e) => Err(e),
            }
        },
    }
}

/// The program's entry point: dispatches on the payload's discriminator
/// and returns the accounts' new states, the counter account first and
/// every other account unchanged. Any failure leaves no state behind.
pub fn process_instruction(
    program_id: &Vec<u8>,
    accounts: &Vec<AccountState>,
    instruction_data: &Vec<u8>,
) -> (r: Result<Vec<AccountState>, ProgramError>)
    requires
        program_id@.len() == 32,
        forall|i: int| 0 <= i < accounts@.len() ==> (#[trigger] accounts@[i]).wf(),
    ensures
        r is Ok <==> dispatch_result_spec(program_id@, accounts@, instruction_data@) is Ok,
        (r matches Err(e) ==> dispatch_result_spec(program_id@, accounts@, instruction_data@)
            == Err::<(), ProgramError>(e)),
        (r matches Ok(out) ==> {
            &&& out@.len() == accounts@.len()
            &&& forall|i: int| 1 <= i < accounts@.len() ==> account_eq(#[trigger] out@[i], accounts@[i])
            &&& (parse_instruction_spec(instruction_data@) matches Ok(CounterInstruction::Create)
                ==> created_from(program_id@, accounts@[0], accounts@[1], out@[0]))
            &&& (parse_instruction_spec(instruction_data@) matches Ok(CounterInstruction::Increase {
                amount }) ==> increased_from(program_id@, accounts@[0], accounts@[1], amount, out@[0]))
        }),
{
    let parsed = match parse_instruction(instruction_data) {
        Err(e) => {
            return Err(e);
        },
        Ok(p) => p,
    };
    let new_counter = match parsed {
        CounterInstruction::Create => {
            if accounts.len() < 3 {
                return Err(ProgramError::NotEnoughAccounts);
            }
            match process_create(program_id, &accounts[0], &accounts[1]) {
                Err(e) => {
                    return Err(e);
                },
                Ok(nc) => nc,
            }
        },
        CounterInstruction::Increase { amount } => {
            if accounts.len() < 2 {
                return Err(ProgramError::NotEnoughAccounts);
            }
            match process_increase(program_id, &accounts[0], &accounts[1], amount) {
                Err(e) => {
                    return Err(e);
                },
                Ok(nc) => nc,
            }
        },
    };
    let ghost nc_snap = new_counter;
    let mut out: Vec<AccountState> = Vec::new();
    out.push(new_counter);
    let mut i: usize = 1;
    #[verifier::loop_isolation(false)]
    while i < accounts.len()
        invariant
            1 <= i <= accounts@.len(),
            out@.len() == i,
            out@[0] == nc_snap,
            forall|j: int| 1 <= j < i ==> account_eq(#[trigger] out@[j], accounts@[j]),
        decreases accounts@.len() - i,
    {
        out.push(clone_account(&accounts[i]));
        i = i + 1;
    }
    Ok(out)
}

/// A counter is created exactly once: the account state a successful
/// create produced can never satisfy create again, whoever asks, since
/// the account now holds data.
pub proof fn lemma_create_exactly_once(
    program_id: Seq<u8>,
    counter: AccountState,
    authority: AccountState,
    new_counter: AccountState,
    authority2: AccountState,
)
    requires
        authority.key@.len() == 32,
    ensures
        created_from(program_id, counter, authority, new_counter) ==> create_result_spec(
            program_id,
            new_counter,
            authority2,
        ) == Err::<u8, ProgramError>(ProgramError::AccountAlreadyInitialized),
{
    if created_from(program_id, counter, authority, new_counter) {
        let bump = create_result_spec(program_id, counter, authority)->Ok_0;
        crate::state::lemma_counter_round_trip(authority.key@, 0, bump);
    }
}

/// One increase on a freshly created counter stores exactly the amount:
/// create writes a value of zero and increase grows it by the amount.
pub proof fn lemma_increase_after_create(
    program_id: Seq<u8>,
    counter: AccountState,
    authority: AccountState,
    c1: AccountState,
    authority2: AccountState,
    amount: u64,
    c2: AccountState,
)
    requires
        authority.key@.len() == 32,
    ensures
        created_from(program_id, counter, authority, c1) && increased_from(
            program_id,
            c1,
            authority2,
            amount,
            c2,
        ) ==> stored_value(c2.data@) == amount && stored_authority(c2.data@) == authority.key@,
{
    if created_from(program_id, counter, authority, c1) && increased_from(
        program_id,
        c1,
        authority2,
        amount,
        c2,
    ) {
        let bump = create_result_spec(program_id, counter, authority)->Ok_0;
        crate::state::lemma_counter_round_trip(authority.key@, 0, bump);
        crate::state::lemma_counter_round_trip(authority.key@, wrap_add_u64(0, amount), bump);
        vstd::arithmetic::div_mod::lemma_small_mod(amount as nat, 0x1_0000_0000_0000_0000);
    }
}

/// Two sequential increases add up: increasing by a and then by b
/// leaves the stored value grown by a + b, modulo 2^64.
pub proof fn lemma_increase_accumulates(
    program_id: Seq<u8>,
    c0: AccountState,
    authority: AccountState,
    a: u64,
    c1: AccountState,
    authority2: AccountState,
    b: u64,
    c2: AccountState,
)
    requires
        stored_authority(c0.data@).len() == 32,
    ensures
        increased_from(program_id, c0, authority, a, c1) && increased_from(
            program_id,
            c1,
            authority2,
            b,
            c2,
        ) ==> stored_value(c2.data@) == ((stored_value(c0.data@) + a + b)
            % 0x1_0000_0000_0000_0000) as u64,
{
    if increased_from(program_id, c0, authority, a, c1) && increased_from(
        program_id,
        c1,
        authority2,
        b,
        c2,
    ) {
        let m: int = 0x1_0000_0000_0000_0000;
        let v0 = stored_value(c0.data@);
        crate::state::lemma_counter_round_trip(
            stored_authority(c0.data@),
            wrap_add_u64(v0, a),
            stored_bump(c0.data@),
        );
        crate::state::lemma_counter_round_trip(
            stored_authority(c1.data@),
            wrap_add_u64(stored_value(c1.data@), b),
            stored_bump(c1.data@),
        );
        vstd::arithmetic::div_mod::lemma_mod_bound((v0 + a) as int, m);
        vstd::arithmetic::div_mod::lemma_add_mod_noop((v0 + a) as int, b as int, m);
        vstd::arithmetic::div_mod::lemma_small_mod(b as nat, m as nat);
    }
}

/// Fetch after create: the bytes a successful create wrote have the
/// layout size and decode to the creating authority, a value of zero,
/// and the bump the derivation returned.
pub proof fn lemma_fetch_after_create(
    program_id: Seq<u8>,
    counter: AccountState,
    authority: AccountState,
    c1: AccountState,
)
    requires
        authority.key@.len() == 32,
    ensures
        created_from(program_id, counter, authority, c1) ==> {
            &&& c1.data@.len() == COUNTER_LEN
            &&& stored_authority(c1.data@) == authority.key@
            &&& stored_value(c1.data@) == 0
            &&& (pda_of(counter_seed_spec(), authority.key@, program_id) matches Some(p)
                && stored_bump(c1.data@) == p.1)
        },
{
    if created_from(program_id, counter, authority, c1) {
        let bump = create_result_spec(program_id, counter, authority)->Ok_0;
        crate::state::lemma_counter_round_trip(authority.key@, 0, bump);
    }
}

} // verus!
