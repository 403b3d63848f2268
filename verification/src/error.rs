//! Error types for the on-chain handler and for the client commands.

use vstd::prelude::*;

verus! {

/// A typed failure of the on-chain handler. Any of these aborts the
/// whole transaction; the host ledger guarantees no partial write.
#[derive(Clone, Copy, Debug, PartialEq, Eq, Structural)]
pub enum ProgramError {
    /// The discriminator byte is unrecognized, or the payload is shorter
    /// than the selected operation requires.
    InvalidInstructionData,
    /// The instruction was handed fewer accounts than the operation needs.
    NotEnoughAccounts,
    /// Create: the target account already holds data.
    AccountAlreadyInitialized,
    /// Create: the target is not owned by the system default owner.
    /// Increase: the target is not owned by this program.
    InvalidOwner,
    /// Create: the target's address is not the derived counter address
    /// for the supplied authority.
    InvalidAddress,
    /// Create: the authority account did not sign the transaction.
    MissingRequiredSignature,
    /// Increase: the target's data is not exactly the counter layout size.
    InvalidAccountData,
    /// Increase: the supplied authority key differs from the stored one.
    AuthorityMismatch,
    /// No valid bump could be found for the derivation; effectively
    /// unreachable for this seed space.
    DerivationFailure,
}

/// A client-side precondition or input failure, detected before any
/// transaction is built.
#[derive(Clone, Copy, Debug, PartialEq, Eq, Structural)]
pub enum ClientError {
    /// Create: a counter account already exists for this authority.
    AlreadyExists,
    /// Increase/fetch: no counter account exists for this authority.
    DoesNotExist,
    /// Fetch: the account bytes do not match the counter layout.
    MalformedAccount,
    /// The signing-key file's contents are not a JSON array of bytes.
    KeyNotJsonArray,
    /// The decoded key bytes do not have the length of a signing key.
    InvalidKeyBytes,
    /// No valid bump could be found for the derivation; effectively
    /// unreachable for this seed space.
    DerivationFailed,
}

} // verus!
