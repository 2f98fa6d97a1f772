use vstd::prelude::*;

verus! {

/// Terminal outcome of a failed `CreateBoard` invocation.
///
/// Every check in the handler is local and fails fast: the first violated
/// condition determines the variant, and the whole invocation aborts with it.
#[derive(Clone, Copy, Debug, PartialEq, Eq, Structural)]
pub enum BoardError {
    /// The payload is empty, shorter than a tag plus an asset identifier,
    /// carries an unknown tag, or its trailing bytes are not valid UTF-8.
    MalformedInstruction,
    /// The sender account does not carry the authenticated-signer flag.
    MissingSignature,
    /// The holding account is not owned by the declared holding program.
    WrongOwnerProgram,
    /// The holding account's raw bytes do not decode as a token holding.
    MalformedTokenAccount,
    /// The holding belongs to someone else, records a different asset,
    /// or has a zero balance.
    UnauthorizedOrEmptyHolding,
    /// The provisioning stage failed: the rent calculator's sysvar account
    /// could not be read, or its configuration cannot be computed with.
    ProvisioningFailure,
    /// The storage buffer is smaller than the serialized board record.
    SerializationFailure,
}

} // verus!
