use vstd::prelude::*;

verus! {

/// Why an instruction on a lookup table was refused.
#[derive(Clone, Copy, Debug, PartialEq, Eq, Structural)]
pub enum LookupTableError {
    /// A required signature is missing (payer or authority).
    MissingRequiredSignature,
    /// An account or a value has the wrong identity or state for the instruction.
    InvalidArgument,
    /// The instruction payload is malformed or asks for what the table cannot take.
    InvalidInstructionData,
    /// The table account is not owned by this program.
    InvalidAccountOwner,
    /// The table is frozen, or an account that must change is not writable.
    Immutable,
    /// The signer is not the table's authority.
    IncorrectAuthority,
    /// A size or balance computation does not fit.
    ArithmeticOverflow,
    /// No address can be derived from the given seeds.
    InvalidSeeds,
    /// An account's data is shorter than its layout needs.
    AccountDataTooSmall,
    /// The payer cannot fund a transfer.
    InsufficientFunds,
}

} // verus!
