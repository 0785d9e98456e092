//! Error kinds returned by the program.

use vstd::prelude::*;

verus! {

/// The failure kinds of the program. Every check fails fast with one of these.
#[derive(Clone, Copy, Debug, PartialEq, Eq, Structural)]
pub enum BondError {
    /// An account that must sign the call did not.
    MissingSignature,
    /// An account that must be writable is not.
    NotWritable,
    /// An account that must be read-only is writable.
    NotReadonly,
    /// An account's balance is below its rent-exemption threshold.
    NotRentExempt,
    /// An account is owned by a program other than the expected one.
    IncorrectOwner,
    /// An account's address is not the expected one.
    AddressMismatch,
    /// A record has not been initialized.
    UninitializedAccount,
    /// A record is already initialized.
    AlreadyInitialized,
    /// A record holds another type than the expected one.
    InvalidAccountType,
    /// A derivation or a draw sequence number was rejected.
    InvalidSeeds,
    /// An account's bytes do not decode as the expected record.
    InvalidAccountData,
    /// A rollover would take the rollover count past its largest value.
    RolloverOverflow,
    /// A share record's fraction is greater than one.
    InvalidShare,
    /// An account is too small to hold the record written to it.
    AccountDataTooSmall,
    /// Fewer accounts were passed than the instruction needs.
    NotEnoughAccountKeys,
    /// The instruction's bytes do not decode.
    InvalidInstructionData,
}

} // verus!
