//! Failures of the escrow program.

use vstd::prelude::*;
use solana_program::program_error::ProgramError;

verus! {

/// The host's error type, `solana_program::program_error::ProgramError`. A
/// value of it is only carried through.
#[verifier::external_type_specification]
#[verifier::external_body]
pub struct ExProgramError(solana_program::program_error::ProgramError);

/// Why an instruction was refused.
#[derive(Debug, PartialEq, Eq)]
pub enum EscrowError {
    /// Decoding: the instruction bytes spell no instruction.
    InvalidInstruction,
    /// Authentication: the account that has to authorise the instruction did
    /// not sign the transaction.
    MissingRequiredSignature,
    /// Ownership: an account that has to belong to the token program belongs
    /// to another program.
    IncorrectProgramId,
    /// Storage: the record slot's balance is under the rent-exemption
    /// threshold, so that the host may reclaim the slot.
    NotRentExempt,
    /// Storage: the record slot already stores a live record.
    AlreadyInitialized,
    /// Validation: the amount that the taker named is not the deposit's
    /// balance.
    ExpectedAmountMismatch,
    /// Validation: an account is not the one that the record names, or the
    /// record slot does not have the layout of a record.
    InvalidAccountData,
    /// Arithmetic: a refund would take the receiving balance beyond 64 bits.
    AmountOverflow,
    /// The instruction came with fewer accounts than it reads.
    NotEnoughAccountKeys,
    /// Validation: the record slot stores no live record.
    UninitializedAccount,
    /// Storage: the rent reference that came with the instruction does not
    /// hold the host's rent parameters.
    InvalidRentReference,
    /// The derivation finds no custody address for this program.
    CustodyUnavailable,
    /// The host or the token program refused; its error is passed on as it
    /// came.
    ExternalCall(ProgramError),
}

/// Whether `r` is a failure passed on from the host or the token program.
pub open spec fn passed_on<T>(r: Result<T, EscrowError>) -> bool {
    r is Err && r->Err_0 is ExternalCall
}

} // verus!
