use vstd::prelude::*;

verus! {

/// Every failure a handler can surface. Each call either completes in full
/// or returns one of these and leaves all state unchanged; the surrounding
/// runtime then discards the whole transaction.
#[derive(Clone, Copy, PartialEq, Eq, Structural, Debug)]
pub enum ProgramError {
    /// An account that must have signed the transaction did not.
    MissingRequiredSignature,
    /// An account is owned by the wrong program.
    IllegalOwner,
    /// An account's stored bytes have the wrong shape.
    InvalidAccountData,
    /// A supplied address does not match its derivation.
    InvalidSeeds,
    /// Fewer accounts were supplied than the handler needs.
    NotEnoughAccountKeys,
    /// The instruction payload is malformed or carries a zero amount.
    InvalidInstructionData,
    /// An offer record does not reconstruct to its own address.
    InvalidAccountOwner,
    /// An account already exists at the derived address.
    AccountAlreadyInitialized,
    /// A token account holds less than the amount to move.
    InsufficientFunds,
    /// A balance update would exceed the 64-bit range.
    ArithmeticOverflow,
    /// A supplied amount must be positive but is zero.
    InvalidAmount,
    /// The borrow instruction does not stand first in its transaction, or
    /// the closing instruction is not a well-formed repayment.
    InvalidInstructionPosition,
    /// The closing instruction of the transaction targets another program.
    InvalidProgram,
    /// The repayment names a different borrower token account.
    InvalidBorrowerAta,
    /// The repayment names a different pool token account.
    InvalidProtocolAta,
    /// The transaction carries no repayment instruction at its end.
    MissingRepayInstruction,
    /// The transaction carries no borrow instruction at its start.
    MissingBorrowInstruction,
    /// The caller is not the maker recorded in the offer.
    InvalidMaker,
    /// The supplied deposited-asset identity differs from the record's.
    InvalidMintA,
    /// The supplied requested-asset identity differs from the record's.
    InvalidMintB,
}

/// The account-validation failures, as the validation helpers report them.
#[derive(Clone, Copy, PartialEq, Eq, Structural, Debug)]
pub enum PinocchioError {
    NotSigner,
    InvalidOwner,
    InvalidAccountData,
    InvalidAddress,
}

impl From<PinocchioError> for ProgramError {
    fn from(e: PinocchioError) -> (r: Self) {
        match e {
            PinocchioError::NotSigner => ProgramError::MissingRequiredSignature,
            PinocchioError::InvalidOwner => ProgramError::IllegalOwner,
            PinocchioError::InvalidAccountData => ProgramError::InvalidAccountData,
            PinocchioError::InvalidAddress => ProgramError::InvalidSeeds,
        }
    }
}

impl vstd::std_specs::convert::FromSpecImpl<PinocchioError> for ProgramError {
    open spec fn obeys_from_spec() -> bool {
        true
    }

    open spec fn from_spec(e: PinocchioError) -> Self {
        match e {
            PinocchioError::NotSigner => ProgramError::MissingRequiredSignature,
            PinocchioError::InvalidOwner => ProgramError::IllegalOwner,
            PinocchioError::InvalidAccountData => ProgramError::InvalidAccountData,
            PinocchioError::InvalidAddress => ProgramError::InvalidSeeds,
        }
    }
}

} // verus!
