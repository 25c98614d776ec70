use vstd::prelude::*;
use vstd::bytes::spec_u64_from_le_bytes;
use vstd::bytes::u64_from_le_bytes;
use vstd::slice::slice_subrange;
use crate::keys::Pubkey;
use crate::keys::spec_program_id;
use crate::errors::ProgramError;
use crate::token::TokenAccountState;
use crate::token::spec_transfer_check;
use crate::token::token_transfer;
use crate::accounts::AccountView;
use crate::accounts::SignerAccount;
use crate::pda::spec_protocol_address;
use crate::pda::derive_protocol_address;
use crate::FEE_BASIS_POINTS;
use crate::spec_fee;
use crate::fee_floor;

verus! {

/// One sibling instruction of the enclosing transaction, as the runtime's
/// read-only introspection hands it out: the program it targets, the
/// addresses it references in position order, and its raw payload.
pub struct InstructionView {
    pub program_id: Pubkey,
    pub accounts: Vec<Pubkey>,
    pub data: Vec<u8>,
}

/// The fixed 8-byte tag that opens every repayment instruction's payload.
pub open spec fn spec_repay_discriminator() -> Seq<u8> {
    seq![0xeau8, 0x67u8, 0x43u8, 0x52u8, 0xd0u8, 0xeau8, 0xdbu8, 0xa6u8]
}

/// The fixed 8-byte tag that opens every borrow instruction's payload;
/// the borrowed amount follows it in little-endian bytes.
pub open spec fn spec_borrow_discriminator() -> Seq<u8> {
    seq![0xe4u8, 0xfdu8, 0x83u8, 0xcau8, 0xcfu8, 0x74u8, 0x59u8, 0x12u8]
}

/// The payload of a borrow instruction for `amount`.
pub open spec fn spec_borrow_data(amount: u64) -> Seq<u8> {
    spec_borrow_discriminator() + vstd::bytes::spec_u64_to_le_bytes(amount)
}

/// Builds the payload of a borrow instruction for `amount`.
pub fn borrow_instruction_data(amount: u64) -> (r: Vec<u8>)
    ensures
        r@ == spec_borrow_data(amount),
{
    let mut r: Vec<u8> = vec![0xe4u8, 0xfdu8, 0x83u8, 0xcau8, 0xcfu8, 0x74u8, 0x59u8, 0x12u8];
    let mut amount_bytes = vstd::bytes::u64_to_le_bytes(amount);
    r.append(&mut amount_bytes);
    assert(r@ =~= spec_borrow_data(amount));
    r
}

/// Builds the payload of a repayment instruction.
pub fn repay_instruction_data() -> (r: Vec<u8>)
    ensures
        r@ == spec_repay_discriminator(),
{
    let r: Vec<u8> = vec![0xeau8, 0x67u8, 0x43u8, 0x52u8, 0xd0u8, 0xeau8, 0xdbu8, 0xa6u8];
    assert(r@ =~= spec_repay_discriminator());
    r
}

/// Where a repayment instruction references the borrower's token account.
pub const REPAY_BORROWER_ATA_POSITION: usize = 3;

/// Where a repayment instruction references the pool's token account.
pub const REPAY_PROTOCOL_ATA_POSITION: usize = 4;

/// The flash-loan fee owed on `amount`, refused outright when the repay
/// total `amount + fee` would leave the 64-bit range.
pub open spec fn spec_fee_checked(amount: u64) -> Result<u64, ProgramError> {
    if amount + spec_fee(amount) > u64::MAX {
        Err(ProgramError::ArithmeticOverflow)
    } else {
        Ok(spec_fee(amount) as u64)
    }
}

/// Computes the flash-loan fee on a borrowed amount — a flat 500 basis
/// points, truncated — failing with an overflow error whenever the repay
/// total could not be formed.
pub fn fee(amount: u64) -> (r: Result<u64, ProgramError>)
    ensures
        r == spec_fee_checked(amount),
{
    proof {
        assert((amount as int) * (FEE_BASIS_POINTS as int) / 10000 <= amount as int) by (
        nonlinear_arith);
        assert((amount as int) * (FEE_BASIS_POINTS as int) / 10000 >= 0) by (nonlinear_arith);
    }
    let f = fee_floor(amount);
    if u64::MAX - amount < f {
        Err(ProgramError::ArithmeticOverflow)
    } else {
        Ok(f)
    }
}

/// The total owed back on a borrowed amount: the amount plus its fee.
pub open spec fn spec_repay_total(amount: u64) -> Result<u64, ProgramError> {
    match spec_fee_checked(amount) {
        Err(e) => Err(e),
        Ok(f) => Ok((amount + f) as u64),
    }
}

/// Computes the total owed back on a borrowed amount, failing with an
/// overflow error rather than wrapping.
pub fn repay_total(amount: u64) -> (r: Result<u64, ProgramError>)
    ensures
        r == spec_repay_total(amount),
{
    match fee(amount) {
        Err(e) => Err(e),
        Ok(f) => Ok(amount + f),
    }
}

/// Whether `ix` is a well-formed repayment closing a loan of these
/// accounts: it targets this program, opens with the repayment tag, and
/// references the same borrower and pool token accounts at their fixed
/// positions.
pub open spec fn spec_repay_ix_matches(
    ix: InstructionView,
    borrower_ata_key: Pubkey,
    pool_ata_key: Pubkey,
) -> bool {
    &&& ix.program_id == spec_program_id()
    &&& ix.data@.len() >= 8
    &&& ix.data@.subrange(0, 8) == spec_repay_discriminator()
    &&& ix.accounts@.len() > REPAY_BORROWER_ATA_POSITION
    &&& ix.accounts@[REPAY_BORROWER_ATA_POSITION as int] == borrower_ata_key
    &&& ix.accounts@.len() > REPAY_PROTOCOL_ATA_POSITION
    &&& ix.accounts@[REPAY_PROTOCOL_ATA_POSITION as int] == pool_ata_key
}

/// What `Borrow` does: with a positive amount, standing first in its
/// transaction whose final instruction is a matching repayment, it moves
/// the amount from the pool to the borrower under the pool's derived
/// authority; on any failed check nothing moves and the whole transaction
/// is discarded by the runtime.
pub open spec fn spec_borrow(
    pool_ata: TokenAccountState,
    borrower_ata: TokenAccountState,
    protocol_key: Pubkey,
    borrower_ata_key: Pubkey,
    pool_ata_key: Pubkey,
    borrow_amount: u64,
    current_index: u16,
    instructions: Seq<InstructionView>,
) -> Result<(TokenAccountState, TokenAccountState), ProgramError> {
    if spec_protocol_address() is None || (spec_protocol_address() matches Some((kb, _))
        && kb != protocol_key.bytes()) {
        Err(ProgramError::InvalidSeeds)
    } else if borrow_amount == 0 {
        Err(ProgramError::InvalidAmount)
    } else if current_index != 0 {
        Err(ProgramError::InvalidInstructionPosition)
    } else if instructions.len() == 0 {
        Err(ProgramError::MissingRepayInstruction)
    } else {
        let last = instructions[instructions.len() - 1];
        if last.program_id != spec_program_id() {
            Err(ProgramError::InvalidProgram)
        } else if !(last.data@.len() >= 8 && last.data@.subrange(0, 8)
            == spec_repay_discriminator()) {
            Err(ProgramError::InvalidInstructionPosition)
        } else if !(last.accounts@.len() > REPAY_BORROWER_ATA_POSITION && last.accounts@[
            REPAY_BORROWER_ATA_POSITION as int
        ] == borrower_ata_key) {
            Err(ProgramError::InvalidBorrowerAta)
        } else if !(last.accounts@.len() > REPAY_PROTOCOL_ATA_POSITION && last.accounts@[
            REPAY_PROTOCOL_ATA_POSITION as int
        ] == pool_ata_key) {
            Err(ProgramError::InvalidProtocolAta)
        } else {
            match spec_transfer_check(pool_ata, borrower_ata, protocol_key, true, borrow_amount) {
                Err(e) => Err(e),
                Ok(()) => Ok(
                    (
                        TokenAccountState {
                            amount: (pool_ata.amount - borrow_amount) as u64,
                            ..pool_ata
                        },
                        TokenAccountState {
                            amount: (borrower_ata.amount + borrow_amount) as u64,
                            ..borrower_ata
                        },
                    ),
                ),
            }
        }
    }
}

/// The amount the transaction's opening borrow instruction carries in its
/// payload, read at the fixed offset.
pub open spec fn spec_read_borrow_amount(instructions: Seq<InstructionView>) -> Result<
    u64,
    ProgramError,
> {
    if instructions.len() == 0 {
        Err(ProgramError::MissingBorrowInstruction)
    } else if instructions[0].data@.len() < 16 {
        Err(ProgramError::MissingBorrowInstruction)
    } else {
        Ok(spec_u64_from_le_bytes(instructions[0].data@.subrange(8, 16)))
    }
}

/// Reads the borrowed amount back out of the transaction's first
/// instruction.
pub fn read_borrow_amount(instructions: &Vec<InstructionView>) -> (r: Result<u64, ProgramError>)
    ensures
        r == spec_read_borrow_amount(instructions@),
{
    if instructions.len() == 0 {
        return Err(ProgramError::MissingBorrowInstruction);
    }
    let first = &instructions[0];
    if first.data.len() < 16 {
        return Err(ProgramError::MissingBorrowInstruction);
    }
    Ok(u64_from_le_bytes(slice_subrange(first.data.as_slice(), 8, 16)))
}

/// What `Repay` does: reads the borrowed amount from the transaction's
/// first instruction, adds the fee, and moves the total from the borrower
/// back to the pool under the borrower's own signature.
pub open spec fn spec_repay(
    pool_ata: TokenAccountState,
    borrower_ata: TokenAccountState,
    borrower_key: Pubkey,
    borrower_signed: bool,
    instructions: Seq<InstructionView>,
) -> Result<(TokenAccountState, TokenAccountState), ProgramError> {
    if !borrower_signed {
        Err(ProgramError::MissingRequiredSignature)
    } else {
        match spec_read_borrow_amount(instructions) {
            Err(e) => Err(e),
            Ok(amount) => match spec_repay_total(amount) {
                Err(e) => Err(e),
                Ok(total) => match spec_transfer_check(
                    borrower_ata,
                    pool_ata,
                    borrower_key,
                    true,
                    total,
                ) {
                    Err(e) => Err(e),
                    Ok(()) => Ok(
                        (
                            TokenAccountState { amount: (pool_ata.amount + total) as u64, ..pool_ata },
                            TokenAccountState {
                                amount: (borrower_ata.amount - total) as u64,
                                ..borrower_ata
                            },
                        ),
                    ),
                },
            },
        }
    }
}

/// Lends `borrow_amount` from the pool to the borrower, enforcing that
/// this call opens its transaction and that the same transaction closes
/// with a repayment referencing the same two token accounts.
pub fn borrow(
    pool_ata: &mut TokenAccountState,
    borrower_ata: &mut TokenAccountState,
    protocol: &Pubkey,
    borrower_ata_key: &Pubkey,
    pool_ata_key: &Pubkey,
    borrow_amount: u64,
    current_index: u16,
    instructions: &Vec<InstructionView>,
) -> (r: Result<(), ProgramError>)
    ensures
        match spec_borrow(
            *old(pool_ata),
            *old(borrower_ata),
            *protocol,
            *borrower_ata_key,
            *pool_ata_key,
            borrow_amount,
            current_index,
            instructions@,
        ) {
            Ok(post) => r is Ok && *final(pool_ata) == post.0 && *final(borrower_ata) == post.1,
            Err(e) => r == Err::<(), ProgramError>(e) && *final(pool_ata) == *old(pool_ata)
                && *final(borrower_ata) == *old(borrower_ata),
        },
{
    match derive_protocol_address() {
        None => {
            return Err(ProgramError::InvalidSeeds);
        },
        Some((key, _bump)) => {
            proof {
                Pubkey::lemma_bytes_injective(key, *protocol);
            }
            if key != *protocol {
                return Err(ProgramError::InvalidSeeds);
            }
        },
    }
    if borrow_amount == 0 {
        return Err(ProgramError::InvalidAmount);
    }
    if current_index != 0 {
        return Err(ProgramError::InvalidInstructionPosition);
    }
    if instructions.len() == 0 {
        return Err(ProgramError::MissingRepayInstruction);
    }
    let last = &instructions[instructions.len() - 1];
    check_repay_instruction(last, borrower_ata_key, pool_ata_key)?;
    token_transfer(pool_ata, borrower_ata, protocol, true, borrow_amount)
}

/// The error a repayment instruction that fails to match reports, check
/// by check: right program, right leading tag, right borrower account,
/// right pool account.
pub open spec fn spec_repay_ix_err(
    ix: InstructionView,
    borrower_ata_key: Pubkey,
    pool_ata_key: Pubkey,
) -> ProgramError {
    if ix.program_id != spec_program_id() {
        ProgramError::InvalidProgram
    } else if !(ix.data@.len() >= 8 && ix.data@.subrange(0, 8) == spec_repay_discriminator()) {
        ProgramError::InvalidInstructionPosition
    } else if !(ix.accounts@.len() > REPAY_BORROWER_ATA_POSITION && ix.accounts@[
        REPAY_BORROWER_ATA_POSITION as int
    ] == borrower_ata_key) {
        ProgramError::InvalidBorrowerAta
    } else {
        ProgramError::InvalidProtocolAta
    }
}

/// Validates the repayment instruction that must close a borrowing
/// transaction: it targets this program, opens with the repayment tag,
/// and references the same borrower and pool token accounts at their
/// fixed positions.
pub fn check_repay_instruction(
    ix: &InstructionView,
    borrower_ata_key: &Pubkey,
    pool_ata_key: &Pubkey,
) -> (r: Result<(), ProgramError>)
    ensures
        r is Ok <==> spec_repay_ix_matches(*ix, *borrower_ata_key, *pool_ata_key),
        r matches Err(e) ==> e == spec_repay_ix_err(*ix, *borrower_ata_key, *pool_ata_key),
{
    if ix.program_id != crate::keys::program_id() {
        return Err(ProgramError::InvalidProgram);
    }
    if ix.data.len() < 8 {
        return Err(ProgramError::InvalidInstructionPosition);
    }
    let tag = slice_subrange(ix.data.as_slice(), 0, 8);
    let expected_tag = repay_instruction_data();
    if !slices_equal_8(tag, expected_tag.as_slice()) {
        return Err(ProgramError::InvalidInstructionPosition);
    }
    if ix.accounts.len() <= REPAY_BORROWER_ATA_POSITION {
        return Err(ProgramError::InvalidBorrowerAta);
    }
    if ix.accounts[REPAY_BORROWER_ATA_POSITION] != *borrower_ata_key {
        return Err(ProgramError::InvalidBorrowerAta);
    }
    if ix.accounts.len() <= REPAY_PROTOCOL_ATA_POSITION {
        return Err(ProgramError::InvalidProtocolAta);
    }
    if ix.accounts[REPAY_PROTOCOL_ATA_POSITION] != *pool_ata_key {
        return Err(ProgramError::InvalidProtocolAta);
    }
    Ok(())
}

/// Compares two 8-byte slices.
fn slices_equal_8(a: &[u8], b: &[u8]) -> (r: bool)
    requires
        a@.len() == 8,
        b@.len() == 8,
    ensures
        r == (a@ == b@),
{
    let mut i: usize = 0;
    while i < 8
        invariant
            i <= 8,
            a@.len() == 8,
            b@.len() == 8,
            forall|j: int| 0 <= j < i ==> a@[j] == b@[j],
        decreases 8 - i,
    {
        if *vstd::slice::slice_index_get(a, i) != *vstd::slice::slice_index_get(b, i) {
            assert(a@ != b@);
            return false;
        }
        i = i + 1;
    }
    proof {
        assert(a@ =~= b@);
    }
    true
}

/// Repays the transaction's opening loan: reads the borrowed amount from
/// the first instruction's payload, adds the fee, and returns the total
/// to the pool under the borrower's signature.
pub fn repay(
    pool_ata: &mut TokenAccountState,
    borrower_ata: &mut TokenAccountState,
    borrower: &AccountView,
    instructions: &Vec<InstructionView>,
) -> (r: Result<(), ProgramError>)
    ensures
        match spec_repay(
            *old(pool_ata),
            *old(borrower_ata),
            borrower.key,
            borrower.is_signer,
            instructions@,
        ) {
            Ok(post) => r is Ok && *final(pool_ata) == post.0 && *final(borrower_ata) == post.1,
            Err(e) => r == Err::<(), ProgramError>(e) && *final(pool_ata) == *old(pool_ata)
                && *final(borrower_ata) == *old(borrower_ata),
        },
{
    SignerAccount::check(borrower)?;
    let amount = match read_borrow_amount(instructions) {
        Err(e) => {
            return Err(e);
        },
        Ok(a) => a,
    };
    let total = match repay_total(amount) {
        Err(e) => {
            return Err(e);
        },
        Ok(t) => t,
    };
    token_transfer(borrower_ata, pool_ata, &borrower.key, true, total)
}

} // verus!
