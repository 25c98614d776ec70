use vstd::prelude::*;
use vstd::bytes::spec_u64_from_le_bytes;
use vstd::bytes::u64_from_le_bytes;
use vstd::slice::slice_subrange;
use crate::errors::ProgramError;
use crate::accounts::AccountView;
use crate::accounts::SignerAccount;
use crate::accounts::MintInterface;
use crate::accounts::ProgramAccount;
use crate::accounts::AssociatedTokenAccount;
use crate::accounts::spec_mint_interface_ok;
use crate::accounts::spec_mint_interface_err;
use crate::accounts::spec_program_account_ok;
use crate::accounts::spec_program_account_err;
use crate::accounts::spec_ata_ok;
use crate::accounts::spec_ata_err;

verus! {

/// The instruction tag that routes to `Make`.
pub const MAKE_DISCRIMINATOR: u8 = 0;

/// The instruction tag that routes to `Take`.
pub const TAKE_DISCRIMINATOR: u8 = 1;

/// The instruction tag that routes to `Refund`.
pub const REFUND_DISCRIMINATOR: u8 = 2;

/// The arguments `Make` carries in its payload.
#[derive(Clone, Copy, PartialEq, Eq, Structural, Debug)]
pub struct MakeInstructionData {
    pub seed: u64,
    pub receive: u64,
    pub amount: u64,
}

/// What parsing a `Make` payload yields: exactly 24 little-endian bytes —
/// seed, receive amount, deposit amount — with a zero deposit rejected.
pub open spec fn spec_make_data(data: Seq<u8>) -> Result<MakeInstructionData, ProgramError> {
    if data.len() != 24 {
        Err(ProgramError::InvalidInstructionData)
    } else {
        let d = MakeInstructionData {
            seed: spec_u64_from_le_bytes(data.subrange(0, 8)),
            receive: spec_u64_from_le_bytes(data.subrange(8, 16)),
            amount: spec_u64_from_le_bytes(data.subrange(16, 24)),
        };
        if d.amount == 0 {
            Err(ProgramError::InvalidInstructionData)
        } else {
            Ok(d)
        }
    }
}

impl MakeInstructionData {
    /// Parses a `Make` payload, rejecting any other length and a zero
    /// deposit amount.
    pub fn try_from(data: &[u8]) -> (r: Result<MakeInstructionData, ProgramError>)
        ensures
            r == spec_make_data(data@),
    {
        if data.len() != 24 {
            return Err(ProgramError::InvalidInstructionData);
        }
        let seed = u64_from_le_bytes(slice_subrange(data, 0, 8));
        let receive = u64_from_le_bytes(slice_subrange(data, 8, 16));
        let amount = u64_from_le_bytes(slice_subrange(data, 16, 24));
        if amount == 0 {
            return Err(ProgramError::InvalidInstructionData);
        }
        Ok(MakeInstructionData { seed, receive, amount })
    }
}

/// One instruction of this program, as the dispatcher routes it.
#[derive(Clone, Copy, PartialEq, Eq, Structural, Debug)]
pub enum EscrowInstruction {
    Make(MakeInstructionData),
    Take,
    Refund,
}

/// What the dispatcher yields for raw instruction bytes: the leading tag
/// byte picks the handler, and `Make`'s arguments follow it.
pub open spec fn spec_parse_instruction(data: Seq<u8>) -> Result<EscrowInstruction, ProgramError> {
    if data.len() == 0 {
        Err(ProgramError::InvalidInstructionData)
    } else if data[0] == MAKE_DISCRIMINATOR {
        match spec_make_data(data.subrange(1, data.len() as int)) {
            Ok(d) => Ok(EscrowInstruction::Make(d)),
            Err(e) => Err(e),
        }
    } else if data[0] == TAKE_DISCRIMINATOR {
        Ok(EscrowInstruction::Take)
    } else if data[0] == REFUND_DISCRIMINATOR {
        Ok(EscrowInstruction::Refund)
    } else {
        Err(ProgramError::InvalidInstructionData)
    }
}

/// Routes raw instruction bytes to the handler they name.
pub fn parse_instruction(data: &[u8]) -> (r: Result<EscrowInstruction, ProgramError>)
    ensures
        r == spec_parse_instruction(data@),
{
    if data.len() == 0 {
        return Err(ProgramError::InvalidInstructionData);
    }
    let tag = *vstd::slice::slice_index_get(data, 0);
    if tag == MAKE_DISCRIMINATOR {
        let rest = slice_subrange(data, 1, data.len());
        match MakeInstructionData::try_from(rest) {
            Ok(d) => Ok(EscrowInstruction::Make(d)),
            Err(e) => Err(e),
        }
    } else if tag == TAKE_DISCRIMINATOR {
        Ok(EscrowInstruction::Take)
    } else if tag == REFUND_DISCRIMINATOR {
        Ok(EscrowInstruction::Refund)
    } else {
        Err(ProgramError::InvalidInstructionData)
    }
}

/// The accounts `Make` works on, in the order the caller supplies them.
pub struct MakeAccounts {
    pub maker: AccountView,
    pub escrow: AccountView,
    pub mint_a: AccountView,
    pub mint_b: AccountView,
    pub maker_ata_a: AccountView,
    pub vault: AccountView,
    pub system_program: AccountView,
    pub token_program: AccountView,
}

/// What validating `Make`'s account list yields: nine accounts, a signing
/// maker, two well-formed asset descriptors, and the maker's canonical
/// source account for the deposited asset.
pub open spec fn spec_make_accounts_check(accounts: Seq<AccountView>) -> Result<
    (),
    ProgramError,
> {
    if accounts.len() != 9 {
        Err(ProgramError::NotEnoughAccountKeys)
    } else if !accounts[0].is_signer {
        Err(ProgramError::MissingRequiredSignature)
    } else if !spec_mint_interface_ok(accounts[2]) {
        Err(spec_mint_interface_err(accounts[2]))
    } else if !spec_mint_interface_ok(accounts[3]) {
        Err(spec_mint_interface_err(accounts[3]))
    } else if !spec_ata_ok(accounts[4], accounts[0].key, accounts[2].key, accounts[7].key) {
        Err(spec_ata_err(accounts[4], accounts[0].key, accounts[2].key, accounts[7].key))
    } else {
        Ok(())
    }
}

impl MakeAccounts {
    /// Validates and takes ownership of `Make`'s account list.
    pub fn try_from(accounts: Vec<AccountView>) -> (r: Result<MakeAccounts, ProgramError>)
        ensures
            match spec_make_accounts_check(accounts@) {
                Ok(()) => r matches Ok(a) && a.maker == accounts@[0] && a.escrow == accounts@[1]
                    && a.mint_a == accounts@[2] && a.mint_b == accounts@[3] && a.maker_ata_a
                    == accounts@[4] && a.vault == accounts@[5] && a.system_program == accounts@[6]
                    && a.token_program == accounts@[7],
                Err(e) => r matches Err(e2) && e2 == e,
            },
    {
        if accounts.len() != 9 {
            return Err(ProgramError::NotEnoughAccountKeys);
        }
        let mut accounts = accounts;
        let _remaining = accounts.pop().unwrap();
        let token_program = accounts.pop().unwrap();
        let system_program = accounts.pop().unwrap();
        let vault = accounts.pop().unwrap();
        let maker_ata_a = accounts.pop().unwrap();
        let mint_b = accounts.pop().unwrap();
        let mint_a = accounts.pop().unwrap();
        let escrow = accounts.pop().unwrap();
        let maker = accounts.pop().unwrap();
        SignerAccount::check(&maker)?;
        MintInterface::check(&mint_a)?;
        MintInterface::check(&mint_b)?;
        AssociatedTokenAccount::check(&maker_ata_a, &maker, &mint_a, &token_program)?;
        Ok(
            MakeAccounts {
                maker,
                escrow,
                mint_a,
                mint_b,
                maker_ata_a,
                vault,
                system_program,
                token_program,
            },
        )
    }
}

/// The accounts `Take` works on, in the order the caller supplies them.
pub struct TakeAccounts {
    pub taker: AccountView,
    pub maker: AccountView,
    pub escrow: AccountView,
    pub mint_a: AccountView,
    pub mint_b: AccountView,
    pub vault: AccountView,
    pub taker_ata_a: AccountView,
    pub taker_ata_b: AccountView,
    pub maker_ata_b: AccountView,
    pub system_program: AccountView,
    pub token_program: AccountView,
}

/// What validating `Take`'s account list yields: twelve accounts, a
/// signing taker, a well-shaped offer record, two asset descriptors, the
/// taker's canonical source account for the requested asset, and the
/// record's canonical vault for the deposited asset.
pub open spec fn spec_take_accounts_check(accounts: Seq<AccountView>) -> Result<
    (),
    ProgramError,
> {
    if accounts.len() != 12 {
        Err(ProgramError::NotEnoughAccountKeys)
    } else if !accounts[0].is_signer {
        Err(ProgramError::MissingRequiredSignature)
    } else if !spec_program_account_ok(accounts[2]) {
        Err(spec_program_account_err(accounts[2]))
    } else if !spec_mint_interface_ok(accounts[3]) {
        Err(spec_mint_interface_err(accounts[3]))
    } else if !spec_mint_interface_ok(accounts[4]) {
        Err(spec_mint_interface_err(accounts[4]))
    } else if !spec_ata_ok(accounts[7], accounts[0].key, accounts[4].key, accounts[10].key) {
        Err(spec_ata_err(accounts[7], accounts[0].key, accounts[4].key, accounts[10].key))
    } else if !spec_ata_ok(accounts[5], accounts[2].key, accounts[3].key, accounts[10].key) {
        Err(spec_ata_err(accounts[5], accounts[2].key, accounts[3].key, accounts[10].key))
    } else {
        Ok(())
    }
}

impl TakeAccounts {
    /// Validates and takes ownership of `Take`'s account list.
    pub fn try_from(accounts: Vec<AccountView>) -> (r: Result<TakeAccounts, ProgramError>)
        ensures
            match spec_take_accounts_check(accounts@) {
                Ok(()) => r matches Ok(a) && a.taker == accounts@[0] && a.maker == accounts@[1]
                    && a.escrow == accounts@[2] && a.mint_a == accounts@[3] && a.mint_b
                    == accounts@[4] && a.vault == accounts@[5] && a.taker_ata_a == accounts@[6]
                    && a.taker_ata_b == accounts@[7] && a.maker_ata_b == accounts@[8]
                    && a.system_program == accounts@[9] && a.token_program == accounts@[10],
                Err(e) => r matches Err(e2) && e2 == e,
            },
    {
        if accounts.len() != 12 {
            return Err(ProgramError::NotEnoughAccountKeys);
        }
        let mut accounts = accounts;
        let _remaining = accounts.pop().unwrap();
        let token_program = accounts.pop().unwrap();
        let system_program = accounts.pop().unwrap();
        let maker_ata_b = accounts.pop().unwrap();
        let taker_ata_b = accounts.pop().unwrap();
        let taker_ata_a = accounts.pop().unwrap();
        let vault = accounts.pop().unwrap();
        let mint_b = accounts.pop().unwrap();
        let mint_a = accounts.pop().unwrap();
        let escrow = accounts.pop().unwrap();
        let maker = accounts.pop().unwrap();
        let taker = accounts.pop().unwrap();
        SignerAccount::check(&taker)?;
        ProgramAccount::check(&escrow)?;
        MintInterface::check(&mint_a)?;
        MintInterface::check(&mint_b)?;
        AssociatedTokenAccount::check(&taker_ata_b, &taker, &mint_b, &token_program)?;
        AssociatedTokenAccount::check(&vault, &escrow, &mint_a, &token_program)?;
        Ok(
            TakeAccounts {
                taker,
                maker,
                escrow,
                mint_a,
                mint_b,
                vault,
                taker_ata_a,
                taker_ata_b,
                maker_ata_b,
                system_program,
                token_program,
            },
        )
    }
}

/// The accounts `Refund` works on, in the order the caller supplies them.
pub struct RefundAccounts {
    pub maker: AccountView,
    pub escrow: AccountView,
    pub mint_a: AccountView,
    pub vault: AccountView,
    pub maker_ata_a: AccountView,
    pub system_program: AccountView,
    pub token_program: AccountView,
}

/// What validating `Refund`'s account list yields: eight accounts, a
/// signing maker, a well-shaped offer record, and a well-formed asset
/// descriptor.
pub open spec fn spec_refund_accounts_check(accounts: Seq<AccountView>) -> Result<
    (),
    ProgramError,
> {
    if accounts.len() != 8 {
        Err(ProgramError::NotEnoughAccountKeys)
    } else if !accounts[0].is_signer {
        Err(ProgramError::MissingRequiredSignature)
    } else if !spec_program_account_ok(accounts[1]) {
        Err(spec_program_account_err(accounts[1]))
    } else if !spec_mint_interface_ok(accounts[2]) {
        Err(spec_mint_interface_err(accounts[2]))
    } else {
        Ok(())
    }
}

impl RefundAccounts {
    /// Validates and takes ownership of `Refund`'s account list.
    pub fn try_from(accounts: Vec<AccountView>) -> (r: Result<RefundAccounts, ProgramError>)
        ensures
            match spec_refund_accounts_check(accounts@) {
                Ok(()) => r matches Ok(a) && a.maker == accounts@[0] && a.escrow == accounts@[1]
                    && a.mint_a == accounts@[2] && a.vault == accounts@[3] && a.maker_ata_a
                    == accounts@[4] && a.system_program == accounts@[5] && a.token_program
                    == accounts@[6],
                Err(e) => r matches Err(e2) && e2 == e,
            },
    {
        if accounts.len() != 8 {
            return Err(ProgramError::NotEnoughAccountKeys);
        }
        let mut accounts = accounts;
        let _remaining = accounts.pop().unwrap();
        let token_program = accounts.pop().unwrap();
        let system_program = accounts.pop().unwrap();
        let maker_ata_a = accounts.pop().unwrap();
        let vault = accounts.pop().unwrap();
        let mint_a = accounts.pop().unwrap();
        let escrow = accounts.pop().unwrap();
        let maker = accounts.pop().unwrap();
        SignerAccount::check(&maker)?;
        ProgramAccount::check(&escrow)?;
        MintInterface::check(&mint_a)?;
        Ok(
            RefundAccounts {
                maker,
                escrow,
                mint_a,
                vault,
                maker_ata_a,
                system_program,
                token_program,
            },
        )
    }
}

} // verus!
