use vstd::prelude::*;
use crate::keys::Pubkey;
use crate::keys::spec_token_program_id;
use crate::keys::spec_token_2022_program_id;
use crate::keys::spec_program_id;
use crate::keys::token_program_id;
use crate::keys::token_2022_program_id;
use crate::keys::program_id;
use crate::errors::ProgramError;
use crate::errors::PinocchioError;
use crate::state::ESCROW_LEN;
use crate::pda::spec_ata_address;
use crate::pda::derive_ata_address;

verus! {

/// The stored size of an asset descriptor under the token programs.
pub const MINT_LEN: usize = 82;

/// The stored size of a plain token account under the token programs.
pub const TOKEN_ACCOUNT_LEN: usize = 165;

/// Where the extended token program keeps its account-kind byte.
pub const T22_DISCRIMINATOR_OFFSET: usize = 165;

/// The account-kind byte of an asset descriptor under the extended token
/// program.
pub const T22_MINT_DISCRIMINATOR: u8 = 1;

/// The account-kind byte of a token account under the extended token
/// program.
pub const T22_TOKEN_ACCOUNT_DISCRIMINATOR: u8 = 2;

/// One ledger account as a handler sees it: its address, the program that
/// owns it, its balance of the native unit, its stored bytes, and whether
/// it signed the enclosing transaction (the runtime has already verified
/// that signature).
pub struct AccountView {
    pub key: Pubkey,
    pub owner: Pubkey,
    pub lamports: u64,
    pub data: Vec<u8>,
    pub is_signer: bool,
}

/// Validates that an account signed the transaction.
pub struct SignerAccount;

impl SignerAccount {
    pub fn check(account: &AccountView) -> (r: Result<(), ProgramError>)
        ensures
            r == if account.is_signer {
                Ok::<(), ProgramError>(())
            } else {
                Err::<(), ProgramError>(ProgramError::MissingRequiredSignature)
            },
    {
        if !account.is_signer {
            return Err(ProgramError::from(PinocchioError::NotSigner));
        }
        Ok(())
    }
}

/// Whether `a` is an asset descriptor of the extended token program: owned
/// by it, and either exactly descriptor-sized or long enough to carry the
/// descriptor kind byte.
pub open spec fn spec_mint_2022_ok(a: AccountView) -> bool {
    &&& a.owner == spec_token_2022_program_id()
    &&& (a.data@.len() == MINT_LEN || (a.data@.len() > T22_DISCRIMINATOR_OFFSET
        && a.data@[T22_DISCRIMINATOR_OFFSET as int] == T22_MINT_DISCRIMINATOR))
}

/// Validates an asset descriptor of the extended token program.
pub struct Mint2022;

impl Mint2022 {
    pub fn check(account: &AccountView) -> (r: Result<(), ProgramError>)
        ensures
            r matches Ok(_) <==> spec_mint_2022_ok(*account),
            r matches Err(e) ==> e == if account.owner != spec_token_2022_program_id() {
                ProgramError::IllegalOwner
            } else {
                ProgramError::InvalidAccountData
            },
    {
        if account.owner != token_2022_program_id() {
            return Err(ProgramError::from(PinocchioError::InvalidOwner));
        }
        if account.data.len() != MINT_LEN {
            if account.data.len() <= T22_DISCRIMINATOR_OFFSET {
                return Err(ProgramError::from(PinocchioError::InvalidAccountData));
            }
            if account.data[T22_DISCRIMINATOR_OFFSET] != T22_MINT_DISCRIMINATOR {
                return Err(ProgramError::from(PinocchioError::InvalidAccountData));
            }
        }
        Ok(())
    }
}

/// Whether `a` is a token account of the extended token program.
pub open spec fn spec_token_2022_ok(a: AccountView) -> bool {
    &&& a.owner == spec_token_2022_program_id()
    &&& (a.data@.len() == TOKEN_ACCOUNT_LEN || (a.data@.len() > T22_DISCRIMINATOR_OFFSET
        && a.data@[T22_DISCRIMINATOR_OFFSET as int] == T22_TOKEN_ACCOUNT_DISCRIMINATOR))
}

/// Validates a token account of the extended token program.
pub struct Token2022;

impl Token2022 {
    pub fn check(account: &AccountView) -> (r: Result<(), ProgramError>)
        ensures
            r matches Ok(_) <==> spec_token_2022_ok(*account),
            r matches Err(e) ==> e == if account.owner != spec_token_2022_program_id() {
                ProgramError::IllegalOwner
            } else {
                ProgramError::InvalidAccountData
            },
    {
        if account.owner != token_2022_program_id() {
            return Err(ProgramError::from(PinocchioError::InvalidOwner));
        }
        if account.data.len() != TOKEN_ACCOUNT_LEN {
            if account.data.len() <= T22_DISCRIMINATOR_OFFSET {
                return Err(ProgramError::from(PinocchioError::InvalidAccountData));
            }
            if account.data[T22_DISCRIMINATOR_OFFSET] != T22_TOKEN_ACCOUNT_DISCRIMINATOR {
                return Err(ProgramError::from(PinocchioError::InvalidAccountData));
            }
        }
        Ok(())
    }
}

/// Whether `a` is an asset descriptor of either token program.
pub open spec fn spec_mint_interface_ok(a: AccountView) -> bool {
    ||| (a.owner == spec_token_program_id() && a.data@.len() == MINT_LEN)
    ||| spec_mint_2022_ok(a)
}

/// Validates an asset descriptor of either token program.
pub struct MintInterface;

impl MintInterface {
    pub fn check(account: &AccountView) -> (r: Result<(), ProgramError>)
        ensures
            r matches Ok(_) <==> spec_mint_interface_ok(*account),
            r matches Err(e) ==> e == if account.owner != spec_token_2022_program_id()
                && account.owner != spec_token_program_id() {
                ProgramError::IllegalOwner
            } else {
                ProgramError::InvalidAccountData
            },
    {
        if account.owner != token_2022_program_id() {
            if account.owner != token_program_id() {
                return Err(ProgramError::from(PinocchioError::InvalidOwner));
            } else if account.data.len() != MINT_LEN {
                return Err(ProgramError::from(PinocchioError::InvalidAccountData));
            }
        } else {
            if account.data.len() != MINT_LEN {
                if account.data.len() <= T22_DISCRIMINATOR_OFFSET {
                    return Err(ProgramError::from(PinocchioError::InvalidAccountData));
                }
                if account.data[T22_DISCRIMINATOR_OFFSET] != T22_MINT_DISCRIMINATOR {
                    return Err(ProgramError::from(PinocchioError::InvalidAccountData));
                }
            }
        }
        Ok(())
    }
}

/// Whether `a` is a token account of either token program.
pub open spec fn spec_token_interface_ok(a: AccountView) -> bool {
    ||| (a.owner == spec_token_program_id() && a.data@.len() == TOKEN_ACCOUNT_LEN)
    ||| spec_token_2022_ok(a)
}

/// Validates a token account of either token program.
pub struct TokenInterface;

impl TokenInterface {
    pub fn check(account: &AccountView) -> (r: Result<(), ProgramError>)
        ensures
            r matches Ok(_) <==> spec_token_interface_ok(*account),
            r matches Err(e) ==> e == if account.owner != spec_token_2022_program_id()
                && account.owner != spec_token_program_id() {
                ProgramError::IllegalOwner
            } else {
                ProgramError::InvalidAccountData
            },
    {
        if account.owner != token_2022_program_id() {
            if account.owner != token_program_id() {
                return Err(ProgramError::from(PinocchioError::InvalidOwner));
            } else if account.data.len() != TOKEN_ACCOUNT_LEN {
                return Err(ProgramError::from(PinocchioError::InvalidAccountData));
            }
        } else {
            if account.data.len() != TOKEN_ACCOUNT_LEN {
                if account.data.len() <= T22_DISCRIMINATOR_OFFSET {
                    return Err(ProgramError::from(PinocchioError::InvalidAccountData));
                }
                if account.data[T22_DISCRIMINATOR_OFFSET] != T22_TOKEN_ACCOUNT_DISCRIMINATOR {
                    return Err(ProgramError::from(PinocchioError::InvalidAccountData));
                }
            }
        }
        Ok(())
    }
}

/// Whether `a` is an offer record of this program: owned by it and exactly
/// record-sized.
pub open spec fn spec_program_account_ok(a: AccountView) -> bool {
    a.owner == spec_program_id() && a.data@.len() == ESCROW_LEN
}

/// Validates an offer-record account of this program.
pub struct ProgramAccount;

impl ProgramAccount {
    pub fn check(account: &AccountView) -> (r: Result<(), ProgramError>)
        ensures
            r matches Ok(_) <==> spec_program_account_ok(*account),
            r matches Err(e) ==> e == if account.owner != spec_program_id() {
                ProgramError::IllegalOwner
            } else {
                ProgramError::InvalidAccountData
            },
    {
        if account.owner != program_id() {
            return Err(ProgramError::from(PinocchioError::InvalidOwner));
        }
        if account.data.len() != ESCROW_LEN {
            return Err(ProgramError::from(PinocchioError::InvalidAccountData));
        }
        Ok(())
    }
}

/// The error a failed asset-descriptor validation reports.
pub open spec fn spec_mint_interface_err(a: AccountView) -> ProgramError {
    if a.owner != spec_token_2022_program_id() && a.owner != spec_token_program_id() {
        ProgramError::IllegalOwner
    } else {
        ProgramError::InvalidAccountData
    }
}

/// The error a failed token-account validation reports.
pub open spec fn spec_token_interface_err(a: AccountView) -> ProgramError {
    if a.owner != spec_token_2022_program_id() && a.owner != spec_token_program_id() {
        ProgramError::IllegalOwner
    } else {
        ProgramError::InvalidAccountData
    }
}

/// The error a failed offer-record validation reports.
pub open spec fn spec_program_account_err(a: AccountView) -> ProgramError {
    if a.owner != spec_program_id() {
        ProgramError::IllegalOwner
    } else {
        ProgramError::InvalidAccountData
    }
}

/// Whether `account` is the canonical token account of `authority` for
/// `mint` under `token_program`: shaped as a token account and standing at
/// the derived address.
pub open spec fn spec_ata_ok(
    account: AccountView,
    authority: Pubkey,
    mint: Pubkey,
    token_program: Pubkey,
) -> bool {
    &&& spec_token_interface_ok(account)
    &&& match spec_ata_address(authority, token_program, mint) {
        Some((key, _bump)) => key == account.key.bytes(),
        None => false,
    }
}

/// The error a failed canonical-token-account validation reports.
pub open spec fn spec_ata_err(
    account: AccountView,
    authority: Pubkey,
    mint: Pubkey,
    token_program: Pubkey,
) -> ProgramError {
    if !spec_token_interface_ok(account) {
        spec_token_interface_err(account)
    } else {
        ProgramError::InvalidSeeds
    }
}

/// Validates a canonical (derived-address) token account.
pub struct AssociatedTokenAccount;

impl AssociatedTokenAccount {
    pub fn check(
        account: &AccountView,
        authority: &AccountView,
        mint: &AccountView,
        token_program: &AccountView,
    ) -> (r: Result<(), ProgramError>)
        ensures
            r matches Ok(_) <==> spec_ata_ok(*account, authority.key, mint.key, token_program.key),
            r matches Err(e) ==> e == spec_ata_err(
                *account,
                authority.key,
                mint.key,
                token_program.key,
            ),
    {
        TokenInterface::check(account)?;
        match derive_ata_address(&authority.key, &token_program.key, &mint.key) {
            Some((key, _bump)) => {
                proof {
                    Pubkey::lemma_bytes_injective(key, account.key);
                }
                if key != account.key {
                    return Err(ProgramError::from(PinocchioError::InvalidAddress));
                }
                Ok(())
            },
            None => Err(ProgramError::from(PinocchioError::InvalidAddress)),
        }
    }
}

} // verus!
