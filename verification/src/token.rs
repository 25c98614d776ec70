use vstd::prelude::*;
use vstd::bytes::spec_u64_from_le_bytes;
use vstd::bytes::u64_from_le_bytes;
use vstd::slice::slice_subrange;
use crate::keys::Pubkey;
use crate::keys::spec_program_id;
use crate::errors::ProgramError;
use crate::pda::pda_create;
use crate::pda::spec_escrow_seeds;
use crate::pda::reconstruct_escrow_address;

verus! {

/// The token subsystem's view of one custody account: which asset it
/// holds, which authority may move that asset, and how much is held.
#[derive(Clone, Copy, PartialEq, Eq, Structural, Debug)]
pub struct TokenAccountState {
    pub mint: Pubkey,
    pub owner: Pubkey,
    pub amount: u64,
}

impl TokenAccountState {
    /// Reads a custody account's asset, authority and balance from its
    /// stored bytes: asset at 0..32, authority at 32..64, balance at
    /// 64..72 little-endian, total length exactly 165.
    pub fn from_bytes(bytes: &[u8]) -> (r: Result<TokenAccountState, ProgramError>)
        ensures
            bytes@.len() == crate::accounts::TOKEN_ACCOUNT_LEN ==> (r matches Ok(t) && t
                == (TokenAccountState {
                mint: crate::keys::pubkey_of_bytes(bytes@.subrange(0, 32)),
                owner: crate::keys::pubkey_of_bytes(bytes@.subrange(32, 64)),
                amount: spec_u64_from_le_bytes(bytes@.subrange(64, 72)),
            })),
            bytes@.len() != crate::accounts::TOKEN_ACCOUNT_LEN ==> r == Err::<
                TokenAccountState,
                ProgramError,
            >(ProgramError::InvalidAccountData),
    {
        if bytes.len() != crate::accounts::TOKEN_ACCOUNT_LEN {
            return Err(ProgramError::InvalidAccountData);
        }
        let mint = Pubkey::from_bytes(slice_subrange(bytes, 0, 32));
        let owner = Pubkey::from_bytes(slice_subrange(bytes, 32, 64));
        let amount = u64_from_le_bytes(slice_subrange(bytes, 64, 72));
        proof {
            crate::keys::lemma_pubkey_of_bytes_roundtrip(mint);
            crate::keys::lemma_pubkey_of_bytes_roundtrip(owner);
        }
        Ok(TokenAccountState { mint, owner, amount })
    }
}

/// A call-scoped right to move funds as a derived address. Produced only
/// by replaying the derivation seeds and proof byte; never stored,
/// serialized or transmitted.
pub struct SignerCapability {
    pub address: Pubkey,
}

/// Proves authority over one offer's derived address by re-deriving it
/// from the namespace seeds and the recorded proof byte and comparing it
/// with the address actually being spent from. This is the sole check
/// binding an offer record to its vault, so every spending instruction
/// performs it.
pub fn reconstruct_and_sign(maker: &Pubkey, seed: u64, bump: u8, expected: &Pubkey) -> (r: Result<
    SignerCapability,
    ProgramError,
>)
    ensures
        r is Ok <==> pda_create(
            spec_escrow_seeds(*maker, seed).push(seq![bump]),
            spec_program_id().bytes(),
        ) == Some(expected.bytes()),
        r matches Ok(cap) ==> cap.address == *expected,
        r matches Err(e) ==> e == ProgramError::InvalidAccountOwner,
{
    match reconstruct_escrow_address(maker, seed, bump) {
        Some(key) => {
            proof {
                Pubkey::lemma_bytes_injective(key, *expected);
            }
            if key == *expected {
                Ok(SignerCapability { address: key })
            } else {
                Err(ProgramError::InvalidAccountOwner)
            }
        },
        None => Err(ProgramError::InvalidAccountOwner),
    }
}

/// Whether a transfer of `amount` from `from` to `to`, authorized by
/// `authority_key` (which has `signed`), is accepted by the token
/// subsystem — and if not, which error it reports, in the order the
/// checks run: authority signature, custody ownership, matching asset,
/// sufficient balance, and a destination balance that stays in range.
pub open spec fn spec_transfer_check(
    from: TokenAccountState,
    to: TokenAccountState,
    authority_key: Pubkey,
    signed: bool,
    amount: u64,
) -> Result<(), ProgramError> {
    if !signed {
        Err(ProgramError::MissingRequiredSignature)
    } else if from.owner != authority_key {
        Err(ProgramError::IllegalOwner)
    } else if from.mint != to.mint {
        Err(ProgramError::InvalidAccountData)
    } else if from.amount < amount {
        Err(ProgramError::InsufficientFunds)
    } else if to.amount + amount > u64::MAX {
        Err(ProgramError::ArithmeticOverflow)
    } else {
        Ok(())
    }
}

/// Runs the token subsystem's transfer checks without moving anything.
pub fn check_transfer(
    from: &TokenAccountState,
    to: &TokenAccountState,
    authority_key: &Pubkey,
    signed: bool,
    amount: u64,
) -> (r: Result<(), ProgramError>)
    ensures
        r == spec_transfer_check(*from, *to, *authority_key, signed, amount),
{
    if !signed {
        Err(ProgramError::MissingRequiredSignature)
    } else if from.owner != *authority_key {
        Err(ProgramError::IllegalOwner)
    } else if from.mint != to.mint {
        Err(ProgramError::InvalidAccountData)
    } else if from.amount < amount {
        Err(ProgramError::InsufficientFunds)
    } else if u64::MAX - to.amount < amount {
        Err(ProgramError::ArithmeticOverflow)
    } else {
        Ok(())
    }
}

/// Models the token subsystem's `transfer(from, to, authority, amount)`
/// for an ordinary signing authority: debits `from` and credits `to` by
/// exactly `amount` when every check passes, and changes nothing
/// otherwise.
pub fn token_transfer(
    from: &mut TokenAccountState,
    to: &mut TokenAccountState,
    authority_key: &Pubkey,
    signed: bool,
    amount: u64,
) -> (r: Result<(), ProgramError>)
    ensures
        r is Ok <==> spec_transfer_check(*old(from), *old(to), *authority_key, signed, amount)
            is Ok,
        r matches Err(e) ==> Err::<(), ProgramError>(e) == spec_transfer_check(
            *old(from),
            *old(to),
            *authority_key,
            signed,
            amount,
        ) && *final(from) == *old(from) && *final(to) == *old(to),
        r is Ok ==> *final(from) == (TokenAccountState {
            amount: (old(from).amount - amount) as u64,
            ..*old(from)
        }) && *final(to) == (TokenAccountState {
            amount: (old(to).amount + amount) as u64,
            ..*old(to)
        }),
{
    check_transfer(from, to, authority_key, signed, amount)?;
    from.amount = from.amount - amount;
    to.amount = to.amount + amount;
    Ok(())
}

/// Models the same transfer authorized by a derived-address capability
/// instead of a private-key signature.
pub fn token_transfer_signed(
    from: &mut TokenAccountState,
    to: &mut TokenAccountState,
    capability: &SignerCapability,
    amount: u64,
) -> (r: Result<(), ProgramError>)
    ensures
        r is Ok <==> spec_transfer_check(*old(from), *old(to), capability.address, true, amount)
            is Ok,
        r matches Err(e) ==> Err::<(), ProgramError>(e) == spec_transfer_check(
            *old(from),
            *old(to),
            capability.address,
            true,
            amount,
        ) && *final(from) == *old(from) && *final(to) == *old(to),
        r is Ok ==> *final(from) == (TokenAccountState {
            amount: (old(from).amount - amount) as u64,
            ..*old(from)
        }) && *final(to) == (TokenAccountState {
            amount: (old(to).amount + amount) as u64,
            ..*old(to)
        }),
{
    token_transfer(from, to, &capability.address, true, amount)
}

/// Models the token subsystem's `close_custody_account`: consumes an
/// emptied custody account under its authority's capability. Its reclaim
/// value goes to the destination chosen by the caller, which this model
/// does not track.
pub fn token_close_signed(account: TokenAccountState, capability: &SignerCapability) -> (r: Result<
    (),
    ProgramError,
>)
    ensures
        r is Ok <==> account.owner == capability.address && account.amount == 0,
        r matches Err(e) ==> e == if account.owner != capability.address {
            ProgramError::IllegalOwner
        } else {
            ProgramError::InvalidAccountData
        },
{
    if account.owner != capability.address {
        return Err(ProgramError::IllegalOwner);
    }
    if account.amount != 0 {
        return Err(ProgramError::InvalidAccountData);
    }
    Ok(())
}

} // verus!
