//! A verified model of two ledger-native financial primitives: a two-party
//! token escrow with atomic swap and unilateral refund, and a
//! single-transaction flash loan repaid, with fee, before the borrowing
//! transaction commits.
//!
//! The custody and authority-verification protocol — how value is locked
//! under a derived program authority, how that authority is proven without
//! a private key, and how same-transaction repayment is enforced by reading
//! sibling instructions — is implemented and verified here over plain
//! values. The surrounding ledger runtime (account storage, signature
//! verification, cross-program calls) is a collaborator, reached only
//! through its interface.

pub mod accounts;
pub mod errors;
pub mod flash;
pub mod instructions;
pub mod keys;
pub mod laws;
pub mod ledger;
pub mod pda;
pub mod state;
pub mod token;

use vstd::prelude::*;

verus! {

/// Flat flash-loan fee rate, in basis points (1/10000).
pub const FEE_BASIS_POINTS: u64 = 500;

/// The fee owed on a borrowed amount: `floor(amount * 500 / 10000)`.
pub open spec fn spec_fee(amount: u64) -> int {
    amount * FEE_BASIS_POINTS / 10000
}

/// Computes the flash-loan fee for `amount` without overflow, using
/// 128-bit intermediate arithmetic.
pub fn fee_floor(amount: u64) -> (r: u64)
    requires
        amount * FEE_BASIS_POINTS / 10000 <= u64::MAX,
    ensures
        r == spec_fee(amount),
{
    ((amount as u128) * (FEE_BASIS_POINTS as u128) / 10000) as u64
}

} // verus!


