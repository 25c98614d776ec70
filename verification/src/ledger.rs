use vstd::prelude::*;
use crate::keys::Pubkey;
use crate::keys::pubkey_of_bytes;
use crate::keys::lemma_pubkey_of_bytes_roundtrip;
use crate::keys::spec_program_id;
use crate::errors::ProgramError;
use crate::state::Escrow;
use crate::accounts::AccountView;
use crate::accounts::SignerAccount;
use crate::token::TokenAccountState;
use crate::token::spec_transfer_check;
use crate::token::check_transfer;
use crate::token::token_transfer;
use crate::token::token_transfer_signed;
use crate::token::token_close_signed;
use crate::token::reconstruct_and_sign;
use crate::pda::pda_create;
use crate::pda::spec_escrow_seeds;
use crate::pda::spec_escrow_address;
use crate::pda::derive_escrow_address;

verus! {

/// One open offer as the program's persistent state holds it: the record,
/// the record's own (derived) address, and the vault custodying the
/// deposit.
#[derive(Clone, Copy, PartialEq, Eq, Structural, Debug)]
pub struct Offer {
    pub escrow_key: Pubkey,
    pub escrow: Escrow,
    pub vault: TokenAccountState,
}

/// What `Make` establishes and every open offer keeps until settled: the
/// record re-derives to its own address from its stored seeds and proof
/// byte (the sole binding between record and vault), the vault is held
/// under that derived authority in the deposited asset, the asked amount
/// is positive, and the vault is non-empty.
pub open spec fn spec_offer_wf(o: Offer) -> bool {
    &&& pda_create(
        spec_escrow_seeds(o.escrow.maker, o.escrow.seed).push(seq![o.escrow.bump]),
        spec_program_id().bytes(),
    ) == Some(o.escrow_key.bytes())
    &&& o.vault.owner == o.escrow_key
    &&& o.vault.mint == o.escrow.mint_a
    &&& o.escrow.receive > 0
    &&& o.vault.amount > 0
}

/// A valid collection of open offers: each well formed, no two at one
/// address.
pub open spec fn spec_offers_wf(offers: Seq<Offer>) -> bool {
    &&& forall|i: int| 0 <= i < offers.len() ==> spec_offer_wf(#[trigger] offers[i])
    &&& forall|i: int, j: int|
        0 <= i < j < offers.len() ==> offers[i].escrow_key != offers[j].escrow_key
}

/// Whether some open offer stands at `key`.
pub open spec fn spec_has_offer(offers: Seq<Offer>, key: Pubkey) -> bool {
    exists|i: int| 0 <= i < offers.len() && offers[i].escrow_key == key
}

/// The position of the offer standing at `key` (meaningful when one
/// exists; unique when addresses are unique).
pub open spec fn spec_offer_index(offers: Seq<Offer>, key: Pubkey) -> int {
    choose|i: int| 0 <= i < offers.len() && offers[i].escrow_key == key
}

/// With distinct offer addresses, any position holding `key` is the
/// position of `key`'s offer.
pub proof fn lemma_offer_index_unique(offers: Seq<Offer>, key: Pubkey, i: int)
    requires
        0 <= i < offers.len(),
        offers[i].escrow_key == key,
        forall|a: int, b: int|
            0 <= a < b < offers.len() ==> offers[a].escrow_key != offers[b].escrow_key,
    ensures
        spec_has_offer(offers, key),
        spec_offer_index(offers, key) == i,
{
    assert(spec_has_offer(offers, key));
    let j = spec_offer_index(offers, key);
    if j < i {
        assert(offers[j].escrow_key != offers[i].escrow_key);
    }
    if i < j {
        assert(offers[i].escrow_key != offers[j].escrow_key);
    }
}

/// The program's persistent state: every open offer, each at its own
/// derived address.
pub struct EscrowLedger {
    pub offers: Vec<Offer>,
}

/// What `Make` returns on success: the offers with the new one appended,
/// and the maker's debited source account.
pub open spec fn spec_make(
    offers: Seq<Offer>,
    maker_key: Pubkey,
    maker_signed: bool,
    mint_a: Pubkey,
    mint_b: Pubkey,
    maker_ata_a: TokenAccountState,
    seed: u64,
    receive: u64,
    amount: u64,
) -> Result<(Seq<Offer>, TokenAccountState), ProgramError> {
    if receive == 0 || amount == 0 {
        Err(ProgramError::InvalidAmount)
    } else if !maker_signed {
        Err(ProgramError::MissingRequiredSignature)
    } else {
        match spec_escrow_address(maker_key, seed) {
            None => Err(ProgramError::InvalidSeeds),
            Some((key_bytes, bump)) => {
                let escrow_key = pubkey_of_bytes(key_bytes);
                if spec_has_offer(offers, escrow_key) {
                    Err(ProgramError::AccountAlreadyInitialized)
                } else {
                    let vault_new = TokenAccountState { mint: mint_a, owner: escrow_key, amount: 0 };
                    match spec_transfer_check(maker_ata_a, vault_new, maker_key, true, amount) {
                        Err(e) => Err(e),
                        Ok(()) => {
                            let escrow = Escrow {
                                seed,
                                maker: maker_key,
                                mint_a,
                                mint_b,
                                receive,
                                bump,
                            };
                            let offer = Offer {
                                escrow_key,
                                escrow,
                                vault: TokenAccountState { mint: mint_a, owner: escrow_key, amount },
                            };
                            Ok(
                                (
                                    offers.push(offer),
                                    TokenAccountState {
                                        amount: (maker_ata_a.amount - amount) as u64,
                                        ..maker_ata_a
                                    },
                                ),
                            )
                        },
                    }
                }
            },
        }
    }
}

/// What `Take` returns on success: the offers without the settled one,
/// the taker's credited deposited-asset account, the taker's debited
/// requested-asset account, and the maker's credited requested-asset
/// account.
pub open spec fn spec_take(
    offers: Seq<Offer>,
    escrow_account_key: Pubkey,
    taker_key: Pubkey,
    taker_signed: bool,
    maker_key: Pubkey,
    taker_ata_a: TokenAccountState,
    taker_ata_b: TokenAccountState,
    maker_ata_b: TokenAccountState,
) -> Result<
    (Seq<Offer>, TokenAccountState, TokenAccountState, TokenAccountState),
    ProgramError,
> {
    if !taker_signed {
        Err(ProgramError::MissingRequiredSignature)
    } else if !spec_has_offer(offers, escrow_account_key) {
        Err(ProgramError::InvalidAccountData)
    } else {
        let i = spec_offer_index(offers, escrow_account_key);
        let o = offers[i];
        if o.escrow.maker != maker_key {
            Err(ProgramError::InvalidMaker)
        } else if taker_ata_a.mint != o.escrow.mint_a {
            Err(ProgramError::InvalidMintA)
        } else if taker_ata_b.mint != o.escrow.mint_b {
            Err(ProgramError::InvalidMintB)
        } else if maker_ata_b.mint != o.escrow.mint_b {
            Err(ProgramError::InvalidMintB)
        } else if pda_create(
            spec_escrow_seeds(maker_key, o.escrow.seed).push(seq![o.escrow.bump]),
            spec_program_id().bytes(),
        ) != Some(escrow_account_key.bytes()) {
            Err(ProgramError::InvalidAccountOwner)
        } else {
            match spec_transfer_check(taker_ata_b, maker_ata_b, taker_key, true, o.escrow.receive) {
                Err(e) => Err(e),
                Ok(()) => match spec_transfer_check(
                    o.vault,
                    taker_ata_a,
                    o.escrow_key,
                    true,
                    o.vault.amount,
                ) {
                    Err(e) => Err(e),
                    Ok(()) => Ok(
                        (
                            offers.remove(i),
                            TokenAccountState {
                                amount: (taker_ata_a.amount + o.vault.amount) as u64,
                                ..taker_ata_a
                            },
                            TokenAccountState {
                                amount: (taker_ata_b.amount - o.escrow.receive) as u64,
                                ..taker_ata_b
                            },
                            TokenAccountState {
                                amount: (maker_ata_b.amount + o.escrow.receive) as u64,
                                ..maker_ata_b
                            },
                        ),
                    ),
                },
            }
        }
    }
}

/// What `Refund` returns on success: the offers without the canceled one
/// and the maker's credited deposited-asset account.
pub open spec fn spec_refund(
    offers: Seq<Offer>,
    escrow_account_key: Pubkey,
    maker_key: Pubkey,
    maker_signed: bool,
    maker_ata_a: TokenAccountState,
) -> Result<(Seq<Offer>, TokenAccountState), ProgramError> {
    if !maker_signed {
        Err(ProgramError::MissingRequiredSignature)
    } else if !spec_has_offer(offers, escrow_account_key) {
        Err(ProgramError::InvalidAccountData)
    } else {
        let i = spec_offer_index(offers, escrow_account_key);
        let o = offers[i];
        if o.escrow.maker != maker_key {
            Err(ProgramError::InvalidMaker)
        } else if maker_ata_a.mint != o.escrow.mint_a {
            Err(ProgramError::InvalidMintA)
        } else if pda_create(
            spec_escrow_seeds(maker_key, o.escrow.seed).push(seq![o.escrow.bump]),
            spec_program_id().bytes(),
        ) != Some(escrow_account_key.bytes()) {
            Err(ProgramError::InvalidAccountOwner)
        } else {
            match spec_transfer_check(o.vault, maker_ata_a, o.escrow_key, true, o.vault.amount) {
                Err(e) => Err(e),
                Ok(()) => Ok(
                    (
                        offers.remove(i),
                        TokenAccountState {
                            amount: (maker_ata_a.amount + o.vault.amount) as u64,
                            ..maker_ata_a
                        },
                    ),
                ),
            }
        }
    }
}

impl EscrowLedger {
    /// Every open offer is well formed and no two stand at one address.
    pub open spec fn wf(self) -> bool {
        spec_offers_wf(self.offers@)
    }

    /// A ledger with no open offers.
    pub fn new() -> (r: EscrowLedger)
        ensures
            r.offers@ == Seq::<Offer>::empty(),
            r.wf(),
    {
        let r = EscrowLedger { offers: Vec::new() };
        assert(r.offers@ =~= Seq::<Offer>::empty());
        r
    }

    /// Looks an offer up by the address of its record.
    pub fn find_offer(&self, key: &Pubkey) -> (r: Option<usize>)
        ensures
            match r {
                Some(i) => i < self.offers@.len() && self.offers@[i as int].escrow_key == *key,
                None => !spec_has_offer(self.offers@, *key),
            },
    {
        let mut i: usize = 0;
        while i < self.offers.len()
            invariant
                i <= self.offers@.len(),
                forall|j: int| 0 <= j < i ==> self.offers@[j].escrow_key != *key,
            decreases self.offers@.len() - i,
        {
            if self.offers[i].escrow_key == *key {
                return Some(i);
            }
            i = i + 1;
        }
        None
    }

    /// Creates an offer: derives the offer's authority from the maker and
    /// seed, records the offer at that address, creates the vault under
    /// the same authority, and moves the deposit from the maker's source
    /// account into the vault — atomically: any failure leaves everything
    /// unchanged.
    pub fn make(
        &mut self,
        maker: &AccountView,
        mint_a: &Pubkey,
        mint_b: &Pubkey,
        maker_ata_a: &mut TokenAccountState,
        seed: u64,
        receive: u64,
        amount: u64,
    ) -> (r: Result<(), ProgramError>)
        requires
            old(self).wf(),
        ensures
            final(self).wf(),
            match spec_make(
                old(self).offers@,
                maker.key,
                maker.is_signer,
                *mint_a,
                *mint_b,
                *old(maker_ata_a),
                seed,
                receive,
                amount,
            ) {
                Ok(post) => r is Ok && final(self).offers@ == post.0 && *final(maker_ata_a)
                    == post.1,
                Err(e) => r == Err::<(), ProgramError>(e) && final(self).offers@
                    == old(self).offers@ && *final(maker_ata_a) == *old(maker_ata_a),
            },
    {
        if receive == 0 || amount == 0 {
            return Err(ProgramError::InvalidAmount);
        }
        SignerAccount::check(maker)?;
        let (escrow_key, bump) = match derive_escrow_address(&maker.key, seed) {
            None => {
                return Err(ProgramError::InvalidSeeds);
            },
            Some(kb) => kb,
        };
        proof {
            lemma_pubkey_of_bytes_roundtrip(escrow_key);
        }
        match self.find_offer(&escrow_key) {
            Some(i) => {
                proof {
                    lemma_offer_index_unique(self.offers@, escrow_key, i as int);
                }
                Err(ProgramError::AccountAlreadyInitialized)
            },
            None => {
                let mut vault = TokenAccountState { mint: *mint_a, owner: escrow_key, amount: 0 };
                token_transfer(maker_ata_a, &mut vault, &maker.key, true, amount)?;
                let escrow = Escrow {
                    seed,
                    maker: maker.key,
                    mint_a: *mint_a,
                    mint_b: *mint_b,
                    receive,
                    bump,
                };
                let offer = Offer { escrow_key, escrow, vault };
                self.offers.push(offer);
                proof {
                    let post = self.offers@;
                    let pre = old(self).offers@;
                    assert forall|a: int| 0 <= a < post.len() implies spec_offer_wf(
                        #[trigger] post[a],
                    ) by {
                        if a < pre.len() {
                            assert(spec_offer_wf(pre[a]));
                        }
                    }
                    assert forall|a: int, b: int| 0 <= a < b < post.len() implies post[a].escrow_key
                        != post[b].escrow_key by {
                        if b < pre.len() {
                            assert(pre[a].escrow_key != pre[b].escrow_key);
                        } else {
                            assert(!(0 <= a < pre.len() && pre[a].escrow_key == escrow_key));
                        }
                    }
                }
                Ok(())
            },
        }
    }

    /// Accepts an offer: moves exactly the asked amount of the requested
    /// asset from taker to maker, then the vault's entire live balance to
    /// the taker under the reconstructed derived authority, then closes
    /// vault and record — atomically: any failure leaves everything
    /// unchanged.
    pub fn take(
        &mut self,
        escrow_account_key: &Pubkey,
        taker: &AccountView,
        maker_key: &Pubkey,
        taker_ata_a: &mut TokenAccountState,
        taker_ata_b: &mut TokenAccountState,
        maker_ata_b: &mut TokenAccountState,
    ) -> (r: Result<(), ProgramError>)
        requires
            old(self).wf(),
        ensures
            final(self).wf(),
            match spec_take(
                old(self).offers@,
                *escrow_account_key,
                taker.key,
                taker.is_signer,
                *maker_key,
                *old(taker_ata_a),
                *old(taker_ata_b),
                *old(maker_ata_b),
            ) {
                Ok(post) => r is Ok && final(self).offers@ == post.0 && *final(taker_ata_a)
                    == post.1 && *final(taker_ata_b) == post.2 && *final(maker_ata_b) == post.3,
                Err(e) => r == Err::<(), ProgramError>(e) && final(self).offers@
                    == old(self).offers@ && *final(taker_ata_a) == *old(taker_ata_a)
                    && *final(taker_ata_b) == *old(taker_ata_b)
                    && *final(maker_ata_b) == *old(maker_ata_b),
            },
    {
        SignerAccount::check(taker)?;
        let idx = match self.find_offer(escrow_account_key) {
            None => {
                return Err(ProgramError::InvalidAccountData);
            },
            Some(i) => i,
        };
        proof {
            lemma_offer_index_unique(self.offers@, *escrow_account_key, idx as int);
        }
        let offer = self.offers[idx];
        if offer.escrow.maker != *maker_key {
            return Err(ProgramError::InvalidMaker);
        }
        if taker_ata_a.mint != offer.escrow.mint_a {
            return Err(ProgramError::InvalidMintA);
        }
        if taker_ata_b.mint != offer.escrow.mint_b {
            return Err(ProgramError::InvalidMintB);
        }
        if maker_ata_b.mint != offer.escrow.mint_b {
            return Err(ProgramError::InvalidMintB);
        }
        let cap = match reconstruct_and_sign(
            maker_key,
            offer.escrow.seed,
            offer.escrow.bump,
            escrow_account_key,
        ) {
            Ok(c) => c,
            Err(e) => {
                return Err(e);
            },
        };
        if let Err(e) = check_transfer(taker_ata_b, maker_ata_b, &taker.key, true,
            offer.escrow.receive) {
            return Err(e);
        }
        if let Err(e) = check_transfer(&offer.vault, taker_ata_a, &offer.escrow_key, true,
            offer.vault.amount) {
            return Err(e);
        }
        let mut settled = self.offers.remove(idx);
        if let Err(e) = token_transfer(taker_ata_b, maker_ata_b, &taker.key, true,
            settled.escrow.receive) {
            return Err(e);
        }
        let vault_balance = settled.vault.amount;
        if let Err(e) = token_transfer_signed(&mut settled.vault, taker_ata_a, &cap,
            vault_balance) {
            return Err(e);
        }
        if let Err(e) = token_close_signed(settled.vault, &cap) {
            return Err(e);
        }
        proof {
            let post = self.offers@;
            let pre = old(self).offers@;
            assert forall|a: int| 0 <= a < post.len() implies spec_offer_wf(
                #[trigger] post[a],
            ) by {
                if a < idx as int {
                    assert(spec_offer_wf(pre[a]));
                } else {
                    assert(spec_offer_wf(pre[a + 1]));
                }
            }
            assert forall|a: int, b: int| 0 <= a < b < post.len() implies post[a].escrow_key
                != post[b].escrow_key by {
                let a0 = if a < idx as int {
                    a
                } else {
                    a + 1
                };
                let b0 = if b < idx as int {
                    b
                } else {
                    b + 1
                };
                assert(pre[a0].escrow_key != pre[b0].escrow_key);
            }
        }
        Ok(())
    }

    /// Cancels an offer: only the recorded maker may call it; the vault's
    /// entire live balance returns to the maker's own account and vault
    /// and record close — atomically: any failure leaves everything
    /// unchanged.
    pub fn refund(
        &mut self,
        escrow_account_key: &Pubkey,
        maker: &AccountView,
        maker_ata_a: &mut TokenAccountState,
    ) -> (r: Result<(), ProgramError>)
        requires
            old(self).wf(),
        ensures
            final(self).wf(),
            match spec_refund(
                old(self).offers@,
                *escrow_account_key,
                maker.key,
                maker.is_signer,
                *old(maker_ata_a),
            ) {
                Ok(post) => r is Ok && final(self).offers@ == post.0 && *final(maker_ata_a)
                    == post.1,
                Err(e) => r == Err::<(), ProgramError>(e) && final(self).offers@
                    == old(self).offers@ && *final(maker_ata_a) == *old(maker_ata_a),
            },
    {
        SignerAccount::check(maker)?;
        let idx = match self.find_offer(escrow_account_key) {
            None => {
                return Err(ProgramError::InvalidAccountData);
            },
            Some(i) => i,
        };
        proof {
            lemma_offer_index_unique(self.offers@, *escrow_account_key, idx as int);
        }
        let offer = self.offers[idx];
        if offer.escrow.maker != maker.key {
            return Err(ProgramError::InvalidMaker);
        }
        if maker_ata_a.mint != offer.escrow.mint_a {
            return Err(ProgramError::InvalidMintA);
        }
        let cap = match reconstruct_and_sign(
            &maker.key,
            offer.escrow.seed,
            offer.escrow.bump,
            escrow_account_key,
        ) {
            Ok(c) => c,
            Err(e) => {
                return Err(e);
            },
        };
        if let Err(e) = check_transfer(&offer.vault, maker_ata_a, &offer.escrow_key, true,
            offer.vault.amount) {
            return Err(e);
        }
        let mut canceled = self.offers.remove(idx);
        let vault_balance = canceled.vault.amount;
        if let Err(e) = token_transfer_signed(&mut canceled.vault, maker_ata_a, &cap,
            vault_balance) {
            return Err(e);
        }
        if let Err(e) = token_close_signed(canceled.vault, &cap) {
            return Err(e);
        }
        proof {
            let post = self.offers@;
            let pre = old(self).offers@;
            assert forall|a: int| 0 <= a < post.len() implies spec_offer_wf(
                #[trigger] post[a],
            ) by {
                if a < idx as int {
                    assert(spec_offer_wf(pre[a]));
                } else {
                    assert(spec_offer_wf(pre[a + 1]));
                }
            }
            assert forall|a: int, b: int| 0 <= a < b < post.len() implies post[a].escrow_key
                != post[b].escrow_key by {
                let a0 = if a < idx as int {
                    a
                } else {
                    a + 1
                };
                let b0 = if b < idx as int {
                    b
                } else {
                    b + 1
                };
                assert(pre[a0].escrow_key != pre[b0].escrow_key);
            }
        }
        Ok(())
    }
}

} // verus!
