use vstd::prelude::*;
use vstd::bytes::lemma_auto_spec_u64_to_from_le_bytes;
use crate::keys::Pubkey;
use crate::errors::ProgramError;
use crate::token::TokenAccountState;
use crate::ledger::Offer;
use crate::ledger::spec_offers_wf;
use crate::ledger::spec_has_offer;
use crate::ledger::spec_offer_index;
use crate::ledger::lemma_offer_index_unique;
use crate::ledger::spec_make;
use crate::ledger::spec_take;
use crate::ledger::spec_refund;
use crate::flash::InstructionView;
use crate::flash::spec_borrow;
use crate::flash::spec_repay;
use crate::flash::spec_borrow_data;
use crate::flash::spec_repay_ix_matches;
use crate::flash::spec_fee_checked;
use crate::pda::spec_protocol_address;
use crate::spec_fee;

verus! {

/// Law: an offer made and immediately taken with correct counter-funds
/// settles completely — the offers return to exactly their prior
/// collection with the new record and vault gone, the taker's
/// deposited-asset account gains exactly the deposit, the taker's
/// requested-asset account loses exactly the asked amount, and the
/// maker's requested-asset account gains exactly the asked amount.
pub proof fn lemma_make_then_take_settles(
    offers: Seq<Offer>,
    offers1: Seq<Offer>,
    maker_key: Pubkey,
    mint_a: Pubkey,
    mint_b: Pubkey,
    maker_ata_a: TokenAccountState,
    maker_ata_a1: TokenAccountState,
    taker_key: Pubkey,
    taker_ata_a: TokenAccountState,
    taker_ata_b: TokenAccountState,
    maker_ata_b: TokenAccountState,
    seed: u64,
    receive: u64,
    amount: u64,
)
    requires
        spec_make(offers, maker_key, true, mint_a, mint_b, maker_ata_a, seed, receive, amount)
            == Ok::<(Seq<Offer>, TokenAccountState), ProgramError>((offers1, maker_ata_a1)),
        spec_offers_wf(offers1),
        taker_ata_a.mint == mint_a,
        taker_ata_b.mint == mint_b,
        maker_ata_b.mint == mint_b,
        taker_ata_b.owner == taker_key,
        taker_ata_b.amount >= receive,
        maker_ata_b.amount + receive <= u64::MAX,
        taker_ata_a.amount + amount <= u64::MAX,
    ensures
        ({
            let escrow_key = offers1[offers1.len() - 1].escrow_key;
            match spec_take(
                offers1,
                escrow_key,
                taker_key,
                true,
                maker_key,
                taker_ata_a,
                taker_ata_b,
                maker_ata_b,
            ) {
                Ok(post) => {
                    &&& post.0 == offers
                    &&& !spec_has_offer(post.0, escrow_key)
                    &&& post.1 == (TokenAccountState {
                        amount: (taker_ata_a.amount + amount) as u64,
                        ..taker_ata_a
                    })
                    &&& post.2 == (TokenAccountState {
                        amount: (taker_ata_b.amount - receive) as u64,
                        ..taker_ata_b
                    })
                    &&& post.3 == (TokenAccountState {
                        amount: (maker_ata_b.amount + receive) as u64,
                        ..maker_ata_b
                    })
                },
                Err(_) => false,
            }
        }),
{
    let escrow_key = offers1[offers1.len() - 1].escrow_key;
    lemma_offer_index_unique(offers1, escrow_key, offers1.len() - 1);
    let i = spec_offer_index(offers1, escrow_key);
    assert(i == offers.len());
    assert(offers1.remove(i) =~= offers);
}

/// Law: depositing by `Make` and then canceling by `Refund` is a no-op —
/// the offers return to exactly their prior collection and the maker's
/// source account returns to exactly its pre-deposit state.
pub proof fn lemma_make_then_refund_restores(
    offers: Seq<Offer>,
    offers1: Seq<Offer>,
    maker_key: Pubkey,
    mint_a: Pubkey,
    mint_b: Pubkey,
    maker_ata_a: TokenAccountState,
    maker_ata_a1: TokenAccountState,
    seed: u64,
    receive: u64,
    amount: u64,
)
    requires
        spec_make(offers, maker_key, true, mint_a, mint_b, maker_ata_a, seed, receive, amount)
            == Ok::<(Seq<Offer>, TokenAccountState), ProgramError>((offers1, maker_ata_a1)),
        spec_offers_wf(offers1),
    ensures
        ({
            let escrow_key = offers1[offers1.len() - 1].escrow_key;
            match spec_refund(offers1, escrow_key, maker_key, true, maker_ata_a1) {
                Ok(post) => post.0 == offers && post.1 == maker_ata_a,
                Err(_) => false,
            }
        }),
{
    let escrow_key = offers1[offers1.len() - 1].escrow_key;
    lemma_offer_index_unique(offers1, escrow_key, offers1.len() - 1);
    let i = spec_offer_index(offers1, escrow_key);
    assert(i == offers.len());
    assert(offers1.remove(i) =~= offers);
    let restored = TokenAccountState {
        amount: (maker_ata_a1.amount + offers1[i].vault.amount) as u64,
        ..maker_ata_a1
    };
    assert(restored == maker_ata_a);
}

/// Law: `Take` supplied with any maker other than the one recorded in the
/// offer fails with an authorization error; the handlers' contracts then
/// guarantee every balance and record is left unchanged.
pub proof fn lemma_take_requires_recorded_maker(
    offers: Seq<Offer>,
    escrow_account_key: Pubkey,
    taker_key: Pubkey,
    maker_key: Pubkey,
    taker_ata_a: TokenAccountState,
    taker_ata_b: TokenAccountState,
    maker_ata_b: TokenAccountState,
)
    requires
        spec_has_offer(offers, escrow_account_key),
        offers[spec_offer_index(offers, escrow_account_key)].escrow.maker != maker_key,
    ensures
        spec_take(
            offers,
            escrow_account_key,
            taker_key,
            true,
            maker_key,
            taker_ata_a,
            taker_ata_b,
            maker_ata_b,
        ) == Err::<
            (Seq<Offer>, TokenAccountState, TokenAccountState, TokenAccountState),
            ProgramError,
        >(ProgramError::InvalidMaker),
{
}

/// Law: `Refund` invoked by any identity other than the recorded maker
/// fails with an authorization error; the handlers' contracts then
/// guarantee every balance and record is left unchanged.
pub proof fn lemma_refund_requires_recorded_maker(
    offers: Seq<Offer>,
    escrow_account_key: Pubkey,
    maker_key: Pubkey,
    maker_ata_a: TokenAccountState,
)
    requires
        spec_has_offer(offers, escrow_account_key),
        offers[spec_offer_index(offers, escrow_account_key)].escrow.maker != maker_key,
    ensures
        spec_refund(offers, escrow_account_key, maker_key, true, maker_ata_a) == Err::<
            (Seq<Offer>, TokenAccountState),
            ProgramError,
        >(ProgramError::InvalidMaker),
{
}

/// Law: two `Make` calls with the same maker and seed cannot both
/// succeed — once the first has recorded an offer, the second finds an
/// account at the same derived address and fails, whatever its other
/// arguments.
pub proof fn lemma_make_collides_on_same_seed(
    offers: Seq<Offer>,
    offers1: Seq<Offer>,
    maker_key: Pubkey,
    mint_a: Pubkey,
    mint_b: Pubkey,
    maker_ata_a: TokenAccountState,
    maker_ata_a1: TokenAccountState,
    mint_a2: Pubkey,
    mint_b2: Pubkey,
    other_ata: TokenAccountState,
    seed: u64,
    receive: u64,
    amount: u64,
    receive2: u64,
    amount2: u64,
)
    requires
        spec_make(offers, maker_key, true, mint_a, mint_b, maker_ata_a, seed, receive, amount)
            == Ok::<(Seq<Offer>, TokenAccountState), ProgramError>((offers1, maker_ata_a1)),
        receive2 > 0,
        amount2 > 0,
    ensures
        spec_make(offers1, maker_key, true, mint_a2, mint_b2, other_ata, seed, receive2, amount2)
            == Err::<(Seq<Offer>, TokenAccountState), ProgramError>(
            ProgramError::AccountAlreadyInitialized,
        ),
{
    let escrow_key = offers1[offers1.len() - 1].escrow_key;
    assert(spec_has_offer(offers1, escrow_key));
}

/// Law: a transaction that opens with `Borrow` of a positive amount and
/// closes with a matching `Repay` succeeds end to end, and the pool's net
/// balance change is exactly the fee.
pub proof fn lemma_flash_loan_round_trip(
    pool_ata: TokenAccountState,
    borrower_ata: TokenAccountState,
    protocol_key: Pubkey,
    borrower_key: Pubkey,
    borrower_ata_key: Pubkey,
    pool_ata_key: Pubkey,
    borrow_amount: u64,
    instructions: Seq<InstructionView>,
)
    requires
        borrow_amount > 0,
        instructions.len() >= 2,
        instructions[0].data@ == spec_borrow_data(borrow_amount),
        spec_repay_ix_matches(
            instructions[instructions.len() - 1],
            borrower_ata_key,
            pool_ata_key,
        ),
        (spec_protocol_address() matches Some(pa) && pa.0 == protocol_key.bytes()),
        pool_ata.owner == protocol_key,
        pool_ata.mint == borrower_ata.mint,
        pool_ata.amount >= borrow_amount,
        borrower_ata.owner == borrower_key,
        borrower_ata.amount + borrow_amount <= u64::MAX,
        borrow_amount + spec_fee(borrow_amount) <= u64::MAX,
        borrower_ata.amount >= spec_fee(borrow_amount),
        pool_ata.amount + spec_fee(borrow_amount) <= u64::MAX,
    ensures
        ({
            match spec_borrow(
                pool_ata,
                borrower_ata,
                protocol_key,
                borrower_ata_key,
                pool_ata_key,
                borrow_amount,
                0,
                instructions,
            ) {
                Ok(after_borrow) => match spec_repay(
                    after_borrow.0,
                    after_borrow.1,
                    borrower_key,
                    true,
                    instructions,
                ) {
                    Ok(after_repay) => {
                        &&& after_repay.0.amount == pool_ata.amount + spec_fee(borrow_amount)
                        &&& after_repay.1.amount == borrower_ata.amount - spec_fee(borrow_amount)
                    },
                    Err(_) => false,
                },
                Err(_) => false,
            }
        }),
{
    lemma_auto_spec_u64_to_from_le_bytes();
    assert(instructions[0].data@.subrange(8, 16) =~= vstd::bytes::spec_u64_to_le_bytes(
        borrow_amount,
    ));
    assert(spec_fee_checked(borrow_amount) == Ok::<u64, ProgramError>(
        spec_fee(borrow_amount) as u64,
    ));
}

/// Law: a transaction whose final instruction is not a well-formed
/// repayment matching the borrow's accounts — or that has no instructions
/// at all — cannot borrow: `Borrow` fails outright, and with it (by the
/// runtime's atomicity) the whole transaction, leaving the pool balance
/// unchanged.
pub proof fn lemma_borrow_unmatched_repay_fails(
    pool_ata: TokenAccountState,
    borrower_ata: TokenAccountState,
    protocol_key: Pubkey,
    borrower_ata_key: Pubkey,
    pool_ata_key: Pubkey,
    borrow_amount: u64,
    current_index: u16,
    instructions: Seq<InstructionView>,
)
    requires
        instructions.len() == 0 || !spec_repay_ix_matches(
            instructions[instructions.len() - 1],
            borrower_ata_key,
            pool_ata_key,
        ),
    ensures
        spec_borrow(
            pool_ata,
            borrower_ata,
            protocol_key,
            borrower_ata_key,
            pool_ata_key,
            borrow_amount,
            current_index,
            instructions,
        ) is Err,
{
}

} // verus!
