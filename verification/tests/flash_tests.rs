use escrow::accounts::AccountView;
use escrow::errors::ProgramError;
use escrow::fee_floor;
use escrow::flash::borrow;
use escrow::flash::borrow_instruction_data;
use escrow::flash::fee;
use escrow::flash::read_borrow_amount;
use escrow::flash::repay;
use escrow::flash::repay_instruction_data;
use escrow::flash::repay_total;
use escrow::flash::InstructionView;
use escrow::keys::program_id;
use escrow::keys::Pubkey;
use escrow::pda::derive_protocol_address;
use escrow::token::TokenAccountState;

fn key(n: u64) -> Pubkey {
    Pubkey { w0: n, w1: 100 + n, w2: 200 + n, w3: 300 + n }
}

fn signer(k: Pubkey) -> AccountView {
    AccountView { key: k, owner: key(999), lamports: 1_000_000, data: Vec::new(), is_signer: true }
}

fn loan_transaction(
    amount: u64,
    borrower_ata_key: Pubkey,
    pool_ata_key: Pubkey,
) -> Vec<InstructionView> {
    let borrow_ix = InstructionView {
        program_id: program_id(),
        accounts: vec![key(31), key(32), key(33), borrower_ata_key, pool_ata_key],
        data: borrow_instruction_data(amount),
    };
    let repay_ix = InstructionView {
        program_id: program_id(),
        accounts: vec![key(31), key(32), key(33), borrower_ata_key, pool_ata_key],
        data: repay_instruction_data(),
    };
    vec![borrow_ix, repay_ix]
}

#[test]
fn fee_truncates_and_rejects_unpayable_totals() {
    assert_eq!(fee(1_000_000), Ok(50_000));
    assert_eq!(fee(3), Ok(0));
    assert_eq!(fee(u64::MAX), Err(ProgramError::ArithmeticOverflow));
    assert_eq!(fee(20), Ok(1));
    assert_eq!(fee(19), Ok(0));
    assert_eq!(fee_floor(1_000_000), 50_000);
    assert_eq!(repay_total(1_000_000), Ok(1_050_000));
    assert_eq!(repay_total(u64::MAX), Err(ProgramError::ArithmeticOverflow));
}

#[test]
fn borrow_and_repay_round_trip_charges_exactly_the_fee() {
    let (protocol_key, _bump) = derive_protocol_address().unwrap();
    let borrower_key = key(1);
    let mint = key(2);
    let borrower_ata_key = key(3);
    let pool_ata_key = key(4);
    let mut pool = TokenAccountState { mint, owner: protocol_key, amount: 10_000_000 };
    let mut borrower_ata = TokenAccountState { mint, owner: borrower_key, amount: 60_000 };
    let borrower = signer(borrower_key);
    let tx = loan_transaction(1_000_000, borrower_ata_key, pool_ata_key);

    let r = borrow(
        &mut pool,
        &mut borrower_ata,
        &protocol_key,
        &borrower_ata_key,
        &pool_ata_key,
        1_000_000,
        0,
        &tx,
    );
    assert_eq!(r, Ok(()));
    assert_eq!(pool.amount, 9_000_000);
    assert_eq!(borrower_ata.amount, 1_060_000);

    assert_eq!(read_borrow_amount(&tx), Ok(1_000_000));
    let r = repay(&mut pool, &mut borrower_ata, &borrower, &tx);
    assert_eq!(r, Ok(()));
    // The pool's net change over the whole transaction is exactly the fee.
    assert_eq!(pool.amount, 10_000_000 + 50_000);
    assert_eq!(borrower_ata.amount, 60_000 - 50_000);
}

#[test]
fn borrow_rejects_ill_formed_transactions() {
    let (protocol_key, _bump) = derive_protocol_address().unwrap();
    let borrower_ata_key = key(3);
    let pool_ata_key = key(4);
    let mint = key(2);
    let pool0 = TokenAccountState { mint, owner: protocol_key, amount: 500 };
    let borr0 = TokenAccountState { mint, owner: key(1), amount: 0 };
    let tx = loan_transaction(100, borrower_ata_key, pool_ata_key);

    // Zero amount.
    let mut pool = pool0;
    let mut borr = borr0;
    assert_eq!(
        borrow(&mut pool, &mut borr, &protocol_key, &borrower_ata_key, &pool_ata_key, 0, 0, &tx),
        Err(ProgramError::InvalidAmount)
    );

    // Not the first instruction of its transaction.
    assert_eq!(
        borrow(&mut pool, &mut borr, &protocol_key, &borrower_ata_key, &pool_ata_key, 100, 1, &tx),
        Err(ProgramError::InvalidInstructionPosition)
    );

    // A pool authority that is not the derived protocol address.
    assert_eq!(
        borrow(&mut pool, &mut borr, &key(50), &borrower_ata_key, &pool_ata_key, 100, 0, &tx),
        Err(ProgramError::InvalidSeeds)
    );

    // No instructions at all.
    let empty: Vec<InstructionView> = Vec::new();
    assert_eq!(
        borrow(&mut pool, &mut borr, &protocol_key, &borrower_ata_key, &pool_ata_key, 100, 0,
            &empty),
        Err(ProgramError::MissingRepayInstruction)
    );

    // The closing instruction targets another program.
    let mut tx2 = loan_transaction(100, borrower_ata_key, pool_ata_key);
    tx2[1].program_id = key(60);
    assert_eq!(
        borrow(&mut pool, &mut borr, &protocol_key, &borrower_ata_key, &pool_ata_key, 100, 0,
            &tx2),
        Err(ProgramError::InvalidProgram)
    );

    // The closing instruction does not open with the repayment tag.
    let mut tx3 = loan_transaction(100, borrower_ata_key, pool_ata_key);
    tx3[1].data = borrow_instruction_data(100);
    assert_eq!(
        borrow(&mut pool, &mut borr, &protocol_key, &borrower_ata_key, &pool_ata_key, 100, 0,
            &tx3),
        Err(ProgramError::InvalidInstructionPosition)
    );

    // The repayment names a different borrower account.
    let tx4 = loan_transaction(100, key(70), pool_ata_key);
    assert_eq!(
        borrow(&mut pool, &mut borr, &protocol_key, &borrower_ata_key, &pool_ata_key, 100, 0,
            &tx4),
        Err(ProgramError::InvalidBorrowerAta)
    );

    // The repayment names a different pool account.
    let tx5 = loan_transaction(100, borrower_ata_key, key(71));
    assert_eq!(
        borrow(&mut pool, &mut borr, &protocol_key, &borrower_ata_key, &pool_ata_key, 100, 0,
            &tx5),
        Err(ProgramError::InvalidProtocolAta)
    );

    // An empty pool cannot lend.
    assert_eq!(
        borrow(&mut pool, &mut borr, &protocol_key, &borrower_ata_key, &pool_ata_key, 501, 0,
            &tx),
        Err(ProgramError::InsufficientFunds)
    );

    // Nothing moved in any failed attempt.
    assert_eq!(pool, pool0);
    assert_eq!(borr, borr0);
}

#[test]
fn repay_rejects_missing_or_short_borrow_instruction() {
    let borrower_key = key(1);
    let mint = key(2);
    let mut pool = TokenAccountState { mint, owner: key(9), amount: 500 };
    let mut borr = TokenAccountState { mint, owner: borrower_key, amount: 500 };
    let borrower = signer(borrower_key);

    let empty: Vec<InstructionView> = Vec::new();
    assert_eq!(
        repay(&mut pool, &mut borr, &borrower, &empty),
        Err(ProgramError::MissingBorrowInstruction)
    );

    let short = vec![InstructionView {
        program_id: program_id(),
        accounts: Vec::new(),
        data: repay_instruction_data(),
    }];
    assert_eq!(
        repay(&mut pool, &mut borr, &borrower, &short),
        Err(ProgramError::MissingBorrowInstruction)
    );
    assert_eq!(read_borrow_amount(&short), Err(ProgramError::MissingBorrowInstruction));

    let mut unsigned = signer(borrower_key);
    unsigned.is_signer = false;
    let tx = loan_transaction(100, key(3), key(4));
    assert_eq!(
        repay(&mut pool, &mut borr, &unsigned, &tx),
        Err(ProgramError::MissingRequiredSignature)
    );

    // A borrow too large to repay with the fee overflows.
    let tx_max = loan_transaction(u64::MAX, key(3), key(4));
    assert_eq!(
        repay(&mut pool, &mut borr, &borrower, &tx_max),
        Err(ProgramError::ArithmeticOverflow)
    );
    assert_eq!(pool.amount, 500);
    assert_eq!(borr.amount, 500);
}
