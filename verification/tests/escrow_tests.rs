use escrow::accounts::AccountView;
use escrow::accounts::AssociatedTokenAccount;
use escrow::accounts::Mint2022;
use escrow::accounts::MintInterface;
use escrow::accounts::ProgramAccount;
use escrow::accounts::SignerAccount;
use escrow::accounts::Token2022;
use escrow::accounts::TokenInterface;
use escrow::errors::PinocchioError;
use escrow::errors::ProgramError;
use escrow::keys::ata_program_id;
use escrow::keys::program_id;
use escrow::keys::token_2022_program_id;
use escrow::keys::token_program_id;
use escrow::keys::Pubkey;
use escrow::ledger::EscrowLedger;
use escrow::pda::derive_ata_address;
use escrow::pda::derive_escrow_address;
use escrow::pda::reconstruct_escrow_address;
use escrow::state::Escrow;
use escrow::state::ESCROW_LEN;
use escrow::token::reconstruct_and_sign;
use escrow::token::token_transfer;
use escrow::token::TokenAccountState;

fn key(n: u64) -> Pubkey {
    Pubkey { w0: n, w1: 100 + n, w2: 200 + n, w3: 300 + n }
}

fn signer(k: Pubkey) -> AccountView {
    AccountView { key: k, owner: key(999), lamports: 1_000_000, data: Vec::new(), is_signer: true }
}

fn token_account(mint: Pubkey, owner: Pubkey, amount: u64) -> TokenAccountState {
    TokenAccountState { mint, owner, amount }
}

#[test]
fn make_take_settles_concrete_scenario() {
    // The maker deposits 1000 units of mint_a asking 500 units of mint_b
    // under seed 7; the taker takes with 500 units of mint_b.
    let maker_key = key(1);
    let taker_key = key(2);
    let mint_a = key(11);
    let mint_b = key(12);
    let mut ledger = EscrowLedger::new();
    let maker = signer(maker_key);
    let taker = signer(taker_key);
    let mut maker_ata_a = token_account(mint_a, maker_key, 1_000);
    let mut taker_ata_a = token_account(mint_a, taker_key, 0);
    let mut taker_ata_b = token_account(mint_b, taker_key, 500);
    let mut maker_ata_b = token_account(mint_b, maker_key, 0);

    let r = ledger.make(&maker, &mint_a, &mint_b, &mut maker_ata_a, 7, 500, 1_000);
    assert_eq!(r, Ok(()));
    assert_eq!(maker_ata_a.amount, 0);
    assert_eq!(ledger.offers.len(), 1);
    assert_eq!(ledger.offers[0].vault.amount, 1_000);
    assert_eq!(ledger.offers[0].escrow.receive, 500);
    assert_eq!(ledger.offers[0].escrow.seed, 7);

    let escrow_key = ledger.offers[0].escrow_key;
    let r = ledger.take(
        &escrow_key,
        &taker,
        &maker_key,
        &mut taker_ata_a,
        &mut taker_ata_b,
        &mut maker_ata_b,
    );
    assert_eq!(r, Ok(()));
    assert_eq!(maker_ata_b.amount, 500);
    assert_eq!(taker_ata_a.amount, 1_000);
    assert_eq!(taker_ata_b.amount, 0);
    assert_eq!(ledger.offers.len(), 0);
}

#[test]
fn make_then_refund_restores_maker_balance() {
    let maker_key = key(1);
    let mint_a = key(11);
    let mint_b = key(12);
    let mut ledger = EscrowLedger::new();
    let maker = signer(maker_key);
    let mut maker_ata_a = token_account(mint_a, maker_key, 750);

    assert_eq!(ledger.make(&maker, &mint_a, &mint_b, &mut maker_ata_a, 3, 10, 750), Ok(()));
    assert_eq!(maker_ata_a.amount, 0);
    let escrow_key = ledger.offers[0].escrow_key;

    assert_eq!(ledger.refund(&escrow_key, &maker, &mut maker_ata_a), Ok(()));
    assert_eq!(maker_ata_a.amount, 750);
    assert_eq!(ledger.offers.len(), 0);
}

#[test]
fn take_by_wrong_maker_account_fails_and_preserves_state() {
    let maker_key = key(1);
    let taker_key = key(2);
    let impostor = key(66);
    let mint_a = key(11);
    let mint_b = key(12);
    let mut ledger = EscrowLedger::new();
    let maker = signer(maker_key);
    let taker = signer(taker_key);
    let mut maker_ata_a = token_account(mint_a, maker_key, 100);
    let mut taker_ata_a = token_account(mint_a, taker_key, 0);
    let mut taker_ata_b = token_account(mint_b, taker_key, 40);
    let mut maker_ata_b = token_account(mint_b, impostor, 0);

    assert_eq!(ledger.make(&maker, &mint_a, &mint_b, &mut maker_ata_a, 1, 40, 100), Ok(()));
    let escrow_key = ledger.offers[0].escrow_key;

    let r = ledger.take(
        &escrow_key,
        &taker,
        &impostor,
        &mut taker_ata_a,
        &mut taker_ata_b,
        &mut maker_ata_b,
    );
    assert_eq!(r, Err(ProgramError::InvalidMaker));
    assert_eq!(ledger.offers.len(), 1);
    assert_eq!(taker_ata_a.amount, 0);
    assert_eq!(taker_ata_b.amount, 40);
    assert_eq!(maker_ata_b.amount, 0);
}

#[test]
fn refund_by_non_maker_fails_and_preserves_state() {
    let maker_key = key(1);
    let impostor_key = key(9);
    let mint_a = key(11);
    let mint_b = key(12);
    let mut ledger = EscrowLedger::new();
    let maker = signer(maker_key);
    let impostor = signer(impostor_key);
    let mut maker_ata_a = token_account(mint_a, maker_key, 100);
    let mut impostor_ata = token_account(mint_a, impostor_key, 0);

    assert_eq!(ledger.make(&maker, &mint_a, &mint_b, &mut maker_ata_a, 1, 40, 100), Ok(()));
    let escrow_key = ledger.offers[0].escrow_key;

    let r = ledger.refund(&escrow_key, &impostor, &mut impostor_ata);
    assert_eq!(r, Err(ProgramError::InvalidMaker));
    assert_eq!(ledger.offers.len(), 1);
    assert_eq!(impostor_ata.amount, 0);

    let mut unsigned_maker = signer(maker_key);
    unsigned_maker.is_signer = false;
    let r = ledger.refund(&escrow_key, &unsigned_maker, &mut maker_ata_a);
    assert_eq!(r, Err(ProgramError::MissingRequiredSignature));
    assert_eq!(ledger.offers.len(), 1);
}

#[test]
fn second_make_with_same_maker_and_seed_fails() {
    let maker_key = key(1);
    let mint_a = key(11);
    let mint_b = key(12);
    let mut ledger = EscrowLedger::new();
    let maker = signer(maker_key);
    let mut maker_ata_a = token_account(mint_a, maker_key, 500);

    assert_eq!(ledger.make(&maker, &mint_a, &mint_b, &mut maker_ata_a, 42, 5, 100), Ok(()));
    let r = ledger.make(&maker, &mint_a, &mint_b, &mut maker_ata_a, 42, 5, 100);
    assert_eq!(r, Err(ProgramError::AccountAlreadyInitialized));
    assert_eq!(ledger.offers.len(), 1);
    assert_eq!(maker_ata_a.amount, 400);

    // A different seed derives a different address and succeeds.
    assert_eq!(ledger.make(&maker, &mint_a, &mint_b, &mut maker_ata_a, 43, 5, 100), Ok(()));
    assert_eq!(ledger.offers.len(), 2);
    assert_ne!(ledger.offers[0].escrow_key, ledger.offers[1].escrow_key);
}

#[test]
fn make_rejects_zero_amounts_and_missing_signature() {
    let maker_key = key(1);
    let mint_a = key(11);
    let mint_b = key(12);
    let mut ledger = EscrowLedger::new();
    let maker = signer(maker_key);
    let mut maker_ata_a = token_account(mint_a, maker_key, 500);

    assert_eq!(
        ledger.make(&maker, &mint_a, &mint_b, &mut maker_ata_a, 1, 0, 100),
        Err(ProgramError::InvalidAmount)
    );
    assert_eq!(
        ledger.make(&maker, &mint_a, &mint_b, &mut maker_ata_a, 1, 10, 0),
        Err(ProgramError::InvalidAmount)
    );
    let mut unsigned = signer(maker_key);
    unsigned.is_signer = false;
    assert_eq!(
        ledger.make(&unsigned, &mint_a, &mint_b, &mut maker_ata_a, 1, 10, 100),
        Err(ProgramError::MissingRequiredSignature)
    );
    assert_eq!(
        ledger.make(&maker, &mint_a, &mint_b, &mut maker_ata_a, 1, 10, 501),
        Err(ProgramError::InsufficientFunds)
    );
    assert_eq!(ledger.offers.len(), 0);
    assert_eq!(maker_ata_a.amount, 500);
}

#[test]
fn take_on_absent_offer_and_wrong_mints_fails() {
    let maker_key = key(1);
    let taker_key = key(2);
    let mint_a = key(11);
    let mint_b = key(12);
    let wrong_mint = key(13);
    let mut ledger = EscrowLedger::new();
    let maker = signer(maker_key);
    let taker = signer(taker_key);
    let mut maker_ata_a = token_account(mint_a, maker_key, 100);
    let mut taker_ata_a = token_account(mint_a, taker_key, 0);
    let mut taker_ata_b = token_account(mint_b, taker_key, 40);
    let mut maker_ata_b = token_account(mint_b, maker_key, 0);

    let r = ledger.take(
        &key(77),
        &taker,
        &maker_key,
        &mut taker_ata_a,
        &mut taker_ata_b,
        &mut maker_ata_b,
    );
    assert_eq!(r, Err(ProgramError::InvalidAccountData));

    assert_eq!(ledger.make(&maker, &mint_a, &mint_b, &mut maker_ata_a, 1, 40, 100), Ok(()));
    let escrow_key = ledger.offers[0].escrow_key;

    let mut wrong_ata_a = token_account(wrong_mint, taker_key, 0);
    let r = ledger.take(
        &escrow_key,
        &taker,
        &maker_key,
        &mut wrong_ata_a,
        &mut taker_ata_b,
        &mut maker_ata_b,
    );
    assert_eq!(r, Err(ProgramError::InvalidMintA));

    let mut wrong_ata_b = token_account(wrong_mint, taker_key, 40);
    let r = ledger.take(
        &escrow_key,
        &taker,
        &maker_key,
        &mut taker_ata_a,
        &mut wrong_ata_b,
        &mut maker_ata_b,
    );
    assert_eq!(r, Err(ProgramError::InvalidMintB));

    // Insufficient counter-funds leave the offer open.
    taker_ata_b.amount = 39;
    let r = ledger.take(
        &escrow_key,
        &taker,
        &maker_key,
        &mut taker_ata_a,
        &mut taker_ata_b,
        &mut maker_ata_b,
    );
    assert_eq!(r, Err(ProgramError::InsufficientFunds));
    assert_eq!(ledger.offers.len(), 1);
}

#[test]
fn escrow_record_round_trips_through_its_113_byte_layout() {
    let e = Escrow {
        seed: 0x0102030405060708,
        maker: key(21),
        mint_a: key(22),
        mint_b: key(23),
        receive: 9_999,
        bump: 254,
    };
    let bytes = e.to_bytes();
    assert_eq!(bytes.len(), ESCROW_LEN);
    assert_eq!(bytes.len(), 113);
    // seed is little-endian at the front, the proof byte at the end.
    assert_eq!(bytes[0], 8);
    assert_eq!(bytes[7], 1);
    assert_eq!(bytes[112], 254);
    let decoded = Escrow::load(bytes.as_slice()).unwrap();
    assert_eq!(decoded, e);

    let short = vec![0u8; 112];
    assert_eq!(Escrow::load(short.as_slice()), Err(ProgramError::InvalidAccountData));
    let long = vec![0u8; 114];
    assert_eq!(Escrow::load(long.as_slice()), Err(ProgramError::InvalidAccountData));
}

#[test]
fn escrow_setters_populate_every_field() {
    let mut e = Escrow { seed: 0, maker: key(0), mint_a: key(0), mint_b: key(0), receive: 0, bump: 0 };
    e.set_seed(5);
    e.set_maker(key(1));
    e.set_mint_a(key(2));
    e.set_mint_b(key(3));
    e.set_receive(77);
    e.set_bump(255);
    assert_eq!(e.seed, 5);
    assert_eq!(e.maker, key(1));
    assert_eq!(e.mint_a, key(2));
    assert_eq!(e.mint_b, key(3));
    assert_eq!(e.receive, 77);
    assert_eq!(e.bump, 255);
    let mut f = Escrow { seed: 0, maker: key(0), mint_a: key(0), mint_b: key(0), receive: 0, bump: 0 };
    f.set_inner(5, key(1), key(2), key(3), 77, 255);
    assert_eq!(f, e);
}

#[test]
fn pubkey_round_trips_through_bytes() {
    let k = key(12345);
    let bytes = k.to_bytes();
    assert_eq!(bytes.len(), 32);
    let back = Pubkey::from_bytes(bytes.as_slice());
    assert_eq!(back, k);
}

#[test]
fn derivation_is_deterministic_and_seed_sensitive() {
    let maker = key(5);
    let a = derive_escrow_address(&maker, 1).unwrap();
    let b = derive_escrow_address(&maker, 1).unwrap();
    let c = derive_escrow_address(&maker, 2).unwrap();
    assert_eq!(a, b);
    assert_ne!(a.0, c.0);
    // The derived authority differs from every seed input.
    assert_ne!(a.0, maker);

    // Re-deriving with the returned proof byte reconstructs the address.
    let rebuilt = reconstruct_escrow_address(&maker, 1, a.1).unwrap();
    assert_eq!(rebuilt, a.0);

    let cap = reconstruct_and_sign(&maker, 1, a.1, &a.0).unwrap();
    assert_eq!(cap.address, a.0);
    // A mismatched expected address is refused.
    assert_eq!(
        reconstruct_and_sign(&maker, 2, c.1, &a.0).map(|c| c.address),
        Err(ProgramError::InvalidAccountOwner)
    );
}

#[test]
fn signer_check_accepts_signers_only() {
    let mut a = signer(key(1));
    assert_eq!(SignerAccount::check(&a), Ok(()));
    a.is_signer = false;
    assert_eq!(SignerAccount::check(&a), Err(ProgramError::MissingRequiredSignature));
}

#[test]
fn mint_and_token_checks_validate_owner_and_shape() {
    let m = AccountView {
        key: key(1),
        owner: token_program_id(),
        lamports: 0,
        data: vec![0u8; 82],
        is_signer: false,
    };
    assert_eq!(MintInterface::check(&m), Ok(()));
    assert_eq!(Mint2022::check(&m), Err(ProgramError::IllegalOwner));

    let mut m22 = AccountView { owner: token_2022_program_id(), ..m };
    assert_eq!(Mint2022::check(&m22), Ok(()));
    assert_eq!(MintInterface::check(&m22), Ok(()));
    // An extended-program descriptor longer than the base layout needs
    // the descriptor kind byte at position 165.
    m22.data = vec![0u8; 166];
    assert_eq!(Mint2022::check(&m22), Err(ProgramError::InvalidAccountData));
    m22.data[165] = 1;
    assert_eq!(Mint2022::check(&m22), Ok(()));
    assert_eq!(Token2022::check(&m22), Err(ProgramError::InvalidAccountData));
    m22.data[165] = 2;
    assert_eq!(Token2022::check(&m22), Ok(()));
    assert_eq!(TokenInterface::check(&m22), Ok(()));

    let t = AccountView {
        key: key(2),
        owner: token_program_id(),
        lamports: 0,
        data: vec![0u8; 165],
        is_signer: false,
    };
    assert_eq!(TokenInterface::check(&t), Ok(()));
    let wrong_len = AccountView { data: vec![0u8; 164], ..t };
    assert_eq!(TokenInterface::check(&wrong_len), Err(ProgramError::InvalidAccountData));
    let foreign = AccountView { owner: key(3), data: vec![0u8; 165], ..wrong_len };
    assert_eq!(TokenInterface::check(&foreign), Err(ProgramError::IllegalOwner));
}

#[test]
fn program_account_check_wants_this_programs_records() {
    let rec = AccountView {
        key: key(1),
        owner: program_id(),
        lamports: 0,
        data: vec![0u8; 113],
        is_signer: false,
    };
    assert_eq!(ProgramAccount::check(&rec), Ok(()));
    let wrong_owner = AccountView { owner: key(2), data: vec![0u8; 113], ..rec };
    assert_eq!(ProgramAccount::check(&wrong_owner), Err(ProgramError::IllegalOwner));
    let wrong_len = AccountView { owner: program_id(), data: vec![0u8; 114], ..wrong_owner };
    assert_eq!(ProgramAccount::check(&wrong_len), Err(ProgramError::InvalidAccountData));
}

#[test]
fn ata_check_binds_account_to_its_derived_address() {
    let owner_key = key(4);
    let mint_key = key(5);
    let owner = signer(owner_key);
    let mint = AccountView {
        key: mint_key,
        owner: token_program_id(),
        lamports: 0,
        data: vec![0u8; 82],
        is_signer: false,
    };
    let token_program = AccountView {
        key: token_program_id(),
        owner: key(999),
        lamports: 0,
        data: Vec::new(),
        is_signer: false,
    };
    let (derived, _bump) =
        derive_ata_address(&owner_key, &token_program_id(), &mint_key).unwrap();
    assert_ne!(derived, owner_key);
    let good = AccountView {
        key: derived,
        owner: token_program_id(),
        lamports: 0,
        data: vec![0u8; 165],
        is_signer: false,
    };
    assert_eq!(AssociatedTokenAccount::check(&good, &owner, &mint, &token_program), Ok(()));
    let elsewhere = AccountView { key: key(6), data: vec![0u8; 165], ..good };
    assert_eq!(
        AssociatedTokenAccount::check(&elsewhere, &owner, &mint, &token_program),
        Err(ProgramError::InvalidSeeds)
    );
}

#[test]
fn token_account_state_parses_its_byte_layout() {
    let mint = key(7);
    let owner = key(8);
    let mut bytes = Vec::new();
    bytes.extend_from_slice(&mint.to_bytes());
    bytes.extend_from_slice(&owner.to_bytes());
    bytes.extend_from_slice(&42_u64.to_le_bytes());
    bytes.resize(165, 0);
    let t = TokenAccountState::from_bytes(bytes.as_slice()).unwrap();
    assert_eq!(t, TokenAccountState { mint, owner, amount: 42 });
    bytes.push(0);
    assert_eq!(
        TokenAccountState::from_bytes(bytes.as_slice()),
        Err(ProgramError::InvalidAccountData)
    );
}

#[test]
fn token_transfer_moves_funds_and_reports_each_failure() {
    let mint = key(1);
    let alice = key(2);
    let bob = key(3);
    let mut from = token_account(mint, alice, 100);
    let mut to = token_account(mint, bob, 10);
    assert_eq!(token_transfer(&mut from, &mut to, &alice, true, 60), Ok(()));
    assert_eq!(from.amount, 40);
    assert_eq!(to.amount, 70);

    assert_eq!(
        token_transfer(&mut from, &mut to, &alice, false, 1),
        Err(ProgramError::MissingRequiredSignature)
    );
    assert_eq!(
        token_transfer(&mut from, &mut to, &bob, true, 1),
        Err(ProgramError::IllegalOwner)
    );
    assert_eq!(
        token_transfer(&mut from, &mut to, &alice, true, 41),
        Err(ProgramError::InsufficientFunds)
    );
    let mut other = token_account(key(9), bob, 0);
    assert_eq!(
        token_transfer(&mut from, &mut other, &alice, true, 1),
        Err(ProgramError::InvalidAccountData)
    );
    let mut brim = token_account(mint, bob, u64::MAX);
    assert_eq!(
        token_transfer(&mut from, &mut brim, &alice, true, 1),
        Err(ProgramError::ArithmeticOverflow)
    );
    assert_eq!(from.amount, 40);
}

#[test]
fn pinocchio_error_maps_into_program_error() {
    assert_eq!(
        ProgramError::from(PinocchioError::NotSigner),
        ProgramError::MissingRequiredSignature
    );
    assert_eq!(ProgramError::from(PinocchioError::InvalidOwner), ProgramError::IllegalOwner);
    assert_eq!(
        ProgramError::from(PinocchioError::InvalidAccountData),
        ProgramError::InvalidAccountData
    );
    assert_eq!(ProgramError::from(PinocchioError::InvalidAddress), ProgramError::InvalidSeeds);
}

#[test]
fn program_ids_differ_from_one_another() {
    assert_ne!(program_id(), token_program_id());
    assert_ne!(token_program_id(), token_2022_program_id());
    assert_ne!(ata_program_id(), program_id());
}
