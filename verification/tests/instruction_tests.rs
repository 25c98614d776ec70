use escrow::accounts::AccountView;
use escrow::errors::ProgramError;
use escrow::instructions::parse_instruction;
use escrow::instructions::EscrowInstruction;
use escrow::instructions::MakeAccounts;
use escrow::instructions::MakeInstructionData;
use escrow::instructions::RefundAccounts;
use escrow::instructions::TakeAccounts;
use escrow::keys::program_id;
use escrow::keys::token_program_id;
use escrow::keys::Pubkey;
use escrow::pda::derive_ata_address;

fn key(n: u64) -> Pubkey {
    Pubkey { w0: n, w1: 100 + n, w2: 200 + n, w3: 300 + n }
}

fn make_payload(seed: u64, receive: u64, amount: u64) -> Vec<u8> {
    let mut d = Vec::new();
    d.extend_from_slice(&seed.to_le_bytes());
    d.extend_from_slice(&receive.to_le_bytes());
    d.extend_from_slice(&amount.to_le_bytes());
    d
}

#[test]
fn make_payload_parses_three_amounts() {
    let d = make_payload(7, 500, 1000);
    assert_eq!(
        MakeInstructionData::try_from(d.as_slice()),
        Ok(MakeInstructionData { seed: 7, receive: 500, amount: 1000 })
    );

    // A zero deposit amount is rejected at the payload already.
    let zero = make_payload(7, 500, 0);
    assert_eq!(
        MakeInstructionData::try_from(zero.as_slice()),
        Err(ProgramError::InvalidInstructionData)
    );

    // Any length other than 24 bytes is rejected.
    let short = vec![0u8; 23];
    assert_eq!(
        MakeInstructionData::try_from(short.as_slice()),
        Err(ProgramError::InvalidInstructionData)
    );
    let long = vec![0u8; 25];
    assert_eq!(
        MakeInstructionData::try_from(long.as_slice()),
        Err(ProgramError::InvalidInstructionData)
    );
}

#[test]
fn dispatcher_routes_on_the_leading_tag() {
    let mut make_bytes = vec![0u8];
    make_bytes.extend_from_slice(&make_payload(1, 2, 3));
    assert_eq!(
        parse_instruction(make_bytes.as_slice()),
        Ok(EscrowInstruction::Make(MakeInstructionData { seed: 1, receive: 2, amount: 3 }))
    );
    assert_eq!(parse_instruction(&[1u8]), Ok(EscrowInstruction::Take));
    assert_eq!(parse_instruction(&[2u8]), Ok(EscrowInstruction::Refund));
    assert_eq!(parse_instruction(&[3u8]), Err(ProgramError::InvalidInstructionData));
    assert_eq!(parse_instruction(&[]), Err(ProgramError::InvalidInstructionData));
    // A make tag with a malformed payload is rejected.
    assert_eq!(parse_instruction(&[0u8, 1, 2]), Err(ProgramError::InvalidInstructionData));
}

fn plain(k: Pubkey) -> AccountView {
    AccountView { key: k, owner: key(999), lamports: 0, data: Vec::new(), is_signer: false }
}

fn mint(k: Pubkey) -> AccountView {
    AccountView { key: k, owner: token_program_id(), lamports: 0, data: vec![0u8; 82], is_signer: false }
}

fn token(k: Pubkey) -> AccountView {
    AccountView { key: k, owner: token_program_id(), lamports: 0, data: vec![0u8; 165], is_signer: false }
}

fn record(k: Pubkey) -> AccountView {
    AccountView { key: k, owner: program_id(), lamports: 0, data: vec![0u8; 113], is_signer: false }
}

#[test]
fn make_accounts_validate_and_keep_their_order() {
    let maker_key = key(1);
    let mint_a_key = key(2);
    let mut maker = plain(maker_key);
    maker.is_signer = true;
    let (maker_ata_key, _) =
        derive_ata_address(&maker_key, &token_program_id(), &mint_a_key).unwrap();
    let accounts = vec![
        maker,
        plain(key(10)),
        mint(mint_a_key),
        mint(key(3)),
        token(maker_ata_key),
        token(key(11)),
        plain(key(12)),
        plain(token_program_id()),
        plain(key(13)),
    ];
    let parsed = MakeAccounts::try_from(accounts).unwrap();
    assert_eq!(parsed.maker.key, maker_key);
    assert_eq!(parsed.mint_a.key, mint_a_key);
    assert_eq!(parsed.maker_ata_a.key, maker_ata_key);
    assert_eq!(parsed.vault.key, key(11));
    assert_eq!(parsed.token_program.key, token_program_id());

    // Too few accounts.
    let too_few = vec![plain(key(1)), plain(key(2))];
    assert!(matches!(
        MakeAccounts::try_from(too_few),
        Err(ProgramError::NotEnoughAccountKeys)
    ));

    // An unsigned maker.
    let mut unsigned = vec![
        plain(maker_key),
        plain(key(10)),
        mint(mint_a_key),
        mint(key(3)),
        token(maker_ata_key),
        token(key(11)),
        plain(key(12)),
        plain(token_program_id()),
        plain(key(13)),
    ];
    unsigned[0].is_signer = false;
    assert!(matches!(
        MakeAccounts::try_from(unsigned),
        Err(ProgramError::MissingRequiredSignature)
    ));
}

#[test]
fn take_accounts_validate_record_and_derived_vault() {
    let taker_key = key(1);
    let maker_key = key(2);
    let escrow_key = key(3);
    let mint_a_key = key(4);
    let mint_b_key = key(5);
    let mut taker = plain(taker_key);
    taker.is_signer = true;
    let (taker_ata_b_key, _) =
        derive_ata_address(&taker_key, &token_program_id(), &mint_b_key).unwrap();
    let (vault_key, _) =
        derive_ata_address(&escrow_key, &token_program_id(), &mint_a_key).unwrap();
    let accounts = vec![
        taker,
        plain(maker_key),
        record(escrow_key),
        mint(mint_a_key),
        mint(mint_b_key),
        token(vault_key),
        token(key(6)),
        token(taker_ata_b_key),
        token(key(7)),
        plain(key(8)),
        plain(token_program_id()),
        plain(key(9)),
    ];
    let parsed = TakeAccounts::try_from(accounts).unwrap();
    assert_eq!(parsed.taker.key, taker_key);
    assert_eq!(parsed.escrow.key, escrow_key);
    assert_eq!(parsed.vault.key, vault_key);
    assert_eq!(parsed.taker_ata_b.key, taker_ata_b_key);
    assert_eq!(parsed.maker_ata_b.key, key(7));

    // A record account owned by another program is refused.
    let mut taker2 = plain(taker_key);
    taker2.is_signer = true;
    let bad = vec![
        taker2,
        plain(maker_key),
        plain(escrow_key),
        mint(mint_a_key),
        mint(mint_b_key),
        token(vault_key),
        token(key(6)),
        token(taker_ata_b_key),
        token(key(7)),
        plain(key(8)),
        plain(token_program_id()),
        plain(key(9)),
    ];
    assert!(matches!(TakeAccounts::try_from(bad), Err(ProgramError::IllegalOwner)));
}

#[test]
fn refund_accounts_validate_signer_record_and_mint() {
    let maker_key = key(1);
    let mut maker = plain(maker_key);
    maker.is_signer = true;
    let accounts = vec![
        maker,
        record(key(2)),
        mint(key(3)),
        token(key(4)),
        token(key(5)),
        plain(key(6)),
        plain(token_program_id()),
        plain(key(7)),
    ];
    let parsed = RefundAccounts::try_from(accounts).unwrap();
    assert_eq!(parsed.maker.key, maker_key);
    assert_eq!(parsed.escrow.key, key(2));
    assert_eq!(parsed.maker_ata_a.key, key(5));

    let mut maker2 = plain(maker_key);
    maker2.is_signer = true;
    let bad_mint = vec![
        maker2,
        record(key(2)),
        plain(key(3)),
        token(key(4)),
        token(key(5)),
        plain(key(6)),
        plain(token_program_id()),
        plain(key(7)),
    ];
    assert!(matches!(RefundAccounts::try_from(bad_mint), Err(ProgramError::IllegalOwner)));
}
