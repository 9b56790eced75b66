use custody::account::{bytes_eq, AccountView};
use custody::ops::TokenOp;
use custody::derive::find_program_address;
use custody::errors::{PinocchioError, ProgramError};
use custody::validate::{
    AssociatedTokenAccount, MintInterface, ProgramAccount, SignerAccount, TokenAccount, MINT_LEN,
    TOKEN_ACCOUNT_LEN,
};

fn key(n: u8) -> Vec<u8> {
    vec![n; 32]
}

fn token_program_id() -> Vec<u8> {
    pinocchio_token::ID.to_bytes().to_vec()
}

fn ata_program_id() -> Vec<u8> {
    pinocchio_associated_token_account::ID.to_bytes().to_vec()
}

fn extended_token_program_id() -> Vec<u8> {
    // The extended token standard's program address.
    let mut id = key(0);
    id.copy_from_slice(
        solana_address::Address::from_str_const("TokenzQdBNbLqP5VEhdkAS6EPFLC1PHnBqCXEpPxuEb")
            .as_array(),
    );
    id
}

fn acct(key: Vec<u8>, owner: Vec<u8>, is_signer: bool, data: Vec<u8>) -> AccountView {
    AccountView {
        key,
        owner,
        is_signer,
        data,
    }
}

fn token_data(amount: u64) -> Vec<u8> {
    let mut data = vec![0u8; TOKEN_ACCOUNT_LEN];
    data[64..72].copy_from_slice(&amount.to_le_bytes());
    data
}

#[test]
fn signer_check_requires_signature() {
    let signed = acct(key(1), key(2), true, vec![]);
    let unsigned = acct(key(1), key(2), false, vec![]);
    assert_eq!(SignerAccount::check(&signed), Ok(()));
    assert_eq!(
        SignerAccount::check(&unsigned),
        Err(ProgramError::MissingRequiredSignature)
    );
}

#[test]
fn program_account_check_owner_then_length() {
    let pid = key(9);
    let good = acct(key(1), pid.clone(), false, vec![0u8; 113]);
    assert_eq!(ProgramAccount::check(&good, &pid), Ok(()));
    let foreign = acct(key(1), key(8), false, vec![0u8; 113]);
    assert_eq!(
        ProgramAccount::check(&foreign, &pid),
        Err(ProgramError::InvalidAccountOwner)
    );
    let short = acct(key(1), pid.clone(), false, vec![0u8; 112]);
    assert_eq!(
        ProgramAccount::check(&short, &pid),
        Err(ProgramError::Custom(
            PinocchioError::InvalidAccountData.code()
        ))
    );
}

#[test]
fn mint_check_accepts_both_standards() {
    let token = token_program_id();
    let ext = extended_token_program_id();
    let classic = acct(key(1), token.clone(), false, vec![0u8; MINT_LEN]);
    assert_eq!(MintInterface::check(&classic, &token, &ext), Ok(()));
    let mut extended_data = vec![0u8; 200];
    extended_data[165] = 1;
    let extended = acct(key(1), ext.clone(), false, extended_data);
    assert_eq!(MintInterface::check(&extended, &token, &ext), Ok(()));
    let exact_extended = acct(key(1), ext.clone(), false, vec![0u8; MINT_LEN]);
    assert_eq!(MintInterface::check(&exact_extended, &token, &ext), Ok(()));
}

#[test]
fn mint_check_rejects_forgeries() {
    let token = token_program_id();
    let ext = extended_token_program_id();
    let foreign = acct(key(1), key(7), false, vec![0u8; MINT_LEN]);
    assert_eq!(
        MintInterface::check(&foreign, &token, &ext),
        Err(ProgramError::InvalidAccountOwner)
    );
    let wrong_len = acct(key(1), token.clone(), false, vec![0u8; 81]);
    assert_eq!(
        MintInterface::check(&wrong_len, &token, &ext),
        Err(ProgramError::InvalidAccountData)
    );
    let mut not_a_mint = vec![0u8; 200];
    not_a_mint[165] = 2; // token-account discriminator, not a mint
    let wrong_disc = acct(key(1), ext.clone(), false, not_a_mint);
    assert_eq!(
        MintInterface::check(&wrong_disc, &token, &ext),
        Err(ProgramError::InvalidAccountData)
    );
    let too_short = acct(key(1), ext.clone(), false, vec![0u8; 100]);
    assert_eq!(
        MintInterface::check(&too_short, &token, &ext),
        Err(ProgramError::InvalidAccountData)
    );
}

#[test]
fn token_account_check_and_amount() {
    let token = token_program_id();
    let good = acct(key(1), token.clone(), false, token_data(123_456));
    assert_eq!(TokenAccount::check(&good, &token), Ok(()));
    assert_eq!(TokenAccount::get_amount(&good, &token), Ok(123_456));
    let foreign = acct(key(1), key(3), false, token_data(1));
    assert_eq!(
        TokenAccount::check(&foreign, &token),
        Err(ProgramError::Custom(PinocchioError::InvalidOwner.code()))
    );
    let short = acct(key(1), token.clone(), false, vec![0u8; 164]);
    assert_eq!(
        TokenAccount::get_amount(&short, &token),
        Err(ProgramError::Custom(
            PinocchioError::InvalidAccountData.code()
        ))
    );
}

#[test]
fn derivation_matches_the_ledger_function() {
    let program_id = key(11);
    let seeds = vec![b"escrow".to_vec(), key(5)];
    let ours = find_program_address(&seeds, &program_id).unwrap();
    let pid = solana_address::Address::try_from(program_id.as_slice()).unwrap();
    let theirs = solana_address::Address::find_program_address(
        &[b"escrow", key(5).as_slice()],
        &pid,
    );
    assert_eq!(ours.0, theirs.0.to_bytes().to_vec());
    assert_eq!(ours.1, theirs.1);
    // The derived address is an actual derivation, not an echo of a seed.
    assert_ne!(ours.0, key(5));
    let created = solana_address::Address::create_program_address(
        &[b"escrow", key(5).as_slice(), &[ours.1]],
        &pid,
    )
    .unwrap();
    assert_eq!(created.to_bytes().to_vec(), ours.0);
}

#[test]
fn ata_check_rejects_substituted_accounts() {
    let token = token_program_id();
    let ata_id = ata_program_id();
    let authority = acct(key(21), key(0), false, vec![]);
    let mint = acct(key(22), token.clone(), false, vec![0u8; MINT_LEN]);
    let seeds = vec![key(21), token.clone(), key(22)];
    let (derived, _bump) = find_program_address(&seeds, &ata_id).unwrap();
    let genuine = acct(derived.clone(), token.clone(), false, token_data(5));
    assert_eq!(
        AssociatedTokenAccount::check(&genuine, &authority, &mint, &token, &ata_id),
        Ok(())
    );
    let forged = acct(key(23), token.clone(), false, token_data(5));
    assert_eq!(
        AssociatedTokenAccount::check(&forged, &authority, &mint, &token, &ata_id),
        Err(ProgramError::Custom(PinocchioError::InvalidAddress.code()))
    );
    assert!(bytes_eq(&derived, &derived));
}

#[test]
fn init_if_needed_creates_only_when_check_fails() {
    let token = token_program_id();
    let ata_id = ata_program_id();
    let owner = acct(key(31), key(0), true, vec![]);
    let mint = acct(key(32), token.clone(), false, vec![0u8; MINT_LEN]);
    let seeds = vec![key(31), token.clone(), key(32)];
    let (derived, _) = find_program_address(&seeds, &ata_id).unwrap();
    let existing = acct(derived.clone(), token.clone(), false, token_data(5));
    assert!(AssociatedTokenAccount::init_if_needed(
        &existing, &mint, &owner, &owner, &token, &ata_id
    )
    .is_none());
    // Right address, but not yet a token account: must be created.
    let absent = acct(derived.clone(), vec![0u8; 32], false, vec![]);
    let op = AssociatedTokenAccount::init_if_needed(&absent, &mint, &owner, &owner, &token, &ata_id)
        .unwrap();
    match op {
        custody::ops::TokenOp::CreateAssociatedAccount {
            account,
            owner: o,
            mint: m,
            payer,
        } => {
            assert_eq!(account, derived);
            assert_eq!(o, key(31));
            assert_eq!(m, key(32));
            assert_eq!(payer, key(31));
        }
        _ => panic!("expected an associated-account creation"),
    }
}

#[test]
fn program_account_movement_constructors() {
    let payer = acct(key(41), key(0), true, vec![]);
    let record = acct(key(42), key(9), false, vec![0u8; 113]);
    let heir = acct(key(43), key(0), false, vec![]);
    assert_eq!(
        ProgramAccount::close(&record, &heir),
        TokenOp::CloseProgramAccount {
            account: key(42),
            destination: key(43),
        }
    );
    assert_eq!(
        ProgramAccount::init(&payer, &record, &key(9), 113),
        TokenOp::CreateAccount {
            account: key(42),
            owner: key(9),
            payer: key(41),
            space: 113,
        }
    );
}

#[test]
fn escrow_error_codes_surface_as_custom_errors() {
    assert_eq!(PinocchioError::InvalidInstruction.code(), 0);
    assert_eq!(PinocchioError::InvalidOwner.code(), 1);
    assert_eq!(PinocchioError::UninitializedAccount.code(), 2);
    assert_eq!(PinocchioError::InvalidAccountData.code(), 3);
    assert_eq!(PinocchioError::MintCheckFailed.code(), 4);
    assert_eq!(PinocchioError::AtaCheckFailed.code(), 5);
    assert_eq!(PinocchioError::InvalidPda.code(), 6);
    assert_eq!(PinocchioError::InvalidAddress.code(), 7);
    assert_eq!(
        ProgramError::from(PinocchioError::InvalidPda),
        ProgramError::Custom(6)
    );
}
