use custody::account::AccountView;
use custody::amm::{
    AmmState, Config, Initialize, Swap, SwapQuoteInput, Withdraw, WithdrawQuoteInput,
};
use custody::derive::find_program_address;
use custody::errors::{PinocchioError, ProgramError, ProtocolError};
use custody::escrow::{Escrow, Refund, Take};
use custody::flash::{
    borrow, borrow_discriminator, loan_fee, parse_instruction_at, repay, repay_discriminator,
    FlashError,
};
use custody::ops::TokenOp;
use custody::validate::MINT_LEN;

fn key(n: u8) -> Vec<u8> {
    vec![n; 32]
}

fn token_program_id() -> Vec<u8> {
    pinocchio_token::ID.to_bytes().to_vec()
}

fn ata_program_id() -> Vec<u8> {
    pinocchio_associated_token_account::ID.to_bytes().to_vec()
}

fn ext_token_program_id() -> Vec<u8> {
    solana_address::Address::from_str_const("TokenzQdBNbLqP5VEhdkAS6EPFLC1PHnBqCXEpPxuEb")
        .to_bytes()
        .to_vec()
}

fn acct(key: Vec<u8>, owner: Vec<u8>, is_signer: bool, data: Vec<u8>) -> AccountView {
    AccountView {
        key,
        owner,
        is_signer,
        data,
    }
}

fn token_data(amount: u64) -> Vec<u8> {
    let mut data = vec![0u8; 165];
    data[64..72].copy_from_slice(&amount.to_le_bytes());
    data
}

fn mint_data(supply: u64) -> Vec<u8> {
    let mut data = vec![0u8; MINT_LEN];
    data[36..44].copy_from_slice(&supply.to_le_bytes());
    data
}

fn ata_of(owner: &[u8], mint: &[u8]) -> Vec<u8> {
    let seeds = vec![owner.to_vec(), token_program_id(), mint.to_vec()];
    find_program_address(&seeds, &ata_program_id()).unwrap().0
}

fn transfer_of(op: &TokenOp) -> (Vec<u8>, Vec<u8>, Vec<u8>, u64) {
    match op {
        TokenOp::Transfer {
            from,
            to,
            authority,
            amount,
        } => (from.clone(), to.clone(), authority.clone(), *amount),
        _ => panic!("expected a transfer"),
    }
}

struct EscrowScene {
    program_id: Vec<u8>,
    accounts: Vec<AccountView>,
}

fn take_scene(record_seed: u64) -> EscrowScene {
    let program_id = key(90);
    let token = token_program_id();
    let maker = key(1);
    let taker = key(2);
    let mint_a = key(3);
    let mint_b = key(4);
    let escrow_seeds = vec![b"escrow".to_vec(), maker.clone(), 7u64.to_le_bytes().to_vec()];
    let (escrow_key, bump) = find_program_address(&escrow_seeds, &program_id).unwrap();
    let record = Escrow {
        seed: record_seed,
        maker: maker.clone(),
        mint_a: mint_a.clone(),
        mint_b: mint_b.clone(),
        receive: 250,
        bump,
    }
    .encode();
    let vault_key = ata_of(&escrow_key, &mint_a);
    let accounts = vec![
        acct(taker.clone(), key(0), true, vec![]),
        acct(maker.clone(), key(0), false, vec![]),
        acct(escrow_key.clone(), program_id.clone(), false, record),
        acct(mint_a.clone(), token.clone(), false, vec![0u8; MINT_LEN]),
        acct(mint_b.clone(), token.clone(), false, vec![0u8; MINT_LEN]),
        acct(vault_key, token.clone(), false, token_data(900)),
        acct(ata_of(&taker, &mint_a), token.clone(), false, token_data(0)),
        acct(ata_of(&taker, &mint_b), token.clone(), false, token_data(300)),
        acct(ata_of(&maker, &mint_b), token.clone(), false, token_data(0)),
        acct(key(10), key(0), false, vec![]),
        acct(token.clone(), key(0), false, vec![]),
        acct(key(11), key(0), false, vec![]),
    ];
    EscrowScene {
        program_id,
        accounts,
    }
}

#[test]
fn take_settles_whole_vault_and_exact_receive() {
    let scene = take_scene(7);
    let token = token_program_id();
    let take = Take::try_from_accounts(
        &scene.accounts,
        &scene.program_id,
        &token,
        &ext_token_program_id(),
        &ata_program_id(),
    )
    .unwrap();
    assert!(take.setup.is_empty());
    let plan = take.process(&scene.program_id, &token).unwrap();
    assert_eq!(plan.len(), 4);
    let (from, to, authority, amount) = transfer_of(&plan[0]);
    assert_eq!(from, scene.accounts[5].key);
    assert_eq!(to, scene.accounts[6].key);
    assert_eq!(authority, scene.accounts[2].key);
    assert_eq!(amount, 900);
    let (from2, to2, _, amount2) = transfer_of(&plan[1]);
    assert_eq!(from2, scene.accounts[7].key);
    assert_eq!(to2, scene.accounts[8].key);
    assert_eq!(amount2, 250);
    assert!(matches!(&plan[2], TokenOp::CloseTokenAccount { .. }));
    assert!(matches!(&plan[3], TokenOp::CloseProgramAccount { .. }));
}

#[test]
fn take_rejects_spoofed_escrow_before_any_movement() {
    // The record claims a different seed, so the account's address no longer
    // matches the derivation.
    let scene = take_scene(8);
    let token = token_program_id();
    let take = Take::try_from_accounts(
        &scene.accounts,
        &scene.program_id,
        &token,
        &ext_token_program_id(),
        &ata_program_id(),
    )
    .unwrap();
    assert_eq!(
        take.process(&scene.program_id, &token),
        Err(ProgramError::InvalidAccountOwner)
    );
}

#[test]
fn take_rejects_unsigned_taker() {
    let mut scene = take_scene(7);
    scene.accounts[0].is_signer = false;
    let r = Take::try_from_accounts(
        &scene.accounts,
        &scene.program_id,
        &token_program_id(),
        &ext_token_program_id(),
        &ata_program_id(),
    );
    assert!(matches!(r, Err(ProgramError::MissingRequiredSignature)));
}

#[test]
fn take_rejects_substituted_vault() {
    let mut scene = take_scene(7);
    scene.accounts[5].key = key(55);
    let r = Take::try_from_accounts(
        &scene.accounts,
        &scene.program_id,
        &token_program_id(),
        &ext_token_program_id(),
        &ata_program_id(),
    );
    assert_eq!(
        r.err().unwrap(),
        ProgramError::Custom(PinocchioError::InvalidAddress.code())
    );
}

#[test]
fn refund_returns_whole_vault_without_any_mint_b_movement() {
    let program_id = key(90);
    let token = token_program_id();
    let maker = key(1);
    let mint_a = key(3);
    let escrow_seeds = vec![b"escrow".to_vec(), maker.clone(), 7u64.to_le_bytes().to_vec()];
    let (escrow_key, bump) = find_program_address(&escrow_seeds, &program_id).unwrap();
    let record = Escrow {
        seed: 7,
        maker: maker.clone(),
        mint_a: mint_a.clone(),
        mint_b: key(4),
        receive: 250,
        bump,
    }
    .encode();
    let vault_key = ata_of(&escrow_key, &mint_a);
    let maker_ata_a = ata_of(&maker, &mint_a);
    let accounts = vec![
        acct(maker.clone(), key(0), true, vec![]),
        acct(escrow_key.clone(), program_id.clone(), false, record),
        acct(mint_a.clone(), token.clone(), false, vec![0u8; MINT_LEN]),
        acct(vault_key.clone(), token.clone(), false, token_data(900)),
        acct(maker_ata_a.clone(), token.clone(), false, token_data(0)),
        acct(key(10), key(0), false, vec![]),
        acct(token.clone(), key(0), false, vec![]),
        acct(ata_program_id(), key(0), false, vec![]),
    ];
    let refund = Refund::try_from_accounts(
        &accounts,
        &token,
        &ext_token_program_id(),
        &ata_program_id(),
    )
    .unwrap();
    assert!(refund.setup.is_empty());
    let plan = refund.process(&program_id, &token).unwrap();
    assert_eq!(plan.len(), 3);
    let (from, to, _, amount) = transfer_of(&plan[0]);
    assert_eq!(from, vault_key);
    assert_eq!(to, maker_ata_a);
    assert_eq!(amount, 900);
    // The one and only transfer moves the vault's own funds: nothing of
    // `mint_b` moves in a refund.
    let transfers = plan
        .iter()
        .filter(|op| matches!(op, TokenOp::Transfer { .. }))
        .count();
    assert_eq!(transfers, 1);
}

struct SwapScene {
    accounts: Vec<AccountView>,
}

fn swap_scene(state: AmmState) -> SwapScene {
    let token = token_program_id();
    let config_key = key(40);
    let record = Config {
        seed: 5,
        authority: key(0),
        mint_x: key(3),
        mint_y: key(4),
        fee: 30,
        config_bump: 250,
        state,
    }
    .encode();
    let vault_x = ata_of(&config_key, &key(3));
    let vault_y = ata_of(&config_key, &key(4));
    let accounts = vec![
        acct(key(20), key(0), true, vec![]),
        acct(key(21), token.clone(), false, token_data(10)),
        acct(key(22), token.clone(), false, token_data(10)),
        acct(vault_x, token.clone(), false, token_data(1000)),
        acct(vault_y, token.clone(), false, token_data(2000)),
        acct(config_key, key(90), false, record),
        acct(token.clone(), key(0), false, vec![]),
    ];
    SwapScene { accounts }
}

fn swap_data(is_x: bool, amount: u64, min: u64, expiration: i64) -> Vec<u8> {
    let mut data = vec![0u8; 25];
    data[0] = if is_x { 1 } else { 0 };
    data[1..9].copy_from_slice(&amount.to_le_bytes());
    data[9..17].copy_from_slice(&min.to_le_bytes());
    data[17..25].copy_from_slice(&(expiration as u64).to_le_bytes());
    data
}

#[test]
fn swap_prepare_reads_reserves_and_fee() {
    let scene = swap_scene(AmmState::Initialized);
    let swap = Swap::try_from_accounts(&swap_data(true, 100, 150, 99), &scene.accounts, 99).unwrap();
    let quote = swap.prepare(&ata_program_id()).unwrap();
    assert_eq!(
        quote,
        SwapQuoteInput {
            reserve_x: 1000,
            reserve_y: 2000,
            lp_proxy: 1000,
            fee: 30
        }
    );
}

#[test]
fn swap_orders_deposit_before_withdrawal() {
    let scene = swap_scene(AmmState::Initialized);
    let swap = Swap::try_from_accounts(&swap_data(true, 100, 150, 99), &scene.accounts, 99).unwrap();
    let plan = swap.settle(Some((100, 190))).unwrap();
    let (from, to, authority, amount) = transfer_of(&plan[0]);
    assert_eq!((from, to), (key(21), scene.accounts[3].key.clone()));
    assert_eq!((authority, amount), (key(20), 100));
    let (from2, to2, authority2, amount2) = transfer_of(&plan[1]);
    assert_eq!((from2, to2), (scene.accounts[4].key.clone(), key(22)));
    assert_eq!((authority2, amount2), (scene.accounts[5].key.clone(), 190));
    // Opposite direction swaps the legs.
    let swap_back =
        Swap::try_from_accounts(&swap_data(false, 190, 90, 99), &scene.accounts, 99).unwrap();
    let back = swap_back.settle(Some((190, 100))).unwrap();
    let (from3, _, _, amount3) = transfer_of(&back[0]);
    assert_eq!((from3, amount3), (key(22), 190));
}

#[test]
fn swap_enforces_minimum_output_and_nonzero_legs() {
    let scene = swap_scene(AmmState::Initialized);
    let swap = Swap::try_from_accounts(&swap_data(true, 100, 150, 99), &scene.accounts, 99).unwrap();
    assert_eq!(swap.settle(None), Err(ProgramError::Custom(1)));
    assert_eq!(swap.settle(Some((100, 90))), Err(ProgramError::Custom(1)));
    assert_eq!(
        swap.settle(Some((0, 150))),
        Err(ProgramError::InvalidArgument)
    );
}

#[test]
fn swap_rejects_uninitialized_pool_and_forged_vault() {
    let scene = swap_scene(AmmState::Uninitialized);
    let swap = Swap::try_from_accounts(&swap_data(true, 100, 150, 99), &scene.accounts, 99).unwrap();
    assert_eq!(
        swap.prepare(&ata_program_id()),
        Err(ProgramError::InvalidAccountData)
    );
    let mut forged = swap_scene(AmmState::Initialized);
    forged.accounts[3].key = key(55);
    let swap2 =
        Swap::try_from_accounts(&swap_data(true, 100, 150, 99), &forged.accounts, 99).unwrap();
    assert_eq!(
        swap2.prepare(&ata_program_id()),
        Err(ProgramError::InvalidAccountData)
    );
}

fn withdraw_data(amount: u64, min_x: u64, min_y: u64, expiration: i64) -> Vec<u8> {
    let mut data = vec![0u8; 32];
    data[0..8].copy_from_slice(&amount.to_le_bytes());
    data[8..16].copy_from_slice(&min_x.to_le_bytes());
    data[16..24].copy_from_slice(&min_y.to_le_bytes());
    data[24..32].copy_from_slice(&(expiration as u64).to_le_bytes());
    data
}

fn withdraw_scene() -> Vec<AccountView> {
    let token = token_program_id();
    let config_key = key(40);
    let record = Config {
        seed: 5,
        authority: key(0),
        mint_x: key(3),
        mint_y: key(4),
        fee: 30,
        config_bump: 250,
        state: AmmState::Initialized,
    }
    .encode();
    let vault_x = ata_of(&config_key, &key(3));
    let vault_y = ata_of(&config_key, &key(4));
    vec![
        acct(key(20), key(0), true, vec![]),
        acct(key(41), token.clone(), false, mint_data(500)),
        acct(vault_x, token.clone(), false, token_data(1000)),
        acct(vault_y, token.clone(), false, token_data(2000)),
        acct(key(24), token.clone(), false, token_data(0)),
        acct(key(25), token.clone(), false, token_data(0)),
        acct(key(26), token.clone(), false, token_data(500)),
        acct(config_key, key(90), false, record),
        acct(token.clone(), key(0), false, vec![]),
    ]
}

#[test]
fn withdraw_full_supply_returns_exact_reserves() {
    let accounts = withdraw_scene();
    let w = Withdraw::try_from_accounts(&withdraw_data(500, 1000, 2000, 99), &accounts, 99)
        .unwrap();
    let quote = w.prepare(&ata_program_id()).unwrap();
    assert_eq!(
        quote,
        WithdrawQuoteInput {
            reserve_x: 1000,
            reserve_y: 2000,
            lp_supply: 500
        }
    );
    // Full-supply redemption: exactly the reserves, the curve is not needed.
    let plan = w.settle(quote, None).unwrap();
    let (_, _, _, x) = transfer_of(&plan[0]);
    let (_, _, _, y) = transfer_of(&plan[1]);
    assert_eq!((x, y), (1000, 2000));
    match &plan[2] {
        TokenOp::Burn { amount, .. } => assert_eq!(*amount, 500),
        _ => panic!("expected a burn"),
    }
}

#[test]
fn withdraw_partial_uses_curve_and_bounds() {
    let accounts = withdraw_scene();
    let w = Withdraw::try_from_accounts(&withdraw_data(100, 200, 400, 99), &accounts, 99).unwrap();
    let quote = w.prepare(&ata_program_id()).unwrap();
    let plan = w.settle(quote, Some((200, 400))).unwrap();
    let (_, _, _, x) = transfer_of(&plan[0]);
    assert_eq!(x, 200);
    // The documented comparison direction is an upper bound: amounts above
    // the stated bound are rejected.
    assert_eq!(
        w.settle(quote, Some((201, 400))),
        Err(ProgramError::InvalidArgument)
    );
    assert_eq!(w.settle(quote, None), Err(ProgramError::InvalidArgument));
}

#[test]
fn initialize_plans_record_then_mint() {
    let mut data = vec![0u8; 76];
    data[0] = 5;
    data[8] = 30;
    data[10..42].copy_from_slice(&key(3));
    data[42..74].copy_from_slice(&key(4));
    data[74] = 250;
    data[75] = 249;
    let accounts = vec![
        acct(key(20), key(0), true, vec![]),
        acct(key(41), key(0), false, vec![]),
        acct(key(40), key(0), false, vec![]),
        acct(key(10), key(0), false, vec![]),
        acct(token_program_id(), key(0), false, vec![]),
    ];
    let init = Initialize::try_from_accounts(&data, &accounts).unwrap();
    let plan = init.process(&key(90), &token_program_id());
    assert_eq!(plan.len(), 4);
    match &plan[0] {
        TokenOp::CreateAccount { account, owner, space, .. } => {
            assert_eq!(account, &key(40));
            assert_eq!(owner, &key(90));
            assert_eq!(*space, 108);
        }
        _ => panic!("expected the record allocation"),
    }
    let expected_record = Config {
        seed: 5,
        authority: key(0),
        mint_x: key(3),
        mint_y: key(4),
        fee: 30,
        config_bump: 250,
        state: AmmState::Initialized,
    }
    .encode();
    match &plan[1] {
        TokenOp::StoreRecord { account, record } => {
            assert_eq!(account, &key(40));
            assert_eq!(record, &expected_record);
        }
        _ => panic!("expected the record store"),
    }
    match &plan[3] {
        TokenOp::InitializeMint { mint, authority, decimals } => {
            assert_eq!(mint, &key(41));
            assert_eq!(authority, &key(40));
            assert_eq!(*decimals, 6);
        }
        _ => panic!("expected the mint initialization"),
    }
}

fn sysvar_bytes(ixs: &[(Vec<u8>, Vec<Vec<u8>>, Vec<u8>)]) -> Vec<u8> {
    let mut out = (ixs.len() as u16).to_le_bytes().to_vec();
    out.extend(std::iter::repeat(0u8).take(2 * ixs.len()));
    for (i, (pid, accs, data)) in ixs.iter().enumerate() {
        let off = (out.len() as u16).to_le_bytes();
        out[2 + 2 * i..4 + 2 * i].copy_from_slice(&off);
        out.extend_from_slice(&(accs.len() as u16).to_le_bytes());
        for a in accs {
            out.push(3);
            out.extend_from_slice(a);
        }
        out.extend_from_slice(pid);
        out.extend_from_slice(&(data.len() as u16).to_le_bytes());
        out.extend_from_slice(data);
    }
    out
}

struct FlashScene {
    program_id: Vec<u8>,
    instructions_id: Vec<u8>,
    borrower_ata: Vec<u8>,
    protocol_ata: Vec<u8>,
    accounts: Vec<AccountView>,
}

fn flash_scene() -> FlashScene {
    let program_id = key(80);
    let token = token_program_id();
    let instructions_id = key(70);
    let borrower = key(61);
    let mint = key(60);
    let protocol = find_program_address(&vec![b"protocol".to_vec()], &program_id)
        .unwrap()
        .0;
    let borrower_ata = ata_of(&borrower, &mint);
    let protocol_ata = ata_of(&protocol, &mint);
    let accounts = vec![
        acct(borrower.clone(), key(0), true, vec![]),
        acct(protocol.clone(), key(0), false, vec![]),
        acct(mint.clone(), token.clone(), false, mint_data(0)),
        acct(borrower_ata.clone(), token.clone(), false, token_data(0)),
        acct(protocol_ata.clone(), token.clone(), false, token_data(5_000_000)),
        acct(instructions_id.clone(), key(0), false, vec![]),
        acct(token.clone(), key(0), false, vec![]),
        acct(ata_program_id(), key(0), false, vec![]),
        acct(key(10), key(0), false, vec![]),
    ];
    FlashScene {
        program_id,
        instructions_id,
        borrower_ata,
        protocol_ata,
        accounts,
    }
}

fn borrow_ix_data(amount: u64) -> Vec<u8> {
    let mut data = borrow_discriminator();
    data.extend_from_slice(&amount.to_le_bytes());
    data
}

fn loan_tx(scene: &FlashScene, amount: u64) -> Vec<u8> {
    let repay_accounts = vec![
        scene.accounts[0].key.clone(),
        scene.accounts[1].key.clone(),
        scene.accounts[2].key.clone(),
        scene.borrower_ata.clone(),
        scene.protocol_ata.clone(),
    ];
    sysvar_bytes(&[
        (scene.program_id.clone(), vec![], borrow_ix_data(amount)),
        (scene.program_id.clone(), repay_accounts, repay_discriminator()),
    ])
}

#[test]
fn borrow_moves_principal_when_trailing_repay_matches() {
    let scene = flash_scene();
    let tx = loan_tx(&scene, 1_000_000);
    let plan = borrow(
        &scene.accounts,
        1_000_000,
        &tx,
        &scene.program_id,
        &token_program_id(),
        &ata_program_id(),
        &scene.instructions_id,
    )
    .unwrap();
    assert_eq!(plan.len(), 1);
    let (from, to, authority, amount) = transfer_of(&plan[0]);
    assert_eq!(from, scene.protocol_ata);
    assert_eq!(to, scene.borrower_ata);
    assert_eq!(authority, scene.accounts[1].key);
    assert_eq!(amount, 1_000_000);
}

#[test]
fn borrow_without_trailing_repay_aborts() {
    let scene = flash_scene();
    let empty_tx = sysvar_bytes(&[]);
    let r = borrow(
        &scene.accounts,
        1_000_000,
        &empty_tx,
        &scene.program_id,
        &token_program_id(),
        &ata_program_id(),
        &scene.instructions_id,
    );
    assert_eq!(
        r,
        Err(FlashError::Protocol(ProtocolError::MissingRepayIx))
    );
}

#[test]
fn borrow_rejects_mismatched_repay_wiring() {
    let scene = flash_scene();
    // Final instruction targets another program.
    let foreign = sysvar_bytes(&[(key(81), vec![], repay_discriminator())]);
    let r = borrow(
        &scene.accounts,
        5,
        &foreign,
        &scene.program_id,
        &token_program_id(),
        &ata_program_id(),
        &scene.instructions_id,
    );
    assert_eq!(r, Err(FlashError::Protocol(ProtocolError::InvalidProgram)));
    // Right program, wrong discriminator.
    let wrong_disc = sysvar_bytes(&[(scene.program_id.clone(), vec![], borrow_ix_data(5))]);
    let r2 = borrow(
        &scene.accounts,
        5,
        &wrong_disc,
        &scene.program_id,
        &token_program_id(),
        &ata_program_id(),
        &scene.instructions_id,
    );
    assert_eq!(r2, Err(FlashError::Protocol(ProtocolError::InvalidIx)));
    // Repay names a different borrower account at the fixed position.
    let swapped = sysvar_bytes(&[(
        scene.program_id.clone(),
        vec![key(1), key(2), key(3), key(4), scene.protocol_ata.clone()],
        repay_discriminator(),
    )]);
    let r3 = borrow(
        &scene.accounts,
        5,
        &swapped,
        &scene.program_id,
        &token_program_id(),
        &ata_program_id(),
        &scene.instructions_id,
    );
    assert_eq!(
        r3,
        Err(FlashError::Protocol(ProtocolError::InvalidBorrowerAta))
    );
}

#[test]
fn borrow_rejects_zero_amount_and_unsigned_borrower() {
    let scene = flash_scene();
    let tx = loan_tx(&scene, 0);
    let r = borrow(
        &scene.accounts,
        0,
        &tx,
        &scene.program_id,
        &token_program_id(),
        &ata_program_id(),
        &scene.instructions_id,
    );
    assert_eq!(r, Err(FlashError::Protocol(ProtocolError::InvalidAmount)));
    let mut unsigned = flash_scene();
    unsigned.accounts[0].is_signer = false;
    let tx2 = loan_tx(&unsigned, 5);
    let r2 = borrow(
        &unsigned.accounts,
        5,
        &tx2,
        &unsigned.program_id,
        &token_program_id(),
        &ata_program_id(),
        &unsigned.instructions_id,
    );
    assert_eq!(
        r2,
        Err(FlashError::Program(ProgramError::MissingRequiredSignature))
    );
}

#[test]
fn repay_charges_the_fixed_fee() {
    assert_eq!(loan_fee(1_000_000), 50_000);
    assert_eq!(loan_fee(0), 0);
    assert_eq!(loan_fee(19), 0);
    assert_eq!(loan_fee(20), 1);
    let scene = flash_scene();
    let tx = loan_tx(&scene, 1_000_000);
    let plan = repay(
        &scene.accounts,
        &tx,
        &scene.program_id,
        &token_program_id(),
        &ata_program_id(),
        &scene.instructions_id,
    )
    .unwrap();
    assert_eq!(plan.len(), 1);
    let (from, to, authority, amount) = transfer_of(&plan[0]);
    assert_eq!(from, scene.borrower_ata);
    assert_eq!(to, scene.protocol_ata);
    assert_eq!(authority, scene.accounts[0].key);
    assert_eq!(amount, 1_050_000);
}

#[test]
fn repay_rejects_missing_or_overflowing_borrow() {
    let scene = flash_scene();
    let empty_tx = sysvar_bytes(&[]);
    let r = repay(
        &scene.accounts,
        &empty_tx,
        &scene.program_id,
        &token_program_id(),
        &ata_program_id(),
        &scene.instructions_id,
    );
    assert_eq!(
        r,
        Err(FlashError::Protocol(ProtocolError::MissingBorrowIx))
    );
    let huge_tx = loan_tx(&scene, u64::MAX);
    let r2 = repay(
        &scene.accounts,
        &huge_tx,
        &scene.program_id,
        &token_program_id(),
        &ata_program_id(),
        &scene.instructions_id,
    );
    assert_eq!(r2, Err(FlashError::Protocol(ProtocolError::Overflow)));
}

#[test]
fn instruction_list_parser_is_bounds_checked() {
    assert!(parse_instruction_at(&[], 0).is_none());
    assert!(parse_instruction_at(&[1, 0], 0).is_none());
    let tx = sysvar_bytes(&[(key(1), vec![key(2)], vec![7, 8])]);
    let ix = parse_instruction_at(&tx, 0).unwrap();
    assert_eq!(ix.program_id, key(1));
    assert_eq!(ix.accounts.len(), 1);
    assert_eq!(ix.accounts[0].key, key(2));
    assert!(ix.accounts[0].is_signer);
    assert!(ix.accounts[0].is_writable);
    assert_eq!(ix.data, vec![7, 8]);
    assert!(parse_instruction_at(&tx, 1).is_none());
    // Truncating the payload makes the final read fall off the buffer.
    let truncated = &tx[..tx.len() - 1];
    assert!(parse_instruction_at(truncated, 0).is_none());
}

#[test]
fn take_rejects_missing_accounts() {
    let mut scene = take_scene(7);
    scene.accounts.pop();
    let r = Take::try_from_accounts(
        &scene.accounts,
        &scene.program_id,
        &token_program_id(),
        &ext_token_program_id(),
        &ata_program_id(),
    );
    assert!(matches!(r, Err(ProgramError::NotEnoughAccountKeys)));
}

#[test]
fn borrow_rejects_forged_protocol_vault() {
    let mut scene = flash_scene();
    scene.accounts[4].key = key(77);
    let tx = loan_tx(&scene, 5);
    let r = borrow(
        &scene.accounts,
        5,
        &tx,
        &scene.program_id,
        &token_program_id(),
        &ata_program_id(),
        &scene.instructions_id,
    );
    assert_eq!(
        r,
        Err(FlashError::Protocol(ProtocolError::InvalidProtocolAta))
    );
}
