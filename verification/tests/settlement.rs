use custody::account::AccountView;
use custody::amm::{AmmState, Config, Initialize, Swap};
use custody::derive::find_program_address;
use custody::escrow::{Escrow, Refund, Take};
use custody::ops::TokenOp;
use custody::validate::MINT_LEN;
use std::collections::HashMap;

fn key(n: u8) -> Vec<u8> {
    vec![n; 32]
}

fn token_program_id() -> Vec<u8> {
    pinocchio_token::ID.to_bytes().to_vec()
}

fn ata_program_id() -> Vec<u8> {
    pinocchio_associated_token_account::ID.to_bytes().to_vec()
}

fn ext_token_program_id() -> Vec<u8> {
    solana_address::Address::from_str_const("TokenzQdBNbLqP5VEhdkAS6EPFLC1PHnBqCXEpPxuEb")
        .to_bytes()
        .to_vec()
}

fn acct(key: Vec<u8>, owner: Vec<u8>, is_signer: bool, data: Vec<u8>) -> AccountView {
    AccountView {
        key,
        owner,
        is_signer,
        data,
    }
}

fn token_data(amount: u64) -> Vec<u8> {
    let mut data = vec![0u8; 165];
    data[64..72].copy_from_slice(&amount.to_le_bytes());
    data
}

fn ata_of(owner: &[u8], mint: &[u8]) -> Vec<u8> {
    let seeds = vec![owner.to_vec(), token_program_id(), mint.to_vec()];
    find_program_address(&seeds, &ata_program_id()).unwrap().0
}

/// A ledger of existing accounts and their balances, applying a plan exactly
/// as the host would: the first rejected movement fails the whole plan.
fn apply(balances: &mut HashMap<Vec<u8>, u64>, plan: &[TokenOp]) -> bool {
    for op in plan {
        match op {
            TokenOp::Transfer {
                from, to, amount, ..
            } => {
                if !balances.contains_key(from) || !balances.contains_key(to) {
                    return false;
                }
                if balances[from] < *amount {
                    return false;
                }
                if from != to {
                    *balances.get_mut(from).unwrap() -= amount;
                    *balances.get_mut(to).unwrap() += amount;
                }
            }
            TokenOp::CloseTokenAccount { account, .. }
            | TokenOp::CloseProgramAccount { account, .. } => {
                if balances.remove(account).is_none() {
                    return false;
                }
            }
            TokenOp::Burn {
                account,
                mint,
                amount,
                ..
            } => {
                if !balances.contains_key(account) || !balances.contains_key(mint) {
                    return false;
                }
                if balances[account] < *amount || balances[mint] < *amount {
                    return false;
                }
                *balances.get_mut(account).unwrap() -= amount;
                *balances.get_mut(mint).unwrap() -= amount;
            }
            TokenOp::CreateAccount { account, .. }
            | TokenOp::CreateAssociatedAccount { account, .. } => {
                if balances.contains_key(account) {
                    return false;
                }
                balances.insert(account.clone(), 0);
            }
            TokenOp::StoreRecord { account, .. } => {
                if !balances.contains_key(account) {
                    return false;
                }
            }
            TokenOp::InitializeMint { mint, .. } => {
                if !balances.contains_key(mint) {
                    return false;
                }
            }
        }
    }
    true
}

#[test]
fn take_sequence_moves_exact_balances_and_closes_both_accounts() {
    let program_id = key(90);
    let token = token_program_id();
    let maker = key(1);
    let taker = key(2);
    let mint_a = key(3);
    let mint_b = key(4);
    let escrow_seeds = vec![b"escrow".to_vec(), maker.clone(), 7u64.to_le_bytes().to_vec()];
    let (escrow_key, bump) = find_program_address(&escrow_seeds, &program_id).unwrap();
    let record = Escrow {
        seed: 7,
        maker: maker.clone(),
        mint_a: mint_a.clone(),
        mint_b: mint_b.clone(),
        receive: 250,
        bump,
    }
    .encode();
    let vault = ata_of(&escrow_key, &mint_a);
    let taker_ata_a = ata_of(&taker, &mint_a);
    let taker_ata_b = ata_of(&taker, &mint_b);
    let maker_ata_b = ata_of(&maker, &mint_b);
    let accounts = vec![
        acct(taker.clone(), key(0), true, vec![]),
        acct(maker.clone(), key(0), false, vec![]),
        acct(escrow_key.clone(), program_id.clone(), false, record),
        acct(mint_a.clone(), token.clone(), false, vec![0u8; MINT_LEN]),
        acct(mint_b.clone(), token.clone(), false, vec![0u8; MINT_LEN]),
        acct(vault.clone(), token.clone(), false, token_data(900)),
        acct(taker_ata_a.clone(), token.clone(), false, token_data(10)),
        acct(taker_ata_b.clone(), token.clone(), false, token_data(300)),
        acct(maker_ata_b.clone(), token.clone(), false, token_data(0)),
        acct(key(10), key(0), false, vec![]),
        acct(token.clone(), key(0), false, vec![]),
        acct(key(11), key(0), false, vec![]),
    ];
    let take = Take::try_from_accounts(
        &accounts,
        &program_id,
        &token,
        &ext_token_program_id(),
        &ata_program_id(),
    )
    .unwrap();
    let plan = take.process(&program_id, &token).unwrap();
    let mut balances = HashMap::new();
    balances.insert(vault.clone(), 900u64);
    balances.insert(taker_ata_a.clone(), 10);
    balances.insert(taker_ata_b.clone(), 300);
    balances.insert(maker_ata_b.clone(), 0);
    balances.insert(escrow_key.clone(), 0);
    assert!(apply(&mut balances, &plan));
    // The taker gains exactly the vault's pre-transfer balance, the maker
    // exactly the demanded amount.
    assert_eq!(balances[&taker_ata_a], 10 + 900);
    assert_eq!(balances[&maker_ata_b], 250);
    assert_eq!(balances[&taker_ata_b], 300 - 250);
    // The escrow and the vault no longer exist.
    assert!(!balances.contains_key(&vault));
    assert!(!balances.contains_key(&escrow_key));
}

#[test]
fn refund_sequence_restores_the_maker_in_full() {
    let program_id = key(90);
    let token = token_program_id();
    let maker = key(1);
    let mint_a = key(3);
    let escrow_seeds = vec![b"escrow".to_vec(), maker.clone(), 7u64.to_le_bytes().to_vec()];
    let (escrow_key, bump) = find_program_address(&escrow_seeds, &program_id).unwrap();
    let record = Escrow {
        seed: 7,
        maker: maker.clone(),
        mint_a: mint_a.clone(),
        mint_b: key(4),
        receive: 250,
        bump,
    }
    .encode();
    let vault = ata_of(&escrow_key, &mint_a);
    let maker_ata_a = ata_of(&maker, &mint_a);
    let accounts = vec![
        acct(maker.clone(), key(0), true, vec![]),
        acct(escrow_key.clone(), program_id.clone(), false, record),
        acct(mint_a.clone(), token.clone(), false, vec![0u8; MINT_LEN]),
        acct(vault.clone(), token.clone(), false, token_data(900)),
        acct(maker_ata_a.clone(), token.clone(), false, token_data(1)),
        acct(key(10), key(0), false, vec![]),
        acct(token.clone(), key(0), false, vec![]),
        acct(ata_program_id(), key(0), false, vec![]),
    ];
    let refund = Refund::try_from_accounts(
        &accounts,
        &token,
        &ext_token_program_id(),
        &ata_program_id(),
    )
    .unwrap();
    let plan = refund.process(&program_id, &token).unwrap();
    let maker_ata_b = ata_of(&maker, &key(4));
    let mut balances = HashMap::new();
    balances.insert(vault.clone(), 900u64);
    balances.insert(maker_ata_a.clone(), 1);
    balances.insert(maker_ata_b.clone(), 40);
    balances.insert(escrow_key.clone(), 0);
    assert!(apply(&mut balances, &plan));
    assert_eq!(balances[&maker_ata_a], 1 + 900);
    // No `mint_b` balance moved.
    assert_eq!(balances[&maker_ata_b], 40);
    assert!(!balances.contains_key(&vault));
    assert!(!balances.contains_key(&escrow_key));
}

#[test]
fn swap_then_exact_inverse_swap_restores_every_balance() {
    let token = token_program_id();
    let config_key = key(40);
    let record = Config {
        seed: 5,
        authority: key(0),
        mint_x: key(3),
        mint_y: key(4),
        fee: 0,
        config_bump: 250,
        state: AmmState::Initialized,
    }
    .encode();
    let vault_x = ata_of(&config_key, &key(3));
    let vault_y = ata_of(&config_key, &key(4));
    let user_x = key(21);
    let user_y = key(22);
    let accounts = vec![
        acct(key(20), key(0), true, vec![]),
        acct(user_x.clone(), token.clone(), false, token_data(500)),
        acct(user_y.clone(), token.clone(), false, token_data(500)),
        acct(vault_x.clone(), token.clone(), false, token_data(1000)),
        acct(vault_y.clone(), token.clone(), false, token_data(2000)),
        acct(config_key.clone(), key(90), false, record),
        acct(token.clone(), key(0), false, vec![]),
    ];
    let mut data = vec![0u8; 25];
    data[0] = 1;
    data[1] = 100; // amount
    data[9] = 1; // min
    data[17] = 99; // expiration
    let forward = Swap::try_from_accounts(&data, &accounts, 99)
        .unwrap()
        .settle(Some((100, 190)))
        .unwrap();
    data[0] = 0;
    data[1] = 190;
    let back = Swap::try_from_accounts(&data, &accounts, 99)
        .unwrap()
        .settle(Some((190, 100)))
        .unwrap();
    let mut balances = HashMap::new();
    balances.insert(user_x.clone(), 500u64);
    balances.insert(user_y.clone(), 500);
    balances.insert(vault_x.clone(), 1000);
    balances.insert(vault_y.clone(), 2000);
    let initial = balances.clone();
    assert!(apply(&mut balances, &forward));
    assert_ne!(balances, initial);
    assert!(apply(&mut balances, &back));
    // Swapping back with the exact inverse amounts leaves no trace.
    assert_eq!(balances, initial);
}

#[test]
fn initialize_on_a_live_pool_fails_instead_of_overwriting() {
    let mut data = vec![0u8; 76];
    data[10..42].copy_from_slice(&key(3));
    data[42..74].copy_from_slice(&key(4));
    let accounts = vec![
        acct(key(20), key(0), true, vec![]),
        acct(key(41), key(0), false, vec![]),
        acct(key(40), key(0), false, vec![]),
        acct(key(10), key(0), false, vec![]),
        acct(token_program_id(), key(0), false, vec![]),
    ];
    let plan = Initialize::try_from_accounts(&data, &accounts)
        .unwrap()
        .process(&key(90), &token_program_id());
    // On a fresh ledger the whole plan applies.
    let mut fresh = HashMap::new();
    fresh.insert(key(20), 0u64);
    assert!(apply(&mut fresh, &plan));
    // Where the configuration account already exists, the very first
    // movement is refused and nothing is overwritten.
    let mut live = HashMap::new();
    live.insert(key(40), 0u64);
    let before = live.clone();
    assert!(!apply(&mut live, &plan));
    assert_eq!(live, before);
}
