use custody::amm::{
    AmmState, Config, InitializeInstructionData, SwapInstructionData, WithdrawInstructionData,
    INITIALIZE_DATA_LEN, INITIALIZE_DATA_LEN_WITH_AUTHORITY,
};
use custody::errors::ProgramError;
use custody::escrow::{Escrow, ESCROW_LEN};

fn key(n: u8) -> Vec<u8> {
    vec![n; 32]
}

#[test]
fn escrow_encode_then_load_round_trips() {
    let e = Escrow {
        seed: 0x1122334455667788,
        maker: key(7),
        mint_a: key(8),
        mint_b: key(9),
        receive: 1_000,
        bump: 254,
    };
    let bytes = e.encode();
    assert_eq!(bytes.len(), ESCROW_LEN);
    let d = Escrow::load(&bytes).unwrap();
    assert_eq!(d.seed, 0x1122334455667788);
    assert_eq!(d.maker, key(7));
    assert_eq!(d.mint_a, key(8));
    assert_eq!(d.mint_b, key(9));
    assert_eq!(d.receive, 1_000);
    assert_eq!(d.bump, 254);
}

#[test]
fn escrow_load_reads_fixed_offsets() {
    let mut bytes = vec![0u8; ESCROW_LEN];
    bytes[0] = 5; // seed = 5, little endian
    bytes[8..40].copy_from_slice(&key(1));
    bytes[40..72].copy_from_slice(&key(2));
    bytes[72..104].copy_from_slice(&key(3));
    bytes[104] = 44; // receive = 44
    bytes[112] = 255;
    let d = Escrow::load(&bytes).unwrap();
    assert_eq!(d.seed, 5);
    assert_eq!(d.maker, key(1));
    assert_eq!(d.mint_a, key(2));
    assert_eq!(d.mint_b, key(3));
    assert_eq!(d.receive, 44);
    assert_eq!(d.bump, 255);
}

#[test]
fn escrow_load_rejects_wrong_length() {
    assert_eq!(
        Escrow::load(&vec![0u8; ESCROW_LEN - 1]).err().unwrap(),
        ProgramError::InvalidAccountData
    );
    assert_eq!(
        Escrow::load(&vec![0u8; ESCROW_LEN + 1]).err().unwrap(),
        ProgramError::InvalidAccountData
    );
}

#[test]
fn escrow_setters_update_fields() {
    let mut e = Escrow {
        seed: 0,
        maker: key(0),
        mint_a: key(0),
        mint_b: key(0),
        receive: 0,
        bump: 0,
    };
    e.set_seed(9);
    e.set_maker(key(1));
    e.set_mint_a(key(2));
    e.set_mint_b(key(3));
    e.set_receive(10);
    e.set_bump(250);
    assert_eq!(e.seed, 9);
    assert_eq!(e.receive, 10);
    let mut f = Escrow {
        seed: 0,
        maker: key(0),
        mint_a: key(0),
        mint_b: key(0),
        receive: 0,
        bump: 0,
    };
    f.set_inner(9, key(1), key(2), key(3), 10, 250);
    assert_eq!(f.encode(), e.encode());
}

#[test]
fn config_encode_then_load_round_trips() {
    let c = Config {
        seed: 77,
        authority: key(4),
        mint_x: key(5),
        mint_y: key(6),
        fee: 30,
        config_bump: 253,
        state: AmmState::Initialized,
    };
    let bytes = c.encode();
    assert_eq!(bytes.len(), 108);
    let d = Config::load(&bytes).unwrap();
    assert_eq!(d.seed, 77);
    assert_eq!(d.authority, key(4));
    assert_eq!(d.mint_x, key(5));
    assert_eq!(d.mint_y, key(6));
    assert_eq!(d.fee, 30);
    assert_eq!(d.config_bump, 253);
    assert_eq!(d.state, AmmState::Initialized);
}

#[test]
fn config_load_rejects_bad_state_byte() {
    let c = Config {
        seed: 1,
        authority: key(0),
        mint_x: key(1),
        mint_y: key(2),
        fee: 0,
        config_bump: 0,
        state: AmmState::Disabled,
    };
    let mut bytes = c.encode();
    bytes[107] = 3;
    assert_eq!(
        Config::load(&bytes).err().unwrap(),
        ProgramError::InvalidAccountData
    );
    assert_eq!(
        Config::load(&vec![0u8; 17]).err().unwrap(),
        ProgramError::InvalidAccountData
    );
}

#[test]
fn initialize_data_parses_with_authority() {
    let mut data = vec![0u8; INITIALIZE_DATA_LEN_WITH_AUTHORITY];
    data[0] = 3; // seed
    data[8] = 0x2c;
    data[9] = 0x01; // fee = 300
    data[10..42].copy_from_slice(&key(1));
    data[42..74].copy_from_slice(&key(2));
    data[74] = 251;
    data[75] = 252;
    data[76..108].copy_from_slice(&key(9));
    let d = InitializeInstructionData::parse(&data).unwrap();
    assert_eq!(d.seed, 3);
    assert_eq!(d.fee, 300);
    assert_eq!(d.mint_x, key(1));
    assert_eq!(d.mint_y, key(2));
    assert_eq!(d.config_bump, 251);
    assert_eq!(d.lp_bump, 252);
    assert_eq!(d.authority, key(9));
}

#[test]
fn initialize_data_defaults_to_no_authority() {
    let mut data = vec![0u8; INITIALIZE_DATA_LEN];
    data[10..42].copy_from_slice(&key(1));
    data[42..74].copy_from_slice(&key(2));
    let d = InitializeInstructionData::parse(&data).unwrap();
    assert_eq!(d.authority, vec![0u8; 32]);
    assert!(InitializeInstructionData::parse(&vec![0u8; 77]).is_err());
}

#[test]
fn swap_data_parses_exact_fields() {
    let mut data = vec![0u8; 25];
    data[0] = 1;
    data[1] = 100; // amount
    data[9] = 7; // min
    data[17] = 50; // expiration
    let d = SwapInstructionData::parse(&data, 49).unwrap();
    assert!(d.is_x);
    assert_eq!(d.amount, 100);
    assert_eq!(d.min, 7);
    assert_eq!(d.expiration, 50);
    let d2 = {
        data[0] = 0;
        SwapInstructionData::parse(&data, 50).unwrap()
    };
    assert!(!d2.is_x);
}

#[test]
fn swap_data_rejects_zero_and_stale_and_short() {
    let mut data = vec![0u8; 25];
    data[0] = 1;
    data[9] = 7;
    data[17] = 50;
    // amount is zero
    assert_eq!(
        SwapInstructionData::parse(&data, 0),
        Err(ProgramError::InvalidInstructionData)
    );
    data[1] = 100;
    // stale: expiration 50 < now 51
    assert_eq!(
        SwapInstructionData::parse(&data, 51),
        Err(ProgramError::InvalidInstructionData)
    );
    assert_eq!(
        SwapInstructionData::parse(&data[..24], 0),
        Err(ProgramError::InvalidInstructionData)
    );
}

#[test]
fn withdraw_data_parses_and_rejects() {
    let mut data = vec![0u8; 32];
    data[0] = 10; // amount
    data[8] = 3; // min_x
    data[16] = 4; // min_y
    data[24] = 90; // expiration
    let d = WithdrawInstructionData::parse(&data, 90).unwrap();
    assert_eq!((d.amount, d.min_x, d.min_y, d.expiration), (10, 3, 4, 90));
    assert_eq!(
        WithdrawInstructionData::parse(&data, 91),
        Err(ProgramError::InvalidInstructionData)
    );
    data[8] = 0;
    assert_eq!(
        WithdrawInstructionData::parse(&data, 0),
        Err(ProgramError::InvalidInstructionData)
    );
    assert_eq!(
        WithdrawInstructionData::parse(&vec![0u8; 31], 0),
        Err(ProgramError::InvalidInstructionData)
    );
}
