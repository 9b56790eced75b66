//! The constant-product market-maker engine: a pool is initialized once and
//! then accepts swaps and withdrawals against two derived vault accounts.
//!
//! The pool's configuration record is persisted in a fixed binary layout.
//! Every operation re-derives both vault addresses from the configuration and
//! the token program before trusting them, and reads the reserves from the
//! vault accounts themselves. The curve formula is an external pure function:
//! an operation first decides the checked inputs to hand it, then turns its
//! output into the exact ordered movement plan, enforcing the caller's
//! slippage and expiration bounds.

use vstd::prelude::*;
use crate::account::{AccountV, AccountView, bytes_eq, bytes_of, sub_bytes};
use crate::derive::{find_program_address, seed_views, spec_find_program_address};
use crate::errors::ProgramError;
use crate::ops::{OpV, TokenOp, plan_view};
use crate::validate::MINT_LEN;
use crate::validate::TOKEN_ACCOUNT_LEN;
use crate::validate::spec_token_amount;
use vstd::bytes::{
    lemma_auto_spec_u16_to_from_le_bytes,
    lemma_auto_spec_u64_to_from_le_bytes,
    spec_u16_from_le_bytes,
    spec_u16_to_le_bytes,
    spec_u64_from_le_bytes,
    spec_u64_to_le_bytes,
    u16_from_le_bytes,
    u16_to_le_bytes,
    u64_from_le_bytes,
    u64_to_le_bytes,
};

verus! {

/// Byte length of a persisted pool configuration record.
pub const CONFIG_LEN: usize = 108;

/// Offset of the 64-bit little-endian total supply in a mint's data.
pub const MINT_SUPPLY_OFFSET: usize = 36;

/// Decimal precision of the pool's liquidity-provider mint.
pub const LP_MINT_DECIMALS: u8 = 6;

/// Lifecycle state of a pool.
#[derive(Clone, Copy, Debug, PartialEq, Eq, Structural)]
pub enum AmmState {
    Uninitialized,
    Initialized,
    Disabled,
}

impl AmmState {
    /// The byte each state is persisted as.
    pub open spec fn spec_to_byte(self) -> u8 {
        match self {
            AmmState::Uninitialized => 0,
            AmmState::Initialized => 1,
            AmmState::Disabled => 2,
        }
    }

    /// Returns the byte this state is persisted as.
    pub fn to_byte(self) -> (r: u8)
        ensures
            r == self.spec_to_byte(),
    {
        match self {
            AmmState::Uninitialized => 0,
            AmmState::Initialized => 1,
            AmmState::Disabled => 2,
        }
    }

    /// The state a byte decodes to, or `None` for a byte outside the
    /// enumeration.
    pub open spec fn spec_from_byte(b: u8) -> Option<AmmState> {
        if b == 0 {
            Some(AmmState::Uninitialized)
        } else if b == 1 {
            Some(AmmState::Initialized)
        } else if b == 2 {
            Some(AmmState::Disabled)
        } else {
            None
        }
    }

    /// Decodes a persisted state byte.
    pub fn from_byte(b: u8) -> (r: Option<AmmState>)
        ensures
            r == AmmState::spec_from_byte(b),
    {
        if b == 0 {
            Some(AmmState::Uninitialized)
        } else if b == 1 {
            Some(AmmState::Initialized)
        } else if b == 2 {
            Some(AmmState::Disabled)
        } else {
            None
        }
    }
}

/// A persisted pool configuration.
pub struct Config {
    /// Disambiguates multiple pools over the same pair.
    pub seed: u64,
    /// The pool's upgrade authority; all-zero means none.
    pub authority: Vec<u8>,
    /// The pool's first token.
    pub mint_x: Vec<u8>,
    /// The pool's second token.
    pub mint_y: Vec<u8>,
    /// Swap fee in basis points.
    pub fee: u16,
    /// Authority-derivation nonce of the configuration address.
    pub config_bump: u8,
    /// Lifecycle state; every operation checks it.
    pub state: AmmState,
}

/// The mathematical content of a pool configuration.
pub struct ConfigV {
    pub seed: u64,
    pub authority: Seq<u8>,
    pub mint_x: Seq<u8>,
    pub mint_y: Seq<u8>,
    pub fee: u16,
    pub config_bump: u8,
    pub state: AmmState,
}

impl View for Config {
    type V = ConfigV;

    open spec fn view(&self) -> ConfigV {
        ConfigV {
            seed: self.seed,
            authority: self.authority@,
            mint_x: self.mint_x@,
            mint_y: self.mint_y@,
            fee: self.fee,
            config_bump: self.config_bump,
            state: self.state,
        }
    }
}

impl ConfigV {
    /// A well-formed configuration names full-length addresses.
    pub open spec fn wf(self) -> bool {
        crate::is_key(self.authority) && crate::is_key(self.mint_x) && crate::is_key(self.mint_y)
    }
}

/// The fixed layout of a configuration record: seed, authority, the two
/// mints, fee, bump, state byte, in that order.
pub open spec fn spec_config_encode(c: ConfigV) -> Seq<u8> {
    spec_u64_to_le_bytes(c.seed) + c.authority + c.mint_x + c.mint_y + spec_u16_to_le_bytes(c.fee)
        + seq![c.config_bump, c.state.spec_to_byte()]
}

/// The configuration a full-length byte buffer holds, or `None` where the
/// state byte is outside the enumeration.
pub open spec fn spec_config_decode(bytes: Seq<u8>) -> Option<ConfigV> {
    match AmmState::spec_from_byte(bytes[107]) {
        None => None,
        Some(state) => Some(
            ConfigV {
                seed: spec_u64_from_le_bytes(bytes.subrange(0, 8)),
                authority: bytes.subrange(8, 40),
                mint_x: bytes.subrange(40, 72),
                mint_y: bytes.subrange(72, 104),
                fee: spec_u16_from_le_bytes(bytes.subrange(104, 106)),
                config_bump: bytes[106],
                state,
            },
        ),
    }
}

impl Config {
    /// A well-formed configuration names full-length addresses.
    pub open spec fn wf(self) -> bool {
        self@.wf()
    }

    /// Decodes a configuration from a raw account buffer, rejecting any
    /// length but the exact layout size and any state byte outside the
    /// enumeration.
    pub fn load(bytes: &[u8]) -> (r: Result<Config, ProgramError>)
        ensures
            match r {
                Ok(c) => bytes@.len() == CONFIG_LEN && spec_config_decode(bytes@) == Some(c@)
                    && c.wf(),
                Err(er) => (bytes@.len() != CONFIG_LEN || spec_config_decode(bytes@) is None)
                    && er == ProgramError::InvalidAccountData,
            },
    {
        if bytes.len() != CONFIG_LEN {
            return Err(ProgramError::InvalidAccountData);
        }
        let state = match AmmState::from_byte(bytes[107]) {
            Some(s) => s,
            None => {
                return Err(ProgramError::InvalidAccountData);
            },
        };
        let seed = u64_from_le_bytes(sub_bytes(bytes, 0, 8).as_slice());
        let authority = sub_bytes(bytes, 8, 40);
        let mint_x = sub_bytes(bytes, 40, 72);
        let mint_y = sub_bytes(bytes, 72, 104);
        let fee = u16_from_le_bytes(sub_bytes(bytes, 104, 106).as_slice());
        let config_bump = bytes[106];
        Ok(Config { seed, authority, mint_x, mint_y, fee, config_bump, state })
    }

    /// Encodes the configuration into its fixed layout.
    pub fn encode(&self) -> (r: Vec<u8>)
        requires
            self.wf(),
        ensures
            r@ == spec_config_encode(self@),
            r@.len() == CONFIG_LEN,
    {
        proof {
            lemma_auto_spec_u64_to_from_le_bytes();
            lemma_auto_spec_u16_to_from_le_bytes();
        }
        let mut r: Vec<u8> = u64_to_le_bytes(self.seed);
        crate::escrow::push_bytes(&mut r, self.authority.as_slice());
        crate::escrow::push_bytes(&mut r, self.mint_x.as_slice());
        crate::escrow::push_bytes(&mut r, self.mint_y.as_slice());
        let fee_bytes = u16_to_le_bytes(self.fee);
        crate::escrow::push_bytes(&mut r, fee_bytes.as_slice());
        r.push(self.config_bump);
        r.push(self.state.to_byte());
        proof {
            assert(r@ =~= spec_config_encode(self@));
        }
        r
    }
}

/// Round trip of the configuration codec: decoding an encoded record gives
/// the record back, and encoding a decoded full-length buffer gives the
/// buffer back.
pub proof fn lemma_config_codec_round_trip(c: ConfigV, bytes: Seq<u8>)
    requires
        c.wf(),
        bytes.len() == CONFIG_LEN,
        spec_config_decode(bytes) is Some,
    ensures
        spec_config_decode(spec_config_encode(c)) == Some(c),
        spec_config_encode(spec_config_decode(bytes)->Some_0) == bytes,
{
    lemma_auto_spec_u64_to_from_le_bytes();
    lemma_auto_spec_u16_to_from_le_bytes();
    let enc = spec_config_encode(c);
    assert(enc.subrange(0, 8) =~= spec_u64_to_le_bytes(c.seed));
    assert(enc.subrange(8, 40) =~= c.authority);
    assert(enc.subrange(40, 72) =~= c.mint_x);
    assert(enc.subrange(72, 104) =~= c.mint_y);
    assert(enc.subrange(104, 106) =~= spec_u16_to_le_bytes(c.fee));
    assert(enc[106] == c.config_bump && enc[107] == c.state.spec_to_byte());
    assert(spec_config_decode(spec_config_encode(c)) == Some(c));
    let d = spec_config_decode(bytes)->Some_0;
    assert(spec_config_encode(d) =~= bytes);
}

/// The total supply a well-formed mint's data records.
pub open spec fn spec_mint_supply(data: Seq<u8>) -> u64 {
    spec_u64_from_le_bytes(data.subrange(MINT_SUPPLY_OFFSET as int, MINT_SUPPLY_OFFSET + 8))
}

/// Reads the total supply out of a mint account, rejecting any length but
/// the classic mint layout.
pub fn read_mint_supply(account: &AccountView) -> (r: Result<u64, ProgramError>)
    ensures
        match r {
            Ok(supply) => account@.data.len() == MINT_LEN && supply == spec_mint_supply(
                account@.data,
            ),
            Err(e) => account@.data.len() != MINT_LEN && e == ProgramError::InvalidAccountData,
        },
{
    if account.data_len() != MINT_LEN {
        return Err(ProgramError::InvalidAccountData);
    }
    let supply_bytes = sub_bytes(
        account.data.as_slice(),
        MINT_SUPPLY_OFFSET,
        MINT_SUPPLY_OFFSET + 8,
    );
    Ok(u64_from_le_bytes(supply_bytes.as_slice()))
}

/// Reads the balance out of a vault account, rejecting any length but the
/// classic token-account layout.
pub fn read_token_amount(account: &AccountView) -> (r: Result<u64, ProgramError>)
    ensures
        match r {
            Ok(amount) => account@.data.len() == TOKEN_ACCOUNT_LEN && amount == spec_token_amount(
                account@.data,
            ),
            Err(e) => account@.data.len() != TOKEN_ACCOUNT_LEN && e
                == ProgramError::InvalidAccountData,
        },
{
    if account.data_len() != TOKEN_ACCOUNT_LEN {
        return Err(ProgramError::InvalidAccountData);
    }
    let amount_bytes = sub_bytes(
        account.data.as_slice(),
        crate::validate::TOKEN_AMOUNT_OFFSET,
        crate::validate::TOKEN_AMOUNT_OFFSET + 8,
    );
    Ok(u64_from_le_bytes(amount_bytes.as_slice()))
}

/// What the vault re-derivation decides: the vault named by the caller must
/// live exactly at the associated address of `(pool configuration, mint)`
/// under the token program the caller named.
pub open spec fn spec_vault_check(
    vault_key: Seq<u8>,
    config_key: Seq<u8>,
    token_program_key: Seq<u8>,
    mint: Seq<u8>,
    ata_id: Seq<u8>,
) -> Result<(), ProgramError> {
    match spec_find_program_address(seq![config_key, token_program_key, mint], ata_id) {
        Some(ab) => if ab.0 == vault_key {
            Ok(())
        } else {
            Err(ProgramError::InvalidAccountData)
        },
        None => Err(ProgramError::InvalidAccountData),
    }
}

/// Re-derives a vault address from the configuration, the token program and
/// the mint, and fails unless the named vault lives exactly there.
pub fn vault_check(
    vault_key: &[u8],
    config_key: &[u8],
    token_program_key: &[u8],
    mint: &[u8],
    ata_id: &[u8],
) -> (r: Result<(), ProgramError>)
    requires
        crate::is_key(ata_id@),
    ensures
        r == spec_vault_check(vault_key@, config_key@, token_program_key@, mint@, ata_id@),
{
    let mut seeds: Vec<Vec<u8>> = Vec::new();
    seeds.push(bytes_of(config_key));
    seeds.push(bytes_of(token_program_key));
    seeds.push(bytes_of(mint));
    proof {
        assert(seed_views(seeds@) =~= seq![config_key@, token_program_key@, mint@]);
    }
    let ata_pid = bytes_of(ata_id);
    match find_program_address(&seeds, &ata_pid) {
        Some((address, _bump)) => {
            if bytes_eq(address.as_slice(), vault_key) {
                Ok(())
            } else {
                Err(ProgramError::InvalidAccountData)
            }
        },
        None => Err(ProgramError::InvalidAccountData),
    }
}

} // verus!

verus! {

/// A 32-byte all-zero address, standing for "no authority".
pub open spec fn spec_zero_key() -> Seq<u8> {
    Seq::new(32, |i: int| 0u8)
}

/// Returns the all-zero address.
pub fn zero_key() -> (r: Vec<u8>)
    ensures
        r@ == spec_zero_key(),
{
    let mut r: Vec<u8> = Vec::new();
    let mut i: usize = 0;
    while i < 32
        invariant
            0 <= i <= 32,
            r@ =~= spec_zero_key().subrange(0, i as int),
        decreases 32 - i,
    {
        r.push(0);
        proof {
            assert(r@ =~= spec_zero_key().subrange(0, i + 1));
        }
        i = i + 1;
    }
    proof {
        assert(r@ =~= spec_zero_key());
    }
    r
}

/// Byte length of Initialize instruction data with an explicit authority.
pub const INITIALIZE_DATA_LEN_WITH_AUTHORITY: usize = 108;

/// Byte length of Initialize instruction data without an authority.
pub const INITIALIZE_DATA_LEN: usize = 76;

/// The payload of an Initialize instruction.
pub struct InitializeInstructionData {
    pub seed: u64,
    pub fee: u16,
    pub mint_x: Vec<u8>,
    pub mint_y: Vec<u8>,
    pub config_bump: u8,
    pub lp_bump: u8,
    pub authority: Vec<u8>,
}

/// The mathematical content of an Initialize payload.
pub struct InitializeDataV {
    pub seed: u64,
    pub fee: u16,
    pub mint_x: Seq<u8>,
    pub mint_y: Seq<u8>,
    pub config_bump: u8,
    pub lp_bump: u8,
    pub authority: Seq<u8>,
}

impl View for InitializeInstructionData {
    type V = InitializeDataV;

    open spec fn view(&self) -> InitializeDataV {
        InitializeDataV {
            seed: self.seed,
            fee: self.fee,
            mint_x: self.mint_x@,
            mint_y: self.mint_y@,
            config_bump: self.config_bump,
            lp_bump: self.lp_bump,
            authority: self.authority@,
        }
    }
}

impl InitializeDataV {
    /// A well-formed payload names full-length addresses.
    pub open spec fn wf(self) -> bool {
        crate::is_key(self.mint_x) && crate::is_key(self.mint_y) && crate::is_key(self.authority)
    }
}

/// The Initialize payload a byte string carries: seed, fee, the two mints
/// and the two bumps, then an optional explicit pool authority, defaulting
/// to none (all-zero). Any other length is rejected before any field is
/// interpreted.
pub open spec fn spec_initialize_data_parse(data: Seq<u8>) -> Result<
    InitializeDataV,
    ProgramError,
> {
    if data.len() == INITIALIZE_DATA_LEN_WITH_AUTHORITY || data.len() == INITIALIZE_DATA_LEN {
        Ok(
            InitializeDataV {
                seed: spec_u64_from_le_bytes(data.subrange(0, 8)),
                fee: spec_u16_from_le_bytes(data.subrange(8, 10)),
                mint_x: data.subrange(10, 42),
                mint_y: data.subrange(42, 74),
                config_bump: data[74],
                lp_bump: data[75],
                authority: if data.len() == INITIALIZE_DATA_LEN_WITH_AUTHORITY {
                    data.subrange(76, 108)
                } else {
                    spec_zero_key()
                },
            },
        )
    } else {
        Err(ProgramError::InvalidInstructionData)
    }
}

impl InitializeInstructionData {
    /// Parses an Initialize payload, rejecting unexpected lengths.
    pub fn parse(data: &[u8]) -> (r: Result<InitializeInstructionData, ProgramError>)
        ensures
            match r {
                Ok(d) => spec_initialize_data_parse(data@) == Ok::<
                    InitializeDataV,
                    ProgramError,
                >(d@) && d@.wf(),
                Err(e) => spec_initialize_data_parse(data@) == Err::<
                    InitializeDataV,
                    ProgramError,
                >(e),
            },
    {
        if data.len() != INITIALIZE_DATA_LEN_WITH_AUTHORITY && data.len() != INITIALIZE_DATA_LEN {
            return Err(ProgramError::InvalidInstructionData);
        }
        let seed = u64_from_le_bytes(sub_bytes(data, 0, 8).as_slice());
        let fee = u16_from_le_bytes(sub_bytes(data, 8, 10).as_slice());
        let mint_x = sub_bytes(data, 10, 42);
        let mint_y = sub_bytes(data, 42, 74);
        let config_bump = data[74];
        let lp_bump = data[75];
        let authority = if data.len() == INITIALIZE_DATA_LEN_WITH_AUTHORITY {
            sub_bytes(data, 76, 108)
        } else {
            zero_key()
        };
        Ok(InitializeInstructionData { seed, fee, mint_x, mint_y, config_bump, lp_bump, authority })
    }
}

/// The payload of a Swap instruction.
#[derive(Clone, Copy, Debug, PartialEq, Eq, Structural)]
pub struct SwapInstructionData {
    /// Whether the caller deposits the pool's first token.
    pub is_x: bool,
    /// The amount the caller offers to deposit.
    pub amount: u64,
    /// The caller's minimum acceptable output (slippage bound).
    pub min: u64,
    /// The timestamp past which the instruction is stale.
    pub expiration: i64,
}

/// Byte length of Swap instruction data.
pub const SWAP_DATA_LEN: usize = 25;

/// The Swap payload a byte string carries, judged against the ledger clock
/// `now`: a direction byte, then amount, minimum output, and expiration. A
/// zero amount or minimum, a stale expiration, or an unexpected length is
/// rejected.
pub open spec fn spec_swap_data_parse(data: Seq<u8>, now: i64) -> Result<
    SwapInstructionData,
    ProgramError,
> {
    if data.len() != SWAP_DATA_LEN {
        Err(ProgramError::InvalidInstructionData)
    } else {
        let d = SwapInstructionData {
            is_x: data[0] == 1,
            amount: spec_u64_from_le_bytes(data.subrange(1, 9)),
            min: spec_u64_from_le_bytes(data.subrange(9, 17)),
            expiration: spec_u64_from_le_bytes(data.subrange(17, 25)) as i64,
        };
        if d.amount == 0 || d.min == 0 || d.expiration < now {
            Err(ProgramError::InvalidInstructionData)
        } else {
            Ok(d)
        }
    }
}

impl SwapInstructionData {
    /// Parses a Swap payload against the ledger clock.
    pub fn parse(data: &[u8], now: i64) -> (r: Result<SwapInstructionData, ProgramError>)
        ensures
            r == spec_swap_data_parse(data@, now),
    {
        if data.len() != SWAP_DATA_LEN {
            return Err(ProgramError::InvalidInstructionData);
        }
        let is_x = data[0] == 1;
        let amount = u64_from_le_bytes(sub_bytes(data, 1, 9).as_slice());
        let min = u64_from_le_bytes(sub_bytes(data, 9, 17).as_slice());
        let expiration = u64_from_le_bytes(sub_bytes(data, 17, 25).as_slice()) as i64;
        if amount == 0 || min == 0 || expiration < now {
            return Err(ProgramError::InvalidInstructionData);
        }
        Ok(SwapInstructionData { is_x, amount, min, expiration })
    }
}

/// The payload of a Withdraw instruction.
#[derive(Clone, Copy, Debug, PartialEq, Eq, Structural)]
pub struct WithdrawInstructionData {
    /// The amount of liquidity-provider tokens to redeem.
    pub amount: u64,
    /// The caller's bound on the first returned amount.
    pub min_x: u64,
    /// The caller's bound on the second returned amount.
    pub min_y: u64,
    /// The timestamp past which the instruction is stale.
    pub expiration: i64,
}

/// Byte length of Withdraw instruction data.
pub const WITHDRAW_DATA_LEN: usize = 32;

/// The Withdraw payload a byte string carries, judged against the ledger
/// clock `now`: amount, the two bounds, and expiration. A zero amount or
/// bound, a stale expiration, or an unexpected length is rejected.
pub open spec fn spec_withdraw_data_parse(data: Seq<u8>, now: i64) -> Result<
    WithdrawInstructionData,
    ProgramError,
> {
    if data.len() != WITHDRAW_DATA_LEN {
        Err(ProgramError::InvalidInstructionData)
    } else {
        let d = WithdrawInstructionData {
            amount: spec_u64_from_le_bytes(data.subrange(0, 8)),
            min_x: spec_u64_from_le_bytes(data.subrange(8, 16)),
            min_y: spec_u64_from_le_bytes(data.subrange(16, 24)),
            expiration: spec_u64_from_le_bytes(data.subrange(24, 32)) as i64,
        };
        if d.amount == 0 || d.min_x == 0 || d.min_y == 0 || d.expiration < now {
            Err(ProgramError::InvalidInstructionData)
        } else {
            Ok(d)
        }
    }
}

impl WithdrawInstructionData {
    /// Parses a Withdraw payload against the ledger clock.
    pub fn parse(data: &[u8], now: i64) -> (r: Result<WithdrawInstructionData, ProgramError>)
        ensures
            r == spec_withdraw_data_parse(data@, now),
    {
        if data.len() != WITHDRAW_DATA_LEN {
            return Err(ProgramError::InvalidInstructionData);
        }
        let amount = u64_from_le_bytes(sub_bytes(data, 0, 8).as_slice());
        let min_x = u64_from_le_bytes(sub_bytes(data, 8, 16).as_slice());
        let min_y = u64_from_le_bytes(sub_bytes(data, 16, 24).as_slice());
        let expiration = u64_from_le_bytes(sub_bytes(data, 24, 32).as_slice()) as i64;
        if amount == 0 || min_x == 0 || min_y == 0 || expiration < now {
            return Err(ProgramError::InvalidInstructionData);
        }
        Ok(WithdrawInstructionData { amount, min_x, min_y, expiration })
    }
}

} // verus!

verus! {

/// The accounts an Initialize instruction names, in order: initializer, the
/// liquidity-provider mint, the configuration record, and the two programs.
pub struct InitializeAccounts {
    pub initializer: AccountView,
    pub mint_lp: AccountView,
    pub config: AccountView,
}

/// How many references an Initialize instruction must name.
pub const INITIALIZE_ACCOUNT_COUNT: usize = 5;

impl InitializeAccounts {
    /// Admits the accounts of an Initialize instruction.
    pub fn try_from_accounts(accounts: &Vec<AccountView>) -> (r: Result<
        InitializeAccounts,
        ProgramError,
    >)
        ensures
            match r {
                Ok(a) => accounts@.len() == INITIALIZE_ACCOUNT_COUNT && a.initializer@
                    == accounts@[0]@ && a.mint_lp@ == accounts@[1]@ && a.config@ == accounts@[2]@,
                Err(e) => accounts@.len() != INITIALIZE_ACCOUNT_COUNT && e
                    == ProgramError::NotEnoughAccountKeys,
            },
    {
        if accounts.len() != INITIALIZE_ACCOUNT_COUNT {
            return Err(ProgramError::NotEnoughAccountKeys);
        }
        Ok(InitializeAccounts {
            initializer: accounts[0].duplicate(),
            mint_lp: accounts[1].duplicate(),
            config: accounts[2].duplicate(),
        })
    }
}

/// An Initialize instruction after its accounts and payload were admitted.
pub struct Initialize {
    pub accounts: InitializeAccounts,
    pub instruction_data: InitializeInstructionData,
}

/// The configuration record an Initialize payload persists: the pool starts
/// its life in the `Initialized` state.
pub open spec fn spec_initial_config(d: InitializeDataV) -> ConfigV {
    ConfigV {
        seed: d.seed,
        authority: d.authority,
        mint_x: d.mint_x,
        mint_y: d.mint_y,
        fee: d.fee,
        config_bump: d.config_bump,
        state: AmmState::Initialized,
    }
}

/// The movements an Initialize decides: allocate the configuration record at
/// its address and persist the initial configuration, then allocate the
/// liquidity-provider mint and initialize it with zero supply under the
/// configuration's authority. Allocation fails on the ledger where the
/// account already exists, so re-running Initialize on a live pool aborts.
pub open spec fn spec_initialize_plan(
    initializer: AccountV,
    mint_lp: AccountV,
    config: AccountV,
    d: InitializeDataV,
    program_id: Seq<u8>,
    token_id: Seq<u8>,
) -> Seq<OpV> {
    seq![
        OpV::CreateAccount {
            account: config.key,
            owner: program_id,
            payer: initializer.key,
            space: CONFIG_LEN as u64,
        },
        OpV::StoreRecord { account: config.key, record: spec_config_encode(spec_initial_config(d)) },
        OpV::CreateAccount {
            account: mint_lp.key,
            owner: token_id,
            payer: initializer.key,
            space: MINT_LEN as u64,
        },
        OpV::InitializeMint {
            mint: mint_lp.key,
            authority: config.key,
            decimals: LP_MINT_DECIMALS,
        },
    ]
}

impl Initialize {
    /// The one-byte instruction discriminator of Initialize.
    pub const DISCRIMINATOR: u8 = 0;

    /// Admits the accounts and parses the payload of an Initialize.
    pub fn try_from_accounts(data: &[u8], accounts: &Vec<AccountView>) -> (r: Result<
        Initialize,
        ProgramError,
    >)
        ensures
            match r {
                Ok(t) => {
                    &&& accounts@.len() == INITIALIZE_ACCOUNT_COUNT
                    &&& t.accounts.initializer@ == accounts@[0]@
                    &&& t.accounts.mint_lp@ == accounts@[1]@
                    &&& t.accounts.config@ == accounts@[2]@
                    &&& spec_initialize_data_parse(data@) == Ok::<InitializeDataV, ProgramError>(
                        t.instruction_data@,
                    )
                    &&& t.instruction_data@.wf()
                },
                Err(_) => accounts@.len() != INITIALIZE_ACCOUNT_COUNT
                    || spec_initialize_data_parse(data@) is Err,
            },
    {
        let accounts = InitializeAccounts::try_from_accounts(accounts)?;
        let instruction_data = InitializeInstructionData::parse(data)?;
        Ok(Initialize { accounts, instruction_data })
    }

    /// Decides the movements that set the pool up.
    pub fn process(&self, program_id: &[u8], token_id: &[u8]) -> (r: Vec<TokenOp>)
        requires
            self.instruction_data@.wf(),
        ensures
            plan_view(r@) == spec_initialize_plan(
                self.accounts.initializer@,
                self.accounts.mint_lp@,
                self.accounts.config@,
                self.instruction_data@,
                program_id@,
                token_id@,
            ),
    {
        let config_record = Config {
            seed: self.instruction_data.seed,
            authority: bytes_of(self.instruction_data.authority.as_slice()),
            mint_x: bytes_of(self.instruction_data.mint_x.as_slice()),
            mint_y: bytes_of(self.instruction_data.mint_y.as_slice()),
            fee: self.instruction_data.fee,
            config_bump: self.instruction_data.config_bump,
            state: AmmState::Initialized,
        };
        let mut plan: Vec<TokenOp> = Vec::new();
        plan.push(TokenOp::CreateAccount {
            account: bytes_of(self.accounts.config.key.as_slice()),
            owner: bytes_of(program_id),
            payer: bytes_of(self.accounts.initializer.key.as_slice()),
            space: CONFIG_LEN as u64,
        });
        plan.push(TokenOp::StoreRecord {
            account: bytes_of(self.accounts.config.key.as_slice()),
            record: config_record.encode(),
        });
        plan.push(TokenOp::CreateAccount {
            account: bytes_of(self.accounts.mint_lp.key.as_slice()),
            owner: bytes_of(token_id),
            payer: bytes_of(self.accounts.initializer.key.as_slice()),
            space: MINT_LEN as u64,
        });
        plan.push(TokenOp::InitializeMint {
            mint: bytes_of(self.accounts.mint_lp.key.as_slice()),
            authority: bytes_of(self.accounts.config.key.as_slice()),
            decimals: LP_MINT_DECIMALS,
        });
        proof {
            assert(plan_view(plan@) =~= spec_initialize_plan(
                self.accounts.initializer@,
                self.accounts.mint_lp@,
                self.accounts.config@,
                self.instruction_data@,
                program_id@,
                token_id@,
            ));
        }
        plan
    }
}

/// The accounts a Swap instruction names, in order: user, the user's two
/// token accounts, the two vaults, the configuration record, and the token
/// program.
pub struct SwapAccounts {
    pub user: AccountView,
    pub user_x: AccountView,
    pub user_y: AccountView,
    pub vault_x: AccountView,
    pub vault_y: AccountView,
    pub config: AccountView,
    pub token_program: AccountView,
}

/// How many references a Swap instruction must name.
pub const SWAP_ACCOUNT_COUNT: usize = 7;

impl SwapAccounts {
    /// Admits the accounts of a Swap instruction.
    pub fn try_from_accounts(accounts: &Vec<AccountView>) -> (r: Result<
        SwapAccounts,
        ProgramError,
    >)
        ensures
            match r {
                Ok(a) => accounts@.len() == SWAP_ACCOUNT_COUNT && a.user@ == accounts@[0]@
                    && a.user_x@ == accounts@[1]@ && a.user_y@ == accounts@[2]@ && a.vault_x@
                    == accounts@[3]@ && a.vault_y@ == accounts@[4]@ && a.config@ == accounts@[5]@
                    && a.token_program@ == accounts@[6]@,
                Err(e) => accounts@.len() != SWAP_ACCOUNT_COUNT && e
                    == ProgramError::NotEnoughAccountKeys,
            },
    {
        if accounts.len() != SWAP_ACCOUNT_COUNT {
            return Err(ProgramError::NotEnoughAccountKeys);
        }
        Ok(SwapAccounts {
            user: accounts[0].duplicate(),
            user_x: accounts[1].duplicate(),
            user_y: accounts[2].duplicate(),
            vault_x: accounts[3].duplicate(),
            vault_y: accounts[4].duplicate(),
            config: accounts[5].duplicate(),
            token_program: accounts[6].duplicate(),
        })
    }
}

/// A Swap instruction after its accounts and payload were admitted.
pub struct Swap {
    pub accounts: SwapAccounts,
    pub instruction_data: SwapInstructionData,
}

/// The checked inputs a Swap hands to the external curve function: the two
/// vault reserves, the liquidity proxy the curve is seeded with (the first
/// reserve), and the pool fee.
#[derive(Clone, Copy, Debug, PartialEq, Eq, Structural)]
pub struct SwapQuoteInput {
    pub reserve_x: u64,
    pub reserve_y: u64,
    pub lp_proxy: u64,
    pub fee: u16,
}

/// What preparing a Swap decides: the configuration record decodes and is in
/// the `Initialized` state, both vaults live exactly at their re-derived
/// associated addresses, and both vaults have token-account shape; then the
/// curve's inputs are the vault reserves and the configured fee.
pub open spec fn spec_swap_prepare(
    config_acct: AccountV,
    vault_x: AccountV,
    vault_y: AccountV,
    token_program_key: Seq<u8>,
    ata_id: Seq<u8>,
) -> Result<SwapQuoteInput, ProgramError> {
    if config_acct.data.len() != CONFIG_LEN || spec_config_decode(config_acct.data) is None {
        Err(ProgramError::InvalidAccountData)
    } else {
        let c = spec_config_decode(config_acct.data)->Some_0;
        if c.state != AmmState::Initialized {
            Err(ProgramError::InvalidAccountData)
        } else {
            match spec_vault_check(vault_x.key, config_acct.key, token_program_key, c.mint_x, ata_id) {
                Err(e) => Err(e),
                Ok(()) => match spec_vault_check(
                    vault_y.key,
                    config_acct.key,
                    token_program_key,
                    c.mint_y,
                    ata_id,
                ) {
                    Err(e) => Err(e),
                    Ok(()) => if vault_x.data.len() != TOKEN_ACCOUNT_LEN {
                        Err(ProgramError::InvalidAccountData)
                    } else if vault_y.data.len() != TOKEN_ACCOUNT_LEN {
                        Err(ProgramError::InvalidAccountData)
                    } else {
                        Ok(
                            SwapQuoteInput {
                                reserve_x: spec_token_amount(vault_x.data),
                                reserve_y: spec_token_amount(vault_y.data),
                                lp_proxy: spec_token_amount(vault_x.data),
                                fee: c.fee,
                            },
                        )
                    },
                },
            }
        }
    }
}

/// What settling a Swap decides, given what the external curve function
/// returned for `(reserves, fee, direction, amount, min)` — `None` where the
/// curve rejected the request: both legs must be nonzero and the outbound
/// leg must meet the caller's minimum; the user's deposit is ordered
/// strictly before the pool's withdrawal, so the pool's outbound leg is
/// conditioned on the inbound leg having posted.
pub open spec fn spec_swap_settle(
    user: AccountV,
    user_x: AccountV,
    user_y: AccountV,
    vault_x: AccountV,
    vault_y: AccountV,
    config_acct: AccountV,
    is_x: bool,
    min: u64,
    curve_out: Option<(u64, u64)>,
) -> Result<Seq<OpV>, ProgramError> {
    match curve_out {
        None => Err(ProgramError::Custom(1)),
        Some(dw) => {
            let deposit = dw.0;
            let withdraw = dw.1;
            if withdraw < min {
                Err(ProgramError::Custom(1))
            } else if deposit == 0 || withdraw == 0 {
                Err(ProgramError::InvalidArgument)
            } else if is_x {
                Ok(
                    seq![
                        OpV::Transfer {
                            from: user_x.key,
                            to: vault_x.key,
                            authority: user.key,
                            amount: deposit,
                        },
                        OpV::Transfer {
                            from: vault_y.key,
                            to: user_y.key,
                            authority: config_acct.key,
                            amount: withdraw,
                        },
                    ],
                )
            } else {
                Ok(
                    seq![
                        OpV::Transfer {
                            from: user_y.key,
                            to: vault_y.key,
                            authority: user.key,
                            amount: deposit,
                        },
                        OpV::Transfer {
                            from: vault_x.key,
                            to: user_x.key,
                            authority: config_acct.key,
                            amount: withdraw,
                        },
                    ],
                )
            }
        },
    }
}

impl Swap {
    /// The one-byte instruction discriminator of Swap.
    pub const DISCRIMINATOR: u8 = 3;

    /// Admits the accounts and parses the payload of a Swap against the
    /// ledger clock.
    pub fn try_from_accounts(data: &[u8], accounts: &Vec<AccountView>, now: i64) -> (r: Result<
        Swap,
        ProgramError,
    >)
        ensures
            match r {
                Ok(t) => {
                    &&& accounts@.len() == SWAP_ACCOUNT_COUNT
                    &&& t.accounts.user@ == accounts@[0]@
                    &&& t.accounts.user_x@ == accounts@[1]@
                    &&& t.accounts.user_y@ == accounts@[2]@
                    &&& t.accounts.vault_x@ == accounts@[3]@
                    &&& t.accounts.vault_y@ == accounts@[4]@
                    &&& t.accounts.config@ == accounts@[5]@
                    &&& t.accounts.token_program@ == accounts@[6]@
                    &&& spec_swap_data_parse(data@, now) == Ok::<SwapInstructionData, ProgramError>(
                        t.instruction_data,
                    )
                },
                Err(_) => accounts@.len() != SWAP_ACCOUNT_COUNT || spec_swap_data_parse(
                    data@,
                    now,
                ) is Err,
            },
    {
        let accounts = SwapAccounts::try_from_accounts(accounts)?;
        let instruction_data = SwapInstructionData::parse(data, now)?;
        Ok(Swap { accounts, instruction_data })
    }

    /// Checks the pool state and both vault derivations, and reads the
    /// reserves the external curve function is to be called with. No curve
    /// input is decided past a failed check.
    pub fn prepare(&self, ata_id: &[u8]) -> (r: Result<SwapQuoteInput, ProgramError>)
        requires
            crate::is_key(ata_id@),
        ensures
            r == spec_swap_prepare(
                self.accounts.config@,
                self.accounts.vault_x@,
                self.accounts.vault_y@,
                self.accounts.token_program@.key,
                ata_id@,
            ),
    {
        let config = Config::load(self.accounts.config.data.as_slice())?;
        if !matches!(config.state, AmmState::Initialized) {
            return Err(ProgramError::InvalidAccountData);
        }
        vault_check(
            self.accounts.vault_x.key.as_slice(),
            self.accounts.config.key.as_slice(),
            self.accounts.token_program.key.as_slice(),
            config.mint_x.as_slice(),
            ata_id,
        )?;
        vault_check(
            self.accounts.vault_y.key.as_slice(),
            self.accounts.config.key.as_slice(),
            self.accounts.token_program.key.as_slice(),
            config.mint_y.as_slice(),
            ata_id,
        )?;
        let reserve_x = read_token_amount(&self.accounts.vault_x)?;
        let reserve_y = read_token_amount(&self.accounts.vault_y)?;
        Ok(SwapQuoteInput { reserve_x, reserve_y, lp_proxy: reserve_x, fee: config.fee })
    }

    /// Decides the two transfer legs of this Swap from what the external
    /// curve function returned, or the error that aborts it.
    pub fn settle(&self, curve_out: Option<(u64, u64)>) -> (r: Result<Vec<TokenOp>, ProgramError>)
        ensures
            match r {
                Ok(plan) => spec_swap_settle(
                    self.accounts.user@,
                    self.accounts.user_x@,
                    self.accounts.user_y@,
                    self.accounts.vault_x@,
                    self.accounts.vault_y@,
                    self.accounts.config@,
                    self.instruction_data.is_x,
                    self.instruction_data.min,
                    curve_out,
                ) == Ok::<Seq<OpV>, ProgramError>(plan_view(plan@)),
                Err(e) => spec_swap_settle(
                    self.accounts.user@,
                    self.accounts.user_x@,
                    self.accounts.user_y@,
                    self.accounts.vault_x@,
                    self.accounts.vault_y@,
                    self.accounts.config@,
                    self.instruction_data.is_x,
                    self.instruction_data.min,
                    curve_out,
                ) == Err::<Seq<OpV>, ProgramError>(e),
            },
    {
        let (deposit, withdraw) = match curve_out {
            Some(dw) => dw,
            None => {
                return Err(ProgramError::Custom(1));
            },
        };
        if withdraw < self.instruction_data.min {
            return Err(ProgramError::Custom(1));
        }
        if deposit == 0 || withdraw == 0 {
            return Err(ProgramError::InvalidArgument);
        }
        let mut plan: Vec<TokenOp> = Vec::new();
        if self.instruction_data.is_x {
            plan.push(TokenOp::Transfer {
                from: bytes_of(self.accounts.user_x.key.as_slice()),
                to: bytes_of(self.accounts.vault_x.key.as_slice()),
                authority: bytes_of(self.accounts.user.key.as_slice()),
                amount: deposit,
            });
            plan.push(TokenOp::Transfer {
                from: bytes_of(self.accounts.vault_y.key.as_slice()),
                to: bytes_of(self.accounts.user_y.key.as_slice()),
                authority: bytes_of(self.accounts.config.key.as_slice()),
                amount: withdraw,
            });
        } else {
            plan.push(TokenOp::Transfer {
                from: bytes_of(self.accounts.user_y.key.as_slice()),
                to: bytes_of(self.accounts.vault_y.key.as_slice()),
                authority: bytes_of(self.accounts.user.key.as_slice()),
                amount: deposit,
            });
            plan.push(TokenOp::Transfer {
                from: bytes_of(self.accounts.vault_x.key.as_slice()),
                to: bytes_of(self.accounts.user_x.key.as_slice()),
                authority: bytes_of(self.accounts.config.key.as_slice()),
                amount: withdraw,
            });
        }
        proof {
            assert(plan_view(plan@) =~= spec_swap_settle(
                self.accounts.user@,
                self.accounts.user_x@,
                self.accounts.user_y@,
                self.accounts.vault_x@,
                self.accounts.vault_y@,
                self.accounts.config@,
                self.instruction_data.is_x,
                self.instruction_data.min,
                curve_out,
            )->Ok_0);
        }
        Ok(plan)
    }
}

} // verus!

verus! {

/// The accounts a Withdraw instruction names, in order: user, the
/// liquidity-provider mint, the two vaults, the user's three token accounts,
/// the configuration record, and the token program.
pub struct WithdrawAccounts {
    pub user: AccountView,
    pub mint_lp: AccountView,
    pub vault_x: AccountView,
    pub vault_y: AccountView,
    pub user_x_ata: AccountView,
    pub user_y_ata: AccountView,
    pub user_lp_ata: AccountView,
    pub config: AccountView,
    pub token_program: AccountView,
}

/// How many references a Withdraw instruction must name.
pub const WITHDRAW_ACCOUNT_COUNT: usize = 9;

impl WithdrawAccounts {
    /// Admits the accounts of a Withdraw instruction.
    pub fn try_from_accounts(accounts: &Vec<AccountView>) -> (r: Result<
        WithdrawAccounts,
        ProgramError,
    >)
        ensures
            match r {
                Ok(a) => accounts@.len() == WITHDRAW_ACCOUNT_COUNT && a.user@ == accounts@[0]@
                    && a.mint_lp@ == accounts@[1]@ && a.vault_x@ == accounts@[2]@ && a.vault_y@
                    == accounts@[3]@ && a.user_x_ata@ == accounts@[4]@ && a.user_y_ata@
                    == accounts@[5]@ && a.user_lp_ata@ == accounts@[6]@ && a.config@
                    == accounts@[7]@ && a.token_program@ == accounts@[8]@,
                Err(e) => accounts@.len() != WITHDRAW_ACCOUNT_COUNT && e
                    == ProgramError::NotEnoughAccountKeys,
            },
    {
        if accounts.len() != WITHDRAW_ACCOUNT_COUNT {
            return Err(ProgramError::NotEnoughAccountKeys);
        }
        Ok(WithdrawAccounts {
            user: accounts[0].duplicate(),
            mint_lp: accounts[1].duplicate(),
            vault_x: accounts[2].duplicate(),
            vault_y: accounts[3].duplicate(),
            user_x_ata: accounts[4].duplicate(),
            user_y_ata: accounts[5].duplicate(),
            user_lp_ata: accounts[6].duplicate(),
            config: accounts[7].duplicate(),
            token_program: accounts[8].duplicate(),
        })
    }
}

/// A Withdraw instruction after its accounts and payload were admitted.
pub struct Withdraw {
    pub accounts: WithdrawAccounts,
    pub instruction_data: WithdrawInstructionData,
}

/// The checked inputs a Withdraw hands to the external curve function's
/// pro-rata formula: the two vault reserves and the liquidity-provider
/// supply.
#[derive(Clone, Copy, Debug, PartialEq, Eq, Structural)]
pub struct WithdrawQuoteInput {
    pub reserve_x: u64,
    pub reserve_y: u64,
    pub lp_supply: u64,
}

/// What preparing a Withdraw decides: the configuration record decodes and
/// is in the `Initialized` state, both vaults live exactly at their
/// re-derived associated addresses, the liquidity-provider mint and both
/// vaults are well shaped; then the curve inputs are the reserves and the
/// supply.
pub open spec fn spec_withdraw_prepare(
    config_acct: AccountV,
    vault_x: AccountV,
    vault_y: AccountV,
    mint_lp: AccountV,
    token_program_key: Seq<u8>,
    ata_id: Seq<u8>,
) -> Result<WithdrawQuoteInput, ProgramError> {
    if config_acct.data.len() != CONFIG_LEN || spec_config_decode(config_acct.data) is None {
        Err(ProgramError::InvalidAccountData)
    } else {
        let c = spec_config_decode(config_acct.data)->Some_0;
        if c.state != AmmState::Initialized {
            Err(ProgramError::InvalidAccountData)
        } else {
            match spec_vault_check(vault_x.key, config_acct.key, token_program_key, c.mint_x, ata_id) {
                Err(e) => Err(e),
                Ok(()) => match spec_vault_check(
                    vault_y.key,
                    config_acct.key,
                    token_program_key,
                    c.mint_y,
                    ata_id,
                ) {
                    Err(e) => Err(e),
                    Ok(()) => if mint_lp.data.len() != MINT_LEN {
                        Err(ProgramError::InvalidAccountData)
                    } else if vault_x.data.len() != TOKEN_ACCOUNT_LEN {
                        Err(ProgramError::InvalidAccountData)
                    } else if vault_y.data.len() != TOKEN_ACCOUNT_LEN {
                        Err(ProgramError::InvalidAccountData)
                    } else {
                        Ok(
                            WithdrawQuoteInput {
                                reserve_x: spec_token_amount(vault_x.data),
                                reserve_y: spec_token_amount(vault_y.data),
                                lp_supply: spec_mint_supply(mint_lp.data),
                            },
                        )
                    },
                },
            }
        }
    }
}

/// The amounts a Withdraw returns for redeeming `amount` liquidity tokens:
/// redeeming the whole supply returns exactly the two reserves, with no
/// rounding loss and no curve call; a partial redemption takes what the
/// external curve's pro-rata formula returned, `None` where it rejected the
/// request.
pub open spec fn spec_withdraw_amounts(
    quote: WithdrawQuoteInput,
    amount: u64,
    curve_out: Option<(u64, u64)>,
) -> Result<(u64, u64), ProgramError> {
    if quote.lp_supply == amount {
        Ok((quote.reserve_x, quote.reserve_y))
    } else {
        match curve_out {
            Some(xy) => Ok(xy),
            None => Err(ProgramError::InvalidArgument),
        }
    }
}

/// What settling a Withdraw decides, given the curve's answer for a partial
/// redemption: both returned amounts must satisfy the caller's bounds read
/// as upper bounds — each returned amount must not exceed the instruction's
/// stated bound — before the two transfers and the burn of the redeemed
/// liquidity tokens are ordered.
pub open spec fn spec_withdraw_settle(
    user: AccountV,
    mint_lp: AccountV,
    vault_x: AccountV,
    vault_y: AccountV,
    user_x_ata: AccountV,
    user_y_ata: AccountV,
    user_lp_ata: AccountV,
    config_acct: AccountV,
    d: WithdrawInstructionData,
    quote: WithdrawQuoteInput,
    curve_out: Option<(u64, u64)>,
) -> Result<Seq<OpV>, ProgramError> {
    match spec_withdraw_amounts(quote, d.amount, curve_out) {
        Err(e) => Err(e),
        Ok(xy) => {
            let x = xy.0;
            let y = xy.1;
            if !(x <= d.min_x && y <= d.min_y) {
                Err(ProgramError::InvalidArgument)
            } else {
                Ok(
                    seq![
                        OpV::Transfer {
                            from: vault_x.key,
                            to: user_x_ata.key,
                            authority: config_acct.key,
                            amount: x,
                        },
                        OpV::Transfer {
                            from: vault_y.key,
                            to: user_y_ata.key,
                            authority: config_acct.key,
                            amount: y,
                        },
                        OpV::Burn {
                            account: user_lp_ata.key,
                            mint: mint_lp.key,
                            authority: user.key,
                            amount: d.amount,
                        },
                    ],
                )
            }
        },
    }
}

impl Withdraw {
    /// The one-byte instruction discriminator of Withdraw.
    pub const DISCRIMINATOR: u8 = 2;

    /// Admits the accounts and parses the payload of a Withdraw against the
    /// ledger clock.
    pub fn try_from_accounts(data: &[u8], accounts: &Vec<AccountView>, now: i64) -> (r: Result<
        Withdraw,
        ProgramError,
    >)
        ensures
            match r {
                Ok(t) => {
                    &&& accounts@.len() == WITHDRAW_ACCOUNT_COUNT
                    &&& t.accounts.user@ == accounts@[0]@
                    &&& t.accounts.mint_lp@ == accounts@[1]@
                    &&& t.accounts.vault_x@ == accounts@[2]@
                    &&& t.accounts.vault_y@ == accounts@[3]@
                    &&& t.accounts.user_x_ata@ == accounts@[4]@
                    &&& t.accounts.user_y_ata@ == accounts@[5]@
                    &&& t.accounts.user_lp_ata@ == accounts@[6]@
                    &&& t.accounts.config@ == accounts@[7]@
                    &&& t.accounts.token_program@ == accounts@[8]@
                    &&& spec_withdraw_data_parse(data@, now) == Ok::<
                        WithdrawInstructionData,
                        ProgramError,
                    >(t.instruction_data)
                },
                Err(_) => accounts@.len() != WITHDRAW_ACCOUNT_COUNT || spec_withdraw_data_parse(
                    data@,
                    now,
                ) is Err,
            },
    {
        let accounts = WithdrawAccounts::try_from_accounts(accounts)?;
        let instruction_data = WithdrawInstructionData::parse(data, now)?;
        Ok(Withdraw { accounts, instruction_data })
    }

    /// Checks the pool state and both vault derivations, and reads the
    /// reserves and supply the external curve function is to be called with.
    /// No curve input is decided past a failed check.
    pub fn prepare(&self, ata_id: &[u8]) -> (r: Result<WithdrawQuoteInput, ProgramError>)
        requires
            crate::is_key(ata_id@),
        ensures
            r == spec_withdraw_prepare(
                self.accounts.config@,
                self.accounts.vault_x@,
                self.accounts.vault_y@,
                self.accounts.mint_lp@,
                self.accounts.token_program@.key,
                ata_id@,
            ),
    {
        let config = Config::load(self.accounts.config.data.as_slice())?;
        if !matches!(config.state, AmmState::Initialized) {
            return Err(ProgramError::InvalidAccountData);
        }
        vault_check(
            self.accounts.vault_x.key.as_slice(),
            self.accounts.config.key.as_slice(),
            self.accounts.token_program.key.as_slice(),
            config.mint_x.as_slice(),
            ata_id,
        )?;
        vault_check(
            self.accounts.vault_y.key.as_slice(),
            self.accounts.config.key.as_slice(),
            self.accounts.token_program.key.as_slice(),
            config.mint_y.as_slice(),
            ata_id,
        )?;
        let lp_supply = read_mint_supply(&self.accounts.mint_lp)?;
        let reserve_x = read_token_amount(&self.accounts.vault_x)?;
        let reserve_y = read_token_amount(&self.accounts.vault_y)?;
        Ok(WithdrawQuoteInput { reserve_x, reserve_y, lp_supply })
    }

    /// Decides the transfers and the burn of this Withdraw from the quote
    /// and what the external curve function returned, or the error that
    /// aborts it.
    pub fn settle(&self, quote: WithdrawQuoteInput, curve_out: Option<(u64, u64)>) -> (r: Result<
        Vec<TokenOp>,
        ProgramError,
    >)
        ensures
            match r {
                Ok(plan) => spec_withdraw_settle(
                    self.accounts.user@,
                    self.accounts.mint_lp@,
                    self.accounts.vault_x@,
                    self.accounts.vault_y@,
                    self.accounts.user_x_ata@,
                    self.accounts.user_y_ata@,
                    self.accounts.user_lp_ata@,
                    self.accounts.config@,
                    self.instruction_data,
                    quote,
                    curve_out,
                ) == Ok::<Seq<OpV>, ProgramError>(plan_view(plan@)),
                Err(e) => spec_withdraw_settle(
                    self.accounts.user@,
                    self.accounts.mint_lp@,
                    self.accounts.vault_x@,
                    self.accounts.vault_y@,
                    self.accounts.user_x_ata@,
                    self.accounts.user_y_ata@,
                    self.accounts.user_lp_ata@,
                    self.accounts.config@,
                    self.instruction_data,
                    quote,
                    curve_out,
                ) == Err::<Seq<OpV>, ProgramError>(e),
            },
    {
        let (x, y) = if quote.lp_supply == self.instruction_data.amount {
            (quote.reserve_x, quote.reserve_y)
        } else {
            match curve_out {
                Some(xy) => xy,
                None => {
                    return Err(ProgramError::InvalidArgument);
                },
            }
        };
        if !(x <= self.instruction_data.min_x && y <= self.instruction_data.min_y) {
            return Err(ProgramError::InvalidArgument);
        }
        let mut plan: Vec<TokenOp> = Vec::new();
        plan.push(TokenOp::Transfer {
            from: bytes_of(self.accounts.vault_x.key.as_slice()),
            to: bytes_of(self.accounts.user_x_ata.key.as_slice()),
            authority: bytes_of(self.accounts.config.key.as_slice()),
            amount: x,
        });
        plan.push(TokenOp::Transfer {
            from: bytes_of(self.accounts.vault_y.key.as_slice()),
            to: bytes_of(self.accounts.user_y_ata.key.as_slice()),
            authority: bytes_of(self.accounts.config.key.as_slice()),
            amount: y,
        });
        plan.push(TokenOp::Burn {
            account: bytes_of(self.accounts.user_lp_ata.key.as_slice()),
            mint: bytes_of(self.accounts.mint_lp.key.as_slice()),
            authority: bytes_of(self.accounts.user.key.as_slice()),
            amount: self.instruction_data.amount,
        });
        proof {
            assert(plan_view(plan@) =~= spec_withdraw_settle(
                self.accounts.user@,
                self.accounts.mint_lp@,
                self.accounts.vault_x@,
                self.accounts.vault_y@,
                self.accounts.user_x_ata@,
                self.accounts.user_y_ata@,
                self.accounts.user_lp_ata@,
                self.accounts.config@,
                self.instruction_data,
                quote,
                curve_out,
            )->Ok_0);
        }
        Ok(plan)
    }
}

} // verus!
