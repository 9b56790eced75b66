//! The flash-loan protocol: a Borrow and a Repay co-located in one atomic
//! transaction, with no collateral, no lock and no persisted loan record.
//!
//! Safety rests entirely on transaction-wide introspection: Borrow moves the
//! principal out only after finding, as the transaction's final instruction,
//! a Repay of this same program over the same borrower and vault accounts;
//! any mismatch aborts the whole transaction, which undoes the borrow. The
//! runtime exposes the serialized instruction list of the executing
//! transaction in a read-only account; this module parses that fixed layout
//! with full bounds checks.

use vstd::prelude::*;
use crate::account::{AccountV, AccountView, bytes_eq, bytes_of, sub_bytes};
use crate::derive::{find_program_address, seed_views, spec_find_program_address};
use crate::errors::{ProgramError, ProtocolError};
use crate::ops::{OpV, TokenOp, plan_view};
use crate::validate::{MINT_LEN, spec_token_account_check};
use vstd::bytes::{spec_u16_from_le_bytes, spec_u64_from_le_bytes, u16_from_le_bytes, u64_from_le_bytes};

verus! {

/// Flash-loan fee in basis points, a protocol constant.
pub const LOAN_FEE_BPS: u64 = 500;

/// Basis-point denominator.
pub const BPS_DENOMINATOR: u64 = 10000;

/// One account reference of a serialized sibling instruction.
pub struct AccountMetaView {
    pub key: Vec<u8>,
    pub is_signer: bool,
    pub is_writable: bool,
}

/// The mathematical content of a serialized account reference.
pub struct MetaV {
    pub key: Seq<u8>,
    pub is_signer: bool,
    pub is_writable: bool,
}

impl View for AccountMetaView {
    type V = MetaV;

    open spec fn view(&self) -> MetaV {
        MetaV { key: self.key@, is_signer: self.is_signer, is_writable: self.is_writable }
    }
}

/// One sibling instruction of the executing transaction.
pub struct InstructionView {
    pub program_id: Vec<u8>,
    pub accounts: Vec<AccountMetaView>,
    pub data: Vec<u8>,
}

/// The mathematical content of a sibling instruction.
pub struct IxV {
    pub program_id: Seq<u8>,
    pub accounts: Seq<MetaV>,
    pub data: Seq<u8>,
}

impl View for InstructionView {
    type V = IxV;

    open spec fn view(&self) -> IxV {
        IxV {
            program_id: self.program_id@,
            accounts: self.accounts@.map_values(|m: AccountMetaView| m@),
            data: self.data@,
        }
    }
}

/// The account reference serialized at `off`: one flag byte (signer bit,
/// writable bit), then the 32-byte address.
pub open spec fn spec_parse_meta(data: Seq<u8>, off: int) -> MetaV {
    MetaV {
        key: data.subrange(off + 1, off + 33),
        is_signer: data[off] & 1 == 1,
        is_writable: data[off] & 2 == 2,
    }
}

/// The instruction serialized at `off`: an account count, the account
/// references, the program address, and a length-prefixed payload. `None`
/// where any read would run past the buffer.
pub open spec fn spec_parse_instruction(data: Seq<u8>, off: int) -> Option<IxV> {
    if off < 0 || off + 2 > data.len() {
        None
    } else {
        let na = spec_u16_from_le_bytes(data.subrange(off, off + 2)) as int;
        let metas_end = off + 2 + 33 * na;
        if metas_end + 34 > data.len() {
            None
        } else {
            let dl = spec_u16_from_le_bytes(
                data.subrange(metas_end + 32, metas_end + 34),
            ) as int;
            if metas_end + 34 + dl > data.len() {
                None
            } else {
                Some(
                    IxV {
                        program_id: data.subrange(metas_end, metas_end + 32),
                        accounts: Seq::new(
                            na as nat,
                            |k: int| spec_parse_meta(data, off + 2 + 33 * k),
                        ),
                        data: data.subrange(metas_end + 34, metas_end + 34 + dl),
                    },
                )
            }
        }
    }
}

/// How many instructions the serialized transaction carries.
pub open spec fn spec_instruction_count(data: Seq<u8>) -> int {
    if data.len() < 2 {
        0
    } else {
        spec_u16_from_le_bytes(data.subrange(0, 2)) as int
    }
}

/// The transaction's instruction at `index`: the buffer opens with the
/// count, then one offset per instruction into the serialized bodies.
/// `None` where the index is out of range or the buffer is malformed.
pub open spec fn spec_parse_instruction_at(data: Seq<u8>, index: int) -> Option<IxV> {
    if data.len() < 2 {
        None
    } else {
        let num = spec_instruction_count(data);
        if index < 0 || index >= num {
            None
        } else if 2 + 2 * (index + 1) > data.len() {
            None
        } else {
            let off = spec_u16_from_le_bytes(
                data.subrange(2 + 2 * index, 4 + 2 * index),
            ) as int;
            spec_parse_instruction(data, off)
        }
    }
}

/// Parses the instruction serialized at byte offset `off`.
fn parse_instruction(data: &[u8], off: usize) -> (r: Option<InstructionView>)
    requires
        off <= u16::MAX,
        data@.len() <= usize::MAX - 4,
    ensures
        match r {
            Some(ix) => spec_parse_instruction(data@, off as int) == Some(ix@),
            None => spec_parse_instruction(data@, off as int) is None,
        },
{
    if off + 2 > data.len() {
        return None;
    }
    let na = u16_from_le_bytes(sub_bytes(data, off, off + 2).as_slice()) as usize;
    let metas_end = off + 2 + 33 * na;
    if metas_end > data.len() || metas_end + 34 > data.len() {
        return None;
    }
    let mut metas: Vec<AccountMetaView> = Vec::new();
    let mut k: usize = 0;
    while k < na
        invariant
            0 <= k <= na,
            na <= u16::MAX,
            off <= u16::MAX,
            off + 2 + 33 * na + 34 <= data@.len(),
            metas@.len() == k,
            forall|j: int|
                0 <= j < k ==> metas@[j]@ == spec_parse_meta(data@, off + 2 + 33 * j),
        decreases na - k,
    {
        let moff = off + 2 + 33 * k;
        let flags = data[moff];
        let key = sub_bytes(data, moff + 1, moff + 33);
        metas.push(AccountMetaView { key, is_signer: flags & 1 == 1, is_writable: flags & 2 == 2 });
        k = k + 1;
    }
    let program_id = sub_bytes(data, metas_end, metas_end + 32);
    let dl = u16_from_le_bytes(sub_bytes(data, metas_end + 32, metas_end + 34).as_slice()) as usize;
    if metas_end + 34 + dl > data.len() {
        return None;
    }
    let payload = sub_bytes(data, metas_end + 34, metas_end + 34 + dl);
    let ix = InstructionView { program_id, accounts: metas, data: payload };
    proof {
        let parsed = spec_parse_instruction(data@, off as int)->Some_0;
        assert(ix@.accounts =~= parsed.accounts);
        assert(ix@ == parsed);
    }
    Some(ix)
}

/// Parses the executing transaction's instruction at `index` out of the
/// runtime's serialized instruction list, with full bounds checks.
pub fn parse_instruction_at(data: &[u8], index: usize) -> (r: Option<InstructionView>)
    requires
        data@.len() <= usize::MAX - 4,
    ensures
        match r {
            Some(ix) => spec_parse_instruction_at(data@, index as int) == Some(ix@),
            None => spec_parse_instruction_at(data@, index as int) is None,
        },
{
    if data.len() < 2 {
        return None;
    }
    let num = u16_from_le_bytes(sub_bytes(data, 0, 2).as_slice()) as usize;
    if index >= num {
        return None;
    }
    if 2 + 2 * (index + 1) > data.len() {
        return None;
    }
    let off = u16_from_le_bytes(sub_bytes(data, 2 + 2 * index, 4 + 2 * index).as_slice()) as usize;
    parse_instruction(data, off)
}

/// The fee owed on a borrowed principal: `floor(principal * 500 / 10000)`.
pub open spec fn spec_loan_fee(principal: u64) -> u64 {
    ((principal as int) * (LOAN_FEE_BPS as int) / (BPS_DENOMINATOR as int)) as u64
}

/// Computes the flash-loan fee with a widened multiply, which cannot
/// overflow.
pub fn loan_fee(principal: u64) -> (r: u64)
    ensures
        r == spec_loan_fee(principal),
        r <= principal,
{
    proof {
        assert((principal as int) * 500 / 10000 <= principal as int && (principal as int) * 500
            / 10000 >= 0) by (nonlinear_arith);
    }
    (((principal as u128) * (LOAN_FEE_BPS as u128)) / (BPS_DENOMINATOR as u128)) as u64
}

} // verus!

verus! {

/// An error aborting a flash-loan instruction: either a framework-level
/// account-validation failure or a protocol violation.
#[derive(Clone, Copy, Debug, PartialEq, Eq, Structural)]
pub enum FlashError {
    Program(ProgramError),
    Protocol(ProtocolError),
}

/// The byte-string domain tag of the protocol vault authority.
pub open spec fn spec_protocol_tag() -> Seq<u8> {
    seq![112u8, 114u8, 111u8, 116u8, 111u8, 99u8, 111u8, 108u8]
}

/// Returns the protocol domain tag, the bytes of "protocol".
pub fn protocol_tag() -> (r: Vec<u8>)
    ensures
        r@ == spec_protocol_tag(),
{
    let mut r: Vec<u8> = Vec::new();
    r.push(112);
    r.push(114);
    r.push(111);
    r.push(116);
    r.push(111);
    r.push(99);
    r.push(111);
    r.push(108);
    proof {
        assert(r@ =~= spec_protocol_tag());
    }
    r
}

/// The eight-byte discriminator that selects the Repay operation.
pub open spec fn spec_repay_discriminator() -> Seq<u8> {
    seq![234u8, 103u8, 67u8, 82u8, 208u8, 234u8, 219u8, 166u8]
}

/// Returns the Repay instruction discriminator.
pub fn repay_discriminator() -> (r: Vec<u8>)
    ensures
        r@ == spec_repay_discriminator(),
{
    let mut r: Vec<u8> = Vec::new();
    r.push(234);
    r.push(103);
    r.push(67);
    r.push(82);
    r.push(208);
    r.push(234);
    r.push(219);
    r.push(166);
    proof {
        assert(r@ =~= spec_repay_discriminator());
    }
    r
}

/// The eight-byte discriminator that selects the Borrow operation.
pub open spec fn spec_borrow_discriminator() -> Seq<u8> {
    seq![228u8, 253u8, 131u8, 202u8, 207u8, 116u8, 89u8, 18u8]
}

/// Returns the Borrow instruction discriminator.
pub fn borrow_discriminator() -> (r: Vec<u8>)
    ensures
        r@ == spec_borrow_discriminator(),
{
    let mut r: Vec<u8> = Vec::new();
    r.push(228);
    r.push(253);
    r.push(131);
    r.push(202);
    r.push(207);
    r.push(116);
    r.push(89);
    r.push(18);
    proof {
        assert(r@ =~= spec_borrow_discriminator());
    }
    r
}

/// The accounts a flash-loan instruction names, in order: borrower, the
/// protocol authority, the lent mint, the borrower's and the protocol's
/// token accounts, the instruction-list account, and the three programs.
pub struct Loan {
    pub borrower: AccountView,
    pub protocol: AccountView,
    pub mint: AccountView,
    pub borrower_ata: AccountView,
    pub protocol_ata: AccountView,
    pub instructions: AccountView,
    pub token_program: AccountView,
    pub associated_token_program: AccountView,
    pub system_program: AccountView,
}

/// How many references a flash-loan instruction must name.
pub const LOAN_ACCOUNT_COUNT: usize = 9;

/// What admitting the Loan accounts decides, in order: the borrower signed;
/// the protocol authority lives at the address derived from the protocol
/// tag; the mint is owned by the token program with the mint layout; the
/// borrower's and the protocol's token accounts live exactly at their
/// derived associated addresses; and the instruction-list account is the
/// runtime's. On success the setup movements create the borrower's account
/// where it does not have token-account shape yet.
pub open spec fn spec_loan_check(
    accounts: Seq<AccountV>,
    program_id: Seq<u8>,
    token_id: Seq<u8>,
    ata_id: Seq<u8>,
    instructions_id: Seq<u8>,
) -> Result<Seq<OpV>, FlashError> {
    if accounts.len() != LOAN_ACCOUNT_COUNT {
        Err(FlashError::Program(ProgramError::NotEnoughAccountKeys))
    } else {
        let borrower = accounts[0];
        let protocol = accounts[1];
        let mint = accounts[2];
        let borrower_ata = accounts[3];
        let protocol_ata = accounts[4];
        let instructions = accounts[5];
        if !borrower.is_signer {
            Err(FlashError::Program(ProgramError::MissingRequiredSignature))
        } else {
            match spec_find_program_address(seq![spec_protocol_tag()], program_id) {
                None => Err(FlashError::Program(ProgramError::InvalidSeeds)),
                Some(pb) => if pb.0 != protocol.key {
                    Err(FlashError::Program(ProgramError::InvalidSeeds))
                } else if mint.owner != token_id {
                    Err(FlashError::Program(ProgramError::InvalidAccountOwner))
                } else if mint.data.len() != MINT_LEN {
                    Err(FlashError::Program(ProgramError::InvalidAccountData))
                } else {
                    match spec_find_program_address(
                        seq![borrower.key, token_id, mint.key],
                        ata_id,
                    ) {
                        None => Err(FlashError::Program(ProgramError::InvalidSeeds)),
                        Some(ba) => if ba.0 != borrower_ata.key {
                            Err(FlashError::Protocol(ProtocolError::InvalidBorrowerAta))
                        } else {
                            match spec_find_program_address(
                                seq![protocol.key, token_id, mint.key],
                                ata_id,
                            ) {
                                None => Err(FlashError::Program(ProgramError::InvalidSeeds)),
                                Some(pa) => if pa.0 != protocol_ata.key {
                                    Err(FlashError::Protocol(ProtocolError::InvalidProtocolAta))
                                } else if instructions.key != instructions_id {
                                    Err(FlashError::Program(ProgramError::InvalidArgument))
                                } else if spec_token_account_check(borrower_ata, token_id) is Ok {
                                    Ok(seq![])
                                } else {
                                    Ok(
                                        seq![
                                            OpV::CreateAssociatedAccount {
                                                account: borrower_ata.key,
                                                owner: borrower.key,
                                                mint: mint.key,
                                                payer: borrower.key,
                                            },
                                        ],
                                    )
                                },
                            }
                        },
                    }
                },
            }
        }
    }
}

impl Loan {
    /// Admits the accounts of a flash-loan instruction, failing on the
    /// first check that rejects one of them, and decides the idempotent
    /// account setup.
    pub fn try_from_accounts(
        accounts: &Vec<AccountView>,
        program_id: &[u8],
        token_id: &[u8],
        ata_id: &[u8],
        instructions_id: &[u8],
    ) -> (r: Result<(Loan, Vec<TokenOp>), FlashError>)
        requires
            crate::is_key(program_id@),
            crate::is_key(ata_id@),
        ensures
            match r {
                Ok(ls) => {
                    &&& spec_loan_check(
                        crate::account::account_views(accounts@),
                        program_id@,
                        token_id@,
                        ata_id@,
                        instructions_id@,
                    ) == Ok::<Seq<OpV>, FlashError>(plan_view(ls.1@))
                    &&& ls.0.borrower@ == accounts@[0]@
                    &&& ls.0.protocol@ == accounts@[1]@
                    &&& ls.0.mint@ == accounts@[2]@
                    &&& ls.0.borrower_ata@ == accounts@[3]@
                    &&& ls.0.protocol_ata@ == accounts@[4]@
                    &&& ls.0.instructions@ == accounts@[5]@
                },
                Err(e) => spec_loan_check(
                    crate::account::account_views(accounts@),
                    program_id@,
                    token_id@,
                    ata_id@,
                    instructions_id@,
                ) == Err::<Seq<OpV>, FlashError>(e),
            },
    {
        if accounts.len() != LOAN_ACCOUNT_COUNT {
            return Err(FlashError::Program(ProgramError::NotEnoughAccountKeys));
        }
        let borrower = &accounts[0];
        let protocol = &accounts[1];
        let mint = &accounts[2];
        let borrower_ata = &accounts[3];
        let protocol_ata = &accounts[4];
        let instructions = &accounts[5];
        if !borrower.is_signer {
            return Err(FlashError::Program(ProgramError::MissingRequiredSignature));
        }
        let mut protocol_seeds: Vec<Vec<u8>> = Vec::new();
        protocol_seeds.push(protocol_tag());
        proof {
            assert(seed_views(protocol_seeds@) =~= seq![spec_protocol_tag()]);
        }
        let pid = bytes_of(program_id);
        match find_program_address(&protocol_seeds, &pid) {
            None => {
                return Err(FlashError::Program(ProgramError::InvalidSeeds));
            },
            Some((address, _bump)) => {
                if !bytes_eq(address.as_slice(), protocol.key.as_slice()) {
                    return Err(FlashError::Program(ProgramError::InvalidSeeds));
                }
            },
        }
        if !bytes_eq(mint.owner.as_slice(), token_id) {
            return Err(FlashError::Program(ProgramError::InvalidAccountOwner));
        }
        if mint.data_len() != MINT_LEN {
            return Err(FlashError::Program(ProgramError::InvalidAccountData));
        }
        let ata_pid = bytes_of(ata_id);
        let mut borrower_seeds: Vec<Vec<u8>> = Vec::new();
        borrower_seeds.push(bytes_of(borrower.key.as_slice()));
        borrower_seeds.push(bytes_of(token_id));
        borrower_seeds.push(bytes_of(mint.key.as_slice()));
        proof {
            assert(seed_views(borrower_seeds@) =~= seq![borrower@.key, token_id@, mint@.key]);
        }
        match find_program_address(&borrower_seeds, &ata_pid) {
            None => {
                return Err(FlashError::Program(ProgramError::InvalidSeeds));
            },
            Some((address, _bump)) => {
                if !bytes_eq(address.as_slice(), borrower_ata.key.as_slice()) {
                    return Err(FlashError::Protocol(ProtocolError::InvalidBorrowerAta));
                }
            },
        }
        let mut protocol_ata_seeds: Vec<Vec<u8>> = Vec::new();
        protocol_ata_seeds.push(bytes_of(protocol.key.as_slice()));
        protocol_ata_seeds.push(bytes_of(token_id));
        protocol_ata_seeds.push(bytes_of(mint.key.as_slice()));
        proof {
            assert(seed_views(protocol_ata_seeds@) =~= seq![protocol@.key, token_id@, mint@.key]);
        }
        match find_program_address(&protocol_ata_seeds, &ata_pid) {
            None => {
                return Err(FlashError::Program(ProgramError::InvalidSeeds));
            },
            Some((address, _bump)) => {
                if !bytes_eq(address.as_slice(), protocol_ata.key.as_slice()) {
                    return Err(FlashError::Protocol(ProtocolError::InvalidProtocolAta));
                }
            },
        }
        if !bytes_eq(instructions.key.as_slice(), instructions_id) {
            return Err(FlashError::Program(ProgramError::InvalidArgument));
        }
        let mut setup: Vec<TokenOp> = Vec::new();
        match crate::validate::TokenAccount::check(borrower_ata, token_id) {
            Ok(()) => {},
            Err(_) => {
                setup.push(TokenOp::CreateAssociatedAccount {
                    account: bytes_of(borrower_ata.key.as_slice()),
                    owner: bytes_of(borrower.key.as_slice()),
                    mint: bytes_of(mint.key.as_slice()),
                    payer: bytes_of(borrower.key.as_slice()),
                });
            },
        }
        let loan = Loan {
            borrower: accounts[0].duplicate(),
            protocol: accounts[1].duplicate(),
            mint: accounts[2].duplicate(),
            borrower_ata: accounts[3].duplicate(),
            protocol_ata: accounts[4].duplicate(),
            instructions: accounts[5].duplicate(),
            token_program: accounts[6].duplicate(),
            associated_token_program: accounts[7].duplicate(),
            system_program: accounts[8].duplicate(),
        };
        proof {
            assert(plan_view(setup@) =~= spec_loan_check(
                crate::account::account_views(accounts@),
                program_id@,
                token_id@,
                ata_id@,
                instructions_id@,
            )->Ok_0);
        }
        Ok((loan, setup))
    }
}

/// What the trailing-Repay requirement decides over the transaction's
/// instruction list: the final instruction must parse, target this program,
/// carry the Repay discriminator, and reference the same borrower and
/// protocol token accounts at the fixed positions a Repay names them.
pub open spec fn spec_repay_ix_check(
    sysvar_data: Seq<u8>,
    program_id: Seq<u8>,
    borrower_ata_key: Seq<u8>,
    protocol_ata_key: Seq<u8>,
) -> Result<(), ProtocolError> {
    match spec_parse_instruction_at(sysvar_data, spec_instruction_count(sysvar_data) - 1) {
        None => Err(ProtocolError::MissingRepayIx),
        Some(ix) => {
            if ix.program_id != program_id {
                Err(ProtocolError::InvalidProgram)
            } else if ix.data.len() < 8 || ix.data.subrange(0, 8) != spec_repay_discriminator() {
                Err(ProtocolError::InvalidIx)
            } else if ix.accounts.len() <= 3 || ix.accounts[3].key != borrower_ata_key {
                Err(ProtocolError::InvalidBorrowerAta)
            } else if ix.accounts.len() <= 4 || ix.accounts[4].key != protocol_ata_key {
                Err(ProtocolError::InvalidProtocolAta)
            } else {
                Ok(())
            }
        },
    }
}

/// Checks that the transaction's final instruction is the matching Repay.
pub fn repay_ix_check(
    sysvar_data: &[u8],
    program_id: &[u8],
    borrower_ata_key: &[u8],
    protocol_ata_key: &[u8],
) -> (r: Result<(), ProtocolError>)
    requires
        sysvar_data@.len() <= usize::MAX - 4,
    ensures
        r == spec_repay_ix_check(sysvar_data@, program_id@, borrower_ata_key@, protocol_ata_key@),
{
    if sysvar_data.len() < 2 {
        proof {
            assert(spec_parse_instruction_at(
                sysvar_data@,
                spec_instruction_count(sysvar_data@) - 1,
            ) is None);
        }
        return Err(ProtocolError::MissingRepayIx);
    }
    let num = u16_from_le_bytes(sub_bytes(sysvar_data, 0, 2).as_slice()) as usize;
    if num == 0 {
        return Err(ProtocolError::MissingRepayIx);
    }
    let ix = match parse_instruction_at(sysvar_data, num - 1) {
        Some(ix) => ix,
        None => {
            return Err(ProtocolError::MissingRepayIx);
        },
    };
    if !bytes_eq(ix.program_id.as_slice(), program_id) {
        return Err(ProtocolError::InvalidProgram);
    }
    if ix.data.len() < 8 {
        return Err(ProtocolError::InvalidIx);
    }
    let disc = sub_bytes(ix.data.as_slice(), 0, 8);
    let expected = repay_discriminator();
    if !bytes_eq(disc.as_slice(), expected.as_slice()) {
        return Err(ProtocolError::InvalidIx);
    }
    if ix.accounts.len() <= 3 {
        return Err(ProtocolError::InvalidBorrowerAta);
    }
    if !bytes_eq(ix.accounts[3].key.as_slice(), borrower_ata_key) {
        return Err(ProtocolError::InvalidBorrowerAta);
    }
    if ix.accounts.len() <= 4 {
        return Err(ProtocolError::InvalidProtocolAta);
    }
    if !bytes_eq(ix.accounts[4].key.as_slice(), protocol_ata_key) {
        return Err(ProtocolError::InvalidProtocolAta);
    }
    Ok(())
}

} // verus!

verus! {

/// What a Borrow decides: a zero principal is rejected; the principal moves
/// from the protocol's vault to the borrower under the protocol authority,
/// but only in a transaction whose final instruction is the matching Repay
/// over the same two token accounts — any mismatch, or the absence of a
/// trailing Repay, aborts the whole transaction and undoes the borrow.
pub open spec fn spec_borrow(
    accounts: Seq<AccountV>,
    amount: u64,
    sysvar_data: Seq<u8>,
    program_id: Seq<u8>,
    token_id: Seq<u8>,
    ata_id: Seq<u8>,
    instructions_id: Seq<u8>,
) -> Result<Seq<OpV>, FlashError> {
    match spec_loan_check(accounts, program_id, token_id, ata_id, instructions_id) {
        Err(e) => Err(e),
        Ok(setup) => if amount == 0 {
            Err(FlashError::Protocol(ProtocolError::InvalidAmount))
        } else {
            match spec_repay_ix_check(
                sysvar_data,
                program_id,
                accounts[3].key,
                accounts[4].key,
            ) {
                Err(e) => Err(FlashError::Protocol(e)),
                Ok(()) => Ok(
                    setup + seq![
                        OpV::Transfer {
                            from: accounts[4].key,
                            to: accounts[3].key,
                            authority: accounts[1].key,
                            amount,
                        },
                    ],
                ),
            }
        },
    }
}

/// Decides the movements of a Borrow, or the error that aborts it. No
/// movement is decided past a failed check, and none without the trailing
/// Repay in place.
pub fn borrow(
    accounts: &Vec<AccountView>,
    amount: u64,
    sysvar_data: &[u8],
    program_id: &[u8],
    token_id: &[u8],
    ata_id: &[u8],
    instructions_id: &[u8],
) -> (r: Result<Vec<TokenOp>, FlashError>)
    requires
        crate::is_key(program_id@),
        crate::is_key(ata_id@),
        sysvar_data@.len() <= usize::MAX - 4,
    ensures
        match r {
            Ok(plan) => spec_borrow(
                crate::account::account_views(accounts@),
                amount,
                sysvar_data@,
                program_id@,
                token_id@,
                ata_id@,
                instructions_id@,
            ) == Ok::<Seq<OpV>, FlashError>(plan_view(plan@)),
            Err(e) => spec_borrow(
                crate::account::account_views(accounts@),
                amount,
                sysvar_data@,
                program_id@,
                token_id@,
                ata_id@,
                instructions_id@,
            ) == Err::<Seq<OpV>, FlashError>(e),
        },
{
    let (loan, setup) = Loan::try_from_accounts(
        accounts,
        program_id,
        token_id,
        ata_id,
        instructions_id,
    )?;
    if amount == 0 {
        return Err(FlashError::Protocol(ProtocolError::InvalidAmount));
    }
    match repay_ix_check(
        sysvar_data,
        program_id,
        loan.borrower_ata.key.as_slice(),
        loan.protocol_ata.key.as_slice(),
    ) {
        Err(e) => {
            return Err(FlashError::Protocol(e));
        },
        Ok(()) => {},
    }
    let mut plan = setup;
    plan.push(TokenOp::Transfer {
        from: bytes_of(loan.protocol_ata.key.as_slice()),
        to: bytes_of(loan.borrower_ata.key.as_slice()),
        authority: bytes_of(loan.protocol.key.as_slice()),
        amount,
    });
    proof {
        assert(plan_view(plan@) =~= spec_borrow(
            crate::account::account_views(accounts@),
            amount,
            sysvar_data@,
            program_id@,
            token_id@,
            ata_id@,
            instructions_id@,
        )->Ok_0);
    }
    Ok(plan)
}

/// What a Repay decides: the borrowed principal is read back out of the
/// transaction's first instruction at its fixed byte offset, the protocol
/// fee is added with overflow-checked arithmetic, and the total moves from
/// the borrower back to the protocol's vault under the borrower's own
/// signature.
pub open spec fn spec_repay(
    accounts: Seq<AccountV>,
    sysvar_data: Seq<u8>,
    program_id: Seq<u8>,
    token_id: Seq<u8>,
    ata_id: Seq<u8>,
    instructions_id: Seq<u8>,
) -> Result<Seq<OpV>, FlashError> {
    match spec_loan_check(accounts, program_id, token_id, ata_id, instructions_id) {
        Err(e) => Err(e),
        Ok(setup) => match spec_parse_instruction_at(sysvar_data, 0) {
            None => Err(FlashError::Protocol(ProtocolError::MissingBorrowIx)),
            Some(ix) => if ix.data.len() < 16 {
                Err(FlashError::Protocol(ProtocolError::InvalidIx))
            } else {
                let principal = spec_u64_from_le_bytes(ix.data.subrange(8, 16));
                let fee = spec_loan_fee(principal);
                if principal + fee > u64::MAX {
                    Err(FlashError::Protocol(ProtocolError::Overflow))
                } else {
                    Ok(
                        setup + seq![
                            OpV::Transfer {
                                from: accounts[3].key,
                                to: accounts[4].key,
                                authority: accounts[0].key,
                                amount: (principal + fee) as u64,
                            },
                        ],
                    )
                }
            },
        },
    }
}

/// Decides the movement of a Repay, or the error that aborts it.
pub fn repay(
    accounts: &Vec<AccountView>,
    sysvar_data: &[u8],
    program_id: &[u8],
    token_id: &[u8],
    ata_id: &[u8],
    instructions_id: &[u8],
) -> (r: Result<Vec<TokenOp>, FlashError>)
    requires
        crate::is_key(program_id@),
        crate::is_key(ata_id@),
        sysvar_data@.len() <= usize::MAX - 4,
    ensures
        match r {
            Ok(plan) => spec_repay(
                crate::account::account_views(accounts@),
                sysvar_data@,
                program_id@,
                token_id@,
                ata_id@,
                instructions_id@,
            ) == Ok::<Seq<OpV>, FlashError>(plan_view(plan@)),
            Err(e) => spec_repay(
                crate::account::account_views(accounts@),
                sysvar_data@,
                program_id@,
                token_id@,
                ata_id@,
                instructions_id@,
            ) == Err::<Seq<OpV>, FlashError>(e),
        },
{
    let (loan, setup) = Loan::try_from_accounts(
        accounts,
        program_id,
        token_id,
        ata_id,
        instructions_id,
    )?;
    let ix = match parse_instruction_at(sysvar_data, 0) {
        Some(ix) => ix,
        None => {
            return Err(FlashError::Protocol(ProtocolError::MissingBorrowIx));
        },
    };
    if ix.data.len() < 16 {
        return Err(FlashError::Protocol(ProtocolError::InvalidIx));
    }
    let principal = u64_from_le_bytes(sub_bytes(ix.data.as_slice(), 8, 16).as_slice());
    let fee = loan_fee(principal);
    if principal > u64::MAX - fee {
        return Err(FlashError::Protocol(ProtocolError::Overflow));
    }
    let total = principal + fee;
    let mut plan = setup;
    plan.push(TokenOp::Transfer {
        from: bytes_of(loan.borrower_ata.key.as_slice()),
        to: bytes_of(loan.protocol_ata.key.as_slice()),
        authority: bytes_of(loan.borrower.key.as_slice()),
        amount: total,
    });
    proof {
        assert(plan_view(plan@) =~= spec_repay(
            crate::account::account_views(accounts@),
            sysvar_data@,
            program_id@,
            token_id@,
            ata_id@,
            instructions_id@,
        )->Ok_0);
    }
    Ok(plan)
}

} // verus!
