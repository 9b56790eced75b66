//! The escrow protocol: an offer record custodies `mint_a` tokens in a vault
//! until a taker fulfils it (Take) or the maker cancels it (Refund).
//!
//! The record is persisted in a fixed binary layout and decoded with strict
//! length checks. Both operations re-derive the escrow's address from its
//! structural seeds before any movement, settle by an exact ordered plan of
//! transfers, and close the vault and the record afterwards.

use vstd::prelude::*;
use crate::account::{AccountV, AccountView, bytes_eq, bytes_of, sub_bytes};
use crate::derive::{create_program_address, program_address_of, seed_views};
use crate::errors::ProgramError;
use crate::ops::{OpV, TokenOp, plan_view};
use crate::validate::{
    AssociatedTokenAccount,
    MintInterface,
    ProgramAccount,
    SignerAccount,
    TokenAccount,
    spec_ata_check,
    spec_mint_check,
    spec_program_account_check,
    spec_signer_check,
    spec_token_account_check,
    spec_token_amount,
};
use vstd::bytes::{
    lemma_auto_spec_u64_to_from_le_bytes,
    spec_u64_from_le_bytes,
    spec_u64_to_le_bytes,
    u64_from_le_bytes,
    u64_to_le_bytes,
};

verus! {

/// Byte length of a persisted escrow record.
pub const ESCROW_LEN: usize = 113;

/// A persisted escrow offer.
pub struct Escrow {
    /// Disambiguates multiple escrows per maker.
    pub seed: u64,
    /// Creator of the escrow.
    pub maker: Vec<u8>,
    /// Token custodied in the vault.
    pub mint_a: Vec<u8>,
    /// Token the maker demands.
    pub mint_b: Vec<u8>,
    /// Amount of `mint_b` the maker demands.
    pub receive: u64,
    /// Authority-derivation nonce.
    pub bump: u8,
}

/// The mathematical content of an escrow record.
pub struct EscrowV {
    pub seed: u64,
    pub maker: Seq<u8>,
    pub mint_a: Seq<u8>,
    pub mint_b: Seq<u8>,
    pub receive: u64,
    pub bump: u8,
}

impl View for Escrow {
    type V = EscrowV;

    open spec fn view(&self) -> EscrowV {
        EscrowV {
            seed: self.seed,
            maker: self.maker@,
            mint_a: self.mint_a@,
            mint_b: self.mint_b@,
            receive: self.receive,
            bump: self.bump,
        }
    }
}

impl EscrowV {
    /// A well-formed record names full-length addresses.
    pub open spec fn wf(self) -> bool {
        crate::is_key(self.maker) && crate::is_key(self.mint_a) && crate::is_key(self.mint_b)
    }
}

/// The fixed layout of an escrow record: seed, maker, the two mints, the
/// demanded amount, and the derivation bump, in that order.
pub open spec fn spec_escrow_encode(e: EscrowV) -> Seq<u8> {
    spec_u64_to_le_bytes(e.seed) + e.maker + e.mint_a + e.mint_b + spec_u64_to_le_bytes(e.receive)
        + seq![e.bump]
}

/// The record a full-length byte buffer holds.
pub open spec fn spec_escrow_decode(bytes: Seq<u8>) -> EscrowV {
    EscrowV {
        seed: spec_u64_from_le_bytes(bytes.subrange(0, 8)),
        maker: bytes.subrange(8, 40),
        mint_a: bytes.subrange(40, 72),
        mint_b: bytes.subrange(72, 104),
        receive: spec_u64_from_le_bytes(bytes.subrange(104, 112)),
        bump: bytes[112],
    }
}

/// Appends the bytes of `src` to `dst`.
pub fn push_bytes(dst: &mut Vec<u8>, src: &[u8])
    ensures
        final(dst)@ == old(dst)@ + src@,
{
    let n = src.len();
    let mut i: usize = 0;
    while i < n
        invariant
            n == src@.len(),
            0 <= i <= n,
            dst@ == old(dst)@ + src@.subrange(0, i as int),
        decreases n - i,
    {
        dst.push(src[i]);
        proof {
            assert(dst@ =~= old(dst)@ + src@.subrange(0, i + 1));
        }
        i = i + 1;
    }
    proof {
        assert(dst@ =~= old(dst)@ + src@);
    }
}

impl Escrow {
    /// A well-formed record names full-length addresses.
    pub open spec fn wf(self) -> bool {
        self@.wf()
    }

    /// Decodes a record from a raw account buffer, rejecting any length but
    /// the exact layout size.
    pub fn load(bytes: &[u8]) -> (r: Result<Escrow, ProgramError>)
        ensures
            match r {
                Ok(e) => bytes@.len() == ESCROW_LEN && e@ == spec_escrow_decode(bytes@) && e.wf(),
                Err(er) => bytes@.len() != ESCROW_LEN && er == ProgramError::InvalidAccountData,
            },
    {
        if bytes.len() != ESCROW_LEN {
            return Err(ProgramError::InvalidAccountData);
        }
        let seed = u64_from_le_bytes(sub_bytes(bytes, 0, 8).as_slice());
        let maker = sub_bytes(bytes, 8, 40);
        let mint_a = sub_bytes(bytes, 40, 72);
        let mint_b = sub_bytes(bytes, 72, 104);
        let receive = u64_from_le_bytes(sub_bytes(bytes, 104, 112).as_slice());
        let bump = bytes[112];
        Ok(Escrow { seed, maker, mint_a, mint_b, receive, bump })
    }

    /// Encodes the record into its fixed layout.
    pub fn encode(&self) -> (r: Vec<u8>)
        requires
            self.wf(),
        ensures
            r@ == spec_escrow_encode(self@),
            r@.len() == ESCROW_LEN,
    {
        proof {
            lemma_auto_spec_u64_to_from_le_bytes();
        }
        let mut r: Vec<u8> = u64_to_le_bytes(self.seed);
        push_bytes(&mut r, self.maker.as_slice());
        push_bytes(&mut r, self.mint_a.as_slice());
        push_bytes(&mut r, self.mint_b.as_slice());
        let receive_bytes = u64_to_le_bytes(self.receive);
        push_bytes(&mut r, receive_bytes.as_slice());
        r.push(self.bump);
        proof {
            assert(r@ =~= spec_escrow_encode(self@));
        }
        r
    }

    /// Sets the disambiguating seed.
    pub fn set_seed(&mut self, seed: u64)
        ensures
            final(self)@ == (EscrowV { seed, ..old(self)@ }),
    {
        self.seed = seed;
    }

    /// Sets the maker's address.
    pub fn set_maker(&mut self, maker: Vec<u8>)
        ensures
            final(self)@ == (EscrowV { maker: maker@, ..old(self)@ }),
    {
        self.maker = maker;
    }

    /// Sets the custodied token.
    pub fn set_mint_a(&mut self, mint_a: Vec<u8>)
        ensures
            final(self)@ == (EscrowV { mint_a: mint_a@, ..old(self)@ }),
    {
        self.mint_a = mint_a;
    }

    /// Sets the demanded token.
    pub fn set_mint_b(&mut self, mint_b: Vec<u8>)
        ensures
            final(self)@ == (EscrowV { mint_b: mint_b@, ..old(self)@ }),
    {
        self.mint_b = mint_b;
    }

    /// Sets the demanded amount.
    pub fn set_receive(&mut self, receive: u64)
        ensures
            final(self)@ == (EscrowV { receive, ..old(self)@ }),
    {
        self.receive = receive;
    }

    /// Sets the derivation bump.
    pub fn set_bump(&mut self, bump: u8)
        ensures
            final(self)@ == (EscrowV { bump, ..old(self)@ }),
    {
        self.bump = bump;
    }

    /// Sets every field of the record at once.
    pub fn set_inner(
        &mut self,
        seed: u64,
        maker: Vec<u8>,
        mint_a: Vec<u8>,
        mint_b: Vec<u8>,
        receive: u64,
        bump: u8,
    )
        ensures
            final(self)@ == (EscrowV {
                seed,
                maker: maker@,
                mint_a: mint_a@,
                mint_b: mint_b@,
                receive,
                bump,
            }),
    {
        self.seed = seed;
        self.maker = maker;
        self.mint_a = mint_a;
        self.mint_b = mint_b;
        self.receive = receive;
        self.bump = bump;
    }
}

/// Round trip of the escrow codec: decoding an encoded record gives the
/// record back, and encoding a decoded full-length buffer gives the buffer
/// back.
pub proof fn lemma_escrow_codec_round_trip(e: EscrowV, bytes: Seq<u8>)
    requires
        e.wf(),
        bytes.len() == ESCROW_LEN,
    ensures
        spec_escrow_decode(spec_escrow_encode(e)) == e,
        spec_escrow_encode(spec_escrow_decode(bytes)) == bytes,
{
    lemma_auto_spec_u64_to_from_le_bytes();
    let enc = spec_escrow_encode(e);
    assert(enc.subrange(0, 8) =~= spec_u64_to_le_bytes(e.seed));
    assert(enc.subrange(8, 40) =~= e.maker);
    assert(enc.subrange(40, 72) =~= e.mint_a);
    assert(enc.subrange(72, 104) =~= e.mint_b);
    assert(enc.subrange(104, 112) =~= spec_u64_to_le_bytes(e.receive));
    assert(spec_escrow_decode(spec_escrow_encode(e)) == e);
    let d = spec_escrow_decode(bytes);
    assert(spec_escrow_encode(d) =~= bytes);
}

/// The byte-string domain tag of escrow authority derivation.
pub open spec fn spec_escrow_tag() -> Seq<u8> {
    seq![101u8, 115u8, 99u8, 114u8, 111u8, 119u8]
}

/// Returns the escrow domain tag, the bytes of "escrow".
pub fn escrow_tag() -> (r: Vec<u8>)
    ensures
        r@ == spec_escrow_tag(),
{
    let mut r: Vec<u8> = Vec::new();
    r.push(101);
    r.push(115);
    r.push(99);
    r.push(114);
    r.push(111);
    r.push(119);
    proof {
        assert(r@ =~= spec_escrow_tag());
    }
    r
}

/// The seed list of an escrow record's address: domain tag, maker, seed
/// bytes, bump.
pub open spec fn spec_escrow_seeds(maker: Seq<u8>, seed: u64, bump: u8) -> Seq<Seq<u8>> {
    seq![spec_escrow_tag(), maker, spec_u64_to_le_bytes(seed), seq![bump]]
}

/// The address an escrow record must live at, or `None` where the seeds
/// derive no valid address.
pub open spec fn spec_escrow_address(
    maker: Seq<u8>,
    seed: u64,
    bump: u8,
    program_id: Seq<u8>,
) -> Option<Seq<u8>> {
    program_address_of(spec_escrow_seeds(maker, seed, bump), program_id)
}

/// What the escrow address check decides: the record account's address must
/// equal the address derived from the record's own structural seeds.
pub open spec fn spec_escrow_address_check(
    escrow_key: Seq<u8>,
    maker: Seq<u8>,
    seed: u64,
    bump: u8,
    program_id: Seq<u8>,
) -> Result<(), ProgramError> {
    match spec_escrow_address(maker, seed, bump, program_id) {
        Some(address) => if address == escrow_key {
            Ok(())
        } else {
            Err(ProgramError::InvalidAccountOwner)
        },
        None => Err(ProgramError::InvalidSeeds),
    }
}

/// Re-derives the escrow record's address from its structural seeds and fails
/// unless the record account lives exactly there. A spoofed record fails here
/// before any movement is planned.
pub fn escrow_address_check(
    escrow_key: &[u8],
    maker: &[u8],
    seed: u64,
    bump: u8,
    program_id: &[u8],
) -> (r: Result<(), ProgramError>)
    requires
        crate::is_key(program_id@),
    ensures
        r == spec_escrow_address_check(escrow_key@, maker@, seed, bump, program_id@),
{
    let mut seeds: Vec<Vec<u8>> = Vec::new();
    seeds.push(escrow_tag());
    seeds.push(bytes_of(maker));
    seeds.push(u64_to_le_bytes(seed));
    let mut bump_seed: Vec<u8> = Vec::new();
    bump_seed.push(bump);
    proof {
        assert(bump_seed@ =~= seq![bump]);
    }
    seeds.push(bump_seed);
    proof {
        assert(seed_views(seeds@) =~= spec_escrow_seeds(maker@, seed, bump));
    }
    let pid = bytes_of(program_id);
    match create_program_address(&seeds, &pid) {
        Some(address) => {
            if bytes_eq(address.as_slice(), escrow_key) {
                Ok(())
            } else {
                Err(ProgramError::InvalidAccountOwner)
            }
        },
        None => Err(ProgramError::InvalidSeeds),
    }
}

} // verus!

verus! {

/// The accounts a Take instruction names, in order: taker, maker, escrow
/// record, the two mints, the vault, the taker's two associated accounts,
/// the maker's `mint_b` associated account, and the two programs, with one
/// trailing spare reference.
pub struct TakeAccounts {
    pub taker: AccountView,
    pub maker: AccountView,
    pub escrow: AccountView,
    pub mint_a: AccountView,
    pub mint_b: AccountView,
    pub vault: AccountView,
    pub taker_ata_a: AccountView,
    pub taker_ata_b: AccountView,
    pub maker_ata_b: AccountView,
    pub system_program: AccountView,
    pub token_program: AccountView,
}

/// How many references a Take instruction must name.
pub const TAKE_ACCOUNT_COUNT: usize = 12;

/// What admitting the Take accounts decides, in order: the taker signed, the
/// escrow record is this program's, both mints are well shaped, the taker's
/// `mint_b` account and the vault are exactly the derived associated
/// accounts.
pub open spec fn spec_take_accounts_check(
    accounts: Seq<AccountV>,
    program_id: Seq<u8>,
    token_id: Seq<u8>,
    ext_token_id: Seq<u8>,
    ata_id: Seq<u8>,
) -> Result<(), ProgramError> {
    if accounts.len() != TAKE_ACCOUNT_COUNT {
        Err(ProgramError::NotEnoughAccountKeys)
    } else {
        match spec_signer_check(accounts[0]) {
            Err(e) => Err(e),
            Ok(()) => match spec_program_account_check(accounts[2], program_id) {
                Err(e) => Err(e),
                Ok(()) => match spec_mint_check(accounts[3], token_id, ext_token_id) {
                    Err(e) => Err(e),
                    Ok(()) => match spec_mint_check(accounts[4], token_id, ext_token_id) {
                        Err(e) => Err(e),
                        Ok(()) => match spec_ata_check(
                            accounts[7],
                            accounts[0].key,
                            accounts[4].key,
                            token_id,
                            ata_id,
                        ) {
                            Err(e) => Err(e),
                            Ok(()) => spec_ata_check(
                                accounts[5],
                                accounts[2].key,
                                accounts[3].key,
                                token_id,
                                ata_id,
                            ),
                        },
                    },
                },
            },
        }
    }
}

impl TakeAccounts {
    /// Admits the accounts of a Take instruction, failing on the first check
    /// that rejects one of them.
    pub fn try_from_accounts(
        accounts: &Vec<AccountView>,
        program_id: &[u8],
        token_id: &[u8],
        ext_token_id: &[u8],
        ata_id: &[u8],
    ) -> (r: Result<TakeAccounts, ProgramError>)
        requires
            crate::is_key(ata_id@),
        ensures
            match r {
                Ok(a) => {
                    &&& spec_take_accounts_check(
                        crate::account::account_views(accounts@),
                        program_id@,
                        token_id@,
                        ext_token_id@,
                        ata_id@,
                    ) is Ok
                    &&& a.taker@ == accounts@[0]@
                    &&& a.maker@ == accounts@[1]@
                    &&& a.escrow@ == accounts@[2]@
                    &&& a.mint_a@ == accounts@[3]@
                    &&& a.mint_b@ == accounts@[4]@
                    &&& a.vault@ == accounts@[5]@
                    &&& a.taker_ata_a@ == accounts@[6]@
                    &&& a.taker_ata_b@ == accounts@[7]@
                    &&& a.maker_ata_b@ == accounts@[8]@
                    &&& a.system_program@ == accounts@[9]@
                    &&& a.token_program@ == accounts@[10]@
                },
                Err(e) => spec_take_accounts_check(
                    crate::account::account_views(accounts@),
                    program_id@,
                    token_id@,
                    ext_token_id@,
                    ata_id@,
                ) == Err::<(), ProgramError>(e),
            },
    {
        if accounts.len() != TAKE_ACCOUNT_COUNT {
            return Err(ProgramError::NotEnoughAccountKeys);
        }
        let taker = &accounts[0];
        let escrow = &accounts[2];
        let mint_a = &accounts[3];
        let mint_b = &accounts[4];
        let vault = &accounts[5];
        let taker_ata_b = &accounts[7];
        SignerAccount::check(taker)?;
        ProgramAccount::check(escrow, program_id)?;
        MintInterface::check(mint_a, token_id, ext_token_id)?;
        MintInterface::check(mint_b, token_id, ext_token_id)?;
        AssociatedTokenAccount::check(taker_ata_b, taker, mint_b, token_id, ata_id)?;
        AssociatedTokenAccount::check(vault, escrow, mint_a, token_id, ata_id)?;
        Ok(TakeAccounts {
            taker: accounts[0].duplicate(),
            maker: accounts[1].duplicate(),
            escrow: accounts[2].duplicate(),
            mint_a: accounts[3].duplicate(),
            mint_b: accounts[4].duplicate(),
            vault: accounts[5].duplicate(),
            taker_ata_a: accounts[6].duplicate(),
            taker_ata_b: accounts[7].duplicate(),
            maker_ata_b: accounts[8].duplicate(),
            system_program: accounts[9].duplicate(),
            token_program: accounts[10].duplicate(),
        })
    }
}

/// The account-setup movements a Take instruction requests before settling:
/// create the taker's `mint_a` account and the maker's `mint_b` account,
/// each only where the derivation check does not already accept it.
pub open spec fn spec_take_setup(
    taker_ata_a: AccountV,
    taker: AccountV,
    mint_a: AccountV,
    maker_ata_b: AccountV,
    maker: AccountV,
    mint_b: AccountV,
    token_id: Seq<u8>,
    ata_id: Seq<u8>,
) -> Seq<OpV> {
    let first: Seq<OpV> = if spec_ata_check(taker_ata_a, taker.key, mint_a.key, token_id, ata_id) is Ok {
        seq![]
    } else {
        seq![
            OpV::CreateAssociatedAccount {
                account: taker_ata_a.key,
                owner: taker.key,
                mint: mint_a.key,
                payer: taker.key,
            },
        ]
    };
    let second: Seq<OpV> = if spec_ata_check(maker_ata_b, maker.key, mint_b.key, token_id, ata_id) is Ok {
        seq![]
    } else {
        seq![
            OpV::CreateAssociatedAccount {
                account: maker_ata_b.key,
                owner: maker.key,
                mint: mint_b.key,
                payer: taker.key,
            },
        ]
    };
    first + second
}

/// A Take instruction after its accounts were admitted: the checked accounts
/// and the account-setup movements it requests.
pub struct Take {
    pub accounts: TakeAccounts,
    pub setup: Vec<TokenOp>,
}

impl Take {
    /// The one-byte instruction discriminator of Take.
    pub const DISCRIMINATOR: u8 = 1;

    /// Admits the accounts and decides the idempotent account setup.
    pub fn try_from_accounts(
        accounts: &Vec<AccountView>,
        program_id: &[u8],
        token_id: &[u8],
        ext_token_id: &[u8],
        ata_id: &[u8],
    ) -> (r: Result<Take, ProgramError>)
        requires
            crate::is_key(ata_id@),
        ensures
            match r {
                Ok(t) => {
                    &&& spec_take_accounts_check(
                        crate::account::account_views(accounts@),
                        program_id@,
                        token_id@,
                        ext_token_id@,
                        ata_id@,
                    ) is Ok
                    &&& t.accounts.taker@ == accounts@[0]@
                    &&& t.accounts.maker@ == accounts@[1]@
                    &&& t.accounts.escrow@ == accounts@[2]@
                    &&& t.accounts.mint_a@ == accounts@[3]@
                    &&& t.accounts.mint_b@ == accounts@[4]@
                    &&& t.accounts.vault@ == accounts@[5]@
                    &&& t.accounts.taker_ata_a@ == accounts@[6]@
                    &&& t.accounts.taker_ata_b@ == accounts@[7]@
                    &&& t.accounts.maker_ata_b@ == accounts@[8]@
                    &&& plan_view(t.setup@) == spec_take_setup(
                        accounts@[6]@,
                        accounts@[0]@,
                        accounts@[3]@,
                        accounts@[8]@,
                        accounts@[1]@,
                        accounts@[4]@,
                        token_id@,
                        ata_id@,
                    )
                },
                Err(e) => spec_take_accounts_check(
                    crate::account::account_views(accounts@),
                    program_id@,
                    token_id@,
                    ext_token_id@,
                    ata_id@,
                ) == Err::<(), ProgramError>(e),
            },
    {
        let a = TakeAccounts::try_from_accounts(accounts, program_id, token_id, ext_token_id, ata_id)?;
        let mut setup: Vec<TokenOp> = Vec::new();
        match AssociatedTokenAccount::init_if_needed(
            &a.taker_ata_a,
            &a.mint_a,
            &a.taker,
            &a.taker,
            token_id,
            ata_id,
        ) {
            Some(op) => setup.push(op),
            None => {},
        }
        match AssociatedTokenAccount::init_if_needed(
            &a.maker_ata_b,
            &a.mint_b,
            &a.taker,
            &a.maker,
            token_id,
            ata_id,
        ) {
            Some(op) => setup.push(op),
            None => {},
        }
        proof {
            assert(plan_view(setup@) =~= spec_take_setup(
                accounts@[6]@,
                accounts@[0]@,
                accounts@[3]@,
                accounts@[8]@,
                accounts@[1]@,
                accounts@[4]@,
                token_id@,
                ata_id@,
            ));
        }
        Ok(Take { accounts: a, setup })
    }
}

/// What a Take settlement decides once the accounts are admitted: decode the
/// record, re-derive the escrow's address, read the vault balance, and move
/// the funds — the whole vault balance to the taker and exactly the demanded
/// amount to the maker — strictly before closing the vault and the record.
pub open spec fn spec_take_settlement(
    escrow_acct: AccountV,
    maker: AccountV,
    taker: AccountV,
    vault: AccountV,
    taker_ata_a: AccountV,
    taker_ata_b: AccountV,
    maker_ata_b: AccountV,
    program_id: Seq<u8>,
    token_id: Seq<u8>,
) -> Result<Seq<OpV>, ProgramError> {
    if escrow_acct.data.len() != ESCROW_LEN {
        Err(ProgramError::InvalidAccountData)
    } else {
        let e = spec_escrow_decode(escrow_acct.data);
        match spec_escrow_address_check(escrow_acct.key, maker.key, e.seed, e.bump, program_id) {
            Err(er) => Err(er),
            Ok(()) => match spec_token_account_check(vault, token_id) {
                Err(er) => Err(er),
                Ok(()) => {
                    let amount = spec_token_amount(vault.data);
                    Ok(
                        seq![
                            OpV::Transfer {
                                from: vault.key,
                                to: taker_ata_a.key,
                                authority: escrow_acct.key,
                                amount,
                            },
                            OpV::Transfer {
                                from: taker_ata_b.key,
                                to: maker_ata_b.key,
                                authority: taker.key,
                                amount: e.receive,
                            },
                            OpV::CloseTokenAccount {
                                account: vault.key,
                                destination: maker.key,
                                authority: escrow_acct.key,
                            },
                            OpV::CloseProgramAccount {
                                account: escrow_acct.key,
                                destination: taker.key,
                            },
                        ],
                    )
                },
            },
        }
    }
}

impl Take {
    /// Decides the settlement movements of this Take, or the error that
    /// aborts it. No movement is decided past a failed check.
    pub fn process(&self, program_id: &[u8], token_id: &[u8]) -> (r: Result<
        Vec<TokenOp>,
        ProgramError,
    >)
        requires
            crate::is_key(program_id@),
        ensures
            match r {
                Ok(plan) => spec_take_settlement(
                    self.accounts.escrow@,
                    self.accounts.maker@,
                    self.accounts.taker@,
                    self.accounts.vault@,
                    self.accounts.taker_ata_a@,
                    self.accounts.taker_ata_b@,
                    self.accounts.maker_ata_b@,
                    program_id@,
                    token_id@,
                ) == Ok::<Seq<OpV>, ProgramError>(plan_view(plan@)),
                Err(e) => spec_take_settlement(
                    self.accounts.escrow@,
                    self.accounts.maker@,
                    self.accounts.taker@,
                    self.accounts.vault@,
                    self.accounts.taker_ata_a@,
                    self.accounts.taker_ata_b@,
                    self.accounts.maker_ata_b@,
                    program_id@,
                    token_id@,
                ) == Err::<Seq<OpV>, ProgramError>(e),
            },
    {
        let e = Escrow::load(self.accounts.escrow.data.as_slice())?;
        escrow_address_check(
            self.accounts.escrow.key.as_slice(),
            self.accounts.maker.key.as_slice(),
            e.seed,
            e.bump,
            program_id,
        )?;
        let amount = TokenAccount::get_amount(&self.accounts.vault, token_id)?;
        let mut plan: Vec<TokenOp> = Vec::new();
        plan.push(TokenOp::Transfer {
            from: bytes_of(self.accounts.vault.key.as_slice()),
            to: bytes_of(self.accounts.taker_ata_a.key.as_slice()),
            authority: bytes_of(self.accounts.escrow.key.as_slice()),
            amount,
        });
        plan.push(TokenOp::Transfer {
            from: bytes_of(self.accounts.taker_ata_b.key.as_slice()),
            to: bytes_of(self.accounts.maker_ata_b.key.as_slice()),
            authority: bytes_of(self.accounts.taker.key.as_slice()),
            amount: e.receive,
        });
        plan.push(TokenOp::CloseTokenAccount {
            account: bytes_of(self.accounts.vault.key.as_slice()),
            destination: bytes_of(self.accounts.maker.key.as_slice()),
            authority: bytes_of(self.accounts.escrow.key.as_slice()),
        });
        plan.push(TokenOp::CloseProgramAccount {
            account: bytes_of(self.accounts.escrow.key.as_slice()),
            destination: bytes_of(self.accounts.taker.key.as_slice()),
        });
        proof {
            assert(plan_view(plan@) =~= spec_take_settlement(
                self.accounts.escrow@,
                self.accounts.maker@,
                self.accounts.taker@,
                self.accounts.vault@,
                self.accounts.taker_ata_a@,
                self.accounts.taker_ata_b@,
                self.accounts.maker_ata_b@,
                program_id@,
                token_id@,
            )->Ok_0);
        }
        Ok(plan)
    }
}

} // verus!

verus! {

/// The accounts a Refund instruction names, in order: maker, escrow record,
/// the custodied mint, the vault, the maker's `mint_a` associated account,
/// and the three programs.
pub struct RefundAccounts {
    pub maker: AccountView,
    pub escrow: AccountView,
    pub mint_a: AccountView,
    pub vault: AccountView,
    pub maker_ata_a: AccountView,
    pub system_program: AccountView,
    pub token_program: AccountView,
    pub associated_token_account_program: AccountView,
}

/// How many references a Refund instruction must name.
pub const REFUND_ACCOUNT_COUNT: usize = 8;

/// What admitting the Refund accounts decides, in order: the maker signed
/// and the custodied mint is well shaped.
pub open spec fn spec_refund_accounts_check(
    accounts: Seq<AccountV>,
    token_id: Seq<u8>,
    ext_token_id: Seq<u8>,
) -> Result<(), ProgramError> {
    if accounts.len() != REFUND_ACCOUNT_COUNT {
        Err(ProgramError::NotEnoughAccountKeys)
    } else {
        match spec_signer_check(accounts[0]) {
            Err(e) => Err(e),
            Ok(()) => spec_mint_check(accounts[2], token_id, ext_token_id),
        }
    }
}

impl RefundAccounts {
    /// Admits the accounts of a Refund instruction, failing on the first
    /// check that rejects one of them.
    pub fn try_from_accounts(
        accounts: &Vec<AccountView>,
        token_id: &[u8],
        ext_token_id: &[u8],
    ) -> (r: Result<RefundAccounts, ProgramError>)
        ensures
            match r {
                Ok(a) => {
                    &&& spec_refund_accounts_check(
                        crate::account::account_views(accounts@),
                        token_id@,
                        ext_token_id@,
                    ) is Ok
                    &&& a.maker@ == accounts@[0]@
                    &&& a.escrow@ == accounts@[1]@
                    &&& a.mint_a@ == accounts@[2]@
                    &&& a.vault@ == accounts@[3]@
                    &&& a.maker_ata_a@ == accounts@[4]@
                    &&& a.system_program@ == accounts@[5]@
                    &&& a.token_program@ == accounts@[6]@
                    &&& a.associated_token_account_program@ == accounts@[7]@
                },
                Err(e) => spec_refund_accounts_check(
                    crate::account::account_views(accounts@),
                    token_id@,
                    ext_token_id@,
                ) == Err::<(), ProgramError>(e),
            },
    {
        if accounts.len() != REFUND_ACCOUNT_COUNT {
            return Err(ProgramError::NotEnoughAccountKeys);
        }
        SignerAccount::check(&accounts[0])?;
        MintInterface::check(&accounts[2], token_id, ext_token_id)?;
        Ok(RefundAccounts {
            maker: accounts[0].duplicate(),
            escrow: accounts[1].duplicate(),
            mint_a: accounts[2].duplicate(),
            vault: accounts[3].duplicate(),
            maker_ata_a: accounts[4].duplicate(),
            system_program: accounts[5].duplicate(),
            token_program: accounts[6].duplicate(),
            associated_token_account_program: accounts[7].duplicate(),
        })
    }
}

/// The account-setup movement a Refund instruction requests: create the
/// maker's `mint_a` account only where the derivation check does not already
/// accept it.
pub open spec fn spec_refund_setup(
    maker_ata_a: AccountV,
    maker: AccountV,
    mint_a: AccountV,
    token_id: Seq<u8>,
    ata_id: Seq<u8>,
) -> Seq<OpV> {
    if spec_ata_check(maker_ata_a, maker.key, mint_a.key, token_id, ata_id) is Ok {
        seq![]
    } else {
        seq![
            OpV::CreateAssociatedAccount {
                account: maker_ata_a.key,
                owner: maker.key,
                mint: mint_a.key,
                payer: maker.key,
            },
        ]
    }
}

/// A Refund instruction after its accounts were admitted.
pub struct Refund {
    pub accounts: RefundAccounts,
    pub setup: Vec<TokenOp>,
}

impl Refund {
    /// The one-byte instruction discriminator of Refund.
    pub const DISCRIMINATOR: u8 = 2;

    /// Admits the accounts and decides the idempotent account setup.
    pub fn try_from_accounts(
        accounts: &Vec<AccountView>,
        token_id: &[u8],
        ext_token_id: &[u8],
        ata_id: &[u8],
    ) -> (r: Result<Refund, ProgramError>)
        requires
            crate::is_key(ata_id@),
        ensures
            match r {
                Ok(t) => {
                    &&& spec_refund_accounts_check(
                        crate::account::account_views(accounts@),
                        token_id@,
                        ext_token_id@,
                    ) is Ok
                    &&& t.accounts.maker@ == accounts@[0]@
                    &&& t.accounts.escrow@ == accounts@[1]@
                    &&& t.accounts.mint_a@ == accounts@[2]@
                    &&& t.accounts.vault@ == accounts@[3]@
                    &&& t.accounts.maker_ata_a@ == accounts@[4]@
                    &&& plan_view(t.setup@) == spec_refund_setup(
                        accounts@[4]@,
                        accounts@[0]@,
                        accounts@[2]@,
                        token_id@,
                        ata_id@,
                    )
                },
                Err(e) => spec_refund_accounts_check(
                    crate::account::account_views(accounts@),
                    token_id@,
                    ext_token_id@,
                ) == Err::<(), ProgramError>(e),
            },
    {
        let a = RefundAccounts::try_from_accounts(accounts, token_id, ext_token_id)?;
        let mut setup: Vec<TokenOp> = Vec::new();
        match AssociatedTokenAccount::init_if_needed(
            &a.maker_ata_a,
            &a.mint_a,
            &a.maker,
            &a.maker,
            token_id,
            ata_id,
        ) {
            Some(op) => setup.push(op),
            None => {},
        }
        proof {
            assert(plan_view(setup@) =~= spec_refund_setup(
                accounts@[4]@,
                accounts@[0]@,
                accounts@[2]@,
                token_id@,
                ata_id@,
            ));
        }
        Ok(Refund { accounts: a, setup })
    }
}

/// What a Refund settlement decides once the accounts are admitted: decode
/// the record, re-derive the escrow's address, and return the whole vault
/// balance to the maker — no `mint_b` movement at all — before closing the
/// vault and the record, rent to the maker throughout.
pub open spec fn spec_refund_settlement(
    escrow_acct: AccountV,
    maker: AccountV,
    vault: AccountV,
    maker_ata_a: AccountV,
    program_id: Seq<u8>,
    token_id: Seq<u8>,
) -> Result<Seq<OpV>, ProgramError> {
    if escrow_acct.data.len() != ESCROW_LEN {
        Err(ProgramError::InvalidAccountData)
    } else {
        let e = spec_escrow_decode(escrow_acct.data);
        match spec_escrow_address_check(escrow_acct.key, maker.key, e.seed, e.bump, program_id) {
            Err(er) => Err(er),
            Ok(()) => match spec_token_account_check(vault, token_id) {
                Err(er) => Err(er),
                Ok(()) => {
                    let amount = spec_token_amount(vault.data);
                    Ok(
                        seq![
                            OpV::Transfer {
                                from: vault.key,
                                to: maker_ata_a.key,
                                authority: escrow_acct.key,
                                amount,
                            },
                            OpV::CloseTokenAccount {
                                account: vault.key,
                                destination: maker.key,
                                authority: escrow_acct.key,
                            },
                            OpV::CloseProgramAccount {
                                account: escrow_acct.key,
                                destination: maker.key,
                            },
                        ],
                    )
                },
            },
        }
    }
}

impl Refund {
    /// Decides the settlement movements of this Refund, or the error that
    /// aborts it. No movement is decided past a failed check.
    pub fn process(&self, program_id: &[u8], token_id: &[u8]) -> (r: Result<
        Vec<TokenOp>,
        ProgramError,
    >)
        requires
            crate::is_key(program_id@),
        ensures
            match r {
                Ok(plan) => spec_refund_settlement(
                    self.accounts.escrow@,
                    self.accounts.maker@,
                    self.accounts.vault@,
                    self.accounts.maker_ata_a@,
                    program_id@,
                    token_id@,
                ) == Ok::<Seq<OpV>, ProgramError>(plan_view(plan@)),
                Err(e) => spec_refund_settlement(
                    self.accounts.escrow@,
                    self.accounts.maker@,
                    self.accounts.vault@,
                    self.accounts.maker_ata_a@,
                    program_id@,
                    token_id@,
                ) == Err::<Seq<OpV>, ProgramError>(e),
            },
    {
        let e = Escrow::load(self.accounts.escrow.data.as_slice())?;
        escrow_address_check(
            self.accounts.escrow.key.as_slice(),
            self.accounts.maker.key.as_slice(),
            e.seed,
            e.bump,
            program_id,
        )?;
        let amount = TokenAccount::get_amount(&self.accounts.vault, token_id)?;
        let mut plan: Vec<TokenOp> = Vec::new();
        plan.push(TokenOp::Transfer {
            from: bytes_of(self.accounts.vault.key.as_slice()),
            to: bytes_of(self.accounts.maker_ata_a.key.as_slice()),
            authority: bytes_of(self.accounts.escrow.key.as_slice()),
            amount,
        });
        plan.push(TokenOp::CloseTokenAccount {
            account: bytes_of(self.accounts.vault.key.as_slice()),
            destination: bytes_of(self.accounts.maker.key.as_slice()),
            authority: bytes_of(self.accounts.escrow.key.as_slice()),
        });
        plan.push(TokenOp::CloseProgramAccount {
            account: bytes_of(self.accounts.escrow.key.as_slice()),
            destination: bytes_of(self.accounts.maker.key.as_slice()),
        });
        proof {
            assert(plan_view(plan@) =~= spec_refund_settlement(
                self.accounts.escrow@,
                self.accounts.maker@,
                self.accounts.vault@,
                self.accounts.maker_ata_a@,
                program_id@,
                token_id@,
            )->Ok_0);
        }
        Ok(plan)
    }
}

} // verus!
