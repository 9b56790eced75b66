//! The account-validation framework: composable, fail-closed capability
//! checks applied to every account reference before it is trusted.
//!
//! Each check is a pure predicate over an account snapshot and the expected
//! shape, written out as a spec function; the executable check returns exactly
//! what the spec function says, so a failed check provably precedes any fund
//! movement.

use vstd::prelude::*;
use crate::account::{AccountV, AccountView, bytes_eq, bytes_of};
use crate::derive::{find_program_address, spec_find_program_address};
use crate::errors::{PinocchioError, ProgramError};
use crate::escrow::ESCROW_LEN;
use crate::ops::TokenOp;
use vstd::bytes::{spec_u64_from_le_bytes, u64_from_le_bytes};

verus! {

/// Byte length of a token-holding account of the classic token standard.
pub const TOKEN_ACCOUNT_LEN: usize = 165;

/// Byte length of a mint account of the classic token standard.
pub const MINT_LEN: usize = 82;

/// Offset of the account-kind discriminator byte in the extended token
/// standard, one past the classic token-account layout.
pub const EXTENDED_DISCRIMINATOR_OFFSET: usize = 165;

/// Discriminator byte of a mint account in the extended token standard.
pub const EXTENDED_MINT_DISCRIMINATOR: u8 = 1;

/// Discriminator byte of a token account in the extended token standard.
pub const EXTENDED_TOKEN_ACCOUNT_DISCRIMINATOR: u8 = 2;

/// Offset of the 64-bit little-endian balance in a token account's data.
pub const TOKEN_AMOUNT_OFFSET: usize = 64;

/// Validates that the caller signed for the account.
pub struct SignerAccount;

/// What the signer check decides: the transaction must carry the account's
/// signature.
pub open spec fn spec_signer_check(account: AccountV) -> Result<(), ProgramError> {
    if account.is_signer {
        Ok(())
    } else {
        Err(ProgramError::MissingRequiredSignature)
    }
}

impl SignerAccount {
    /// Fails unless the caller authorized this reference as a transaction
    /// signer.
    pub fn check(account: &AccountView) -> (r: Result<(), ProgramError>)
        ensures
            r == spec_signer_check(account@),
    {
        if !account.is_signer {
            return Err(ProgramError::MissingRequiredSignature);
        }
        Ok(())
    }
}

/// Validates a record account owned by this program.
pub struct ProgramAccount;

/// What the program-account check decides: owned by this program, with the
/// exact escrow-record length.
pub open spec fn spec_program_account_check(account: AccountV, program_id: Seq<u8>) -> Result<
    (),
    ProgramError,
> {
    if account.owner != program_id {
        Err(ProgramError::InvalidAccountOwner)
    } else if account.data.len() != ESCROW_LEN {
        Err(ProgramError::Custom(PinocchioError::InvalidAccountData.spec_code()))
    } else {
        Ok(())
    }
}

impl ProgramAccount {
    /// Fails unless the account is owned by this program and its data is
    /// exactly one escrow record.
    pub fn check(account: &AccountView, program_id: &[u8]) -> (r: Result<(), ProgramError>)
        ensures
            r == spec_program_account_check(account@, program_id@),
    {
        if !bytes_eq(account.owner.as_slice(), program_id) {
            return Err(ProgramError::InvalidAccountOwner);
        }
        if account.data_len() != ESCROW_LEN {
            return Err(ProgramError::from(PinocchioError::InvalidAccountData));
        }
        Ok(())
    }

    /// The movement that zeroes and reclaims a record account, returning its
    /// rent to `destination`.
    pub fn close(account: &AccountView, destination: &AccountView) -> (r: TokenOp)
        ensures
            r@ == (crate::ops::OpV::CloseProgramAccount {
                account: account@.key,
                destination: destination@.key,
            }),
    {
        TokenOp::CloseProgramAccount {
            account: bytes_of(account.key.as_slice()),
            destination: bytes_of(destination.key.as_slice()),
        }
    }

    /// The movement that allocates a record account of `space` bytes for this
    /// program, paid for by `payer`.
    pub fn init(payer: &AccountView, account: &AccountView, program_id: &[u8], space: u64) -> (r:
        TokenOp)
        ensures
            r@ == (crate::ops::OpV::CreateAccount {
                account: account@.key,
                owner: program_id@,
                payer: payer@.key,
                space: space,
            }),
    {
        TokenOp::CreateAccount {
            account: bytes_of(account.key.as_slice()),
            owner: bytes_of(program_id),
            payer: bytes_of(payer.key.as_slice()),
            space,
        }
    }
}

/// Validates a mint account of either token standard.
pub struct MintInterface;

/// What the mint check decides: owned by one of the two token programs, with
/// the classic mint length, or the extended standard's mint discriminator
/// where the length differs.
pub open spec fn spec_mint_check(
    account: AccountV,
    token_program_id: Seq<u8>,
    extended_token_program_id: Seq<u8>,
) -> Result<(), ProgramError> {
    if account.owner != extended_token_program_id {
        if account.owner != token_program_id {
            Err(ProgramError::InvalidAccountOwner)
        } else if account.data.len() != MINT_LEN {
            Err(ProgramError::InvalidAccountData)
        } else {
            Ok(())
        }
    } else {
        if account.data.len() != MINT_LEN {
            if account.data.len() <= EXTENDED_DISCRIMINATOR_OFFSET {
                Err(ProgramError::InvalidAccountData)
            } else if account.data[EXTENDED_DISCRIMINATOR_OFFSET as int]
                != EXTENDED_MINT_DISCRIMINATOR {
                Err(ProgramError::InvalidAccountData)
            } else {
                Ok(())
            }
        } else {
            Ok(())
        }
    }
}

impl MintInterface {
    /// Fails unless the account has the shape of a mint under the classic or
    /// the extended token program.
    pub fn check(
        account: &AccountView,
        token_program_id: &[u8],
        extended_token_program_id: &[u8],
    ) -> (r: Result<(), ProgramError>)
        ensures
            r == spec_mint_check(account@, token_program_id@, extended_token_program_id@),
    {
        if !bytes_eq(account.owner.as_slice(), extended_token_program_id) {
            if !bytes_eq(account.owner.as_slice(), token_program_id) {
                return Err(ProgramError::InvalidAccountOwner);
            }
            if account.data_len() != MINT_LEN {
                return Err(ProgramError::InvalidAccountData);
            }
            return Ok(());
        }
        if account.data_len() != MINT_LEN {
            if account.data_len() <= EXTENDED_DISCRIMINATOR_OFFSET {
                return Err(ProgramError::InvalidAccountData);
            }
            if account.data[EXTENDED_DISCRIMINATOR_OFFSET] != EXTENDED_MINT_DISCRIMINATOR {
                return Err(ProgramError::InvalidAccountData);
            }
        }
        Ok(())
    }
}

/// Validates and reads a token-holding account.
pub struct TokenAccount;

/// What the token-account check decides: owned by the classic token program,
/// with the exact token-account length.
pub open spec fn spec_token_account_check(account: AccountV, token_program_id: Seq<u8>) -> Result<
    (),
    ProgramError,
> {
    if account.owner != token_program_id {
        Err(ProgramError::Custom(PinocchioError::InvalidOwner.spec_code()))
    } else if account.data.len() != TOKEN_ACCOUNT_LEN {
        Err(ProgramError::Custom(PinocchioError::InvalidAccountData.spec_code()))
    } else {
        Ok(())
    }
}

/// The balance a well-formed token account's data records.
pub open spec fn spec_token_amount(data: Seq<u8>) -> u64 {
    spec_u64_from_le_bytes(data.subrange(TOKEN_AMOUNT_OFFSET as int, TOKEN_AMOUNT_OFFSET + 8))
}

impl TokenAccount {
    /// Fails unless the account has the shape of a classic token account.
    pub fn check(account: &AccountView, token_program_id: &[u8]) -> (r: Result<(), ProgramError>)
        ensures
            r == spec_token_account_check(account@, token_program_id@),
    {
        if !bytes_eq(account.owner.as_slice(), token_program_id) {
            return Err(ProgramError::from(PinocchioError::InvalidOwner));
        }
        if account.data_len() != TOKEN_ACCOUNT_LEN {
            return Err(ProgramError::from(PinocchioError::InvalidAccountData));
        }
        Ok(())
    }

    /// Reads the balance out of a token account, after checking its shape.
    pub fn get_amount(account: &AccountView, token_program_id: &[u8]) -> (r: Result<
        u64,
        ProgramError,
    >)
        ensures
            match r {
                Ok(amount) => spec_token_account_check(account@, token_program_id@) is Ok && amount
                    == spec_token_amount(account@.data),
                Err(e) => spec_token_account_check(account@, token_program_id@) == Err::<
                    (),
                    ProgramError,
                >(e),
            },
    {
        Self::check(account, token_program_id)?;
        let amount_bytes = crate::account::sub_bytes(
            account.data.as_slice(),
            TOKEN_AMOUNT_OFFSET,
            TOKEN_AMOUNT_OFFSET + 8,
        );
        Ok(u64_from_le_bytes(amount_bytes.as_slice()))
    }
}

/// Validates and creates associated token accounts.
pub struct AssociatedTokenAccount;

/// The seed list of an associated token account: owner authority, token
/// program, mint.
pub open spec fn spec_ata_seeds(
    authority: Seq<u8>,
    token_program_id: Seq<u8>,
    mint: Seq<u8>,
) -> Seq<Seq<u8>> {
    seq![authority, token_program_id, mint]
}

/// What the associated-account check decides: the shape of a token account,
/// at exactly the address derived for `(authority, mint)`. The single address
/// comparison subsumes checking owner and mint separately.
pub open spec fn spec_ata_check(
    account: AccountV,
    authority: Seq<u8>,
    mint: Seq<u8>,
    token_program_id: Seq<u8>,
    ata_program_id: Seq<u8>,
) -> Result<(), ProgramError> {
    match spec_token_account_check(account, token_program_id) {
        Err(e) => Err(e),
        Ok(()) => match spec_find_program_address(
            spec_ata_seeds(authority, token_program_id, mint),
            ata_program_id,
        ) {
            Some(ab) => if ab.0 == account.key {
                Ok(())
            } else {
                Err(ProgramError::Custom(PinocchioError::InvalidAddress.spec_code()))
            },
            None => Err(ProgramError::Custom(PinocchioError::InvalidAddress.spec_code())),
        },
    }
}

impl AssociatedTokenAccount {
    /// Fails unless `account` is the associated token account of `authority`
    /// for `mint`, re-deriving the address from first principles.
    pub fn check(
        account: &AccountView,
        authority: &AccountView,
        mint: &AccountView,
        token_program_id: &[u8],
        ata_program_id: &[u8],
    ) -> (r: Result<(), ProgramError>)
        requires
            crate::is_key(ata_program_id@),
        ensures
            r == spec_ata_check(
                account@,
                authority@.key,
                mint@.key,
                token_program_id@,
                ata_program_id@,
            ),
    {
        TokenAccount::check(account, token_program_id)?;
        let mut seeds: Vec<Vec<u8>> = Vec::new();
        seeds.push(bytes_of(authority.key.as_slice()));
        seeds.push(bytes_of(token_program_id));
        seeds.push(bytes_of(mint.key.as_slice()));
        proof {
            assert(crate::derive::seed_views(seeds@) =~= spec_ata_seeds(
                authority@.key,
                token_program_id@,
                mint@.key,
            ));
        }
        let ata_pid = bytes_of(ata_program_id);
        match find_program_address(&seeds, &ata_pid) {
            Some((address, _bump)) => {
                if bytes_eq(address.as_slice(), account.key.as_slice()) {
                    Ok(())
                } else {
                    Err(ProgramError::from(PinocchioError::InvalidAddress))
                }
            },
            None => Err(ProgramError::from(PinocchioError::InvalidAddress)),
        }
    }

    /// The movement that creates the associated token account of `owner` for
    /// `mint`, paid for by `payer`.
    pub fn init(account: &AccountView, mint: &AccountView, payer: &AccountView, owner: &AccountView) -> (r:
        TokenOp)
        ensures
            r@ == (crate::ops::OpV::CreateAssociatedAccount {
                account: account@.key,
                owner: owner@.key,
                mint: mint@.key,
                payer: payer@.key,
            }),
    {
        TokenOp::CreateAssociatedAccount {
            account: bytes_of(account.key.as_slice()),
            owner: bytes_of(owner.key.as_slice()),
            mint: bytes_of(mint.key.as_slice()),
            payer: bytes_of(payer.key.as_slice()),
        }
    }

    /// Checks the derivation first and only creates the account where the
    /// check fails, so account setup is safe to request unconditionally.
    pub fn init_if_needed(
        account: &AccountView,
        mint: &AccountView,
        payer: &AccountView,
        owner: &AccountView,
        token_program_id: &[u8],
        ata_program_id: &[u8],
    ) -> (r: Option<TokenOp>)
        requires
            crate::is_key(ata_program_id@),
        ensures
            match r {
                None => spec_ata_check(
                    account@,
                    owner@.key,
                    mint@.key,
                    token_program_id@,
                    ata_program_id@,
                ) is Ok,
                Some(op) => spec_ata_check(
                    account@,
                    owner@.key,
                    mint@.key,
                    token_program_id@,
                    ata_program_id@,
                ) is Err && op@ == (crate::ops::OpV::CreateAssociatedAccount {
                    account: account@.key,
                    owner: owner@.key,
                    mint: mint@.key,
                    payer: payer@.key,
                }),
            },
    {
        match Self::check(account, owner, mint, token_program_id, ata_program_id) {
            Ok(()) => None,
            Err(_) => Some(Self::init(account, mint, payer, owner)),
        }
    }
}

} // verus!
