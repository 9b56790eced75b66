//! Fund movements and their effect on the ledger.
//!
//! Each protocol operation decides a plan: the exact ordered list of fund
//! movements to issue. The runtime performs them through the external token
//! and system programs; their effect on token balances and account existence
//! is modelled here, so that settlement properties are theorems about plans.

use vstd::prelude::*;

verus! {

/// One fund movement for the runtime to perform.
#[derive(Clone, Debug, PartialEq, Eq)]
pub enum TokenOp {
    /// Move `amount` tokens between two token accounts, authorized by
    /// `authority`.
    Transfer { from: Vec<u8>, to: Vec<u8>, authority: Vec<u8>, amount: u64 },
    /// Close a token account, returning its rent to `destination`.
    CloseTokenAccount { account: Vec<u8>, destination: Vec<u8>, authority: Vec<u8> },
    /// Zero and reclaim a record account owned by this program, returning its
    /// rent to `destination`.
    CloseProgramAccount { account: Vec<u8>, destination: Vec<u8> },
    /// Burn `amount` tokens of `mint` from a token account, reducing supply.
    Burn { account: Vec<u8>, mint: Vec<u8>, authority: Vec<u8>, amount: u64 },
    /// Allocate a new account at `account`, owned by `owner`, with `space`
    /// data bytes, paid for by `payer`.
    CreateAccount { account: Vec<u8>, owner: Vec<u8>, payer: Vec<u8>, space: u64 },
    /// Create the associated token account of `owner` for `mint`.
    CreateAssociatedAccount { account: Vec<u8>, owner: Vec<u8>, mint: Vec<u8>, payer: Vec<u8> },
    /// Store record bytes into an existing account of this program.
    StoreRecord { account: Vec<u8>, record: Vec<u8> },
    /// Initialize a freshly created mint account with zero supply.
    InitializeMint { mint: Vec<u8>, authority: Vec<u8>, decimals: u8 },
}

/// The mathematical content of one fund movement.
pub enum OpV {
    Transfer { from: Seq<u8>, to: Seq<u8>, authority: Seq<u8>, amount: u64 },
    CloseTokenAccount { account: Seq<u8>, destination: Seq<u8>, authority: Seq<u8> },
    CloseProgramAccount { account: Seq<u8>, destination: Seq<u8> },
    Burn { account: Seq<u8>, mint: Seq<u8>, authority: Seq<u8>, amount: u64 },
    CreateAccount { account: Seq<u8>, owner: Seq<u8>, payer: Seq<u8>, space: u64 },
    CreateAssociatedAccount { account: Seq<u8>, owner: Seq<u8>, mint: Seq<u8>, payer: Seq<u8> },
    StoreRecord { account: Seq<u8>, record: Seq<u8> },
    InitializeMint { mint: Seq<u8>, authority: Seq<u8>, decimals: u8 },
}

impl View for TokenOp {
    type V = OpV;

    open spec fn view(&self) -> OpV {
        match self {
            TokenOp::Transfer { from, to, authority, amount } => OpV::Transfer {
                from: from@,
                to: to@,
                authority: authority@,
                amount: *amount,
            },
            TokenOp::CloseTokenAccount { account, destination, authority } => OpV::CloseTokenAccount {
                account: account@,
                destination: destination@,
                authority: authority@,
            },
            TokenOp::CloseProgramAccount { account, destination } => OpV::CloseProgramAccount {
                account: account@,
                destination: destination@,
            },
            TokenOp::Burn { account, mint, authority, amount } => OpV::Burn {
                account: account@,
                mint: mint@,
                authority: authority@,
                amount: *amount,
            },
            TokenOp::CreateAccount { account, owner, payer, space } => OpV::CreateAccount {
                account: account@,
                owner: owner@,
                payer: payer@,
                space: *space,
            },
            TokenOp::CreateAssociatedAccount { account, owner, mint, payer } => OpV::CreateAssociatedAccount {
                account: account@,
                owner: owner@,
                mint: mint@,
                payer: payer@,
            },
            TokenOp::StoreRecord { account, record } => OpV::StoreRecord {
                account: account@,
                record: record@,
            },
            TokenOp::InitializeMint { mint, authority, decimals } => OpV::InitializeMint {
                mint: mint@,
                authority: authority@,
                decimals: *decimals,
            },
        }
    }
}

/// The views of a plan's movements, in order.
pub open spec fn plan_view(ops: Seq<TokenOp>) -> Seq<OpV> {
    ops.map_values(|o: TokenOp| o@)
}

/// A ledger state: the accounts that exist, each with its token balance
/// (for a mint account, its total supply; for a record account, zero).
pub type LedgerV = Map<Seq<u8>, u64>;

/// The effect of one movement on a ledger state, or `None` where the ledger
/// rejects it and the whole transaction aborts.
pub open spec fn apply_op(st: LedgerV, op: OpV) -> Option<LedgerV> {
    match op {
        OpV::Transfer { from, to, authority, amount } => {
            if st.contains_key(from) && st.contains_key(to) && st[from] >= amount {
                if from == to {
                    Some(st)
                } else if st[to] + amount <= u64::MAX {
                    Some(
                        st.insert(from, (st[from] - amount) as u64).insert(
                            to,
                            (st[to] + amount) as u64,
                        ),
                    )
                } else {
                    None
                }
            } else {
                None
            }
        },
        OpV::CloseTokenAccount { account, destination, authority } => {
            if st.contains_key(account) {
                Some(st.remove(account))
            } else {
                None
            }
        },
        OpV::CloseProgramAccount { account, destination } => {
            if st.contains_key(account) {
                Some(st.remove(account))
            } else {
                None
            }
        },
        OpV::Burn { account, mint, authority, amount } => {
            if st.contains_key(account) && st.contains_key(mint) && account != mint && st[account]
                >= amount && st[mint] >= amount {
                Some(
                    st.insert(account, (st[account] - amount) as u64).insert(
                        mint,
                        (st[mint] - amount) as u64,
                    ),
                )
            } else {
                None
            }
        },
        OpV::CreateAccount { account, owner, payer, space } => {
            if st.contains_key(account) {
                None
            } else {
                Some(st.insert(account, 0))
            }
        },
        OpV::CreateAssociatedAccount { account, owner, mint, payer } => {
            if st.contains_key(account) {
                None
            } else {
                Some(st.insert(account, 0))
            }
        },
        OpV::StoreRecord { account, record } => {
            if st.contains_key(account) {
                Some(st)
            } else {
                None
            }
        },
        OpV::InitializeMint { mint, authority, decimals } => {
            if st.contains_key(mint) {
                Some(st)
            } else {
                None
            }
        },
    }
}

/// The effect of a plan, applied in order; the first rejected movement aborts
/// the whole transaction.
pub open spec fn apply_ops(st: LedgerV, ops: Seq<OpV>) -> Option<LedgerV>
    decreases ops.len(),
{
    if ops.len() == 0 {
        Some(st)
    } else {
        match apply_op(st, ops[0]) {
            Some(st2) => apply_ops(st2, ops.subrange(1, ops.len() as int)),
            None => None,
        }
    }
}

} // verus!
