//! Snapshots of the accounts an instruction names, and small byte utilities.
//!
//! An instruction receives untrusted references to ledger accounts. The
//! validation framework works over a snapshot of what the runtime guarantees
//! about each reference at entry: its address, its owning program, whether the
//! caller signed for it, and its raw data bytes.

use vstd::prelude::*;
use crate::is_key;

verus! {

/// A snapshot of one account reference, as handed to an instruction.
pub struct AccountView {
    /// The account's address.
    pub key: Vec<u8>,
    /// The program that owns the account.
    pub owner: Vec<u8>,
    /// Whether the transaction was signed for this account.
    pub is_signer: bool,
    /// The account's raw data bytes.
    pub data: Vec<u8>,
}

/// The mathematical content of an account snapshot.
pub struct AccountV {
    pub key: Seq<u8>,
    pub owner: Seq<u8>,
    pub is_signer: bool,
    pub data: Seq<u8>,
}

impl View for AccountView {
    type V = AccountV;

    open spec fn view(&self) -> AccountV {
        AccountV {
            key: self.key@,
            owner: self.owner@,
            is_signer: self.is_signer,
            data: self.data@,
        }
    }
}

impl AccountV {
    /// A well-formed snapshot has full-length address and owner fields.
    pub open spec fn wf(self) -> bool {
        is_key(self.key) && is_key(self.owner)
    }
}

impl AccountView {
    /// A well-formed snapshot has full-length address and owner fields.
    pub open spec fn wf(self) -> bool {
        self@.wf()
    }

    /// Returns an owned copy of the snapshot.
    pub fn duplicate(&self) -> (r: AccountView)
        ensures
            r@ == self@,
    {
        AccountView {
            key: bytes_of(self.key.as_slice()),
            owner: bytes_of(self.owner.as_slice()),
            is_signer: self.is_signer,
            data: bytes_of(self.data.as_slice()),
        }
    }

    /// Length of the account's data.
    pub fn data_len(&self) -> (r: usize)
        ensures
            r == self.data@.len(),
    {
        self.data.len()
    }
}

/// The mathematical contents of a list of account snapshots.
pub open spec fn account_views(accounts: Seq<AccountView>) -> Seq<AccountV> {
    accounts.map_values(|a: AccountView| a@)
}

/// Compares two byte strings for equality.
pub fn bytes_eq(a: &[u8], b: &[u8]) -> (r: bool)
    ensures
        r == (a@ == b@),
{
    if a.len() != b.len() {
        assert(a@ != b@);
        return false;
    }
    let n = a.len();
    let mut i: usize = 0;
    while i < n
        invariant
            n == a@.len() == b@.len(),
            0 <= i <= n,
            forall|j: int| 0 <= j < i ==> a@[j] == b@[j],
        decreases n - i,
    {
        if a[i] != b[i] {
            return false;
        }
        i = i + 1;
    }
    proof {
        assert(a@ =~= b@);
    }
    true
}

/// Returns an owned copy of a byte string.
pub fn bytes_of(a: &[u8]) -> (r: Vec<u8>)
    ensures
        r@ == a@,
{
    let n = a.len();
    let mut r: Vec<u8> = Vec::new();
    let mut i: usize = 0;
    while i < n
        invariant
            n == a@.len(),
            0 <= i <= n,
            r@ == a@.subrange(0, i as int),
        decreases n - i,
    {
        r.push(a[i]);
        proof {
            assert(r@ =~= a@.subrange(0, i + 1));
        }
        i = i + 1;
    }
    proof {
        assert(r@ =~= a@);
    }
    r
}

/// Returns the bytes of `a` from `start` (inclusive) to `end` (exclusive).
pub fn sub_bytes(a: &[u8], start: usize, end: usize) -> (r: Vec<u8>)
    requires
        start <= end <= a@.len(),
    ensures
        r@ == a@.subrange(start as int, end as int),
{
    let mut r: Vec<u8> = Vec::new();
    let mut i: usize = start;
    while i < end
        invariant
            start <= i <= end <= a@.len(),
            r@ == a@.subrange(start as int, i as int),
        decreases end - i,
    {
        r.push(a[i]);
        proof {
            assert(r@ =~= a@.subrange(start as int, i + 1));
        }
        i = i + 1;
    }
    r
}

} // verus!
