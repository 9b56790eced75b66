//! Verified core of a family of on-chain value-custody programs: an escrow
//! (atomic bilateral token swap), a constant-product automated market maker,
//! and a flash-loan vault.
//!
//! Every operation is modelled as a pure decision: from snapshots of the
//! accounts named by the caller and the raw instruction bytes, it either
//! returns the exact ordered list of fund movements to perform, or the error
//! that aborts the transaction. The runtime edge that reads accounts and
//! issues the movements lives outside this library.

use vstd::prelude::*;

pub mod account;
pub mod amm;
pub mod derive;
pub mod errors;
pub mod escrow;
pub mod flash;
pub mod laws;
pub mod ops;
pub mod validate;

verus! {

/// Byte length of an account address.
pub const KEY_LEN: usize = 32;

/// True of a byte sequence that is a well-formed account address.
pub open spec fn is_key(s: Seq<u8>) -> bool {
    s.len() == KEY_LEN
}

} // verus!
