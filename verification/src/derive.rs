//! Deterministic derivation of program-controlled addresses.
//!
//! A program-derived authority is an address with no private key, computed
//! from an ordered list of byte-string seeds plus a one-byte bump through the
//! ledger's standard derivation function. The hash itself is the host
//! ledger's; this module re-derives addresses through it and verifies the
//! bump-search loop around it.

use vstd::prelude::*;
use crate::is_key;

verus! {

/// The most seeds a derivation may take, bump included.
pub const MAX_SEEDS: usize = 16;

/// The address the ledger's derivation function assigns to a seed list under
/// a program, or `None` where the seeds yield no valid (off-curve) address.
pub uninterp spec fn program_address_of(seeds: Seq<Seq<u8>>, program_id: Seq<u8>) -> Option<Seq<u8>>;

/// The views of a list of seed byte strings.
pub open spec fn seed_views(seeds: Seq<Vec<u8>>) -> Seq<Seq<u8>> {
    seeds.map_values(|v: Vec<u8>| v@)
}

/// Relies on `solana_address::Address::create_program_address`: the ledger's
/// deterministic address derivation over a seed list and a program id. It
/// returns a 32-byte address, or an error where the seed list is over the
/// limits or the hash lands on the curve.
#[verifier::external_body]
pub(crate) fn create_program_address(seeds: &Vec<Vec<u8>>, program_id: &Vec<u8>) -> (r: Option<
    Vec<u8>,
>)
    requires
        is_key(program_id@),
    ensures
        match r {
            Some(a) => program_address_of(seed_views(seeds@), program_id@) == Some(a@) && is_key(
                a@,
            ),
            None => program_address_of(seed_views(seeds@), program_id@) is None,
        },
{
    let mut refs: Vec<&[u8]> = Vec::new();
    for s in seeds.iter() {
        refs.push(s.as_slice());
    }
    let pid = solana_address::Address::try_from(program_id.as_slice()).unwrap();
    match solana_address::Address::create_program_address(&refs, &pid) {
        Ok(a) => Some(a.to_bytes().to_vec()),
        Err(_) => None,
    }
}

/// The first valid derived address for the seed list, trying bumps from
/// `bump` down to 1.
pub open spec fn find_address_from(seeds: Seq<Seq<u8>>, program_id: Seq<u8>, bump: u8) -> Option<
    (Seq<u8>, u8),
>
    decreases bump,
{
    if bump == 0 {
        None
    } else {
        match program_address_of(seeds.push(seq![bump]), program_id) {
            Some(a) => Some((a, bump)),
            None => find_address_from(seeds, program_id, (bump - 1) as u8),
        }
    }
}

/// The derived address and bump that the bump search finds for a seed list:
/// the first success trying bumps 255 down to 1, and `None` where the seed
/// list is already at the limit or no bump yields an address.
pub open spec fn spec_find_program_address(seeds: Seq<Seq<u8>>, program_id: Seq<u8>) -> Option<
    (Seq<u8>, u8),
> {
    if seeds.len() + 1 > MAX_SEEDS {
        None
    } else {
        find_address_from(seeds, program_id, 255)
    }
}

/// Returns an owned copy of a seed list.
fn copy_seeds(seeds: &Vec<Vec<u8>>) -> (r: Vec<Vec<u8>>)
    ensures
        seed_views(r@) == seed_views(seeds@),
{
    let n = seeds.len();
    let mut r: Vec<Vec<u8>> = Vec::new();
    let mut i: usize = 0;
    while i < n
        invariant
            n == seeds@.len(),
            0 <= i <= n,
            r@.len() == i,
            forall|j: int| 0 <= j < i ==> r@[j]@ == seeds@[j]@,
        decreases n - i,
    {
        r.push(crate::account::bytes_of(seeds[i].as_slice()));
        i = i + 1;
    }
    proof {
        assert(seed_views(r@) =~= seed_views(seeds@));
    }
    r
}

/// Finds the valid derived address for a seed list with the highest bump,
/// re-deriving from first principles on every call.
pub fn find_program_address(seeds: &Vec<Vec<u8>>, program_id: &Vec<u8>) -> (r: Option<
    (Vec<u8>, u8),
>)
    requires
        is_key(program_id@),
    ensures
        match r {
            Some(ab) => spec_find_program_address(seed_views(seeds@), program_id@) == Some(
                (ab.0@, ab.1),
            ) && is_key(ab.0@),
            None => spec_find_program_address(seed_views(seeds@), program_id@) is None,
        },
{
    let ghost vs = seed_views(seeds@);
    if seeds.len() >= MAX_SEEDS {
        return None;
    }
    let mut bump: u8 = 255;
    loop
        invariant
            is_key(program_id@),
            vs == seed_views(seeds@),
            vs.len() + 1 <= MAX_SEEDS,
            1 <= bump <= 255,
            find_address_from(vs, program_id@, 255) == find_address_from(vs, program_id@, bump),
        decreases bump,
    {
        let mut with_bump = copy_seeds(seeds);
        let mut bump_seed: Vec<u8> = Vec::new();
        bump_seed.push(bump);
        proof {
            assert(bump_seed@ =~= seq![bump]);
        }
        with_bump.push(bump_seed);
        proof {
            assert(seed_views(with_bump@) =~= vs.push(seq![bump]));
        }
        match create_program_address(&with_bump, program_id) {
            Some(a) => {
                return Some((a, bump));
            },
            None => {},
        }
        proof {
            assert(find_address_from(vs, program_id@, bump) == find_address_from(
                vs,
                program_id@,
                (bump - 1) as u8,
            ));
        }
        if bump == 1 {
            proof {
                assert(find_address_from(vs, program_id@, 0u8) is None);
            }
            return None;
        }
        bump = bump - 1;
    }
}

} // verus!
