//! The escrow's address, derived from the maker and the asset on offer.
//!
//! The address of an escrow is a function of the maker, the asset that the maker
//! sells and the program. Nobody holds a key for it: the program signs for it by
//! naming the seeds it was derived from.

use crate::error::EscrowError;
use crate::identity::Identity;
use solana_program::pubkey::Pubkey;
use vstd::prelude::*;

verus! {

/// The first seed of every escrow address: the bytes of the word "escrow".
pub open spec fn escrow_prefix() -> Seq<u8> {
    seq![101u8, 115u8, 99u8, 114u8, 111u8, 119u8]
}

/// The seeds as byte strings.
pub open spec fn seed_bytes(seeds: Seq<Vec<u8>>) -> Seq<Seq<u8>> {
    Seq::new(seeds.len(), |i: int| seeds[i]@)
}

/// The address that the ledger derives from `seeds` for the program, with the
/// bump that completes the seeds; `None` where no bump gives an address.
pub uninterp spec fn derived_address(seeds: Seq<Seq<u8>>, program_id: Seq<u8>) -> Option<
    (Seq<u8>, u8),
>;

/// `Pubkey::try_find_program_address`: the derived address and its bump, which
/// depend on the seeds and the program alone.
#[verifier::external_body]
fn try_find_program_address(seeds: &Vec<Vec<u8>>, program_id: &Identity) -> (r: Option<
    (Identity, u8),
>)
    ensures
        match r {
            Some((address, bump)) => derived_address(seed_bytes(seeds@), program_id@) == Some(
                (address@, bump),
            ),
            None => derived_address(seed_bytes(seeds@), program_id@) is None,
        },
{
    let parts: Vec<&[u8]> = seeds.iter().map(|s| s.as_slice()).collect();
    Pubkey::try_find_program_address(&parts, &Pubkey::new_from_array(program_id.bytes)).map(
        |(address, bump)| (Identity { bytes: address.to_bytes() }, bump),
    )
}

/// The address derived from `seeds` for the program, as an identity.
pub open spec fn address_of(seeds: Seq<Seq<u8>>, program_id: Identity) -> Option<(Identity, u8)> {
    match derived_address(seeds, program_id@) {
        Some((address, bump)) => Some((Identity::of(address), bump)),
        None => None,
    }
}

/// Derives the address that belongs to `seeds` under the program.
pub fn find_address(seeds: &Vec<Vec<u8>>, program_id: &Identity) -> (r: Option<(Identity, u8)>)
    ensures
        r == address_of(seed_bytes(seeds@), *program_id),
{
    match try_find_program_address(seeds, program_id) {
        Some((address, bump)) => {
            proof {
                address.lemma_of_view();
            }
            Some((address, bump))
        },
        None => None,
    }
}

/// The seeds by which the program signs for one escrow.
#[derive(Clone, Copy, Debug, PartialEq, Eq)]
pub struct EscrowSeeds {
    pub maker: Identity,
    pub sell_mint: Identity,
    pub bump: u8,
}

impl EscrowSeeds {
    /// The seeds without the bump: what the address is derived from.
    pub open spec fn base(maker: Identity, sell_mint: Identity) -> Seq<Seq<u8>> {
        seq![escrow_prefix(), maker@, sell_mint@]
    }

    /// The full seed list, bump last: what the program signs with.
    pub open spec fn seeds(self) -> Seq<Seq<u8>> {
        seq![escrow_prefix(), self.maker@, self.sell_mint@, seq![self.bump]]
    }

    /// The full seed list as bytes.
    pub fn to_seeds(&self) -> (v: Vec<Vec<u8>>)
        ensures
            seed_bytes(v@) == self.seeds(),
    {
        let mut v = base_seeds(&self.maker, &self.sell_mint);
        let ghost base = v@;
        let mut last: Vec<u8> = Vec::new();
        last.push(self.bump);
        assert(last@ =~= seq![self.bump]);
        v.push(last);
        proof {
            let full = seed_bytes(v@);
            assert(seed_bytes(base).len() == 3);
            assert(full[0] == seed_bytes(base)[0]);
            assert(full[1] == seed_bytes(base)[1]);
            assert(full[2] == seed_bytes(base)[2]);
            assert(full =~= self.seeds());
        }
        v
    }
}

fn base_seeds(maker: &Identity, sell_mint: &Identity) -> (v: Vec<Vec<u8>>)
    ensures
        seed_bytes(v@) == EscrowSeeds::base(*maker, *sell_mint),
{
    let mut prefix: Vec<u8> = Vec::new();
    prefix.push(101u8);
    prefix.push(115u8);
    prefix.push(99u8);
    prefix.push(114u8);
    prefix.push(111u8);
    prefix.push(119u8);
    assert(prefix@ =~= escrow_prefix());
    let mut v: Vec<Vec<u8>> = Vec::new();
    v.push(prefix);
    v.push(maker.to_vec());
    v.push(sell_mint.to_vec());
    assert(seed_bytes(v@) =~= EscrowSeeds::base(*maker, *sell_mint));
    v
}

/// The escrow address of a maker and the asset on offer, with its bump.
pub open spec fn escrow_address(maker: Identity, sell_mint: Identity, program_id: Identity) -> Option<
    (Identity, u8),
> {
    address_of(EscrowSeeds::base(maker, sell_mint), program_id)
}

/// Derives the escrow address of a maker and the asset on offer.
pub fn find_escrow_address(maker: &Identity, sell_mint: &Identity, program_id: &Identity) -> (r:
    Option<(Identity, u8)>)
    ensures
        r == escrow_address(*maker, *sell_mint, *program_id),
{
    let seeds = base_seeds(maker, sell_mint);
    find_address(&seeds, program_id)
}

/// Checks a supplied escrow address against the derived one and returns the
/// bump. Any other address, and a pair for which none can be derived, is
/// refused with `InvalidSeeds`.
pub fn check_escrow_address(
    supplied: &Identity,
    maker: &Identity,
    sell_mint: &Identity,
    program_id: &Identity,
) -> (r: Result<u8, EscrowError>)
    ensures
        r == checked_bump(*supplied, escrow_address(*maker, *sell_mint, *program_id)),
{
    match find_escrow_address(maker, sell_mint, program_id) {
        Some((address, bump)) => {
            if address == *supplied {
                Ok(bump)
            } else {
                Err(EscrowError::InvalidSeeds)
            }
        },
        None => Err(EscrowError::InvalidSeeds),
    }
}

/// The bump of the derived address where it is the supplied one.
pub open spec fn checked_bump(supplied: Identity, derived: Option<(Identity, u8)>) -> Result<
    u8,
    EscrowError,
> {
    match derived {
        Some((address, bump)) => if address == supplied {
            Ok(bump)
        } else {
            Err(EscrowError::InvalidSeeds)
        },
        None => Err(EscrowError::InvalidSeeds),
    }
}

} // verus!
