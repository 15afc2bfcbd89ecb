//! The custody address: an address without a private key, derived from a
//! fixed seed and the program's own identity. Only this program can act as
//! it, by presenting the seed and the bump that the derivation found.

use vstd::prelude::*;
use solana_program::pubkey::Pubkey;
use crate::address::{from_seq_of_view, Address};

verus! {

/// The fixed seed of the custody address: the bytes of the word "escrow".
pub open spec fn custody_seed() -> Seq<u8> {
    seq![101u8, 115u8, 99u8, 114u8, 111u8, 119u8]
}

/// What the host's derivation of a program address finds for one seed and a
/// program's identity: the address and the bump that goes with it, or
/// nothing where no bump gives an address. It depends on these bytes alone.
pub uninterp spec fn program_address(seed: Seq<u8>, program_id: Seq<u8>) -> Option<(Seq<u8>, u8)>;

/// The custody address together with the bump that proves it.
#[derive(Clone, Copy, Debug, PartialEq, Eq)]
pub struct CustodyAuthority {
    /// The derived address.
    pub address: Address,
    /// The bump that, with the seed, derives the address.
    pub bump: u8,
}

/// What is presented to the host with a call made as the custody address:
/// the seed and the bump that derive it.
#[derive(Clone, Copy, Debug, PartialEq, Eq)]
pub struct CustodyProof {
    /// The seed of the derivation.
    pub seed: [u8; 6],
    /// The bump of the derivation.
    pub bump: u8,
}

impl View for CustodyProof {
    type V = (Seq<u8>, u8);

    open spec fn view(&self) -> (Seq<u8>, u8) {
        (self.seed@, self.bump)
    }
}

/// The custody authority of the program `program_id`, if the derivation
/// finds one.
pub open spec fn custody_of(program_id: Address) -> Option<CustodyAuthority> {
    match program_address(custody_seed(), program_id@) {
        Some((address, bump)) => Some(
            CustodyAuthority { address: Address::from_seq(address), bump },
        ),
        None => None,
    }
}

/// Derives a program address from one seed, through
/// `Pubkey::try_find_program_address`.
///
/// The result is that function's result on these bytes, which this library
/// names `program_address`; nothing else is claimed of it.
#[verifier::external_body]
fn find_program_address(seed: &[u8], program_id: &Address) -> (r: Option<(Address, u8)>)
    ensures
        match r {
            Some((address, bump)) => program_address(seed@, program_id@) == Some((address@, bump)),
            None => program_address(seed@, program_id@) is None,
        },
{
    Pubkey::try_find_program_address(&[seed], &Pubkey::from(program_id.bytes))
        .map(|(key, bump)| (Address { bytes: key.to_bytes() }, bump))
}

/// The fixed seed, as bytes.
pub fn seed_bytes() -> (seed: [u8; 6])
    ensures
        seed@ == custody_seed(),
{
    let seed: [u8; 6] = [101, 115, 99, 114, 111, 119];
    assert(seed@ =~= custody_seed());
    seed
}

impl CustodyAuthority {
    /// What a call made as this authority presents to the host: the fixed
    /// seed and this authority's bump.
    pub open spec fn presented(self) -> (Seq<u8>, u8) {
        (custody_seed(), self.bump)
    }

    /// The seed and the bump to present with a call made as this authority.
    pub fn presentation(&self) -> (presented: CustodyProof)
        ensures
            presented@ == self.presented(),
    {
        CustodyProof { seed: seed_bytes(), bump: self.bump }
    }

    /// Derives the custody authority of the program `program_id`.
    pub fn derive(program_id: &Address) -> (r: Option<CustodyAuthority>)
        ensures
            r == custody_of(*program_id),
    {
        let seed: [u8; 6] = seed_bytes();
        match find_program_address(seed.as_slice(), program_id) {
            Some((address, bump)) => {
                proof {
                    from_seq_of_view(address);
                }
                Some(CustodyAuthority { address, bump })
            },
            None => None,
        }
    }
}

} // verus!
