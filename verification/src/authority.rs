use vstd::prelude::*;

verus! {

use crate::address::Address;
use crate::solana::{
    derived_address, spec_trifle_escrow_seed, spec_trifle_id, trifle_escrow_seed, trifle_id,
    try_derive_address,
};

// The authority context: the program-controlled signing identity, derived
// deterministically from the program's own identity and a fixed label. A
// value of this type is the capability to counter-sign outbound custody and
// currency transfers; it is obtained once and passed to every operation that
// acts with the authority's custody rights.

/// The fixed label under which the farm authority is derived:
/// the bytes of "farmer-house-farms".
pub open spec fn spec_farm_authority_seed() -> Seq<u8> {
    seq![
        102u8, 97u8, 114u8, 109u8, 101u8, 114u8, 45u8, 104u8, 111u8, 117u8, 115u8, 101u8, 45u8,
        102u8, 97u8, 114u8, 109u8, 115u8,
    ]
}

pub fn farm_authority_seed() -> (r: Vec<u8>)
    ensures
        r@ == spec_farm_authority_seed(),
{
    let r: Vec<u8> = vec![
        102u8, 97u8, 114u8, 109u8, 101u8, 114u8, 45u8, 104u8, 111u8, 117u8, 115u8, 101u8, 45u8,
        102u8, 97u8, 114u8, 109u8, 115u8,
    ];
    r
}

/// The farm authority that the given program identity determines: the
/// address derived from the fixed label and the program identity, under the
/// program identity itself, with its bump nonce.
pub open spec fn spec_farm_authority(program_id: Seq<u8>) -> Option<(Seq<u8>, u8)> {
    derived_address(seq![spec_farm_authority_seed(), program_id], program_id)
}

/// The signing capability: the derived authority address and its bump nonce.
#[derive(Debug)]
pub struct AuthorityContext {
    pub address: Address,
    pub bump: u8,
}

#[verifier::ext_equal]
pub struct AuthorityContextV {
    pub address: Seq<u8>,
    pub bump: u8,
}

impl View for AuthorityContext {
    type V = AuthorityContextV;

    open spec fn view(&self) -> AuthorityContextV {
        AuthorityContextV { address: self.address@, bump: self.bump }
    }
}

/// Derive the farm authority for a program identity. `None` only where the
/// ledger's derivation finds no valid address for any bump nonce.
pub fn derive_authority(program_id: &Address) -> (r: Option<AuthorityContext>)
    requires
        program_id@.len() == 32,
    ensures
        match r {
            Some(a) => {
                &&& spec_farm_authority(program_id@) == Some((a.address@, a.bump))
                &&& a.address@.len() == 32
            },
            None => spec_farm_authority(program_id@) is None,
        },
{
    let mut seeds: Vec<Vec<u8>> = Vec::new();
    seeds.push(farm_authority_seed());
    seeds.push(program_id.dup().bytes);
    proof {
        assert(seeds.deep_view() =~~= seq![spec_farm_authority_seed(), program_id@]);
    }
    match try_derive_address(&seeds, program_id.bytes()) {
        Some((key, bump)) => Some(AuthorityContext { address: Address::new(key), bump }),
        None => None,
    }
}

/// The custody-record address that the custody service determines for an
/// asset under an authority: derived from its fixed seed, the asset's mint
/// and the authority, under the custody service's identity.
pub open spec fn spec_trifle_record_address(asset_mint: Seq<u8>, authority: Seq<u8>) -> Option<
    (Seq<u8>, u8),
> {
    derived_address(seq![spec_trifle_escrow_seed(), asset_mint, authority], spec_trifle_id())
}

/// Derive the custody-record address for an asset under an authority.
pub fn derive_trifle_record_address(asset_mint: &Address, authority: &Address) -> (r: Option<
    (Address, u8),
>)
    ensures
        match r {
            Some(p) => {
                &&& spec_trifle_record_address(asset_mint@, authority@) == Some((p.0@, p.1))
                &&& p.0@.len() == 32
            },
            None => spec_trifle_record_address(asset_mint@, authority@) is None,
        },
{
    let mut seeds: Vec<Vec<u8>> = Vec::new();
    seeds.push(trifle_escrow_seed());
    seeds.push(asset_mint.dup().bytes);
    seeds.push(authority.dup().bytes);
    proof {
        assert(seeds.deep_view() =~~= seq![
            spec_trifle_escrow_seed(),
            asset_mint@,
            authority@,
        ]);
    }
    let program = trifle_id();
    match try_derive_address(&seeds, &program) {
        Some((key, bump)) => Some((Address::new(key), bump)),
        None => None,
    }
}

/// Whether an address is the custody-record address the custody service
/// determines for the asset and authority.
pub open spec fn trifle_record_matches(
    record: Seq<u8>,
    asset_mint: Seq<u8>,
    authority: Seq<u8>,
) -> bool {
    match spec_trifle_record_address(asset_mint, authority) {
        Some(p) => p.0 == record,
        None => false,
    }
}

} // verus!
