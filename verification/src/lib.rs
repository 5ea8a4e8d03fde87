use vstd::prelude::*;

pub mod accounts;
pub mod address;
pub mod authority;
pub mod errors;
pub mod farm;
pub mod init;
pub mod mint;
pub mod shop;
pub mod escrow;
pub mod solana;

verus! {

use crate::address::Address;

/// The singleton configuration record. One exists per deployment; every
/// other operation reads it to learn the authority, the currency mint and
/// the four collection identities that drive the crop lifecycle.
#[derive(Debug)]
pub struct FarmsPda {
    /// Nonce of the authority's derived signing identity.
    pub bump: u8,
    /// The human authority that may mutate the configuration.
    pub authority_address: Address,
    /// Mint of the fungible currency.
    pub spl_mint_address: Address,
    /// Collection of assets in the seed stage.
    pub tomato_seed_collection_address: Address,
    /// Collection of assets in the sapling stage.
    pub tomato_sappling_collection_address: Address,
    /// Collection of assets in the ripe stage.
    pub ripe_tomato_collection_address: Address,
    /// Collection of purchasable field containers.
    pub field_collection_address: Address,
    /// Whether collection markers must be verified before they are trusted.
    /// The ledger distinguishes verified from unverified markers; these rules
    /// historically accepted either, so acceptance of unverified markers is
    /// an explicit configuration decision rather than a silent omission.
    pub require_verified_collections: bool,
}

#[verifier::ext_equal]
pub struct FarmsPdaV {
    pub bump: u8,
    pub authority_address: Seq<u8>,
    pub spl_mint_address: Seq<u8>,
    pub tomato_seed_collection_address: Seq<u8>,
    pub tomato_sappling_collection_address: Seq<u8>,
    pub ripe_tomato_collection_address: Seq<u8>,
    pub field_collection_address: Seq<u8>,
    pub require_verified_collections: bool,
}

impl View for FarmsPda {
    type V = FarmsPdaV;

    open spec fn view(&self) -> FarmsPdaV {
        FarmsPdaV {
            bump: self.bump,
            authority_address: self.authority_address@,
            spl_mint_address: self.spl_mint_address@,
            tomato_seed_collection_address: self.tomato_seed_collection_address@,
            tomato_sappling_collection_address: self.tomato_sappling_collection_address@,
            ripe_tomato_collection_address: self.ripe_tomato_collection_address@,
            field_collection_address: self.field_collection_address@,
            require_verified_collections: self.require_verified_collections,
        }
    }
}

impl FarmsPda {
    pub open spec fn wf(&self) -> bool {
        &&& self.authority_address.wf()
        &&& self.spl_mint_address.wf()
        &&& self.tomato_seed_collection_address.wf()
        &&& self.tomato_sappling_collection_address.wf()
        &&& self.ripe_tomato_collection_address.wf()
        &&& self.field_collection_address.wf()
    }
}

/// The four collection identities are pairwise distinct, so that an asset's
/// collection membership names at most one lifecycle stage.
pub open spec fn distinct_collections(pda: FarmsPdaV) -> bool {
    &&& pda.tomato_seed_collection_address != pda.tomato_sappling_collection_address
    &&& pda.tomato_seed_collection_address != pda.ripe_tomato_collection_address
    &&& pda.tomato_seed_collection_address != pda.field_collection_address
    &&& pda.tomato_sappling_collection_address != pda.ripe_tomato_collection_address
    &&& pda.tomato_sappling_collection_address != pda.field_collection_address
    &&& pda.ripe_tomato_collection_address != pda.field_collection_address
}

/// The lifecycle stage of an asset, derived from its collection membership.
/// It is never stored: external viewers that read collection membership and
/// these rules always see the same single source of truth.
#[derive(Clone, Copy, Debug, PartialEq, Eq, Structural)]
pub enum Stage {
    Seed,
    Sapling,
    Ripe,
    Field,
}

/// Classification of a collection identity against the configuration,
/// in the order the operations compare: seed, then sapling, then ripe,
/// then field; anything else belongs to no stage.
pub open spec fn stage_of(pda: FarmsPdaV, collection: Seq<u8>) -> Option<Stage> {
    if collection == pda.tomato_seed_collection_address {
        Some(Stage::Seed)
    } else if collection == pda.tomato_sappling_collection_address {
        Some(Stage::Sapling)
    } else if collection == pda.ripe_tomato_collection_address {
        Some(Stage::Ripe)
    } else if collection == pda.field_collection_address {
        Some(Stage::Field)
    } else {
        None
    }
}

/// Pure stage query: which lifecycle stage a collection identity names.
pub fn classify_stage(pda: &FarmsPda, collection: &Address) -> (r: Option<Stage>)
    ensures
        r == stage_of(pda@, collection@),
{
    if collection.eq_address(&pda.tomato_seed_collection_address) {
        Some(Stage::Seed)
    } else if collection.eq_address(&pda.tomato_sappling_collection_address) {
        Some(Stage::Sapling)
    } else if collection.eq_address(&pda.ripe_tomato_collection_address) {
        Some(Stage::Ripe)
    } else if collection.eq_address(&pda.field_collection_address) {
        Some(Stage::Field)
    } else {
        None
    }
}

} // verus!
