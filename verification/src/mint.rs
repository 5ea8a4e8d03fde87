use vstd::prelude::*;

verus! {

use crate::accounts::{
    AssetMetadata, AssetMetadataV, CollectionRef, CollectionRefV, TokenAccount, TokenAccountV,
    TokenStandard,
};
use crate::address::Address;
use crate::authority::AuthorityContext;
use crate::solana::{spec_spl_token_id, spl_token_id};
use crate::FarmsPda;

// Minting: the creation of one new non-fungible asset under the authority's
// signature. The fresh mint identity is supplied by the caller (it is a new
// signing key); the payer receives the single unit, and the asset's metadata
// is laid out with an unverified marker for the given collection.

/// The single-unit holding a mint leaves with the payer.
pub open spec fn minted_holding(payer: Seq<u8>, mint_account: Seq<u8>) -> TokenAccountV {
    TokenAccountV {
        account_owner: spec_spl_token_id(),
        owner: payer,
        mint: mint_account,
        amount: 1,
    }
}

/// The metadata record a mint lays out: the given display data, one basis
/// point of seller fee, an unverified marker for the given collection, and
/// the non-fungible standard that the master edition confers.
pub open spec fn minted_metadata(
    mint_account: Seq<u8>,
    collection_mint: Seq<u8>,
    metadata_title: Seq<char>,
    metadata_symbol: Seq<char>,
    metadata_uri: Seq<char>,
) -> AssetMetadataV {
    AssetMetadataV {
        mint: mint_account,
        name: metadata_title,
        symbol: metadata_symbol,
        uri: metadata_uri,
        seller_fee_basis_points: 1,
        collection: Some(CollectionRefV { key: collection_mint, verified: false }),
        token_standard: Some(TokenStandard::NonFungible),
    }
}

/// Mint one new asset: a single unit held by the payer, with metadata bound
/// unverified to the given collection. The authority capability signs the
/// issuance.
pub fn mint(
    farms_pda: &FarmsPda,
    farm_authority: &AuthorityContext,
    payer: &Address,
    mint_account: &Address,
    collection_mint: &Address,
    metadata_title: String,
    metadata_symbol: String,
    metadata_uri: String,
) -> (r: (TokenAccount, AssetMetadata))
    ensures
        r.0@ == minted_holding(payer@, mint_account@),
        r.1@ == minted_metadata(
            mint_account@,
            collection_mint@,
            metadata_title@,
            metadata_symbol@,
            metadata_uri@,
        ),
{
    let holding = TokenAccount {
        account_owner: Address::new(spl_token_id()),
        owner: payer.dup(),
        mint: mint_account.dup(),
        amount: 1,
    };
    let metadata = AssetMetadata {
        mint: mint_account.dup(),
        name: metadata_title,
        symbol: metadata_symbol,
        uri: metadata_uri,
        seller_fee_basis_points: 1,
        collection: Some(CollectionRef { key: collection_mint.dup(), verified: false }),
        token_standard: Some(TokenStandard::NonFungible),
    };
    (holding, metadata)
}

} // verus!
