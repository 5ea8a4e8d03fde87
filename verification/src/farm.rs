use vstd::prelude::*;

verus! {

use crate::accounts::{
    read_collection, spec_read_collection, AssetMetadata, AssetMetadataV, CollectionRef,
    CollectionRefV, ServicePrograms, ServiceProgramsV, TokenAccount, TokenAccountV,
};
use crate::address::Address;
use crate::authority::{derive_trifle_record_address, trifle_record_matches, AuthorityContext, AuthorityContextV};
use crate::errors::FarmerHouseError;
use crate::escrow::{
    lemma_token_index_props, lemma_tokens_total_nonneg, lemma_tokens_total_push,
    lemma_tokens_total_remove, slot_total, token_index, transfer_in_spec, transfer_out_spec,
    EscrowConstraintModel, EscrowConstraintModelV, EscrowRecord, EscrowRecordV, HeldTokenV,
};
use crate::solana::{
    associated_token_id, farmer_house_id, spec_associated_token_id, spec_farmer_house_id,
    spec_spl_token_id, spec_token_metadata_id, spec_trifle_id, spl_token_id, token_metadata_id,
    trifle_id,
};
use crate::{distinct_collections, stage_of, FarmsPda, FarmsPdaV, Stage};

// The lifecycle engine: planting moves a seed asset into escrow, watering
// advances an asset's stage by rewriting its collection membership, and
// harvesting releases the custodied unit back to the caller.

/// The collaborating services that the custody-moving operations insist on:
/// the currency service, the holding-account service, the metadata service,
/// the custody service, and these rules' own identity.
pub open spec fn farm_services_ok(s: ServiceProgramsV) -> bool {
    &&& s.token_program == spec_spl_token_id()
    &&& s.associated_token_program == spec_associated_token_id()
    &&& s.token_metadata_program == spec_token_metadata_id()
    &&& s.trifle_program == spec_trifle_id()
    &&& s.farmer_house_program == spec_farmer_house_id()
}

fn check_farm_services(s: &ServicePrograms) -> (r: bool)
    ensures
        r == farm_services_ok(s@),
{
    s.token_program.eq_bytes(&spl_token_id()) && s.associated_token_program.eq_bytes(
        &associated_token_id(),
    ) && s.token_metadata_program.eq_bytes(&token_metadata_id()) && s.trifle_program.eq_bytes(
        &trifle_id(),
    ) && s.farmer_house_program.eq_bytes(&farmer_house_id())
}

/// What planting does. With the expected collaborators and a seed-collection
/// asset, it is a custody transfer of one unit into the named slot; anything
/// else fails with the first failing check's error, and nothing changes.
pub open spec fn plant_seed_spec(
    pda: FarmsPdaV,
    services: ServiceProgramsV,
    model: EscrowConstraintModelV,
    trifle_account: EscrowRecordV,
    attribute_metadata: AssetMetadataV,
    attribute_src: TokenAccountV,
    crop_slot: Seq<char>,
) -> Result<(EscrowRecordV, TokenAccountV), FarmerHouseError> {
    if !farm_services_ok(services) {
        Err(FarmerHouseError::ProgramMismatch)
    } else {
        match spec_read_collection(pda, attribute_metadata) {
            Err(e) => Err(e),
            Ok(c) => if pda.tomato_seed_collection_address != c.key {
                Err(FarmerHouseError::CollectionMismatch)
            } else {
                transfer_in_spec(
                    trifle_account,
                    model,
                    crop_slot,
                    attribute_metadata.mint,
                    c.key,
                    attribute_src,
                    1,
                )
            },
        }
    }
}

/// Plant a seed: transfer one unit of the asset from the caller's holding
/// into the named escrow slot. The collaborating services must be the
/// expected ones, the asset's collection must be the seed collection, and
/// the custody transfer must satisfy the escrow policy.
pub fn plant_seed(
    farms_pda: &FarmsPda,
    services: &ServicePrograms,
    escrow_constraint_model: &EscrowConstraintModel,
    trifle_account: &mut EscrowRecord,
    attribute_metadata: &AssetMetadata,
    attribute_src_token_account: &mut TokenAccount,
    crop_slot: &String,
) -> (r: Result<(), FarmerHouseError>)
    requires
        old(trifle_account).wf(),
        escrow_constraint_model.wf(),
    ensures
        final(trifle_account).wf(),
        match r {
            Ok(()) => plant_seed_spec(
                farms_pda@,
                services@,
                escrow_constraint_model@,
                old(trifle_account)@,
                attribute_metadata@,
                old(attribute_src_token_account)@,
                crop_slot@,
            ) == Ok::<(EscrowRecordV, TokenAccountV), FarmerHouseError>(
                (final(trifle_account)@, final(attribute_src_token_account)@),
            ),
            Err(e) => {
                &&& plant_seed_spec(
                    farms_pda@,
                    services@,
                    escrow_constraint_model@,
                    old(trifle_account)@,
                    attribute_metadata@,
                    old(attribute_src_token_account)@,
                    crop_slot@,
                ) == Err::<(EscrowRecordV, TokenAccountV), FarmerHouseError>(e)
                &&& final(trifle_account)@ == old(trifle_account)@
                &&& final(attribute_src_token_account)@ == old(attribute_src_token_account)@
            },
        },
{
    if !check_farm_services(services) {
        return Err(FarmerHouseError::ProgramMismatch);
    }
    let collection = match read_collection(farms_pda, attribute_metadata) {
        Ok(c) => c,
        Err(e) => {
            return Err(e);
        },
    };
    if !farms_pda.tomato_seed_collection_address.eq_address(&collection.key) {
        return Err(FarmerHouseError::CollectionMismatch);
    }
    trifle_account.transfer_in(
        escrow_constraint_model,
        crop_slot,
        &attribute_metadata.mint,
        &collection.key,
        attribute_src_token_account,
        1,
    )
}

/// The metadata of a crop advanced to the next stage: new display data, a
/// new unverified collection marker, the same mint and token standard.
pub open spec fn advanced_metadata(
    meta: AssetMetadataV,
    name: Seq<char>,
    collection: Seq<u8>,
) -> AssetMetadataV {
    AssetMetadataV {
        name,
        symbol: "TOMATO"@,
        uri: "https://fossil-test.fra1.digitaloceanspaces.com/caveman-test-metadata.json"@,
        seller_fee_basis_points: 1,
        collection: Some(CollectionRefV { key: collection, verified: false }),
        ..meta
    }
}

/// The view of an optional custody record.
pub open spec fn opt_escrow_view(t: Option<&EscrowRecord>) -> Option<EscrowRecordV> {
    match t {
        Some(e) => Some(e@),
        None => None,
    }
}

/// What watering does: a pure stage advance. An asset already ripe is
/// refused; the caller must hold the field container whose custody record is
/// the derived one and whose named slot holds exactly one unit; then a seed
/// becomes a sapling and a sapling becomes ripe, by rewriting the asset's
/// collection membership under the authority's signature. Custody does not
/// move.
pub open spec fn water_spec(
    pda: FarmsPdaV,
    services: ServiceProgramsV,
    farm_authority: AuthorityContextV,
    user_account: Seq<u8>,
    field_mint: Seq<u8>,
    field_associated_token: TokenAccountV,
    trifle_account: Option<EscrowRecordV>,
    crop_metadata: AssetMetadataV,
    crop_slot: Seq<char>,
) -> Result<AssetMetadataV, FarmerHouseError> {
    match spec_read_collection(pda, crop_metadata) {
        Err(e) => Err(e),
        Ok(c) => if c.key == pda.ripe_tomato_collection_address {
            Err(FarmerHouseError::CropReady)
        } else if services.token_metadata_program != spec_token_metadata_id() {
            Err(FarmerHouseError::ProgramMismatch)
        } else if field_associated_token.mint != field_mint {
            Err(FarmerHouseError::MintMismatch)
        } else if field_associated_token.owner != user_account {
            Err(FarmerHouseError::OwnerMismatch)
        } else {
            match trifle_account {
                None => Err(FarmerHouseError::TrifleMismatch),
                Some(t) => if !trifle_record_matches(t.address, field_mint, farm_authority.address) {
                    Err(FarmerHouseError::TrifleMismatch)
                } else if !(t.slots.dom().contains(crop_slot) && t.slots[crop_slot].len() > 0
                    && t.slots[crop_slot][0].amount == 1) {
                    Err(FarmerHouseError::TrifleMismatch)
                } else if c.key == pda.tomato_seed_collection_address {
                    Ok(
                        advanced_metadata(
                            crop_metadata,
                            "Tomato Sapling"@,
                            pda.tomato_sappling_collection_address,
                        ),
                    )
                } else if c.key == pda.tomato_sappling_collection_address {
                    Ok(
                        advanced_metadata(
                            crop_metadata,
                            "Ripe Tomato"@,
                            pda.ripe_tomato_collection_address,
                        ),
                    )
                } else {
                    Err(FarmerHouseError::CollectionMismatch)
                },
            }
        },
    }
}

/// Water a crop: advance its lifecycle stage by one step, per `water_spec`.
/// The asset's own metadata is rewritten; no custody moves. The authority
/// capability authorizes the rewrite.
pub fn water(
    farms_pda: &FarmsPda,
    services: &ServicePrograms,
    farm_authority: &AuthorityContext,
    user_account: &Address,
    field_mint: &Address,
    field_associated_token: &TokenAccount,
    trifle_account: Option<&EscrowRecord>,
    crop_metadata: &mut AssetMetadata,
    crop_slot: &String,
) -> (r: Result<(), FarmerHouseError>)
    requires
        trifle_account matches Some(t) ==> t.wf(),
    ensures
        match r {
            Ok(()) => water_spec(
                farms_pda@,
                services@,
                farm_authority@,
                user_account@,
                field_mint@,
                field_associated_token@,
                opt_escrow_view(trifle_account),
                old(crop_metadata)@,
                crop_slot@,
            ) == Ok::<AssetMetadataV, FarmerHouseError>(final(crop_metadata)@),
            Err(e) => {
                &&& water_spec(
                    farms_pda@,
                    services@,
                    farm_authority@,
                    user_account@,
                    field_mint@,
                    field_associated_token@,
                    opt_escrow_view(trifle_account),
                    old(crop_metadata)@,
                    crop_slot@,
                ) == Err::<AssetMetadataV, FarmerHouseError>(e)
                &&& final(crop_metadata)@ == old(crop_metadata)@
            },
        },
{
    let collection_key = match read_collection(farms_pda, crop_metadata) {
        Ok(c) => c.key.dup(),
        Err(e) => {
            return Err(e);
        },
    };
    if collection_key.eq_address(&farms_pda.ripe_tomato_collection_address) {
        return Err(FarmerHouseError::CropReady);
    }
    if !services.token_metadata_program.eq_bytes(&token_metadata_id()) {
        return Err(FarmerHouseError::ProgramMismatch);
    }
    if !field_associated_token.mint.eq_address(field_mint) {
        return Err(FarmerHouseError::MintMismatch);
    }
    if !field_associated_token.owner.eq_address(user_account) {
        return Err(FarmerHouseError::OwnerMismatch);
    }
    let trifle = match trifle_account {
        Some(t) => t,
        None => {
            return Err(FarmerHouseError::TrifleMismatch);
        },
    };
    let derived = derive_trifle_record_address(field_mint, &farm_authority.address);
    let record_ok = match &derived {
        Some(p) => trifle.address.eq_address(&p.0),
        None => false,
    };
    if !record_ok {
        return Err(FarmerHouseError::TrifleMismatch);
    }
    let single_unit = match trifle.first_held(crop_slot) {
        Some(t) => t.amount == 1,
        None => false,
    };
    if !single_unit {
        return Err(FarmerHouseError::TrifleMismatch);
    }
    if collection_key.eq_address(&farms_pda.tomato_seed_collection_address) {
        crop_metadata.name = "Tomato Sapling".to_owned();
        crop_metadata.symbol = "TOMATO".to_owned();
        crop_metadata.uri =
            "https://fossil-test.fra1.digitaloceanspaces.com/caveman-test-metadata.json".to_owned();
        crop_metadata.seller_fee_basis_points = 1;
        crop_metadata.collection = Some(
            CollectionRef {
                key: farms_pda.tomato_sappling_collection_address.dup(),
                verified: false,
            },
        );
        Ok(())
    } else if collection_key.eq_address(&farms_pda.tomato_sappling_collection_address) {
        crop_metadata.name = "Ripe Tomato".to_owned();
        crop_metadata.symbol = "TOMATO".to_owned();
        crop_metadata.uri =
            "https://fossil-test.fra1.digitaloceanspaces.com/caveman-test-metadata.json".to_owned();
        crop_metadata.seller_fee_basis_points = 1;
        crop_metadata.collection = Some(
            CollectionRef { key: farms_pda.ripe_tomato_collection_address.dup(), verified: false },
        );
        Ok(())
    } else {
        Err(FarmerHouseError::CollectionMismatch)
    }
}

/// What harvesting does. With the expected collaborators and a
/// ripe-collection asset, it is a custody transfer of one unit out of the
/// named slot back to the caller; anything else fails with the first failing
/// check's error, and nothing changes.
pub open spec fn harvest_crop_spec(
    pda: FarmsPdaV,
    services: ServiceProgramsV,
    trifle_account: EscrowRecordV,
    attribute_metadata: AssetMetadataV,
    attribute_dst: TokenAccountV,
    crop_slot: Seq<char>,
) -> Result<(EscrowRecordV, TokenAccountV), FarmerHouseError> {
    if !farm_services_ok(services) {
        Err(FarmerHouseError::ProgramMismatch)
    } else {
        match spec_read_collection(pda, attribute_metadata) {
            Err(e) => Err(e),
            Ok(c) => if pda.ripe_tomato_collection_address != c.key {
                Err(FarmerHouseError::CollectionMismatch)
            } else {
                transfer_out_spec(
                    trifle_account,
                    crop_slot,
                    attribute_metadata.mint,
                    attribute_dst,
                    1,
                )
            },
        }
    }
}

/// Harvest a ripe crop: transfer the custodied unit out of the named escrow
/// slot back into the caller's holding, under the authority's signature. The
/// asset's collection must be the ripe collection.
pub fn harvest_crop(
    farms_pda: &FarmsPda,
    services: &ServicePrograms,
    farm_authority: &AuthorityContext,
    trifle_account: &mut EscrowRecord,
    attribute_metadata: &AssetMetadata,
    attribute_dst_token_account: &mut TokenAccount,
    crop_slot: &String,
) -> (r: Result<(), FarmerHouseError>)
    requires
        old(trifle_account).wf(),
        old(attribute_dst_token_account)@.amount < u64::MAX,
    ensures
        final(trifle_account).wf(),
        match r {
            Ok(()) => harvest_crop_spec(
                farms_pda@,
                services@,
                old(trifle_account)@,
                attribute_metadata@,
                old(attribute_dst_token_account)@,
                crop_slot@,
            ) == Ok::<(EscrowRecordV, TokenAccountV), FarmerHouseError>(
                (final(trifle_account)@, final(attribute_dst_token_account)@),
            ),
            Err(e) => {
                &&& harvest_crop_spec(
                    farms_pda@,
                    services@,
                    old(trifle_account)@,
                    attribute_metadata@,
                    old(attribute_dst_token_account)@,
                    crop_slot@,
                ) == Err::<(EscrowRecordV, TokenAccountV), FarmerHouseError>(e)
                &&& final(trifle_account)@ == old(trifle_account)@
                &&& final(attribute_dst_token_account)@ == old(attribute_dst_token_account)@
            },
        },
{
    if !check_farm_services(services) {
        return Err(FarmerHouseError::ProgramMismatch);
    }
    let collection = match read_collection(farms_pda, attribute_metadata) {
        Ok(c) => c,
        Err(e) => {
            return Err(e);
        },
    };
    if !farms_pda.ripe_tomato_collection_address.eq_address(&collection.key) {
        return Err(FarmerHouseError::CollectionMismatch);
    }
    trifle_account.transfer_out(
        crop_slot,
        &attribute_metadata.mint,
        attribute_dst_token_account,
        1,
    )
}

/// Law: a successful planting leaves the escrow slot holding exactly one
/// unit of the asset's mint, and debits the caller's holding by exactly one,
/// under the single-unit slot policy these rules register.
pub proof fn lemma_plant_seed_custody(
    pda: FarmsPdaV,
    services: ServiceProgramsV,
    model: EscrowConstraintModelV,
    trifle_account: EscrowRecordV,
    attribute_metadata: AssetMetadataV,
    attribute_src: TokenAccountV,
    crop_slot: Seq<char>,
)
    requires
        model.constraints.dom().contains(crop_slot) ==> model.constraints[crop_slot].token_limit
            == 1,
        plant_seed_spec(
            pda,
            services,
            model,
            trifle_account,
            attribute_metadata,
            attribute_src,
            crop_slot,
        ) is Ok,
    ensures
        ({
            let (e2, src2) = plant_seed_spec(
                pda,
                services,
                model,
                trifle_account,
                attribute_metadata,
                attribute_src,
                crop_slot,
            )->Ok_0;
            &&& slot_total(e2, crop_slot) == 1
            &&& e2.slots[crop_slot].last() == (HeldTokenV { mint: attribute_metadata.mint, amount: 1 })
            &&& src2.amount == attribute_src.amount - 1
            &&& src2.mint == attribute_metadata.mint
        }),
{
    let held = if trifle_account.slots.dom().contains(crop_slot) {
        trifle_account.slots[crop_slot]
    } else {
        Seq::<HeldTokenV>::empty()
    };
    lemma_tokens_total_nonneg(held);
    lemma_tokens_total_push(held, HeldTokenV { mint: attribute_metadata.mint, amount: 1 });
}

/// Law: watering advances the stage by exactly one step. For an asset whose
/// collection is the seed collection, a successful watering re-binds it to
/// the sapling collection; for the sapling collection, to the ripe
/// collection; and for an asset already in the ripe collection, watering
/// always fails as already ripe.
pub proof fn lemma_water_stages(
    pda: FarmsPdaV,
    services: ServiceProgramsV,
    farm_authority: AuthorityContextV,
    user_account: Seq<u8>,
    field_mint: Seq<u8>,
    field_associated_token: TokenAccountV,
    trifle_account: Option<EscrowRecordV>,
    crop_metadata: AssetMetadataV,
    crop_slot: Seq<char>,
)
    requires
        distinct_collections(pda),
        spec_read_collection(pda, crop_metadata) is Ok,
    ensures
        ({
            let c = spec_read_collection(pda, crop_metadata)->Ok_0;
            let w = water_spec(
                pda,
                services,
                farm_authority,
                user_account,
                field_mint,
                field_associated_token,
                trifle_account,
                crop_metadata,
                crop_slot,
            );
            &&& stage_of(pda, c.key) == Some(Stage::Ripe) ==> w == Err::<
                AssetMetadataV,
                FarmerHouseError,
            >(FarmerHouseError::CropReady)
            &&& w is Ok ==> (stage_of(pda, c.key) == Some(Stage::Seed) || stage_of(pda, c.key)
                == Some(Stage::Sapling))
            &&& w is Ok && stage_of(pda, c.key) == Some(Stage::Seed) ==> {
                &&& w->Ok_0.collection == Some(
                    CollectionRefV {
                        key: pda.tomato_sappling_collection_address,
                        verified: false,
                    },
                )
                &&& stage_of(pda, w->Ok_0.collection->0.key) == Some(Stage::Sapling)
            }
            &&& w is Ok && stage_of(pda, c.key) == Some(Stage::Sapling) ==> {
                &&& w->Ok_0.collection == Some(
                    CollectionRefV { key: pda.ripe_tomato_collection_address, verified: false },
                )
                &&& stage_of(pda, w->Ok_0.collection->0.key) == Some(Stage::Ripe)
            }
        }),
{
}

/// Law: harvesting never succeeds unless the asset's collection is the ripe
/// collection; and under the single-unit custody discipline, a successful
/// harvest returns the held unit to the caller and leaves the slot empty.
pub proof fn lemma_harvest_crop_custody(
    pda: FarmsPdaV,
    services: ServiceProgramsV,
    trifle_account: EscrowRecordV,
    attribute_metadata: AssetMetadataV,
    attribute_dst: TokenAccountV,
    crop_slot: Seq<char>,
)
    requires
        slot_total(trifle_account, crop_slot) <= 1,
        attribute_dst.amount < u64::MAX,
        harvest_crop_spec(
            pda,
            services,
            trifle_account,
            attribute_metadata,
            attribute_dst,
            crop_slot,
        ) is Ok,
    ensures
        spec_read_collection(pda, attribute_metadata) matches Ok(c) && c.key
            == pda.ripe_tomato_collection_address,
        ({
            let (e2, dst2) = harvest_crop_spec(
                pda,
                services,
                trifle_account,
                attribute_metadata,
                attribute_dst,
                crop_slot,
            )->Ok_0;
            &&& slot_total(e2, crop_slot) == 0
            &&& dst2.amount == attribute_dst.amount + 1
        }),
{
    let held = trifle_account.slots[crop_slot];
    let ti = token_index(held, attribute_metadata.mint);
    lemma_token_index_props(held, attribute_metadata.mint);
    lemma_tokens_total_remove(held, ti);
    lemma_tokens_total_nonneg(held.remove(ti));
}

} // verus!
