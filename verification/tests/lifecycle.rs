use anchor_lang::prelude::Pubkey;
use farmer_house::accounts::{AssetMetadata, CollectionRef, ServicePrograms, TokenAccount, TokenStandard};
use farmer_house::address::Address;
use farmer_house::authority::{derive_authority, derive_trifle_record_address, AuthorityContext};
use farmer_house::errors::FarmerHouseError;
use farmer_house::escrow::{
    EscrowConstraintModel, EscrowRecord, HeldToken, SlotBinding, SlotConstraint,
};
use farmer_house::farm::{harvest_crop, plant_seed, water};
use farmer_house::solana::{
    associated_token_id, farmer_house_id, instructions_sysvar_id, spl_token_id, token_metadata_id,
    trifle_id,
};
use farmer_house::{classify_stage, FarmsPda, Stage};

fn addr(tag: u8) -> Address {
    Address::new(vec![tag; 32])
}

fn test_pda(require_verified: bool) -> FarmsPda {
    FarmsPda {
        bump: 250,
        authority_address: addr(1),
        spl_mint_address: addr(2),
        tomato_seed_collection_address: addr(3),
        tomato_sappling_collection_address: addr(4),
        ripe_tomato_collection_address: addr(5),
        field_collection_address: addr(6),
        require_verified_collections: require_verified,
    }
}

fn expected_services() -> ServicePrograms {
    ServicePrograms {
        token_program: Address::new(spl_token_id()),
        associated_token_program: Address::new(associated_token_id()),
        token_metadata_program: Address::new(token_metadata_id()),
        trifle_program: Address::new(trifle_id()),
        farmer_house_program: Address::new(farmer_house_id()),
        instructions: Address::new(instructions_sysvar_id()),
    }
}

fn authority() -> AuthorityContext {
    derive_authority(&Address::new(farmer_house_id())).unwrap()
}

fn metadata(mint: &Address, collection: &Address, verified: bool) -> AssetMetadata {
    AssetMetadata {
        mint: mint.dup(),
        name: "Tomato Seed".to_string(),
        symbol: "TOMATO".to_string(),
        uri: "https://example.invalid/seed.json".to_string(),
        seller_fee_basis_points: 1,
        collection: Some(CollectionRef { key: collection.dup(), verified }),
        token_standard: Some(TokenStandard::NonFungible),
    }
}

fn holding(owner: &Address, mint: &Address, amount: u64) -> TokenAccount {
    TokenAccount {
        account_owner: Address::new(spl_token_id()),
        owner: owner.dup(),
        mint: mint.dup(),
        amount,
    }
}

fn seed_model(seed_collection: &Address) -> EscrowConstraintModel {
    let slots = ["a1", "a2", "a3", "b1", "b2", "b3"];
    let mut constraints: Vec<SlotConstraint> = Vec::new();
    for name in slots {
        constraints.push(SlotConstraint {
            name: name.to_string(),
            token_limit: 1,
            allowed_collection: seed_collection.dup(),
            transfer_effects: 1,
        });
    }
    EscrowConstraintModel {
        name: "fields".to_string(),
        schema_uri: "https://example.invalid/schema.json".to_string(),
        creator: addr(1),
        update_authority: authority().address,
        constraints,
    }
}

fn empty_trifle(field_mint: &Address) -> EscrowRecord {
    let (record_address, _) =
        derive_trifle_record_address(field_mint, &authority().address).unwrap();
    EscrowRecord { address: record_address, slots: Vec::new() }
}

#[test]
fn test_plant_seed_success() {
    let pda = test_pda(false);
    let services = expected_services();
    let model = seed_model(&addr(3));
    let seed_mint = addr(20);
    let field_mint = addr(21);
    let mut trifle = empty_trifle(&field_mint);
    let meta = metadata(&seed_mint, &addr(3), false);
    let mut src = holding(&addr(10), &seed_mint, 2);
    let slot = "a1".to_string();

    plant_seed(&pda, &services, &model, &mut trifle, &meta, &mut src, &slot).unwrap();

    assert_eq!(src.amount, 1);
    let held = trifle.first_held(&slot).unwrap();
    assert_eq!(held.amount, 1);
    assert!(held.mint.eq_address(&seed_mint));
}

#[test]
fn test_plant_seed_wrong_collection() {
    let pda = test_pda(false);
    let services = expected_services();
    let model = seed_model(&addr(3));
    let seed_mint = addr(20);
    let mut trifle = empty_trifle(&addr(21));
    // A sapling-collection asset is not a seed.
    let meta = metadata(&seed_mint, &addr(4), false);
    let mut src = holding(&addr(10), &seed_mint, 2);
    let r = plant_seed(&pda, &services, &model, &mut trifle, &meta, &mut src, &"a1".to_string());
    assert_eq!(r.unwrap_err(), FarmerHouseError::CollectionMismatch);
    assert_eq!(src.amount, 2);
}

#[test]
fn test_plant_seed_missing_collection() {
    let pda = test_pda(false);
    let services = expected_services();
    let model = seed_model(&addr(3));
    let seed_mint = addr(20);
    let mut trifle = empty_trifle(&addr(21));
    let mut meta = metadata(&seed_mint, &addr(3), false);
    meta.collection = None;
    let mut src = holding(&addr(10), &seed_mint, 2);
    let r = plant_seed(&pda, &services, &model, &mut trifle, &meta, &mut src, &"a1".to_string());
    assert_eq!(r.unwrap_err(), FarmerHouseError::CollectionMismatch);
}

#[test]
fn test_plant_seed_unverified_marker_rejected() {
    // With the verification demand switched on, an unverified marker is
    // refused outright.
    let pda = test_pda(true);
    let services = expected_services();
    let model = seed_model(&addr(3));
    let seed_mint = addr(20);
    let mut trifle = empty_trifle(&addr(21));
    let meta = metadata(&seed_mint, &addr(3), false);
    let mut src = holding(&addr(10), &seed_mint, 2);
    let r = plant_seed(&pda, &services, &model, &mut trifle, &meta, &mut src, &"a1".to_string());
    assert_eq!(r.unwrap_err(), FarmerHouseError::CollectionNotVerified);

    // A verified marker passes the same gate.
    let meta2 = metadata(&seed_mint, &addr(3), true);
    plant_seed(&pda, &services, &model, &mut trifle, &meta2, &mut src, &"a1".to_string()).unwrap();
}

#[test]
fn test_plant_seed_wrong_service() {
    let pda = test_pda(false);
    let mut services = expected_services();
    services.token_program = addr(9);
    let model = seed_model(&addr(3));
    let seed_mint = addr(20);
    let mut trifle = empty_trifle(&addr(21));
    let meta = metadata(&seed_mint, &addr(3), false);
    let mut src = holding(&addr(10), &seed_mint, 2);
    let r = plant_seed(&pda, &services, &model, &mut trifle, &meta, &mut src, &"a1".to_string());
    assert_eq!(r.unwrap_err(), FarmerHouseError::ProgramMismatch);
}

#[test]
fn test_plant_seed_insufficient_balance() {
    let pda = test_pda(false);
    let services = expected_services();
    let model = seed_model(&addr(3));
    let seed_mint = addr(20);
    let mut trifle = empty_trifle(&addr(21));
    let meta = metadata(&seed_mint, &addr(3), false);
    let mut src = holding(&addr(10), &seed_mint, 0);
    let r = plant_seed(&pda, &services, &model, &mut trifle, &meta, &mut src, &"a1".to_string());
    assert_eq!(r.unwrap_err(), FarmerHouseError::AmountMismatch);
}

#[test]
fn test_plant_seed_slot_full() {
    let pda = test_pda(false);
    let services = expected_services();
    let model = seed_model(&addr(3));
    let seed_mint = addr(20);
    let mut trifle = empty_trifle(&addr(21));
    let meta = metadata(&seed_mint, &addr(3), false);
    let mut src = holding(&addr(10), &seed_mint, 2);
    let slot = "b2".to_string();
    plant_seed(&pda, &services, &model, &mut trifle, &meta, &mut src, &slot).unwrap();
    let r = plant_seed(&pda, &services, &model, &mut trifle, &meta, &mut src, &slot);
    assert_eq!(r.unwrap_err(), FarmerHouseError::TrifleMismatch);
    assert_eq!(src.amount, 1);
}

#[test]
fn test_plant_seed_unknown_slot() {
    let pda = test_pda(false);
    let services = expected_services();
    let model = seed_model(&addr(3));
    let seed_mint = addr(20);
    let mut trifle = empty_trifle(&addr(21));
    let meta = metadata(&seed_mint, &addr(3), false);
    let mut src = holding(&addr(10), &seed_mint, 2);
    let r = plant_seed(&pda, &services, &model, &mut trifle, &meta, &mut src, &"z9".to_string());
    assert_eq!(r.unwrap_err(), FarmerHouseError::TrifleMismatch);
}

fn planted_trifle(field_mint: &Address, crop_mint: &Address, slot: &str) -> EscrowRecord {
    let mut trifle = empty_trifle(field_mint);
    trifle.slots.push(SlotBinding {
        name: slot.to_string(),
        tokens: vec![HeldToken { mint: crop_mint.dup(), amount: 1 }],
    });
    trifle
}

#[test]
fn test_water_seed_to_sapling() {
    let pda = test_pda(false);
    let services = expected_services();
    let auth = authority();
    let user = addr(10);
    let field_mint = addr(21);
    let crop_mint = addr(20);
    let field_holding = holding(&user, &field_mint, 1);
    let trifle = planted_trifle(&field_mint, &crop_mint, "a1");
    let mut meta = metadata(&crop_mint, &addr(3), false);

    water(
        &pda,
        &services,
        &auth,
        &user,
        &field_mint,
        &field_holding,
        Some(&trifle),
        &mut meta,
        &"a1".to_string(),
    )
    .unwrap();

    let marker = meta.collection.as_ref().unwrap();
    assert!(marker.key.eq_address(&addr(4)));
    assert!(!marker.verified);
    assert_eq!(meta.name, "Tomato Sapling");
    assert_eq!(meta.symbol, "TOMATO");
    assert_eq!(classify_stage(&pda, &marker.key), Some(Stage::Sapling));
}

#[test]
fn test_water_sapling_to_ripe() {
    let pda = test_pda(false);
    let services = expected_services();
    let auth = authority();
    let user = addr(10);
    let field_mint = addr(21);
    let crop_mint = addr(20);
    let field_holding = holding(&user, &field_mint, 1);
    let trifle = planted_trifle(&field_mint, &crop_mint, "a1");
    let mut meta = metadata(&crop_mint, &addr(4), false);

    water(
        &pda,
        &services,
        &auth,
        &user,
        &field_mint,
        &field_holding,
        Some(&trifle),
        &mut meta,
        &"a1".to_string(),
    )
    .unwrap();

    let marker = meta.collection.as_ref().unwrap();
    assert!(marker.key.eq_address(&addr(5)));
    assert_eq!(meta.name, "Ripe Tomato");
    assert_eq!(classify_stage(&pda, &marker.key), Some(Stage::Ripe));
}

#[test]
fn test_water_ripe_fails_crop_ready() {
    let pda = test_pda(false);
    let services = expected_services();
    let auth = authority();
    let user = addr(10);
    let field_mint = addr(21);
    let crop_mint = addr(20);
    let field_holding = holding(&user, &field_mint, 1);
    let trifle = planted_trifle(&field_mint, &crop_mint, "a1");
    let mut meta = metadata(&crop_mint, &addr(5), false);

    let r = water(
        &pda,
        &services,
        &auth,
        &user,
        &field_mint,
        &field_holding,
        Some(&trifle),
        &mut meta,
        &"a1".to_string(),
    );
    assert_eq!(r.unwrap_err(), FarmerHouseError::CropReady);
    // The metadata is untouched.
    assert!(meta.collection.as_ref().unwrap().key.eq_address(&addr(5)));
    assert_eq!(meta.name, "Tomato Seed");
}

#[test]
fn test_water_owner_mismatch() {
    let pda = test_pda(false);
    let services = expected_services();
    let auth = authority();
    let field_mint = addr(21);
    let crop_mint = addr(20);
    // The field container is held by someone other than the caller.
    let field_holding = holding(&addr(11), &field_mint, 1);
    let trifle = planted_trifle(&field_mint, &crop_mint, "a1");
    let mut meta = metadata(&crop_mint, &addr(3), false);

    let r = water(
        &pda,
        &services,
        &auth,
        &addr(10),
        &field_mint,
        &field_holding,
        Some(&trifle),
        &mut meta,
        &"a1".to_string(),
    );
    assert_eq!(r.unwrap_err(), FarmerHouseError::OwnerMismatch);
}

#[test]
fn test_water_mint_mismatch() {
    let pda = test_pda(false);
    let services = expected_services();
    let auth = authority();
    let user = addr(10);
    let field_mint = addr(21);
    let crop_mint = addr(20);
    // The held container is for a different mint.
    let field_holding = holding(&user, &addr(22), 1);
    let trifle = planted_trifle(&field_mint, &crop_mint, "a1");
    let mut meta = metadata(&crop_mint, &addr(3), false);

    let r = water(
        &pda,
        &services,
        &auth,
        &user,
        &field_mint,
        &field_holding,
        Some(&trifle),
        &mut meta,
        &"a1".to_string(),
    );
    assert_eq!(r.unwrap_err(), FarmerHouseError::MintMismatch);
}

#[test]
fn test_water_missing_custody_record() {
    let pda = test_pda(false);
    let services = expected_services();
    let auth = authority();
    let user = addr(10);
    let field_mint = addr(21);
    let crop_mint = addr(20);
    let field_holding = holding(&user, &field_mint, 1);
    let mut meta = metadata(&crop_mint, &addr(3), false);

    let r = water(
        &pda,
        &services,
        &auth,
        &user,
        &field_mint,
        &field_holding,
        None,
        &mut meta,
        &"a1".to_string(),
    );
    assert_eq!(r.unwrap_err(), FarmerHouseError::TrifleMismatch);
}

#[test]
fn test_water_wrong_record_address() {
    let pda = test_pda(false);
    let services = expected_services();
    let auth = authority();
    let user = addr(10);
    let field_mint = addr(21);
    let crop_mint = addr(20);
    let field_holding = holding(&user, &field_mint, 1);
    // A custody record at an address the derivation does not yield.
    let mut trifle = planted_trifle(&field_mint, &crop_mint, "a1");
    trifle.address = addr(99);
    let mut meta = metadata(&crop_mint, &addr(3), false);

    let r = water(
        &pda,
        &services,
        &auth,
        &user,
        &field_mint,
        &field_holding,
        Some(&trifle),
        &mut meta,
        &"a1".to_string(),
    );
    assert_eq!(r.unwrap_err(), FarmerHouseError::TrifleMismatch);
}

#[test]
fn test_water_empty_slot() {
    let pda = test_pda(false);
    let services = expected_services();
    let auth = authority();
    let user = addr(10);
    let field_mint = addr(21);
    let crop_mint = addr(20);
    let field_holding = holding(&user, &field_mint, 1);
    let trifle = empty_trifle(&field_mint);
    let mut meta = metadata(&crop_mint, &addr(3), false);

    let r = water(
        &pda,
        &services,
        &auth,
        &user,
        &field_mint,
        &field_holding,
        Some(&trifle),
        &mut meta,
        &"a1".to_string(),
    );
    assert_eq!(r.unwrap_err(), FarmerHouseError::TrifleMismatch);
}

#[test]
fn test_harvest_success() {
    let pda = test_pda(false);
    let services = expected_services();
    let auth = authority();
    let crop_mint = addr(20);
    let field_mint = addr(21);
    let mut trifle = planted_trifle(&field_mint, &crop_mint, "a1");
    let meta = metadata(&crop_mint, &addr(5), false);
    let mut dst = holding(&addr(10), &crop_mint, 0);

    harvest_crop(&pda, &services, &auth, &mut trifle, &meta, &mut dst, &"a1".to_string()).unwrap();

    assert_eq!(dst.amount, 1);
    assert!(trifle.first_held(&"a1".to_string()).is_none());
}

#[test]
fn test_harvest_not_ripe() {
    let pda = test_pda(false);
    let services = expected_services();
    let auth = authority();
    let crop_mint = addr(20);
    let field_mint = addr(21);
    let mut trifle = planted_trifle(&field_mint, &crop_mint, "a1");
    let meta = metadata(&crop_mint, &addr(4), false);
    let mut dst = holding(&addr(10), &crop_mint, 0);

    let r = harvest_crop(&pda, &services, &auth, &mut trifle, &meta, &mut dst, &"a1".to_string());
    assert_eq!(r.unwrap_err(), FarmerHouseError::CollectionMismatch);
    assert_eq!(dst.amount, 0);
    assert_eq!(trifle.first_held(&"a1".to_string()).unwrap().amount, 1);
}

#[test]
fn test_harvest_empty_slot() {
    let pda = test_pda(false);
    let services = expected_services();
    let auth = authority();
    let crop_mint = addr(20);
    let field_mint = addr(21);
    let mut trifle = empty_trifle(&field_mint);
    let meta = metadata(&crop_mint, &addr(5), false);
    let mut dst = holding(&addr(10), &crop_mint, 0);

    let r = harvest_crop(&pda, &services, &auth, &mut trifle, &meta, &mut dst, &"a1".to_string());
    assert_eq!(r.unwrap_err(), FarmerHouseError::TrifleMismatch);
}

#[test]
fn test_custody_round_trip() {
    // The custody legs of planting and harvesting, in isolation: a unit
    // moved into an empty slot and back out returns to exactly the prior
    // owner and balance, and leaves the slot empty.
    let seed_collection = addr(3);
    let model = seed_model(&seed_collection);
    let crop_mint = addr(20);
    let mut trifle = empty_trifle(&addr(21));
    let mut account = holding(&addr(10), &crop_mint, 5);
    let slot = "a3".to_string();

    trifle
        .transfer_in(&model, &slot, &crop_mint, &seed_collection, &mut account, 1)
        .unwrap();
    assert_eq!(account.amount, 4);
    assert_eq!(trifle.first_held(&slot).unwrap().amount, 1);

    trifle.transfer_out(&slot, &crop_mint, &mut account, 1).unwrap();
    assert_eq!(account.amount, 5);
    assert!(account.owner.eq_address(&addr(10)));
    assert!(trifle.first_held(&slot).is_none());
}

#[test]
fn test_classify_stage() {
    let pda = test_pda(false);
    assert_eq!(classify_stage(&pda, &addr(3)), Some(Stage::Seed));
    assert_eq!(classify_stage(&pda, &addr(4)), Some(Stage::Sapling));
    assert_eq!(classify_stage(&pda, &addr(5)), Some(Stage::Ripe));
    assert_eq!(classify_stage(&pda, &addr(6)), Some(Stage::Field));
    assert_eq!(classify_stage(&pda, &addr(77)), None);
}

#[test]
fn test_derive_trifle_record_matches_ledger() {
    let field_mint = addr(21);
    let auth = authority();
    let (record, bump) = derive_trifle_record_address(&field_mint, &auth.address).unwrap();
    let mint_key = Pubkey::new_from_array(<[u8; 32]>::try_from(field_mint.bytes().as_slice()).unwrap());
    let auth_key = Pubkey::new_from_array(<[u8; 32]>::try_from(auth.address.bytes().as_slice()).unwrap());
    let (expected, expected_bump) = Pubkey::find_program_address(
        &[
            mpl_trifle::state::TRIFLE_SEED.as_bytes(),
            mint_key.as_ref(),
            auth_key.as_ref(),
        ],
        &mpl_trifle::id(),
    );
    assert_eq!(record.bytes().as_slice(), expected.to_bytes().as_slice());
    assert_eq!(bump, expected_bump);
}
