use std::str::FromStr;

use anchor_lang::prelude::Pubkey;
use farmer_house::address::Address;
use farmer_house::authority::derive_authority;
use farmer_house::errors::FarmerHouseError;
use farmer_house::init::{init_constraint_model, init_farms_pda, ConfigRegistry};
use farmer_house::solana::{
    associated_token_id, farmer_house_id, instructions_sysvar_id, spl_token_id, token_metadata_id,
    trifle_id,
};
use farmer_house::FarmsPda;

fn addr(tag: u8) -> Address {
    Address::new(vec![tag; 32])
}

fn program_address() -> Address {
    Address::new(farmer_house_id())
}

fn test_pda() -> FarmsPda {
    FarmsPda {
        bump: 250,
        authority_address: addr(1),
        spl_mint_address: addr(2),
        tomato_seed_collection_address: addr(3),
        tomato_sappling_collection_address: addr(4),
        ripe_tomato_collection_address: addr(5),
        field_collection_address: addr(6),
        require_verified_collections: false,
    }
}

#[test]
fn test_program_id_constants() {
    let cases: Vec<(Vec<u8>, &str)> = vec![
        (spl_token_id(), "TokenkegQfeZyiNwAJbNbGKPFXCWuBvf9Ss623VQ5DA"),
        (associated_token_id(), "ATokenGPvbdGVxr1b2hvZbsiqW5xWH25efTNsLJA8knL"),
        (token_metadata_id(), "metaqbxxUerdq28cj1RbAWkYQm3ybzjb6a8bt518x1s"),
        (trifle_id(), "trifMWutwBxkSuatmpPVnEe7NoE3BJKgjVi8sSyoXWX"),
        (instructions_sysvar_id(), "Sysvar1nstructions1111111111111111111111111"),
        (farmer_house_id(), "Fg6PaFpoGXkYsidMpWTK6W2BeZ7FEfcYkg476zPFsLnS"),
    ];
    for (bytes, text) in cases {
        let expected = Pubkey::from_str(text).unwrap();
        assert_eq!(bytes, expected.to_bytes().to_vec());
    }
}

#[test]
fn test_derive_authority_matches_ledger() {
    let program = program_address();
    let derived = derive_authority(&program).unwrap();
    let program_key = Pubkey::new_from_array(<[u8; 32]>::try_from(program.bytes().as_slice()).unwrap());
    let (expected, bump) = Pubkey::find_program_address(
        &[b"farmer-house-farms", program_key.as_ref()],
        &program_key,
    );
    assert_eq!(derived.address.bytes().as_slice(), expected.to_bytes().as_slice());
    assert_eq!(derived.bump, bump);
    // A second derivation gives the same identity.
    let again = derive_authority(&program).unwrap();
    assert!(again.address.eq_address(&derived.address));
    assert_eq!(again.bump, derived.bump);
    // The derived identity is not the input handed back.
    assert!(!derived.address.eq_address(&program));
}

#[test]
fn test_init_farms_pda_success() {
    let program = program_address();
    let auth = derive_authority(&program).unwrap();
    let r = init_farms_pda(
        &program,
        &addr(1),
        true,
        &addr(2),
        addr(3),
        addr(4),
        addr(5),
        addr(6),
        false,
    );
    let (pda, treasury) = r.unwrap();
    assert_eq!(pda.bump, auth.bump);
    assert!(pda.authority_address.eq_address(&addr(1)));
    assert!(pda.spl_mint_address.eq_address(&addr(2)));
    assert!(pda.tomato_seed_collection_address.eq_address(&addr(3)));
    assert!(pda.tomato_sappling_collection_address.eq_address(&addr(4)));
    assert!(pda.ripe_tomato_collection_address.eq_address(&addr(5)));
    assert!(pda.field_collection_address.eq_address(&addr(6)));
    assert_eq!(treasury.amount, 0);
    assert!(treasury.owner.eq_address(&auth.address));
    assert!(treasury.mint.eq_address(&addr(2)));
    assert_eq!(treasury.account_owner.bytes().clone(), spl_token_id());
}

#[test]
fn test_init_farms_pda_unsigned() {
    let program = program_address();
    let r = init_farms_pda(
        &program,
        &addr(1),
        false,
        &addr(2),
        addr(3),
        addr(4),
        addr(5),
        addr(6),
        false,
    );
    assert_eq!(r.unwrap_err(), FarmerHouseError::MissingRequiredSignature);
}

#[test]
fn test_config_registry_install_once() {
    let mut registry = ConfigRegistry::new();
    assert!(!registry.is_initialized());
    assert!(registry.install(test_pda()));
    assert!(registry.is_initialized());
    let mut second = test_pda();
    second.bump = 7;
    assert!(!registry.install(second));
    assert_eq!(registry.config().unwrap().bump, 250);
}

#[test]
fn test_init_constraint_model_success() {
    let program = program_address();
    let auth = derive_authority(&program).unwrap();
    let pda = test_pda();
    let model = init_constraint_model(
        &pda,
        &auth,
        &addr(1),
        true,
        &Address::new(instructions_sysvar_id()),
        &addr(3),
        "fields".to_string(),
        "https://example.invalid/schema.json".to_string(),
    )
    .unwrap();
    assert_eq!(model.name, "fields");
    assert_eq!(model.constraints.len(), 6);
    let names: Vec<&str> = model.constraints.iter().map(|c| c.name.as_str()).collect();
    assert_eq!(names, vec!["a1", "a2", "a3", "b1", "b2", "b3"]);
    for c in &model.constraints {
        assert_eq!(c.token_limit, 1);
        assert!(c.allowed_collection.eq_address(&addr(3)));
        assert_eq!(c.transfer_effects, 1);
    }
    assert!(model.creator.eq_address(&addr(1)));
    assert!(model.update_authority.eq_address(&auth.address));
}

#[test]
fn test_init_constraint_model_unsigned() {
    let program = program_address();
    let auth = derive_authority(&program).unwrap();
    let pda = test_pda();
    let r = init_constraint_model(
        &pda,
        &auth,
        &addr(1),
        false,
        &Address::new(instructions_sysvar_id()),
        &addr(3),
        "fields".to_string(),
        "uri".to_string(),
    );
    assert_eq!(r.unwrap_err(), FarmerHouseError::MissingRequiredSignature);
}

#[test]
fn test_init_constraint_model_wrong_authority() {
    let program = program_address();
    let auth = derive_authority(&program).unwrap();
    let pda = test_pda();
    let r = init_constraint_model(
        &pda,
        &auth,
        &addr(9),
        true,
        &Address::new(instructions_sysvar_id()),
        &addr(3),
        "fields".to_string(),
        "uri".to_string(),
    );
    assert_eq!(r.unwrap_err(), FarmerHouseError::AuthorityMismatch);
}

#[test]
fn test_init_constraint_model_bad_instructions() {
    let program = program_address();
    let auth = derive_authority(&program).unwrap();
    let pda = test_pda();
    let r = init_constraint_model(
        &pda,
        &auth,
        &addr(1),
        true,
        &addr(8),
        &addr(3),
        "fields".to_string(),
        "uri".to_string(),
    );
    assert_eq!(r.unwrap_err(), FarmerHouseError::ProgramMismatch);
}

#[test]
fn test_init_constraint_model_wrong_collection() {
    let program = program_address();
    let auth = derive_authority(&program).unwrap();
    let pda = test_pda();
    let r = init_constraint_model(
        &pda,
        &auth,
        &addr(1),
        true,
        &Address::new(instructions_sysvar_id()),
        &addr(4),
        "fields".to_string(),
        "uri".to_string(),
    );
    assert_eq!(r.unwrap_err(), FarmerHouseError::CollectionMismatch);
}
