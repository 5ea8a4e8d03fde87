use farmer_house::accounts::{
    AssetMetadata, CollectionRef, MasterEditionAccount, MasterEditionData, MintAccount,
    ProgramAccount, ServicePrograms, TokenAccount, TokenStandard,
};
use farmer_house::address::Address;
use farmer_house::authority::{derive_authority, derive_trifle_record_address, AuthorityContext};
use farmer_house::errors::FarmerHouseError;
use farmer_house::escrow::EscrowRecord;
use farmer_house::mint::mint;
use farmer_house::shop::{
    buy_field, buy_seed, crop_price, sell_crop, DEFAULT_CROP_PRICE, FIELD_PRICE, RIPE_CROP_PRICE,
    SAPLING_CROP_PRICE, SEED_PRICE,
};
use farmer_house::solana::{
    associated_token_id, farmer_house_id, instructions_sysvar_id, spl_token_id, token_metadata_id,
    trifle_id,
};
use farmer_house::FarmsPda;

fn addr(tag: u8) -> Address {
    Address::new(vec![tag; 32])
}

fn test_pda() -> FarmsPda {
    FarmsPda {
        bump: 250,
        authority_address: addr(1),
        spl_mint_address: addr(2),
        tomato_seed_collection_address: addr(3),
        tomato_sappling_collection_address: addr(4),
        ripe_tomato_collection_address: addr(5),
        field_collection_address: addr(6),
        require_verified_collections: false,
    }
}

fn expected_services() -> ServicePrograms {
    ServicePrograms {
        token_program: Address::new(spl_token_id()),
        associated_token_program: Address::new(associated_token_id()),
        token_metadata_program: Address::new(token_metadata_id()),
        trifle_program: Address::new(trifle_id()),
        farmer_house_program: Address::new(farmer_house_id()),
        instructions: Address::new(instructions_sysvar_id()),
    }
}

fn authority() -> AuthorityContext {
    derive_authority(&Address::new(farmer_house_id())).unwrap()
}

fn metadata(mint_address: &Address, collection: &Address) -> AssetMetadata {
    AssetMetadata {
        mint: mint_address.dup(),
        name: "Field".to_string(),
        symbol: "FIELD".to_string(),
        uri: "https://example.invalid/field.json".to_string(),
        seller_fee_basis_points: 1,
        collection: Some(CollectionRef { key: collection.dup(), verified: false }),
        token_standard: Some(TokenStandard::NonFungible),
    }
}

fn token_holding(owner: &Address, mint_address: &Address, amount: u64) -> TokenAccount {
    TokenAccount {
        account_owner: Address::new(spl_token_id()),
        owner: owner.dup(),
        mint: mint_address.dup(),
        amount,
    }
}

fn token_mint(address: &Address) -> MintAccount {
    MintAccount { address: address.dup(), account_owner: Address::new(spl_token_id()) }
}

fn good_edition() -> MasterEditionAccount {
    MasterEditionAccount {
        address: addr(30),
        account_owner: Address::new(token_metadata_id()),
        data: Some(MasterEditionData { max_supply: Some(0) }),
    }
}

fn constraint_model_account() -> ProgramAccount {
    ProgramAccount { address: addr(31), account_owner: Address::new(trifle_id()) }
}

struct BuyFieldSetup {
    pda: FarmsPda,
    services: ServicePrograms,
    auth: AuthorityContext,
    user: Address,
    spl_src: TokenAccount,
    spl_dst: TokenAccount,
    spl_mint: MintAccount,
    field_src: TokenAccount,
    field_dst: Option<TokenAccount>,
    field_mint: MintAccount,
    field_meta: AssetMetadata,
    field_meta_owner: Address,
    edition: MasterEditionAccount,
    model_account: ProgramAccount,
    trifle: Option<EscrowRecord>,
}

fn buy_field_setup() -> BuyFieldSetup {
    let pda = test_pda();
    let auth = authority();
    let user = addr(10);
    let field_mint = addr(21);
    BuyFieldSetup {
        services: expected_services(),
        user: user.dup(),
        spl_src: token_holding(&user, &addr(2), 100000000),
        spl_dst: token_holding(&auth.address, &addr(2), 500),
        spl_mint: token_mint(&addr(2)),
        field_src: token_holding(&auth.address, &field_mint, 3),
        field_dst: None,
        field_meta: metadata(&field_mint, &addr(6)),
        field_mint: token_mint(&field_mint),
        field_meta_owner: Address::new(token_metadata_id()),
        edition: good_edition(),
        model_account: constraint_model_account(),
        trifle: None,
        pda,
        auth,
    }
}

fn run_buy_field(s: &mut BuyFieldSetup) -> Result<(), FarmerHouseError> {
    buy_field(
        &s.pda,
        &s.services,
        &s.auth,
        &s.user,
        &mut s.spl_src,
        &mut s.spl_dst,
        &s.spl_mint,
        &mut s.field_src,
        &mut s.field_dst,
        &s.field_mint,
        &s.field_meta,
        &s.field_meta_owner,
        &s.edition,
        &s.model_account,
        &mut s.trifle,
    )
}

#[test]
fn test_buy_field_success() {
    let mut s = buy_field_setup();
    run_buy_field(&mut s).unwrap();

    assert_eq!(s.spl_src.amount, 100000000 - FIELD_PRICE);
    assert_eq!(s.spl_dst.amount, 500 + FIELD_PRICE);
    assert_eq!(s.field_src.amount, 2);
    let dst = s.field_dst.as_ref().unwrap();
    assert_eq!(dst.amount, 1);
    assert!(dst.owner.eq_address(&s.user));
    assert!(dst.mint.eq_address(&s.field_mint.address));
    // The created custody record sits at the derived address and is empty.
    let trifle = s.trifle.as_ref().unwrap();
    let (expected, _) =
        derive_trifle_record_address(&s.field_mint.address, &s.auth.address).unwrap();
    assert!(trifle.address.eq_address(&expected));
    assert!(trifle.slots.is_empty());
}

#[test]
fn test_buy_field_insufficient_funds_abort() {
    let mut s = buy_field_setup();
    s.spl_src.amount = FIELD_PRICE - 1;
    let r = run_buy_field(&mut s);
    assert_eq!(r.unwrap_err(), FarmerHouseError::AmountMismatch);
    // Full abort: no leg applied.
    assert_eq!(s.spl_src.amount, FIELD_PRICE - 1);
    assert_eq!(s.spl_dst.amount, 500);
    assert_eq!(s.field_src.amount, 3);
    assert!(s.field_dst.is_none());
    assert!(s.trifle.is_none());
}

#[test]
fn test_buy_field_vault_reuse() {
    let mut s = buy_field_setup();
    run_buy_field(&mut s).unwrap();
    let first_address = s.trifle.as_ref().unwrap().address.dup();

    // The buyer already holds a custody vault: a second purchase must reuse
    // it rather than create a second one.
    s.spl_src.amount = 100000000;
    let r = run_buy_field(&mut s);
    r.unwrap();
    let trifle = s.trifle.as_ref().unwrap();
    assert!(trifle.address.eq_address(&first_address));
    assert!(trifle.slots.is_empty());
}

#[test]
fn test_buy_field_wrong_account_owner() {
    let mut s = buy_field_setup();
    s.spl_src.account_owner = addr(9);
    let r = run_buy_field(&mut s);
    assert_eq!(r.unwrap_err(), FarmerHouseError::OwnerMismatch);
}

#[test]
fn test_buy_field_wrong_instructions_sysvar() {
    let mut s = buy_field_setup();
    s.services.instructions = addr(9);
    let r = run_buy_field(&mut s);
    assert_eq!(r.unwrap_err(), FarmerHouseError::ProgramMismatch);
}

#[test]
fn test_buy_field_wrong_collection() {
    let mut s = buy_field_setup();
    s.field_meta.collection = Some(CollectionRef { key: addr(3), verified: false });
    let r = run_buy_field(&mut s);
    assert_eq!(r.unwrap_err(), FarmerHouseError::CollectionMismatch);
}

#[test]
fn test_buy_field_metadata_mint_mismatch() {
    let mut s = buy_field_setup();
    s.field_meta.mint = addr(22);
    let r = run_buy_field(&mut s);
    assert_eq!(r.unwrap_err(), FarmerHouseError::MintMismatch);
}

#[test]
fn test_buy_field_bad_master_edition() {
    let mut s = buy_field_setup();
    s.edition.data = Some(MasterEditionData { max_supply: Some(5) });
    let r = run_buy_field(&mut s);
    assert_eq!(r.unwrap_err(), FarmerHouseError::CollectionMismatch);

    let mut s2 = buy_field_setup();
    s2.field_meta.token_standard = Some(TokenStandard::Fungible);
    let r2 = run_buy_field(&mut s2);
    assert_eq!(r2.unwrap_err(), FarmerHouseError::CollectionMismatch);
}

#[test]
fn test_buy_seed_success() {
    let pda = test_pda();
    let auth = authority();
    let user = addr(10);
    let seed_mint = addr(20);
    let mut spl_src = token_holding(&user, &addr(2), 5000000);
    let mut spl_dst = token_holding(&auth.address, &addr(2), 0);
    let mut seed_src = token_holding(&auth.address, &seed_mint, 10);
    let mut seed_dst: Option<TokenAccount> = None;
    let meta = metadata(&seed_mint, &addr(3));

    buy_seed(
        &pda,
        &Address::new(farmer_house_id()),
        &auth,
        &user,
        &mut spl_src,
        &mut spl_dst,
        &token_mint(&addr(2)),
        &mut seed_src,
        &mut seed_dst,
        &token_mint(&seed_mint),
        &meta,
    )
    .unwrap();

    assert_eq!(spl_src.amount, 5000000 - SEED_PRICE);
    assert_eq!(spl_dst.amount, SEED_PRICE);
    assert_eq!(seed_src.amount, 9);
    let dst = seed_dst.as_ref().unwrap();
    assert_eq!(dst.amount, 1);
    assert!(dst.owner.eq_address(&user));
    assert!(dst.mint.eq_address(&seed_mint));
}

#[test]
fn test_buy_seed_insufficient_funds() {
    let pda = test_pda();
    let auth = authority();
    let user = addr(10);
    let seed_mint = addr(20);
    let mut spl_src = token_holding(&user, &addr(2), SEED_PRICE - 1);
    let mut spl_dst = token_holding(&auth.address, &addr(2), 0);
    let mut seed_src = token_holding(&auth.address, &seed_mint, 10);
    let mut seed_dst: Option<TokenAccount> = None;
    let meta = metadata(&seed_mint, &addr(3));

    let r = buy_seed(
        &pda,
        &Address::new(farmer_house_id()),
        &auth,
        &user,
        &mut spl_src,
        &mut spl_dst,
        &token_mint(&addr(2)),
        &mut seed_src,
        &mut seed_dst,
        &token_mint(&seed_mint),
        &meta,
    );
    assert_eq!(r.unwrap_err(), FarmerHouseError::AmountMismatch);
    assert_eq!(spl_src.amount, SEED_PRICE - 1);
    assert_eq!(spl_dst.amount, 0);
    assert_eq!(seed_src.amount, 10);
    assert!(seed_dst.is_none());
}

#[test]
fn test_buy_seed_pda_owner_mismatch() {
    let pda = test_pda();
    let auth = authority();
    let user = addr(10);
    let seed_mint = addr(20);
    let mut spl_src = token_holding(&user, &addr(2), 5000000);
    let mut spl_dst = token_holding(&auth.address, &addr(2), 0);
    let mut seed_src = token_holding(&auth.address, &seed_mint, 10);
    let mut seed_dst: Option<TokenAccount> = None;
    let meta = metadata(&seed_mint, &addr(3));

    let r = buy_seed(
        &pda,
        &addr(9),
        &auth,
        &user,
        &mut spl_src,
        &mut spl_dst,
        &token_mint(&addr(2)),
        &mut seed_src,
        &mut seed_dst,
        &token_mint(&seed_mint),
        &meta,
    );
    assert_eq!(r.unwrap_err(), FarmerHouseError::OwnerMismatch);
}

fn run_sell(
    collection: &Address,
    authority_funds: u64,
) -> Result<(TokenAccount, TokenAccount, TokenAccount, TokenAccount), FarmerHouseError> {
    let pda = test_pda();
    let auth = authority();
    let user = addr(10);
    let crop_mint = addr(20);
    let mut spl_src = token_holding(&auth.address, &addr(2), authority_funds);
    let mut spl_dst = token_holding(&user, &addr(2), 100);
    let mut crop_src = token_holding(&user, &crop_mint, 1);
    let mut crop_dst = token_holding(&auth.address, &crop_mint, 0);
    let meta = metadata(&crop_mint, collection);

    sell_crop(
        &pda,
        &auth,
        &user,
        &mut spl_src,
        &mut spl_dst,
        &token_mint(&addr(2)),
        &mut crop_src,
        &mut crop_dst,
        &meta,
    )?;
    Ok((spl_src, spl_dst, crop_src, crop_dst))
}

#[test]
fn test_sell_crop_sapling_price() {
    let (spl_src, spl_dst, crop_src, crop_dst) = run_sell(&addr(4), 10000000).unwrap();
    assert_eq!(spl_src.amount, 10000000 - SAPLING_CROP_PRICE);
    assert_eq!(spl_dst.amount, 100 + SAPLING_CROP_PRICE);
    assert_eq!(crop_src.amount, 0);
    assert_eq!(crop_dst.amount, 1);
}

#[test]
fn test_sell_crop_ripe_price() {
    let (spl_src, spl_dst, crop_src, crop_dst) = run_sell(&addr(5), 10000000).unwrap();
    assert_eq!(spl_src.amount, 10000000 - RIPE_CROP_PRICE);
    assert_eq!(spl_dst.amount, 100 + RIPE_CROP_PRICE);
    assert_eq!(crop_src.amount, 0);
    assert_eq!(crop_dst.amount, 1);
}

#[test]
fn test_sell_crop_default_price() {
    // A crop in any other collection, here still the seed collection, sells
    // at the default tier.
    let (spl_src, spl_dst, _, _) = run_sell(&addr(3), 10000000).unwrap();
    assert_eq!(spl_src.amount, 10000000 - DEFAULT_CROP_PRICE);
    assert_eq!(spl_dst.amount, 100 + DEFAULT_CROP_PRICE);
}

#[test]
fn test_sell_crop_insufficient_authority_funds() {
    // The authority cannot pay the ripe price: both legs abort.
    match run_sell(&addr(5), RIPE_CROP_PRICE - 1) {
        Err(e) => assert_eq!(e, FarmerHouseError::AmountMismatch),
        Ok(_) => panic!("the sale should have aborted"),
    }
}

#[test]
fn test_crop_price_values() {
    let pda = test_pda();
    assert_eq!(crop_price(&pda, &addr(4)), 3500000);
    assert_eq!(crop_price(&pda, &addr(5)), 7000000);
    assert_eq!(crop_price(&pda, &addr(3)), 2000000);
    assert_eq!(crop_price(&pda, &addr(77)), 2000000);
}

#[test]
fn test_mint_asset() {
    let pda = test_pda();
    let auth = authority();
    let payer = addr(10);
    let mint_address = addr(40);
    let collection_mint = addr(3);
    let (holding, meta) = mint(
        &pda,
        &auth,
        &payer,
        &mint_address,
        &collection_mint,
        "Tomato Seed".to_string(),
        "TOMATO".to_string(),
        "https://example.invalid/seed.json".to_string(),
    );
    assert_eq!(holding.amount, 1);
    assert!(holding.owner.eq_address(&payer));
    assert!(holding.mint.eq_address(&mint_address));
    assert_eq!(holding.account_owner.bytes().clone(), spl_token_id());
    assert!(meta.mint.eq_address(&mint_address));
    assert_eq!(meta.name, "Tomato Seed");
    assert_eq!(meta.symbol, "TOMATO");
    assert_eq!(meta.seller_fee_basis_points, 1);
    let marker = meta.collection.as_ref().unwrap();
    assert!(marker.key.eq_address(&collection_mint));
    assert!(!marker.verified);
    assert_eq!(meta.token_standard, Some(TokenStandard::NonFungible));
}
