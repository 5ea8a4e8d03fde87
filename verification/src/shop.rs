use vstd::prelude::*;

verus! {

use crate::accounts::{
    read_collection, spec_read_collection, AssetMetadata, AssetMetadataV, MasterEditionAccount,
    MasterEditionAccountV, MintAccount, MintAccountV, ProgramAccount, ServicePrograms,
    ServiceProgramsV, TokenAccount, TokenAccountV, TokenStandard,
};
use crate::address::Address;
use crate::authority::{
    derive_trifle_record_address, spec_trifle_record_address, AuthorityContext, AuthorityContextV,
};
use crate::errors::FarmerHouseError;
use crate::escrow::{EscrowRecord, EscrowRecordV, HeldTokenV};
use crate::solana::{
    farmer_house_id, instructions_sysvar_id, spec_farmer_house_id, spec_instructions_sysvar_id,
    spec_spl_token_id, spec_token_metadata_id, spec_trifle_id, spl_token_id, token_metadata_id,
    trifle_id,
};
use crate::{stage_of, FarmsPda, FarmsPdaV, Stage};

// The exchange engine: priced, atomic swaps of the fungible currency for
// custody of assets. Every check precedes every state change; an operation
// either applies all of its legs or none.

/// Price of one field asset, in currency minor units.
pub const FIELD_PRICE: u64 = 70000000;

/// Price of one seed asset, in currency minor units.
pub const SEED_PRICE: u64 = 2000000;

/// Sale price of a crop in the sapling collection.
pub const SAPLING_CROP_PRICE: u64 = 3500000;

/// Sale price of a crop in the ripe collection.
pub const RIPE_CROP_PRICE: u64 = 7000000;

/// Sale price of a crop in any other collection.
pub const DEFAULT_CROP_PRICE: u64 = 2000000;

/// The state-dependent sale price of a crop, derived from its collection:
/// sapling-collection crops fetch the sapling price, ripe-collection crops
/// the ripe price, and anything else the default tier.
pub open spec fn spec_crop_price(pda: FarmsPdaV, collection: Seq<u8>) -> u64 {
    if collection == pda.tomato_sappling_collection_address {
        SAPLING_CROP_PRICE
    } else if collection == pda.ripe_tomato_collection_address {
        RIPE_CROP_PRICE
    } else {
        DEFAULT_CROP_PRICE
    }
}

/// Pure price query for a crop's collection.
pub fn crop_price(farms_pda: &FarmsPda, collection: &Address) -> (r: u64)
    ensures
        r == spec_crop_price(farms_pda@, collection@),
{
    if collection.eq_address(&farms_pda.tomato_sappling_collection_address) {
        SAPLING_CROP_PRICE
    } else if collection.eq_address(&farms_pda.ripe_tomato_collection_address) {
        RIPE_CROP_PRICE
    } else {
        DEFAULT_CROP_PRICE
    }
}

/// The view of an optional holding account.
pub open spec fn opt_token_view(t: Option<TokenAccount>) -> Option<TokenAccountV> {
    match t {
        Some(a) => Some(a@),
        None => None,
    }
}

/// The view of an optional custody record.
pub open spec fn opt_record_view(t: Option<EscrowRecord>) -> Option<EscrowRecordV> {
    match t {
        Some(e) => Some(e@),
        None => None,
    }
}

/// The field asset's collection container is a unique master edition: its
/// record parses, the asset's declared standard is non-fungible, and no
/// further prints are allowed.
pub open spec fn master_edition_ok(
    metadata: AssetMetadataV,
    edition: MasterEditionAccountV,
) -> bool {
    &&& edition.data is Some
    &&& metadata.token_standard == Some(TokenStandard::NonFungible)
    &&& edition.data->0.max_supply == Some(0u64)
}

fn check_master_edition(metadata: &AssetMetadata, edition: &MasterEditionAccount) -> (r: bool)
    ensures
        r == master_edition_ok(metadata@, edition@),
{
    let parses = match &edition.data {
        Some(d) => match d.max_supply {
            Some(m) => m == 0,
            None => false,
        },
        None => false,
    };
    let standard = match &metadata.token_standard {
        Some(s) => *s == TokenStandard::NonFungible,
        None => false,
    };
    parses && standard
}

// Buying a field.

/// Everything a field purchase changes.
#[verifier::ext_equal]
pub struct BuyFieldOutcome {
    pub spl_ata_source: TokenAccountV,
    pub spl_ata_destination: TokenAccountV,
    pub field_ata_source: TokenAccountV,
    pub field_ata_destination: TokenAccountV,
    pub trifle_account: EscrowRecordV,
}

/// The effects of a successful field purchase: the buyer's currency is
/// debited by the field price and the authority's credited; one field unit
/// moves from the authority's holding to the buyer's, creating the buyer's
/// holding when absent; the custody record is the given one.
pub open spec fn buy_field_effects(
    user_account: Seq<u8>,
    spl_ata_source: TokenAccountV,
    spl_ata_destination: TokenAccountV,
    field_ata_source: TokenAccountV,
    field_ata_destination: Option<TokenAccountV>,
    field_mint: Seq<u8>,
    trifle_account: EscrowRecordV,
) -> BuyFieldOutcome {
    let fd0 = match field_ata_destination {
        Some(d) => d,
        None => TokenAccountV {
            account_owner: spec_spl_token_id(),
            owner: user_account,
            mint: field_mint,
            amount: 0,
        },
    };
    BuyFieldOutcome {
        spl_ata_source: TokenAccountV {
            amount: (spl_ata_source.amount - FIELD_PRICE) as u64,
            ..spl_ata_source
        },
        spl_ata_destination: TokenAccountV {
            amount: (spl_ata_destination.amount + FIELD_PRICE) as u64,
            ..spl_ata_destination
        },
        field_ata_source: TokenAccountV {
            amount: (field_ata_source.amount - 1) as u64,
            ..field_ata_source
        },
        field_ata_destination: TokenAccountV { amount: (fd0.amount + 1) as u64, ..fd0 },
        trifle_account,
    }
}

/// What buying a field does. The collaborating services and every account's
/// owning service must be the expected ones; the asset must belong to the
/// field collection, match its mint and its master edition; the currency
/// accounts must carry the configured mint; the buyer pays the field price
/// for one field unit. A custody record is created for the field when the
/// buyer has none, and reused unchanged otherwise.
pub open spec fn buy_field_spec(
    pda: FarmsPdaV,
    services: ServiceProgramsV,
    farm_authority: AuthorityContextV,
    user_account: Seq<u8>,
    spl_ata_source: TokenAccountV,
    spl_ata_destination: TokenAccountV,
    spl_mint: MintAccountV,
    field_ata_source: TokenAccountV,
    field_ata_destination: Option<TokenAccountV>,
    field_mint: MintAccountV,
    field_metadata: AssetMetadataV,
    field_metadata_owner: Seq<u8>,
    field_master_edition: MasterEditionAccountV,
    escrow_constraint_model_owner: Seq<u8>,
    trifle_account: Option<EscrowRecordV>,
) -> Result<BuyFieldOutcome, FarmerHouseError> {
    if services.token_metadata_program != spec_token_metadata_id() {
        Err(FarmerHouseError::ProgramMismatch)
    } else if services.trifle_program != spec_trifle_id() {
        Err(FarmerHouseError::ProgramMismatch)
    } else if services.farmer_house_program != spec_farmer_house_id() {
        Err(FarmerHouseError::ProgramMismatch)
    } else if services.instructions != spec_instructions_sysvar_id() {
        Err(FarmerHouseError::ProgramMismatch)
    } else if spl_ata_source.account_owner != spec_spl_token_id() {
        Err(FarmerHouseError::OwnerMismatch)
    } else if spl_ata_destination.account_owner != spec_spl_token_id() {
        Err(FarmerHouseError::OwnerMismatch)
    } else if field_ata_source.account_owner != spec_spl_token_id() {
        Err(FarmerHouseError::OwnerMismatch)
    } else if spl_mint.account_owner != spec_spl_token_id() {
        Err(FarmerHouseError::OwnerMismatch)
    } else if field_mint.account_owner != spec_spl_token_id() {
        Err(FarmerHouseError::OwnerMismatch)
    } else if field_master_edition.account_owner != spec_token_metadata_id() {
        Err(FarmerHouseError::OwnerMismatch)
    } else if field_metadata_owner != spec_token_metadata_id() {
        Err(FarmerHouseError::OwnerMismatch)
    } else if escrow_constraint_model_owner != spec_trifle_id() {
        Err(FarmerHouseError::OwnerMismatch)
    } else {
        match spec_read_collection(pda, field_metadata) {
            Err(e) => Err(e),
            Ok(c) => if c.key != pda.field_collection_address {
                Err(FarmerHouseError::CollectionMismatch)
            } else if field_metadata.mint != field_mint.address {
                Err(FarmerHouseError::MintMismatch)
            } else if !master_edition_ok(field_metadata, field_master_edition) {
                Err(FarmerHouseError::CollectionMismatch)
            } else if spl_mint.address != pda.spl_mint_address {
                Err(FarmerHouseError::MintMismatch)
            } else if spl_ata_source.mint != spl_mint.address {
                Err(FarmerHouseError::MintMismatch)
            } else if spl_ata_destination.mint != spl_mint.address {
                Err(FarmerHouseError::MintMismatch)
            } else if field_ata_source.mint != field_mint.address {
                Err(FarmerHouseError::MintMismatch)
            } else if spl_ata_source.amount < FIELD_PRICE {
                Err(FarmerHouseError::AmountMismatch)
            } else if field_ata_source.amount < 1 {
                Err(FarmerHouseError::AmountMismatch)
            } else if field_ata_destination matches Some(d) && d.account_owner
                != spec_spl_token_id() {
                Err(FarmerHouseError::OwnerMismatch)
            } else if field_ata_destination matches Some(d) && d.mint != field_mint.address {
                Err(FarmerHouseError::MintMismatch)
            } else {
                match trifle_account {
                    Some(t) => Ok(
                        buy_field_effects(
                            user_account,
                            spl_ata_source,
                            spl_ata_destination,
                            field_ata_source,
                            field_ata_destination,
                            field_mint.address,
                            t,
                        ),
                    ),
                    None => match spec_trifle_record_address(
                        field_mint.address,
                        farm_authority.address,
                    ) {
                        None => Err(FarmerHouseError::TrifleMismatch),
                        Some(p) => Ok(
                            buy_field_effects(
                                user_account,
                                spl_ata_source,
                                spl_ata_destination,
                                field_ata_source,
                                field_ata_destination,
                                field_mint.address,
                                EscrowRecordV {
                                    address: p.0,
                                    slots: Map::<Seq<char>, Seq<HeldTokenV>>::empty(),
                                },
                            ),
                        ),
                    },
                }
            },
        }
    }
}

/// Buy a field: pay the field price for one field-collection asset, and
/// ensure the buyer has a custody record for it, creating one bound to the
/// field when absent and reusing the existing one unchanged otherwise.
pub fn buy_field(
    farms_pda: &FarmsPda,
    services: &ServicePrograms,
    farm_authority: &AuthorityContext,
    user_account: &Address,
    spl_ata_source: &mut TokenAccount,
    spl_ata_destination: &mut TokenAccount,
    spl_mint: &MintAccount,
    field_ata_source: &mut TokenAccount,
    field_ata_destination: &mut Option<TokenAccount>,
    field_mint: &MintAccount,
    field_metadata: &AssetMetadata,
    field_metadata_owner: &Address,
    field_master_edition: &MasterEditionAccount,
    escrow_constraint_model: &ProgramAccount,
    trifle_account: &mut Option<EscrowRecord>,
) -> (r: Result<(), FarmerHouseError>)
    requires
        old(spl_ata_destination)@.amount + FIELD_PRICE <= u64::MAX,
        *old(field_ata_destination) matches Some(d) ==> d@.amount < u64::MAX,
        *old(trifle_account) matches Some(t) ==> t.wf(),
    ensures
        match r {
            Ok(()) => {
                &&& *final(field_ata_destination) matches Some(fd) && *final(trifle_account)
                    matches Some(tr) && {
                    &&& buy_field_spec(
                        farms_pda@,
                        services@,
                        farm_authority@,
                        user_account@,
                        old(spl_ata_source)@,
                        old(spl_ata_destination)@,
                        spl_mint@,
                        old(field_ata_source)@,
                        opt_token_view(*old(field_ata_destination)),
                        field_mint@,
                        field_metadata@,
                        field_metadata_owner@,
                        field_master_edition@,
                        escrow_constraint_model@.account_owner,
                        opt_record_view(*old(trifle_account)),
                    ) == Ok::<BuyFieldOutcome, FarmerHouseError>(
                        BuyFieldOutcome {
                            spl_ata_source: final(spl_ata_source)@,
                            spl_ata_destination: final(spl_ata_destination)@,
                            field_ata_source: final(field_ata_source)@,
                            field_ata_destination: fd@,
                            trifle_account: tr@,
                        },
                    )
                    &&& tr.wf()
                }
            },
            Err(e) => {
                &&& buy_field_spec(
                    farms_pda@,
                    services@,
                    farm_authority@,
                    user_account@,
                    old(spl_ata_source)@,
                    old(spl_ata_destination)@,
                    spl_mint@,
                    old(field_ata_source)@,
                    opt_token_view(*old(field_ata_destination)),
                    field_mint@,
                    field_metadata@,
                    field_metadata_owner@,
                    field_master_edition@,
                    escrow_constraint_model@.account_owner,
                    opt_record_view(*old(trifle_account)),
                ) == Err::<BuyFieldOutcome, FarmerHouseError>(e)
                &&& final(spl_ata_source)@ == old(spl_ata_source)@
                &&& final(spl_ata_destination)@ == old(spl_ata_destination)@
                &&& final(field_ata_source)@ == old(field_ata_source)@
                &&& opt_token_view(*final(field_ata_destination)) == opt_token_view(
                    *old(field_ata_destination),
                )
                &&& opt_record_view(*final(trifle_account)) == opt_record_view(
                    *old(trifle_account),
                )
            },
        },
{
    if !services.token_metadata_program.eq_bytes(&token_metadata_id()) {
        return Err(FarmerHouseError::ProgramMismatch);
    }
    if !services.trifle_program.eq_bytes(&trifle_id()) {
        return Err(FarmerHouseError::ProgramMismatch);
    }
    if !services.farmer_house_program.eq_bytes(&farmer_house_id()) {
        return Err(FarmerHouseError::ProgramMismatch);
    }
    if !services.instructions.eq_bytes(&instructions_sysvar_id()) {
        return Err(FarmerHouseError::ProgramMismatch);
    }
    let token_id = spl_token_id();
    if !spl_ata_source.account_owner.eq_bytes(&token_id) {
        return Err(FarmerHouseError::OwnerMismatch);
    }
    if !spl_ata_destination.account_owner.eq_bytes(&token_id) {
        return Err(FarmerHouseError::OwnerMismatch);
    }
    if !field_ata_source.account_owner.eq_bytes(&token_id) {
        return Err(FarmerHouseError::OwnerMismatch);
    }
    if !spl_mint.account_owner.eq_bytes(&token_id) {
        return Err(FarmerHouseError::OwnerMismatch);
    }
    if !field_mint.account_owner.eq_bytes(&token_id) {
        return Err(FarmerHouseError::OwnerMismatch);
    }
    if !field_master_edition.account_owner.eq_bytes(&token_metadata_id()) {
        return Err(FarmerHouseError::OwnerMismatch);
    }
    if !field_metadata_owner.eq_bytes(&token_metadata_id()) {
        return Err(FarmerHouseError::OwnerMismatch);
    }
    if !escrow_constraint_model.account_owner.eq_bytes(&trifle_id()) {
        return Err(FarmerHouseError::OwnerMismatch);
    }
    let collection = match read_collection(farms_pda, field_metadata) {
        Ok(c) => c,
        Err(e) => {
            return Err(e);
        },
    };
    if !collection.key.eq_address(&farms_pda.field_collection_address) {
        return Err(FarmerHouseError::CollectionMismatch);
    }
    if !field_metadata.mint.eq_address(&field_mint.address) {
        return Err(FarmerHouseError::MintMismatch);
    }
    if !check_master_edition(field_metadata, field_master_edition) {
        return Err(FarmerHouseError::CollectionMismatch);
    }
    if !spl_mint.address.eq_address(&farms_pda.spl_mint_address) {
        return Err(FarmerHouseError::MintMismatch);
    }
    if !spl_ata_source.mint.eq_address(&spl_mint.address) {
        return Err(FarmerHouseError::MintMismatch);
    }
    if !spl_ata_destination.mint.eq_address(&spl_mint.address) {
        return Err(FarmerHouseError::MintMismatch);
    }
    if !field_ata_source.mint.eq_address(&field_mint.address) {
        return Err(FarmerHouseError::MintMismatch);
    }
    if spl_ata_source.amount < FIELD_PRICE {
        return Err(FarmerHouseError::AmountMismatch);
    }
    if field_ata_source.amount < 1 {
        return Err(FarmerHouseError::AmountMismatch);
    }
    match field_ata_destination {
        Some(d) => {
            if !d.account_owner.eq_bytes(&token_id) {
                return Err(FarmerHouseError::OwnerMismatch);
            }
            if !d.mint.eq_address(&field_mint.address) {
                return Err(FarmerHouseError::MintMismatch);
            }
        },
        None => {},
    }
    // The custody record's address, where one must be created.
    let created_record: Option<EscrowRecord> = match trifle_account {
        Some(_) => None,
        None => {
            match derive_trifle_record_address(&field_mint.address, &farm_authority.address) {
                Some(p) => Some(EscrowRecord::new(p.0)),
                None => {
                    return Err(FarmerHouseError::TrifleMismatch);
                },
            }
        },
    };

    // Every check passed: apply all legs.
    spl_ata_source.amount = spl_ata_source.amount - FIELD_PRICE;
    spl_ata_destination.amount = spl_ata_destination.amount + FIELD_PRICE;
    field_ata_source.amount = field_ata_source.amount - 1;
    match field_ata_destination {
        Some(d) => {
            d.amount = d.amount + 1;
        },
        None => {
            *field_ata_destination = Some(
                TokenAccount {
                    account_owner: Address::new(spl_token_id()),
                    owner: user_account.dup(),
                    mint: field_mint.address.dup(),
                    amount: 1,
                },
            );
        },
    }
    match created_record {
        Some(record) => {
            *trifle_account = Some(record);
        },
        None => {},
    }
    Ok(())
}

/// Law: a field purchase debits exactly the field price and credits exactly
/// one field unit, and a buyer whose currency balance is below the field
/// price gets a full abort.
pub proof fn lemma_buy_field_exact(
    pda: FarmsPdaV,
    services: ServiceProgramsV,
    farm_authority: AuthorityContextV,
    user_account: Seq<u8>,
    spl_ata_source: TokenAccountV,
    spl_ata_destination: TokenAccountV,
    spl_mint: MintAccountV,
    field_ata_source: TokenAccountV,
    field_ata_destination: Option<TokenAccountV>,
    field_mint: MintAccountV,
    field_metadata: AssetMetadataV,
    field_metadata_owner: Seq<u8>,
    field_master_edition: MasterEditionAccountV,
    escrow_constraint_model_owner: Seq<u8>,
    trifle_account: Option<EscrowRecordV>,
)
    requires
        spl_ata_destination.amount + FIELD_PRICE <= u64::MAX,
        field_ata_destination matches Some(d) ==> d.amount < u64::MAX,
    ensures
        spl_ata_source.amount < FIELD_PRICE ==> buy_field_spec(
            pda,
            services,
            farm_authority,
            user_account,
            spl_ata_source,
            spl_ata_destination,
            spl_mint,
            field_ata_source,
            field_ata_destination,
            field_mint,
            field_metadata,
            field_metadata_owner,
            field_master_edition,
            escrow_constraint_model_owner,
            trifle_account,
        ) is Err,
        buy_field_spec(
            pda,
            services,
            farm_authority,
            user_account,
            spl_ata_source,
            spl_ata_destination,
            spl_mint,
            field_ata_source,
            field_ata_destination,
            field_mint,
            field_metadata,
            field_metadata_owner,
            field_master_edition,
            escrow_constraint_model_owner,
            trifle_account,
        ) matches Ok(out) ==> {
            &&& out.spl_ata_source.amount == spl_ata_source.amount - FIELD_PRICE
            &&& out.spl_ata_destination.amount == spl_ata_destination.amount + FIELD_PRICE
            &&& out.field_ata_source.amount == field_ata_source.amount - 1
            &&& out.field_ata_destination.amount == (match field_ata_destination {
                Some(d) => d.amount + 1,
                None => 1,
            })
            &&& out.field_ata_destination.mint == field_mint.address
        },
{
}

/// Law: re-invoking the field purchase when the buyer already holds a
/// custody record reuses that record unchanged rather than creating a
/// second one.
pub proof fn lemma_buy_field_vault_reuse(
    pda: FarmsPdaV,
    services: ServiceProgramsV,
    farm_authority: AuthorityContextV,
    user_account: Seq<u8>,
    spl_ata_source: TokenAccountV,
    spl_ata_destination: TokenAccountV,
    spl_mint: MintAccountV,
    field_ata_source: TokenAccountV,
    field_ata_destination: Option<TokenAccountV>,
    field_mint: MintAccountV,
    field_metadata: AssetMetadataV,
    field_metadata_owner: Seq<u8>,
    field_master_edition: MasterEditionAccountV,
    escrow_constraint_model_owner: Seq<u8>,
    vault: EscrowRecordV,
)
    ensures
        buy_field_spec(
            pda,
            services,
            farm_authority,
            user_account,
            spl_ata_source,
            spl_ata_destination,
            spl_mint,
            field_ata_source,
            field_ata_destination,
            field_mint,
            field_metadata,
            field_metadata_owner,
            field_master_edition,
            escrow_constraint_model_owner,
            Some(vault),
        ) matches Ok(out) ==> out.trifle_account == vault,
{
}

// Buying a seed.

/// Everything a seed purchase changes.
#[verifier::ext_equal]
pub struct BuySeedOutcome {
    pub spl_ata_source: TokenAccountV,
    pub spl_ata_destination: TokenAccountV,
    pub seed_ata_source: TokenAccountV,
    pub seed_ata_destination: TokenAccountV,
}

/// What buying a seed does. The configuration record and every holding
/// account must be owned by the expected services; the asset must belong to
/// the seed collection and match its mint; the currency accounts must carry
/// the configured mint; the buyer pays the seed price for one seed unit,
/// with the buyer's holding created when absent. No custody record is
/// involved: seeds are not escrow containers.
pub open spec fn buy_seed_spec(
    pda: FarmsPdaV,
    farms_pda_account_owner: Seq<u8>,
    user_account: Seq<u8>,
    spl_ata_source: TokenAccountV,
    spl_ata_destination: TokenAccountV,
    spl_mint: MintAccountV,
    seed_ata_source: TokenAccountV,
    seed_ata_destination: Option<TokenAccountV>,
    seed_mint: MintAccountV,
    seed_metadata: AssetMetadataV,
) -> Result<BuySeedOutcome, FarmerHouseError> {
    if farms_pda_account_owner != spec_farmer_house_id() {
        Err(FarmerHouseError::OwnerMismatch)
    } else if spl_ata_source.account_owner != spec_spl_token_id() {
        Err(FarmerHouseError::OwnerMismatch)
    } else if spl_ata_destination.account_owner != spec_spl_token_id() {
        Err(FarmerHouseError::OwnerMismatch)
    } else if seed_ata_source.account_owner != spec_spl_token_id() {
        Err(FarmerHouseError::OwnerMismatch)
    } else if spl_mint.account_owner != spec_spl_token_id() {
        Err(FarmerHouseError::OwnerMismatch)
    } else if seed_mint.account_owner != spec_spl_token_id() {
        Err(FarmerHouseError::OwnerMismatch)
    } else {
        match spec_read_collection(pda, seed_metadata) {
            Err(e) => Err(e),
            Ok(c) => if c.key != pda.tomato_seed_collection_address {
                Err(FarmerHouseError::CollectionMismatch)
            } else if seed_metadata.mint != seed_mint.address {
                Err(FarmerHouseError::MintMismatch)
            } else if spl_mint.address != pda.spl_mint_address {
                Err(FarmerHouseError::MintMismatch)
            } else if spl_ata_source.mint != pda.spl_mint_address {
                Err(FarmerHouseError::MintMismatch)
            } else if spl_ata_destination.mint != pda.spl_mint_address {
                Err(FarmerHouseError::MintMismatch)
            } else if seed_ata_source.mint != seed_mint.address {
                Err(FarmerHouseError::MintMismatch)
            } else if spl_ata_source.amount < SEED_PRICE {
                Err(FarmerHouseError::AmountMismatch)
            } else if seed_ata_source.amount < 1 {
                Err(FarmerHouseError::AmountMismatch)
            } else if seed_ata_destination matches Some(d) && d.account_owner
                != spec_spl_token_id() {
                Err(FarmerHouseError::OwnerMismatch)
            } else if seed_ata_destination matches Some(d) && d.mint != seed_mint.address {
                Err(FarmerHouseError::MintMismatch)
            } else {
                let sd0 = match seed_ata_destination {
                    Some(d) => d,
                    None => TokenAccountV {
                        account_owner: spec_spl_token_id(),
                        owner: user_account,
                        mint: seed_mint.address,
                        amount: 0,
                    },
                };
                Ok(
                    BuySeedOutcome {
                        spl_ata_source: TokenAccountV {
                            amount: (spl_ata_source.amount - SEED_PRICE) as u64,
                            ..spl_ata_source
                        },
                        spl_ata_destination: TokenAccountV {
                            amount: (spl_ata_destination.amount + SEED_PRICE) as u64,
                            ..spl_ata_destination
                        },
                        seed_ata_source: TokenAccountV {
                            amount: (seed_ata_source.amount - 1) as u64,
                            ..seed_ata_source
                        },
                        seed_ata_destination: TokenAccountV { amount: (sd0.amount + 1) as u64, ..sd0 },
                    },
                )
            },
        }
    }
}

/// Buy a seed: pay the seed price for one seed-collection asset, creating
/// the buyer's holding when absent.
pub fn buy_seed(
    farms_pda: &FarmsPda,
    farms_pda_account_owner: &Address,
    farm_authority: &AuthorityContext,
    user_account: &Address,
    spl_ata_source: &mut TokenAccount,
    spl_ata_destination: &mut TokenAccount,
    spl_mint: &MintAccount,
    seed_ata_source: &mut TokenAccount,
    seed_ata_destination: &mut Option<TokenAccount>,
    seed_mint: &MintAccount,
    seed_metadata: &AssetMetadata,
) -> (r: Result<(), FarmerHouseError>)
    requires
        old(spl_ata_destination)@.amount + SEED_PRICE <= u64::MAX,
        *old(seed_ata_destination) matches Some(d) ==> d@.amount < u64::MAX,
    ensures
        match r {
            Ok(()) => *final(seed_ata_destination) matches Some(sd) && buy_seed_spec(
                farms_pda@,
                farms_pda_account_owner@,
                user_account@,
                old(spl_ata_source)@,
                old(spl_ata_destination)@,
                spl_mint@,
                old(seed_ata_source)@,
                opt_token_view(*old(seed_ata_destination)),
                seed_mint@,
                seed_metadata@,
            ) == Ok::<BuySeedOutcome, FarmerHouseError>(
                BuySeedOutcome {
                    spl_ata_source: final(spl_ata_source)@,
                    spl_ata_destination: final(spl_ata_destination)@,
                    seed_ata_source: final(seed_ata_source)@,
                    seed_ata_destination: sd@,
                },
            ),
            Err(e) => {
                &&& buy_seed_spec(
                    farms_pda@,
                    farms_pda_account_owner@,
                    user_account@,
                    old(spl_ata_source)@,
                    old(spl_ata_destination)@,
                    spl_mint@,
                    old(seed_ata_source)@,
                    opt_token_view(*old(seed_ata_destination)),
                    seed_mint@,
                    seed_metadata@,
                ) == Err::<BuySeedOutcome, FarmerHouseError>(e)
                &&& final(spl_ata_source)@ == old(spl_ata_source)@
                &&& final(spl_ata_destination)@ == old(spl_ata_destination)@
                &&& final(seed_ata_source)@ == old(seed_ata_source)@
                &&& opt_token_view(*final(seed_ata_destination)) == opt_token_view(
                    *old(seed_ata_destination),
                )
            },
        },
{
    if !farms_pda_account_owner.eq_bytes(&farmer_house_id()) {
        return Err(FarmerHouseError::OwnerMismatch);
    }
    let token_id = spl_token_id();
    if !spl_ata_source.account_owner.eq_bytes(&token_id) {
        return Err(FarmerHouseError::OwnerMismatch);
    }
    if !spl_ata_destination.account_owner.eq_bytes(&token_id) {
        return Err(FarmerHouseError::OwnerMismatch);
    }
    if !seed_ata_source.account_owner.eq_bytes(&token_id) {
        return Err(FarmerHouseError::OwnerMismatch);
    }
    if !spl_mint.account_owner.eq_bytes(&token_id) {
        return Err(FarmerHouseError::OwnerMismatch);
    }
    if !seed_mint.account_owner.eq_bytes(&token_id) {
        return Err(FarmerHouseError::OwnerMismatch);
    }
    let collection = match read_collection(farms_pda, seed_metadata) {
        Ok(c) => c,
        Err(e) => {
            return Err(e);
        },
    };
    if !collection.key.eq_address(&farms_pda.tomato_seed_collection_address) {
        return Err(FarmerHouseError::CollectionMismatch);
    }
    if !seed_metadata.mint.eq_address(&seed_mint.address) {
        return Err(FarmerHouseError::MintMismatch);
    }
    if !spl_mint.address.eq_address(&farms_pda.spl_mint_address) {
        return Err(FarmerHouseError::MintMismatch);
    }
    if !spl_ata_source.mint.eq_address(&farms_pda.spl_mint_address) {
        return Err(FarmerHouseError::MintMismatch);
    }
    if !spl_ata_destination.mint.eq_address(&farms_pda.spl_mint_address) {
        return Err(FarmerHouseError::MintMismatch);
    }
    if !seed_ata_source.mint.eq_address(&seed_mint.address) {
        return Err(FarmerHouseError::MintMismatch);
    }
    if spl_ata_source.amount < SEED_PRICE {
        return Err(FarmerHouseError::AmountMismatch);
    }
    if seed_ata_source.amount < 1 {
        return Err(FarmerHouseError::AmountMismatch);
    }
    match seed_ata_destination {
        Some(d) => {
            if !d.account_owner.eq_bytes(&token_id) {
                return Err(FarmerHouseError::OwnerMismatch);
            }
            if !d.mint.eq_address(&seed_mint.address) {
                return Err(FarmerHouseError::MintMismatch);
            }
        },
        None => {},
    }

    // Every check passed: apply all legs.
    spl_ata_source.amount = spl_ata_source.amount - SEED_PRICE;
    spl_ata_destination.amount = spl_ata_destination.amount + SEED_PRICE;
    seed_ata_source.amount = seed_ata_source.amount - 1;
    match seed_ata_destination {
        Some(d) => {
            d.amount = d.amount + 1;
        },
        None => {
            *seed_ata_destination = Some(
                TokenAccount {
                    account_owner: Address::new(spl_token_id()),
                    owner: user_account.dup(),
                    mint: seed_mint.address.dup(),
                    amount: 1,
                },
            );
        },
    }
    Ok(())
}

/// Law: a seed purchase debits exactly the seed price and credits exactly
/// one seed unit; a buyer whose currency balance is below the seed price,
/// with every earlier check in order, fails with an amount mismatch.
pub proof fn lemma_buy_seed_exact(
    pda: FarmsPdaV,
    farms_pda_account_owner: Seq<u8>,
    user_account: Seq<u8>,
    spl_ata_source: TokenAccountV,
    spl_ata_destination: TokenAccountV,
    spl_mint: MintAccountV,
    seed_ata_source: TokenAccountV,
    seed_ata_destination: Option<TokenAccountV>,
    seed_mint: MintAccountV,
    seed_metadata: AssetMetadataV,
)
    ensures
        buy_seed_spec(
            pda,
            farms_pda_account_owner,
            user_account,
            spl_ata_source,
            spl_ata_destination,
            spl_mint,
            seed_ata_source,
            seed_ata_destination,
            seed_mint,
            seed_metadata,
        ) matches Ok(out) ==> {
            &&& out.spl_ata_source.amount == spl_ata_source.amount - SEED_PRICE
            &&& out.spl_ata_destination.amount == (spl_ata_destination.amount + SEED_PRICE) as u64
            &&& out.seed_ata_source.amount == seed_ata_source.amount - 1
            &&& out.seed_ata_destination.amount == (match seed_ata_destination {
                Some(d) => (d.amount + 1) as u64,
                None => 1u64,
            })
            &&& out.seed_ata_destination.mint == seed_mint.address
        },
        spl_ata_source.amount < SEED_PRICE ==> buy_seed_spec(
            pda,
            farms_pda_account_owner,
            user_account,
            spl_ata_source,
            spl_ata_destination,
            spl_mint,
            seed_ata_source,
            seed_ata_destination,
            seed_mint,
            seed_metadata,
        ) is Err,
        ({
            &&& farms_pda_account_owner == spec_farmer_house_id()
            &&& spl_ata_source.account_owner == spec_spl_token_id()
            &&& spl_ata_destination.account_owner == spec_spl_token_id()
            &&& seed_ata_source.account_owner == spec_spl_token_id()
            &&& spl_mint.account_owner == spec_spl_token_id()
            &&& seed_mint.account_owner == spec_spl_token_id()
            &&& spec_read_collection(pda, seed_metadata) matches Ok(c) && c.key
                == pda.tomato_seed_collection_address
            &&& seed_metadata.mint == seed_mint.address
            &&& spl_mint.address == pda.spl_mint_address
            &&& spl_ata_source.mint == pda.spl_mint_address
            &&& spl_ata_destination.mint == pda.spl_mint_address
            &&& seed_ata_source.mint == seed_mint.address
            &&& spl_ata_source.amount < SEED_PRICE
        }) ==> buy_seed_spec(
            pda,
            farms_pda_account_owner,
            user_account,
            spl_ata_source,
            spl_ata_destination,
            spl_mint,
            seed_ata_source,
            seed_ata_destination,
            seed_mint,
            seed_metadata,
        ) == Err::<BuySeedOutcome, FarmerHouseError>(FarmerHouseError::AmountMismatch),
{
}

// Selling a crop.

/// Everything a crop sale changes.
#[verifier::ext_equal]
pub struct SellCropOutcome {
    pub spl_ata_source: TokenAccountV,
    pub spl_ata_destination: TokenAccountV,
    pub crop_ata_source: TokenAccountV,
    pub crop_ata_destination: TokenAccountV,
}

/// What selling a crop does. The currency accounts must be owned by the
/// currency service and carry the configured mint; the crop's metadata must
/// match both crop holdings' mint; the price is derived from the crop's
/// collection; then one crop unit moves from the seller to the authority and
/// the price moves from the authority's currency holding to the seller's.
/// Both legs apply, or neither.
pub open spec fn sell_crop_spec(
    pda: FarmsPdaV,
    user_account: Seq<u8>,
    spl_ata_source: TokenAccountV,
    spl_ata_destination: TokenAccountV,
    spl_mint: MintAccountV,
    crop_ata_source: TokenAccountV,
    crop_ata_destination: TokenAccountV,
    crop_metadata: AssetMetadataV,
) -> Result<SellCropOutcome, FarmerHouseError> {
    if spl_ata_source.account_owner != spec_spl_token_id() {
        Err(FarmerHouseError::OwnerMismatch)
    } else if spl_ata_destination.account_owner != spec_spl_token_id() {
        Err(FarmerHouseError::OwnerMismatch)
    } else if spl_mint.account_owner != spec_spl_token_id() {
        Err(FarmerHouseError::OwnerMismatch)
    } else if spl_mint.address != pda.spl_mint_address {
        Err(FarmerHouseError::MintMismatch)
    } else if spl_ata_source.mint != spl_mint.address {
        Err(FarmerHouseError::MintMismatch)
    } else if spl_ata_destination.mint != spl_mint.address {
        Err(FarmerHouseError::MintMismatch)
    } else if crop_metadata.mint != crop_ata_source.mint {
        Err(FarmerHouseError::MintMismatch)
    } else if crop_metadata.mint != crop_ata_destination.mint {
        Err(FarmerHouseError::MintMismatch)
    } else {
        match spec_read_collection(pda, crop_metadata) {
            Err(e) => Err(e),
            Ok(c) => {
                let price = spec_crop_price(pda, c.key);
                if spl_ata_source.amount < price {
                    Err(FarmerHouseError::AmountMismatch)
                } else if crop_ata_source.amount < 1 {
                    Err(FarmerHouseError::AmountMismatch)
                } else {
                    Ok(
                        SellCropOutcome {
                            spl_ata_source: TokenAccountV {
                                amount: (spl_ata_source.amount - price) as u64,
                                ..spl_ata_source
                            },
                            spl_ata_destination: TokenAccountV {
                                amount: (spl_ata_destination.amount + price) as u64,
                                ..spl_ata_destination
                            },
                            crop_ata_source: TokenAccountV {
                                amount: (crop_ata_source.amount - 1) as u64,
                                ..crop_ata_source
                            },
                            crop_ata_destination: TokenAccountV {
                                amount: (crop_ata_destination.amount + 1) as u64,
                                ..crop_ata_destination
                            },
                        },
                    )
                }
            },
        }
    }
}

/// Sell a crop: hand one crop unit to the authority's holding and receive
/// the collection-derived price from the authority's currency holding, under
/// the authority's signature for the pay-out leg.
pub fn sell_crop(
    farms_pda: &FarmsPda,
    farm_authority: &AuthorityContext,
    user_account: &Address,
    spl_ata_source: &mut TokenAccount,
    spl_ata_destination: &mut TokenAccount,
    spl_mint: &MintAccount,
    crop_ata_source: &mut TokenAccount,
    crop_ata_destination: &mut TokenAccount,
    crop_metadata: &AssetMetadata,
) -> (r: Result<(), FarmerHouseError>)
    requires
        old(crop_ata_destination)@.amount < u64::MAX,
        crop_metadata@.collection matches Some(c) ==> old(spl_ata_destination)@.amount
            + spec_crop_price(farms_pda@, c.key) <= u64::MAX,
    ensures
        match r {
            Ok(()) => sell_crop_spec(
                farms_pda@,
                user_account@,
                old(spl_ata_source)@,
                old(spl_ata_destination)@,
                spl_mint@,
                old(crop_ata_source)@,
                old(crop_ata_destination)@,
                crop_metadata@,
            ) == Ok::<SellCropOutcome, FarmerHouseError>(
                SellCropOutcome {
                    spl_ata_source: final(spl_ata_source)@,
                    spl_ata_destination: final(spl_ata_destination)@,
                    crop_ata_source: final(crop_ata_source)@,
                    crop_ata_destination: final(crop_ata_destination)@,
                },
            ),
            Err(e) => {
                &&& sell_crop_spec(
                    farms_pda@,
                    user_account@,
                    old(spl_ata_source)@,
                    old(spl_ata_destination)@,
                    spl_mint@,
                    old(crop_ata_source)@,
                    old(crop_ata_destination)@,
                    crop_metadata@,
                ) == Err::<SellCropOutcome, FarmerHouseError>(e)
                &&& final(spl_ata_source)@ == old(spl_ata_source)@
                &&& final(spl_ata_destination)@ == old(spl_ata_destination)@
                &&& final(crop_ata_source)@ == old(crop_ata_source)@
                &&& final(crop_ata_destination)@ == old(crop_ata_destination)@
            },
        },
{
    let token_id = spl_token_id();
    if !spl_ata_source.account_owner.eq_bytes(&token_id) {
        return Err(FarmerHouseError::OwnerMismatch);
    }
    if !spl_ata_destination.account_owner.eq_bytes(&token_id) {
        return Err(FarmerHouseError::OwnerMismatch);
    }
    if !spl_mint.account_owner.eq_bytes(&token_id) {
        return Err(FarmerHouseError::OwnerMismatch);
    }
    if !spl_mint.address.eq_address(&farms_pda.spl_mint_address) {
        return Err(FarmerHouseError::MintMismatch);
    }
    if !spl_ata_source.mint.eq_address(&spl_mint.address) {
        return Err(FarmerHouseError::MintMismatch);
    }
    if !spl_ata_destination.mint.eq_address(&spl_mint.address) {
        return Err(FarmerHouseError::MintMismatch);
    }
    if !crop_metadata.mint.eq_address(&crop_ata_source.mint) {
        return Err(FarmerHouseError::MintMismatch);
    }
    if !crop_metadata.mint.eq_address(&crop_ata_destination.mint) {
        return Err(FarmerHouseError::MintMismatch);
    }
    let collection = match read_collection(farms_pda, crop_metadata) {
        Ok(c) => c,
        Err(e) => {
            return Err(e);
        },
    };
    let price = crop_price(farms_pda, &collection.key);
    if spl_ata_source.amount < price {
        return Err(FarmerHouseError::AmountMismatch);
    }
    if crop_ata_source.amount < 1 {
        return Err(FarmerHouseError::AmountMismatch);
    }

    // Every check passed: apply both legs.
    crop_ata_source.amount = crop_ata_source.amount - 1;
    crop_ata_destination.amount = crop_ata_destination.amount + 1;
    spl_ata_source.amount = spl_ata_source.amount - price;
    spl_ata_destination.amount = spl_ata_destination.amount + price;
    Ok(())
}

/// Law: a crop sale pays the sapling price for a sapling-collection crop,
/// the ripe price for a ripe-collection crop, and the default price for any
/// other collection; on success both legs apply exactly.
pub proof fn lemma_sell_crop_price(
    pda: FarmsPdaV,
    user_account: Seq<u8>,
    spl_ata_source: TokenAccountV,
    spl_ata_destination: TokenAccountV,
    spl_mint: MintAccountV,
    crop_ata_source: TokenAccountV,
    crop_ata_destination: TokenAccountV,
    crop_metadata: AssetMetadataV,
)
    requires
        crop_ata_destination.amount < u64::MAX,
        crop_metadata.collection matches Some(c) ==> spl_ata_destination.amount + spec_crop_price(
            pda,
            c.key,
        ) <= u64::MAX,
        sell_crop_spec(
            pda,
            user_account,
            spl_ata_source,
            spl_ata_destination,
            spl_mint,
            crop_ata_source,
            crop_ata_destination,
            crop_metadata,
        ) is Ok,
    ensures
        ({
            let out = sell_crop_spec(
                pda,
                user_account,
                spl_ata_source,
                spl_ata_destination,
                spl_mint,
                crop_ata_source,
                crop_ata_destination,
                crop_metadata,
            )->Ok_0;
            let c = spec_read_collection(pda, crop_metadata)->Ok_0;
            let price = spec_crop_price(pda, c.key);
            &&& stage_of(pda, c.key) == Some(Stage::Sapling) ==> price == SAPLING_CROP_PRICE
            &&& stage_of(pda, c.key) == Some(Stage::Ripe) ==> price == RIPE_CROP_PRICE
            &&& (c.key != pda.tomato_sappling_collection_address && c.key
                != pda.ripe_tomato_collection_address) ==> price == DEFAULT_CROP_PRICE
            &&& out.spl_ata_source.amount == spl_ata_source.amount - price
            &&& out.spl_ata_destination.amount == spl_ata_destination.amount + price
            &&& out.crop_ata_source.amount == crop_ata_source.amount - 1
            &&& out.crop_ata_destination.amount == crop_ata_destination.amount + 1
        }),
{
}

} // verus!
