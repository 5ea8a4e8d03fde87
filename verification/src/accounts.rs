use vstd::prelude::*;

verus! {

use crate::address::Address;
use crate::errors::FarmerHouseError;
use crate::FarmsPda;

// The plain-value records that the operations read and mutate. Each mirrors
// what the surrounding ledger hands over for one account: a holding account's
// balance, an asset's metadata, a mint or program account's owner. The caller
// of these rules reads the accounts, hands the values in, applies the
// resulting state outward, and the rules themselves are proved over these
// records alone.

/// A holding account: associates a balance of one mint with its holder.
#[derive(Debug)]
pub struct TokenAccount {
    /// The service that owns the account record itself.
    pub account_owner: Address,
    /// The holder whose balance this is.
    pub owner: Address,
    /// The mint whose units are held.
    pub mint: Address,
    /// The held quantity, in minor units.
    pub amount: u64,
}

#[verifier::ext_equal]
pub struct TokenAccountV {
    pub account_owner: Seq<u8>,
    pub owner: Seq<u8>,
    pub mint: Seq<u8>,
    pub amount: u64,
}

impl View for TokenAccount {
    type V = TokenAccountV;

    open spec fn view(&self) -> TokenAccountV {
        TokenAccountV {
            account_owner: self.account_owner@,
            owner: self.owner@,
            mint: self.mint@,
            amount: self.amount,
        }
    }
}

/// A mint account: the identity of a token kind and the service that owns
/// its record.
#[derive(Debug)]
pub struct MintAccount {
    pub address: Address,
    pub account_owner: Address,
}

#[verifier::ext_equal]
pub struct MintAccountV {
    pub address: Seq<u8>,
    pub account_owner: Seq<u8>,
}

impl View for MintAccount {
    type V = MintAccountV;

    open spec fn view(&self) -> MintAccountV {
        MintAccountV { address: self.address@, account_owner: self.account_owner@ }
    }
}

/// Any other ledger account of which the rules only read the address and the
/// owning service.
#[derive(Debug)]
pub struct ProgramAccount {
    pub address: Address,
    pub account_owner: Address,
}

#[verifier::ext_equal]
pub struct ProgramAccountV {
    pub address: Seq<u8>,
    pub account_owner: Seq<u8>,
}

impl View for ProgramAccount {
    type V = ProgramAccountV;

    open spec fn view(&self) -> ProgramAccountV {
        ProgramAccountV { address: self.address@, account_owner: self.account_owner@ }
    }
}

/// An asset's collection marker: the collection it claims to belong to, and
/// whether the marker has been verified by the collection's authority.
#[derive(Debug)]
pub struct CollectionRef {
    pub key: Address,
    pub verified: bool,
}

#[verifier::ext_equal]
pub struct CollectionRefV {
    pub key: Seq<u8>,
    pub verified: bool,
}

impl View for CollectionRef {
    type V = CollectionRefV;

    open spec fn view(&self) -> CollectionRefV {
        CollectionRefV { key: self.key@, verified: self.verified }
    }
}

/// The token standard an asset's metadata declares.
#[derive(Clone, Copy, Debug, PartialEq, Eq, Structural)]
pub enum TokenStandard {
    NonFungible,
    FungibleAsset,
    Fungible,
    NonFungibleEdition,
    ProgrammableNonFungible,
}

/// What the metadata service reports for one asset: its mint, its display
/// data, its collection marker and its token standard. These rules treat the
/// report as authoritative for collection membership.
#[derive(Debug)]
pub struct AssetMetadata {
    pub mint: Address,
    pub name: String,
    pub symbol: String,
    pub uri: String,
    pub seller_fee_basis_points: u16,
    pub collection: Option<CollectionRef>,
    pub token_standard: Option<TokenStandard>,
}

#[verifier::ext_equal]
pub struct AssetMetadataV {
    pub mint: Seq<u8>,
    pub name: Seq<char>,
    pub symbol: Seq<char>,
    pub uri: Seq<char>,
    pub seller_fee_basis_points: u16,
    pub collection: Option<CollectionRefV>,
    pub token_standard: Option<TokenStandard>,
}

impl View for AssetMetadata {
    type V = AssetMetadataV;

    open spec fn view(&self) -> AssetMetadataV {
        AssetMetadataV {
            mint: self.mint@,
            name: self.name@,
            symbol: self.symbol@,
            uri: self.uri@,
            seller_fee_basis_points: self.seller_fee_basis_points,
            collection: match self.collection {
                Option::None => Option::None,
                Option::Some(c) => Option::Some(c@),
            },
            token_standard: self.token_standard,
        }
    }
}

/// What a master-edition record holds, as far as these rules read it.
#[derive(Clone, Copy, Debug, PartialEq, Eq, Structural)]
pub struct MasterEditionData {
    pub max_supply: Option<u64>,
}

/// A master-edition account: its address, its owning service, and its parsed
/// record, or `None` where the account does not hold a well-formed record.
#[derive(Debug)]
pub struct MasterEditionAccount {
    pub address: Address,
    pub account_owner: Address,
    pub data: Option<MasterEditionData>,
}

#[verifier::ext_equal]
pub struct MasterEditionAccountV {
    pub address: Seq<u8>,
    pub account_owner: Seq<u8>,
    pub data: Option<MasterEditionData>,
}

impl View for MasterEditionAccount {
    type V = MasterEditionAccountV;

    open spec fn view(&self) -> MasterEditionAccountV {
        MasterEditionAccountV {
            address: self.address@,
            account_owner: self.account_owner@,
            data: self.data,
        }
    }
}

/// The identities under which the caller presented the collaborating
/// services in one operation. Every operation compares the ones it relies on
/// against the expected, configured identities before anything moves.
#[derive(Debug)]
pub struct ServicePrograms {
    pub token_program: Address,
    pub associated_token_program: Address,
    pub token_metadata_program: Address,
    pub trifle_program: Address,
    pub farmer_house_program: Address,
    pub instructions: Address,
}

#[verifier::ext_equal]
pub struct ServiceProgramsV {
    pub token_program: Seq<u8>,
    pub associated_token_program: Seq<u8>,
    pub token_metadata_program: Seq<u8>,
    pub trifle_program: Seq<u8>,
    pub farmer_house_program: Seq<u8>,
    pub instructions: Seq<u8>,
}

impl View for ServicePrograms {
    type V = ServiceProgramsV;

    open spec fn view(&self) -> ServiceProgramsV {
        ServiceProgramsV {
            token_program: self.token_program@,
            associated_token_program: self.associated_token_program@,
            token_metadata_program: self.token_metadata_program@,
            trifle_program: self.trifle_program@,
            farmer_house_program: self.farmer_house_program@,
            instructions: self.instructions@,
        }
    }
}

/// Reading an asset's collection marker: absent markers are rejected as a
/// collection mismatch, and unverified markers are rejected when the
/// configuration demands verified ones.
pub open spec fn spec_read_collection(pda: crate::FarmsPdaV, meta: AssetMetadataV) -> Result<
    CollectionRefV,
    FarmerHouseError,
> {
    match meta.collection {
        Option::None => Err(FarmerHouseError::CollectionMismatch),
        Option::Some(c) => if pda.require_verified_collections && !c.verified {
            Err(FarmerHouseError::CollectionNotVerified)
        } else {
            Ok(c)
        },
    }
}

/// The collection marker an operation may rely on, per `spec_read_collection`.
pub fn read_collection<'a>(pda: &FarmsPda, meta: &'a AssetMetadata) -> (r: Result<
    &'a CollectionRef,
    FarmerHouseError,
>)
    ensures
        match r {
            Ok(c) => spec_read_collection(pda@, meta@) == Ok::<CollectionRefV, FarmerHouseError>(c@),
            Err(e) => spec_read_collection(pda@, meta@) == Err::<CollectionRefV, FarmerHouseError>(e),
        },
{
    match &meta.collection {
        Option::None => Err(FarmerHouseError::CollectionMismatch),
        Option::Some(c) => {
            if pda.require_verified_collections && !c.verified {
                Err(FarmerHouseError::CollectionNotVerified)
            } else {
                Ok(c)
            }
        },
    }
}

} // verus!
