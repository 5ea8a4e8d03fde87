use vstd::prelude::*;

verus! {

use crate::accounts::{TokenAccount, TokenAccountV};
use crate::address::Address;
use crate::authority::{derive_authority, spec_farm_authority, AuthorityContext, AuthorityContextV};
use crate::errors::FarmerHouseError;
use crate::escrow::{
    constraints_as_map, EscrowConstraintModel, EscrowConstraintModelV, SlotConstraint,
    SlotConstraintV,
};
use crate::solana::{spec_instructions_sysvar_id, instructions_sysvar_id, spec_spl_token_id, spl_token_id};
use crate::{FarmsPda, FarmsPdaV};

// Initialization: the one-time creation of the configuration record with its
// derived signing identity, and the registration of the escrow policy that
// custody transfers are checked against.

/// The registry holding the singleton configuration. The surrounding ledger
/// keys the record by a derived address and so guarantees at most one per
/// deployment; installing over an existing record is refused, and
/// re-initialization is not supported.
pub struct ConfigRegistry {
    pub config: Option<FarmsPda>,
}

impl ConfigRegistry {
    pub fn new() -> (r: ConfigRegistry)
        ensures
            r.config is None,
    {
        ConfigRegistry { config: None }
    }

    pub fn is_initialized(&self) -> (r: bool)
        ensures
            r == (self.config is Some),
    {
        match &self.config {
            Some(_) => true,
            None => false,
        }
    }

    /// Install the configuration once. Refused, with nothing changed, where
    /// a configuration is already installed.
    pub fn install(&mut self, config: FarmsPda) -> (r: bool)
        ensures
            r == (old(self).config is None),
            r ==> final(self).config == Some(config),
            !r ==> final(self).config == old(self).config,
    {
        match &self.config {
            Some(_) => false,
            None => {
                self.config = Some(config);
                true
            },
        }
    }

    pub fn config(&self) -> (r: Option<&FarmsPda>)
        ensures
            match r {
                Some(c) => self.config == Some(*c),
                None => self.config is None,
            },
    {
        match &self.config {
            Some(c) => Some(c),
            None => None,
        }
    }
}

/// What initialization computes: with the authority's signature, the signing
/// identity is derived for the program, the configuration record is laid out
/// with its bump nonce, and the authority's currency holding is provisioned
/// empty, held by the derived identity.
pub open spec fn init_farms_pda_spec(
    program_id: Seq<u8>,
    pda_authority: Seq<u8>,
    authority_signed: bool,
    spl_mint: Seq<u8>,
    tomato_seed_collection_address: Seq<u8>,
    tomato_sappling_collection_address: Seq<u8>,
    ripe_tomato_collection_address: Seq<u8>,
    field_collection_address: Seq<u8>,
    require_verified_collections: bool,
) -> Result<(FarmsPdaV, TokenAccountV), FarmerHouseError> {
    if !authority_signed {
        Err(FarmerHouseError::MissingRequiredSignature)
    } else {
        match spec_farm_authority(program_id) {
            None => Err(FarmerHouseError::ProgramMismatch),
            Some(p) => Ok(
                (
                    FarmsPdaV {
                        bump: p.1,
                        authority_address: pda_authority,
                        spl_mint_address: spl_mint,
                        tomato_seed_collection_address,
                        tomato_sappling_collection_address,
                        ripe_tomato_collection_address,
                        field_collection_address,
                        require_verified_collections,
                    },
                    TokenAccountV {
                        account_owner: spec_spl_token_id(),
                        owner: p.0,
                        mint: spl_mint,
                        amount: 0,
                    },
                ),
            ),
        }
    }
}

/// Initialize the configuration: derive the signing identity for the
/// program, record the collection and currency identities, and provision the
/// authority's empty currency holding. Fails where the authority did not
/// sign, or where the ledger's derivation yields no signing identity.
pub fn init_farms_pda(
    program_id: &Address,
    pda_authority: &Address,
    authority_signed: bool,
    spl_mint: &Address,
    tomato_seed_collection_address: Address,
    tomato_sappling_collection_address: Address,
    ripe_tomato_collection_address: Address,
    field_collection_address: Address,
    require_verified_collections: bool,
) -> (r: Result<(FarmsPda, TokenAccount), FarmerHouseError>)
    requires
        program_id@.len() == 32,
    ensures
        match r {
            Ok(p) => init_farms_pda_spec(
                program_id@,
                pda_authority@,
                authority_signed,
                spl_mint@,
                tomato_seed_collection_address@,
                tomato_sappling_collection_address@,
                ripe_tomato_collection_address@,
                field_collection_address@,
                require_verified_collections,
            ) == Ok::<(FarmsPdaV, TokenAccountV), FarmerHouseError>((p.0@, p.1@)),
            Err(e) => init_farms_pda_spec(
                program_id@,
                pda_authority@,
                authority_signed,
                spl_mint@,
                tomato_seed_collection_address@,
                tomato_sappling_collection_address@,
                ripe_tomato_collection_address@,
                field_collection_address@,
                require_verified_collections,
            ) == Err::<(FarmsPdaV, TokenAccountV), FarmerHouseError>(e),
        },
{
    if !authority_signed {
        return Err(FarmerHouseError::MissingRequiredSignature);
    }
    let auth = match derive_authority(program_id) {
        Some(a) => a,
        None => {
            return Err(FarmerHouseError::ProgramMismatch);
        },
    };
    let pda = FarmsPda {
        bump: auth.bump,
        authority_address: pda_authority.dup(),
        spl_mint_address: spl_mint.dup(),
        tomato_seed_collection_address,
        tomato_sappling_collection_address,
        ripe_tomato_collection_address,
        field_collection_address,
        require_verified_collections,
    };
    let treasury = TokenAccount {
        account_owner: Address::new(spl_token_id()),
        owner: auth.address,
        mint: spl_mint.dup(),
        amount: 0,
    };
    Ok((pda, treasury))
}

/// One registered escrow slot's policy: a single unit, restricted to the
/// seed collection.
pub open spec fn registered_constraint(seed_collection_mint: Seq<u8>) -> SlotConstraintV {
    SlotConstraintV { token_limit: 1, allowed_collection: seed_collection_mint, transfer_effects: 1 }
}

/// The six slot policies these rules register, by name.
pub open spec fn registered_constraints(seed_collection_mint: Seq<u8>) -> Map<
    Seq<char>,
    SlotConstraintV,
> {
    Map::<Seq<char>, SlotConstraintV>::empty().insert(
        "a1"@,
        registered_constraint(seed_collection_mint),
    ).insert("a2"@, registered_constraint(seed_collection_mint)).insert(
        "a3"@,
        registered_constraint(seed_collection_mint),
    ).insert("b1"@, registered_constraint(seed_collection_mint)).insert(
        "b2"@,
        registered_constraint(seed_collection_mint),
    ).insert("b3"@, registered_constraint(seed_collection_mint))
}

/// What constraint-model registration computes: with the registered
/// authority's signature, the expected instruction-introspection sysvar and
/// the configured seed collection, the escrow policy object is created with
/// the six named slots, each holding at most one unit of the seed
/// collection. Registration of the slots is atomic: either the model carries
/// all six, or the operation fails and no model exists.
pub open spec fn init_constraint_model_spec(
    pda: FarmsPdaV,
    farm_authority: AuthorityContextV,
    pda_authority: Seq<u8>,
    authority_signed: bool,
    instructions: Seq<u8>,
    tomato_seed_collection_mint: Seq<u8>,
    name: Seq<char>,
    schema_uri: Seq<char>,
) -> Result<EscrowConstraintModelV, FarmerHouseError> {
    if !authority_signed {
        Err(FarmerHouseError::MissingRequiredSignature)
    } else if pda_authority != pda.authority_address {
        Err(FarmerHouseError::AuthorityMismatch)
    } else if instructions != spec_instructions_sysvar_id() {
        Err(FarmerHouseError::ProgramMismatch)
    } else if tomato_seed_collection_mint != pda.tomato_seed_collection_address {
        Err(FarmerHouseError::CollectionMismatch)
    } else {
        Ok(
            EscrowConstraintModelV {
                name,
                schema_uri,
                creator: pda_authority,
                update_authority: farm_authority.address,
                constraints: registered_constraints(tomato_seed_collection_mint),
            },
        )
    }
}

/// Create the escrow policy object and register the six named slot
/// constraints, each restricted to one unit of the seed collection.
pub fn init_constraint_model(
    farms_pda: &FarmsPda,
    farm_authority: &AuthorityContext,
    pda_authority: &Address,
    authority_signed: bool,
    instructions: &Address,
    tomato_seed_collection_mint: &Address,
    name: String,
    schema_uri: String,
) -> (r: Result<EscrowConstraintModel, FarmerHouseError>)
    ensures
        match r {
            Ok(m) => {
                &&& init_constraint_model_spec(
                    farms_pda@,
                    farm_authority@,
                    pda_authority@,
                    authority_signed,
                    instructions@,
                    tomato_seed_collection_mint@,
                    name@,
                    schema_uri@,
                ) == Ok::<EscrowConstraintModelV, FarmerHouseError>(m@)
                &&& m.wf()
            },
            Err(e) => init_constraint_model_spec(
                farms_pda@,
                farm_authority@,
                pda_authority@,
                authority_signed,
                instructions@,
                tomato_seed_collection_mint@,
                name@,
                schema_uri@,
            ) == Err::<EscrowConstraintModelV, FarmerHouseError>(e),
        },
{
    if !authority_signed {
        return Err(FarmerHouseError::MissingRequiredSignature);
    }
    if !pda_authority.eq_address(&farms_pda.authority_address) {
        return Err(FarmerHouseError::AuthorityMismatch);
    }
    if !instructions.eq_bytes(&instructions_sysvar_id()) {
        return Err(FarmerHouseError::ProgramMismatch);
    }
    if !tomato_seed_collection_mint.eq_address(&farms_pda.tomato_seed_collection_address) {
        return Err(FarmerHouseError::CollectionMismatch);
    }
    let mut constraints: Vec<SlotConstraint> = Vec::new();
    constraints.push(
        SlotConstraint {
            name: "a1".to_owned(),
            token_limit: 1,
            allowed_collection: tomato_seed_collection_mint.dup(),
            transfer_effects: 1,
        },
    );
    constraints.push(
        SlotConstraint {
            name: "a2".to_owned(),
            token_limit: 1,
            allowed_collection: tomato_seed_collection_mint.dup(),
            transfer_effects: 1,
        },
    );
    constraints.push(
        SlotConstraint {
            name: "a3".to_owned(),
            token_limit: 1,
            allowed_collection: tomato_seed_collection_mint.dup(),
            transfer_effects: 1,
        },
    );
    constraints.push(
        SlotConstraint {
            name: "b1".to_owned(),
            token_limit: 1,
            allowed_collection: tomato_seed_collection_mint.dup(),
            transfer_effects: 1,
        },
    );
    constraints.push(
        SlotConstraint {
            name: "b2".to_owned(),
            token_limit: 1,
            allowed_collection: tomato_seed_collection_mint.dup(),
            transfer_effects: 1,
        },
    );
    constraints.push(
        SlotConstraint {
            name: "b3".to_owned(),
            token_limit: 1,
            allowed_collection: tomato_seed_collection_mint.dup(),
            transfer_effects: 1,
        },
    );
    let model = EscrowConstraintModel {
        name,
        schema_uri,
        creator: pda_authority.dup(),
        update_authority: farm_authority.address.dup(),
        constraints,
    };
    proof {
        broadcast use vstd::string::group_string_axioms;

        reveal_strlit("a1");
        reveal_strlit("a2");
        reveal_strlit("a3");
        reveal_strlit("b1");
        reveal_strlit("b2");
        reveal_strlit("b3");
        let cs = model.constraints@;
        let c = registered_constraint(tomato_seed_collection_mint@);
        let m0 = Map::<Seq<char>, SlotConstraintV>::empty();
        let s0 = cs.subrange(0, 0);
        let s1 = cs.subrange(0, 1);
        let s2 = cs.subrange(0, 2);
        let s3 = cs.subrange(0, 3);
        let s4 = cs.subrange(0, 4);
        let s5 = cs.subrange(0, 5);
        assert(cs.len() == 6);
        assert(s0 =~= Seq::<SlotConstraint>::empty());
        assert(s1.drop_last() =~= s0 && s1.last() == cs[0]);
        assert(s2.drop_last() =~= s1 && s2.last() == cs[1]);
        assert(s3.drop_last() =~= s2 && s3.last() == cs[2]);
        assert(s4.drop_last() =~= s3 && s4.last() == cs[3]);
        assert(s5.drop_last() =~= s4 && s5.last() == cs[4]);
        assert(cs.drop_last() =~= s5 && cs.last() == cs[5]);
        assert(constraints_as_map(s0) =~= m0);
        assert(constraints_as_map(s1) =~= m0.insert("a1"@, c));
        assert(constraints_as_map(s2) =~= m0.insert("a1"@, c).insert("a2"@, c));
        assert(constraints_as_map(s3) =~= m0.insert("a1"@, c).insert("a2"@, c).insert("a3"@, c));
        assert(constraints_as_map(s4) =~= m0.insert("a1"@, c).insert("a2"@, c).insert(
            "a3"@,
            c,
        ).insert("b1"@, c));
        assert(constraints_as_map(s5) =~= m0.insert("a1"@, c).insert("a2"@, c).insert(
            "a3"@,
            c,
        ).insert("b1"@, c).insert("b2"@, c));
        assert(constraints_as_map(cs) =~= registered_constraints(tomato_seed_collection_mint@));
        assert(cs[0].name@ == "a1"@ && cs[1].name@ == "a2"@ && cs[2].name@ == "a3"@
            && cs[3].name@ == "b1"@ && cs[4].name@ == "b2"@ && cs[5].name@ == "b3"@);
        assert("a1"@[0] == 'a' && "a1"@[1] == '1');
        assert("a2"@[0] == 'a' && "a2"@[1] == '2');
        assert("a3"@[0] == 'a' && "a3"@[1] == '3');
        assert("b1"@[0] == 'b' && "b1"@[1] == '1');
        assert("b2"@[0] == 'b' && "b2"@[1] == '2');
        assert("b3"@[0] == 'b' && "b3"@[1] == '3');
        assert("a1"@ != "a2"@ && "a1"@ != "a3"@ && "a1"@ != "b1"@ && "a1"@ != "b2"@ && "a1"@
            != "b3"@);
        assert("a2"@ != "a3"@ && "a2"@ != "b1"@ && "a2"@ != "b2"@ && "a2"@ != "b3"@);
        assert("a3"@ != "b1"@ && "a3"@ != "b2"@ && "a3"@ != "b3"@);
        assert("b1"@ != "b2"@ && "b1"@ != "b3"@);
        assert("b2"@ != "b3"@);
        assert(forall|i: int, j: int| 0 <= i < j < cs.len() ==> cs[i].name@ != cs[j].name@);
        assert(model.wf());
    }
    Ok(model)
}

} // verus!
