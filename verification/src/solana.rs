use vstd::prelude::*;

verus! {

// What the surrounding ledger computes for these rules: the identities of the
// collaborating services, and the deterministic derivation of program
// addresses. Each trusted item below names the outside item it relies on; the
// rest of the crate is proved against these contracts alone.

/// The address that `Pubkey::find_program_address` derives from the given
/// seeds under the given program identity, with its bump nonce, or `None`
/// where no bump yields a valid off-curve address. The derivation is a pure
/// digest of its arguments; its value is not spelled out here.
pub uninterp spec fn derived_address(seeds: Seq<Seq<u8>>, program_id: Seq<u8>) -> Option<(Seq<u8>, u8)>;

/// Relies on `anchor_lang::prelude::Pubkey::try_find_program_address`: a
/// deterministic function of the seeds and the program identity that returns
/// a 32-byte derived address and its bump nonce, or `None` where no candidate
/// bump yields a valid address.
#[verifier::external_body]
pub fn try_derive_address(seeds: &Vec<Vec<u8>>, program_id: &Vec<u8>) -> (r: Option<(Vec<u8>, u8)>)
    requires
        program_id@.len() == 32,
    ensures
        match r {
            Some(p) => {
                &&& derived_address(seeds.deep_view(), program_id@) == Some((p.0@, p.1))
                &&& p.0@.len() == 32
            },
            None => derived_address(seeds.deep_view(), program_id@) is None,
        },
{
    let mut key_bytes = [0u8; 32];
    key_bytes.copy_from_slice(program_id);
    let program = anchor_lang::prelude::Pubkey::new_from_array(key_bytes);
    let seed_slices: Vec<&[u8]> = seeds.iter().map(|s| s.as_slice()).collect();
    anchor_lang::prelude::Pubkey::try_find_program_address(&seed_slices, &program)
        .map(|(key, bump)| (key.to_bytes().to_vec(), bump))
}

/// Identity of the fungible-token service, byte for byte.
pub open spec fn spec_spl_token_id() -> Seq<u8> {
    seq![6u8, 221u8, 246u8, 225u8, 215u8, 101u8, 161u8, 147u8, 217u8, 203u8, 225u8, 70u8, 206u8, 235u8, 121u8, 172u8, 28u8, 180u8, 133u8, 237u8, 95u8, 91u8, 55u8, 145u8, 58u8, 140u8, 245u8, 133u8, 126u8, 255u8, 0u8, 169u8]
}

/// Relies on `anchor_spl::token::ID`: the constant identity
/// `TokenkegQfeZyiNwAJbNbGKPFXCWuBvf9Ss623VQ5DA` of the fungible-token service.
#[verifier::external_body]
pub fn spl_token_id() -> (r: Vec<u8>)
    ensures
        r@ == spec_spl_token_id(),
{
    anchor_spl::token::ID.to_bytes().to_vec()
}

/// Identity of the holding-account service, byte for byte.
pub open spec fn spec_associated_token_id() -> Seq<u8> {
    seq![140u8, 151u8, 37u8, 143u8, 78u8, 36u8, 137u8, 241u8, 187u8, 61u8, 16u8, 41u8, 20u8, 142u8, 13u8, 131u8, 11u8, 90u8, 19u8, 153u8, 218u8, 255u8, 16u8, 132u8, 4u8, 142u8, 123u8, 216u8, 219u8, 233u8, 248u8, 89u8]
}

/// Relies on `anchor_spl::associated_token::ID`: the constant identity
/// `ATokenGPvbdGVxr1b2hvZbsiqW5xWH25efTNsLJA8knL` of the holding-account service.
#[verifier::external_body]
pub fn associated_token_id() -> (r: Vec<u8>)
    ensures
        r@ == spec_associated_token_id(),
{
    anchor_spl::associated_token::ID.to_bytes().to_vec()
}

/// Identity of the asset metadata service, byte for byte.
pub open spec fn spec_token_metadata_id() -> Seq<u8> {
    seq![11u8, 112u8, 101u8, 177u8, 227u8, 209u8, 124u8, 69u8, 56u8, 157u8, 82u8, 127u8, 107u8, 4u8, 195u8, 205u8, 88u8, 184u8, 108u8, 115u8, 26u8, 160u8, 253u8, 181u8, 73u8, 182u8, 209u8, 188u8, 3u8, 248u8, 41u8, 70u8]
}

/// Relies on `mpl_token_metadata::ID`: the constant identity
/// `metaqbxxUerdq28cj1RbAWkYQm3ybzjb6a8bt518x1s` of the asset metadata service.
#[verifier::external_body]
pub fn token_metadata_id() -> (r: Vec<u8>)
    ensures
        r@ == spec_token_metadata_id(),
{
    mpl_token_metadata::ID.to_bytes().to_vec()
}

/// Identity of the custody/escrow service, byte for byte.
pub open spec fn spec_trifle_id() -> Seq<u8> {
    seq![13u8, 72u8, 214u8, 130u8, 3u8, 98u8, 165u8, 203u8, 255u8, 0u8, 32u8, 223u8, 52u8, 204u8, 151u8, 222u8, 89u8, 77u8, 205u8, 122u8, 201u8, 106u8, 44u8, 70u8, 69u8, 214u8, 229u8, 36u8, 240u8, 77u8, 31u8, 56u8]
}

/// Relies on `mpl_trifle::ID`: the constant identity
/// `trifMWutwBxkSuatmpPVnEe7NoE3BJKgjVi8sSyoXWX` of the custody/escrow service.
#[verifier::external_body]
pub fn trifle_id() -> (r: Vec<u8>)
    ensures
        r@ == spec_trifle_id(),
{
    mpl_trifle::ID.to_bytes().to_vec()
}

/// Identity of the instruction-introspection sysvar, byte for byte.
pub open spec fn spec_instructions_sysvar_id() -> Seq<u8> {
    seq![6u8, 167u8, 213u8, 23u8, 24u8, 123u8, 209u8, 102u8, 53u8, 218u8, 212u8, 4u8, 85u8, 253u8, 194u8, 192u8, 193u8, 36u8, 198u8, 143u8, 33u8, 86u8, 117u8, 165u8, 219u8, 186u8, 203u8, 95u8, 8u8, 0u8, 0u8, 0u8]
}

/// Relies on `anchor_lang::solana_program::sysvar::instructions::ID`: the constant identity
/// `Sysvar1nstructions1111111111111111111111111` of the instruction-introspection sysvar.
#[verifier::external_body]
pub fn instructions_sysvar_id() -> (r: Vec<u8>)
    ensures
        r@ == spec_instructions_sysvar_id(),
{
    anchor_lang::solana_program::sysvar::instructions::ID.to_bytes().to_vec()
}

/// The seed string under which the custody service derives its escrow
/// records: the bytes of "trifle".
pub open spec fn spec_trifle_escrow_seed() -> Seq<u8> {
    seq![116u8, 114u8, 105u8, 102u8, 108u8, 101u8]
}

/// Relies on `mpl_trifle::state::TRIFLE_SEED`: the constant seed string
/// "trifle" under which the custody service derives its escrow records.
#[verifier::external_body]
pub fn trifle_escrow_seed() -> (r: Vec<u8>)
    ensures
        r@ == spec_trifle_escrow_seed(),
{
    mpl_trifle::state::TRIFLE_SEED.as_bytes().to_vec()
}

/// Identity of these rules themselves, byte for byte: the program identity
/// under which the signing authority is derived.
pub open spec fn spec_farmer_house_id() -> Seq<u8> {
    seq![218u8, 7u8, 92u8, 178u8, 255u8, 94u8, 198u8, 129u8, 118u8, 19u8, 222u8, 83u8, 11u8, 105u8, 42u8, 135u8, 53u8, 71u8, 119u8, 105u8, 218u8, 71u8, 67u8, 12u8, 189u8, 129u8, 84u8, 51u8, 92u8, 74u8, 131u8, 39u8]
}

/// The identity these rules are deployed under.
pub fn farmer_house_id() -> (r: Vec<u8>)
    ensures
        r@ == spec_farmer_house_id(),
{
    let r: Vec<u8> = vec![218u8, 7u8, 92u8, 178u8, 255u8, 94u8, 198u8, 129u8, 118u8, 19u8, 222u8, 83u8, 11u8, 105u8, 42u8, 135u8, 53u8, 71u8, 119u8, 105u8, 218u8, 71u8, 67u8, 12u8, 189u8, 129u8, 84u8, 51u8, 92u8, 74u8, 131u8, 39u8];
    r
}

} // verus!
