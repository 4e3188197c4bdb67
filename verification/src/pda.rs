//! The addresses that the sprite manager derives.

use crate::error::SpriteManagerError;
use crate::pubkey::Pubkey;
use crate::state::PREFIX;
use vstd::prelude::*;
use vstd::slice::slice_to_vec;
use vstd::string::{is_ascii, is_ascii_spec_bytes};

verus! {

/// The address that `seeds` derive under the program `program_id`, with the bump seed that
/// was found for it, or nothing where no bump seed gives an address. This names what
/// `Pubkey::try_find_program_address` of `solana_program` computes: a hash of the seeds, of a
/// bump seed and of the program's address, tried with falling bump seeds until the hash is no
/// point of the curve.
pub uninterp spec fn program_address(seeds: Seq<Seq<u8>>, program_id: Seq<u8>) -> Option<
    (Seq<u8>, u8),
>;

/// The address that `seeds` give under the program `program_id` as they are, with no bump
/// seed looked for, or nothing where their hash is a point of the curve or where they are
/// too many or too long. This names what `Pubkey::create_program_address` of
/// `solana_program` computes.
pub uninterp spec fn created_program_address(seeds: Seq<Seq<u8>>, program_id: Seq<u8>) -> Option<
    Seq<u8>,
>;

/// The seeds with a bump seed behind them.
pub open spec fn spec_with_bump(seeds: Seq<Seq<u8>>, bump: u8) -> Seq<Seq<u8>> {
    seeds.push(seq![bump])
}

/// Whether `found` is what a search for an address from the highest bump seed down comes
/// to: the bump seed is the first, from 255 down to 1, with which the seeds give an
/// address, and the address is the one they give with it; or nothing was found and the
/// seeds give no address with any of these bump seeds.
pub open spec fn spec_is_first_address(
    seeds: Seq<Seq<u8>>,
    program_id: Seq<u8>,
    found: Option<(Seq<u8>, u8)>,
) -> bool {
    match found {
        Some((address, bump)) => {
            &&& bump >= 1
            &&& created_program_address(spec_with_bump(seeds, bump), program_id) == Some(address)
            &&& forall|higher: u8|
                bump < higher ==> created_program_address(
                    #[trigger] spec_with_bump(seeds, higher),
                    program_id,
                ) is None
        },
        None => forall|bump: u8|
            bump >= 1 ==> created_program_address(
                #[trigger] spec_with_bump(seeds, bump),
                program_id,
            ) is None,
    }
}

/// What a search found, as it is in contracts.
pub open spec fn spec_found(found: Option<(Pubkey, u8)>) -> Option<(Seq<u8>, u8)> {
    match found {
        Some((address, bump)) => Some((address@, bump)),
        None => None,
    }
}

/// `Pubkey::try_find_program_address` of `solana_program`: its result is a function of the
/// seeds and of the program's address alone, named `program_address`. It tries the bump
/// seeds from 255 down to 1, each behind the seeds as `Pubkey::create_program_address`
/// takes them, and returns the first address that this gives and its bump seed. It returns
/// nothing rather than panic where no bump seed gives an address, which is also so where
/// the seeds are too many or too long.
#[verifier::external_body]
pub(crate) fn try_find_program_address(seeds: &Vec<Vec<u8>>, program_id: &Pubkey) -> (res: Option<
    (Pubkey, u8),
>)
    ensures
        spec_found(res) == program_address(spec_seeds(seeds@), program_id@),
        match res {
            Some((address, bump)) => {
                &&& bump >= 1
                &&& created_program_address(
                    spec_with_bump(spec_seeds(seeds@), bump),
                    program_id@,
                ) == Some(address@)
                &&& forall|higher: u8|
                    bump < higher ==> created_program_address(
                        #[trigger] spec_with_bump(spec_seeds(seeds@), higher),
                        program_id@,
                    ) is None
            },
            None => forall|bump: u8|
                bump >= 1 ==> created_program_address(
                    #[trigger] spec_with_bump(spec_seeds(seeds@), bump),
                    program_id@,
                ) is None,
        },
{
    let seeds: Vec<&[u8]> = seeds.iter().map(|seed| seed.as_slice()).collect();
    let program_id = solana_program::pubkey::Pubkey::new_from_array(program_id.bytes);
    match solana_program::pubkey::Pubkey::try_find_program_address(&seeds, &program_id) {
        Some((address, bump)) => Some((Pubkey { bytes: address.to_bytes() }, bump)),
        None => None,
    }
}

/// The seeds of a derivation as byte strings.
pub open spec fn spec_seeds(seeds: Seq<Vec<u8>>) -> Seq<Seq<u8>> {
    seeds.map_values(|seed: Vec<u8>| seed@)
}

/// The bytes of the word that all addresses of the sprite manager are derived from.
pub open spec fn spec_prefix() -> Seq<u8> {
    seq![115u8, 112, 114, 105, 116, 101]
}

/// The seeds of the registry of the base item `mint`.
pub open spec fn spec_sprite_seeds(mint: Seq<u8>) -> Seq<Seq<u8>> {
    seq![spec_prefix(), mint]
}

/// The address of the registry of the base item `mint`, and its bump seed.
pub open spec fn spec_sprite_address(mint: Seq<u8>) -> Option<(Seq<u8>, u8)> {
    program_address(spec_sprite_seeds(mint), crate::spec_id())
}

/// The bytes of the word that all addresses of the sprite manager are derived from.
pub fn prefix() -> (bytes: Vec<u8>)
    ensures
        bytes@ == spec_prefix(),
{
    let bytes = slice_to_vec(PREFIX.as_bytes());
    proof {
        reveal_strlit("sprite");
        assert(is_ascii(PREFIX));
        is_ascii_spec_bytes(PREFIX);
        assert(bytes@ =~= spec_prefix());
    }
    bytes
}

/// The seeds of the registry of the base item `mint`.
pub fn sprite_seeds(mint: &Pubkey) -> (seeds: Vec<Vec<u8>>)
    ensures
        spec_seeds(seeds@) == spec_sprite_seeds(mint@),
{
    let mut seeds: Vec<Vec<u8>> = Vec::new();
    seeds.push(prefix());
    seeds.push(mint.to_vec());
    assert(spec_seeds(seeds@) =~= spec_sprite_seeds(mint@));
    seeds
}

/// The seeds with which the sprite manager signs for the registry of the base item `mint`.
pub open spec fn spec_sprite_signer_seeds(mint: Seq<u8>, bump: u8) -> Seq<Seq<u8>> {
    seq![spec_prefix(), mint, seq![bump]]
}

/// The seeds with which the sprite manager signs for the registry of the base item `mint`:
/// the seeds of the registry and the bump seed of its address.
pub fn sprite_signer_seeds(mint: &Pubkey, bump: u8) -> (seeds: Vec<Vec<u8>>)
    ensures
        spec_seeds(seeds@) == spec_sprite_signer_seeds(mint@, bump),
{
    let mut bump_seed: Vec<u8> = Vec::new();
    bump_seed.push(bump);
    let mut seeds: Vec<Vec<u8>> = Vec::new();
    seeds.push(prefix());
    seeds.push(mint.to_vec());
    seeds.push(bump_seed);
    assert(spec_seeds(seeds@) =~= spec_sprite_signer_seeds(mint@, bump));
    seeds
}

/// Whether `res` is what the derivation of the registry's address of `mint` comes to: the
/// address and the bump seed that the seeds derive, which is the first address that the
/// bump seeds from 255 down give, and a failure where they derive none.
pub open spec fn spec_is_sprite_address(
    mint: Seq<u8>,
    res: Result<(Pubkey, u8), SpriteManagerError>,
) -> bool {
    match res {
        Ok((address, bump)) => {
            &&& spec_sprite_address(mint) == Some((address@, bump))
            &&& spec_is_first_address(
                spec_sprite_seeds(mint),
                crate::spec_id(),
                Some((address@, bump)),
            )
        },
        Err(e) => {
            &&& e == SpriteManagerError::DerivedKeyInvalid
            &&& spec_sprite_address(mint) is None
            &&& spec_is_first_address(spec_sprite_seeds(mint), crate::spec_id(), None)
        },
    }
}

/// Derives the address of the registry of the base item `mint`. Where the seeds derive no
/// address at all, the derivation fails.
pub fn find_sprite_address(mint: &Pubkey) -> (res: Result<(Pubkey, u8), SpriteManagerError>)
    ensures
        spec_is_sprite_address(mint@, res),
{
    let seeds = sprite_seeds(mint);
    match try_find_program_address(&seeds, &crate::id()) {
        Some(found) => Ok(found),
        None => Err(SpriteManagerError::DerivedKeyInvalid),
    }
}

/// The derivation is a function of the base item: whatever it comes to for a base item, it
/// comes to the same each time.
pub proof fn lemma_find_sprite_address_deterministic(
    mint: Pubkey,
    first: Result<(Pubkey, u8), SpriteManagerError>,
    second: Result<(Pubkey, u8), SpriteManagerError>,
)
    requires
        spec_is_sprite_address(mint@, first),
        spec_is_sprite_address(mint@, second),
    ensures
        first == second,
{
    match (first, second) {
        (Ok((a, _)), Ok((b, _))) => {
            crate::pubkey::lemma_pubkey_ext(a, b);
        },
        _ => {},
    }
}

} // verus!
