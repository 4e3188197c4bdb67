//! The addresses of the programs that the sprite manager names.

use crate::pubkey::Pubkey;
use vstd::prelude::*;

verus! {

/// The address of the token program.
pub open spec fn spec_token_program_id() -> Seq<u8> {
    seq![
        6u8, 221, 246, 225, 215, 101, 161, 147, 217, 203, 225, 70, 206, 235, 121, 172, 28, 180, 133,
        237, 95, 91, 55, 145, 58, 140, 245, 133, 126, 255, 0, 169,
    ]
}

/// The address of the program that keeps the token account of a wallet for a mint.
pub open spec fn spec_associated_token_program_id() -> Seq<u8> {
    seq![
        140u8, 151, 37, 143, 78, 36, 137, 241, 187, 61, 16, 41, 20, 142, 13, 131, 11, 90, 19, 153,
        218, 255, 16, 132, 4, 142, 123, 216, 219, 233, 248, 89,
    ]
}

/// The address of the token metadata program.
pub open spec fn spec_token_metadata_program_id() -> Seq<u8> {
    seq![
        11u8, 112, 101, 177, 227, 209, 124, 69, 56, 157, 82, 127, 107, 4, 195, 205, 88, 184, 108,
        115, 26, 160, 253, 181, 73, 182, 209, 188, 3, 248, 41, 70,
    ]
}

/// The address of the system program.
pub open spec fn spec_system_program_id() -> Seq<u8> {
    Seq::new(32, |i: int| 0u8)
}

/// The address of the account that shows a transaction's instructions.
pub open spec fn spec_sysvar_instructions_id() -> Seq<u8> {
    seq![
        6u8, 167, 213, 23, 24, 123, 209, 102, 53, 218, 212, 4, 85, 253, 194, 192, 193, 36, 198, 143,
        33, 86, 117, 165, 219, 186, 203, 95, 8, 0, 0, 0,
    ]
}

/// `spl_token::id`: the address that the token program declares for itself, which is
/// `TokenkegQfeZyiNwAJbNbGKPFXCWuBvf9Ss623VQ5DA` in base 58.
#[verifier::external_body]
pub(crate) fn token_program_id() -> (id: Pubkey)
    ensures
        id@ == spec_token_program_id(),
{
    Pubkey { bytes: spl_token::id().to_bytes() }
}

/// `spl_associated_token_account::id`: the address that the associated token account program
/// declares for itself, which is `ATokenGPvbdGVxr1b2hvZbsiqW5xWH25efTNsLJA8knL` in base 58.
#[verifier::external_body]
pub(crate) fn associated_token_program_id() -> (id: Pubkey)
    ensures
        id@ == spec_associated_token_program_id(),
{
    Pubkey { bytes: spl_associated_token_account::id().to_bytes() }
}

/// `mpl_token_metadata::id`: the address that the token metadata program declares for itself,
/// which is `metaqbxxUerdq28cj1RbAWkYQm3ybzjb6a8bt518x1s` in base 58.
#[verifier::external_body]
pub(crate) fn token_metadata_program_id() -> (id: Pubkey)
    ensures
        id@ == spec_token_metadata_program_id(),
{
    Pubkey { bytes: mpl_token_metadata::id().to_bytes() }
}

/// `solana_program::system_program::id`: the address of the system program, thirty-two zero
/// bytes.
#[verifier::external_body]
pub(crate) fn system_program_id() -> (id: Pubkey)
    ensures
        id@ == spec_system_program_id(),
{
    Pubkey { bytes: solana_program::system_program::id().to_bytes() }
}

/// `solana_program::sysvar::instructions::id`: the address of the instructions sysvar, which is
/// `Sysvar1nstructions1111111111111111111111111` in base 58.
#[verifier::external_body]
pub(crate) fn sysvar_instructions_id() -> (id: Pubkey)
    ensures
        id@ == spec_sysvar_instructions_id(),
{
    Pubkey { bytes: solana_program::sysvar::instructions::id().to_bytes() }
}

} // verus!
