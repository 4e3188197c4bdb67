//! The checks that an instruction makes of its accounts: who signed, who owns an account,
//! and whether an address is the one that its seeds derive.

use crate::account_info::AccountInfo;
use crate::error::{ProcessError, SpriteManagerError};
use crate::pda::{
    program_address, spec_found, spec_is_first_address, spec_seeds, try_find_program_address,
};
use crate::pubkey::Pubkey;
use vstd::prelude::*;

verus! {

/// Asks that `account` signed the transaction.
pub fn assert_signer(account: &AccountInfo) -> (res: Result<(), ProcessError>)
    ensures
        account.is_signer ==> res is Ok,
        !account.is_signer ==> res == Err::<(), ProcessError>(
            ProcessError::MissingRequiredSignature,
        ),
{
    if !account.is_signer {
        Err(ProcessError::MissingRequiredSignature)
    } else {
        Ok(())
    }
}

/// Asks that `account` belongs to the program `owner`, and fails with `error` where it does
/// not.
pub fn assert_owned_by(account: &AccountInfo, owner: &Pubkey, error: SpriteManagerError) -> (res:
    Result<(), SpriteManagerError>)
    ensures
        account.owner@ == owner@ ==> res is Ok,
        account.owner@ != owner@ ==> res == Err::<(), SpriteManagerError>(error),
{
    if !account.owner.same(owner) {
        Err(error)
    } else {
        Ok(())
    }
}

/// The bump seed with which `path` derives the address `key` under `program_id`, if it
/// derives that address.
pub open spec fn spec_derivation(program_id: Seq<u8>, key: Seq<u8>, path: Seq<Seq<u8>>) -> Option<
    u8,
> {
    spec_found_matches(program_address(path, program_id), key)
}

/// The bump seed of a derivation that found `found`, if it found the address `key`.
pub open spec fn spec_found_matches(found: Option<(Seq<u8>, u8)>, key: Seq<u8>) -> Option<u8> {
    match found {
        Some((address, bump)) => if address == key {
            Some(bump)
        } else {
            None
        },
        None => None,
    }
}

/// Holds what a derivation found against the address `key` that was expected: the bump
/// seed where it found that address, and `error` where it found another or none.
pub fn derivation_matches(found: Option<(Pubkey, u8)>, key: &Pubkey, error: SpriteManagerError) -> (res:
    Result<u8, SpriteManagerError>)
    ensures
        match spec_found_matches(spec_found(found), key@) {
            Some(bump) => res == Ok::<u8, SpriteManagerError>(bump),
            None => res == Err::<u8, SpriteManagerError>(error),
        },
{
    match found {
        Some((address, bump)) => if address.same(key) {
            Ok(bump)
        } else {
            Err(error)
        },
        None => Err(error),
    }
}

/// Asks that the address of `account` is the one that `path` derives under `program_id`,
/// and gives the bump seed of the derivation, the first from 255 down with which the seeds
/// give an address. Fails with `error` where the seeds derive another address or none.
pub fn assert_derivation(
    program_id: &Pubkey,
    account: &AccountInfo,
    path: &Vec<Vec<u8>>,
    error: SpriteManagerError,
) -> (res: Result<u8, SpriteManagerError>)
    ensures
        match spec_derivation(program_id@, account.key@, spec_seeds(path@)) {
            Some(bump) => res == Ok::<u8, SpriteManagerError>(bump),
            None => res == Err::<u8, SpriteManagerError>(error),
        },
        res matches Ok(bump) ==> spec_is_first_address(
            spec_seeds(path@),
            program_id@,
            Some((account.key@, bump)),
        ),
{
    derivation_matches(try_find_program_address(path, program_id), &account.key, error)
}

} // verus!
