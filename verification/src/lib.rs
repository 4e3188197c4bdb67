//! The sprite manager: a registry that binds a base item to the list of its sprites, and
//! that takes one unit of each sprite's token into an escrow of the base item.
//!
//! The library decides and the caller acts. `processor` takes the accounts of an
//! instruction as plain values and says what is to be done: which storage to set aside,
//! which bytes to write, which other programs to call. `wire` and `state` hold the byte
//! format of the registry, `pda` and `assertions` the addresses, `custody` the taking of
//! custody, and `storage` what becomes of the registry's storage when a sprite is stored.

pub mod account_info;
pub mod assertions;
pub mod custody;
pub mod error;
pub mod escrow;
pub mod instruction;
pub mod pda;
pub mod processor;
pub mod programs;
pub mod pubkey;
pub mod state;
pub mod storage;
pub mod token;
pub mod wire;

use crate::pubkey::Pubkey;
use vstd::prelude::*;

verus! {

/// The address of the sprite manager, `spritZMFNZQ5axFCT5woqtcxKLTMNupnyowh4qXWhKy` in base 58.
pub open spec fn spec_id() -> Seq<u8> {
    seq![
        13u8, 5, 39, 33, 86, 48, 95, 24, 58, 171, 227, 122, 215, 235, 196, 158, 193, 97, 44, 125,
        57, 231, 92, 98, 4, 237, 57, 232, 227, 75, 79, 20,
    ]
}

/// The address of the sprite manager.
pub fn id() -> (id: Pubkey)
    ensures
        id@ == spec_id(),
{
    let id = Pubkey {
        bytes: [
            13, 5, 39, 33, 86, 48, 95, 24, 58, 171, 227, 122, 215, 235, 196, 158, 193, 97, 44, 125,
            57, 231, 92, 98, 4, 237, 57, 232, 227, 75, 79, 20,
        ],
    };
    assert(id@ =~= spec_id());
    id
}

/// Whether `id` is the address of the sprite manager.
pub fn check_id(id: &Pubkey) -> (same: bool)
    ensures
        same == (id@ == spec_id()),
{
    id.same(&self::id())
}

} // verus!
