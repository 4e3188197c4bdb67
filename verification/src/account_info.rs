//! An account as the sprite manager reads it.

use crate::pubkey::Pubkey;
use vstd::prelude::*;

verus! {

/// An account as an instruction finds it: its address, what the instruction may do with it,
/// its balance, its data and the program that owns it.
#[derive(Clone, Debug)]
pub struct AccountInfo {
    pub key: Pubkey,
    pub is_signer: bool,
    pub is_writable: bool,
    pub lamports: u64,
    pub data: Vec<u8>,
    pub owner: Pubkey,
}

impl AccountInfo {
    /// The balance of the account.
    pub fn lamports(&self) -> (lamports: u64)
        ensures
            lamports == self.lamports,
    {
        self.lamports
    }

    /// How many bytes the account stores.
    pub fn data_len(&self) -> (len: usize)
        ensures
            len == self.data@.len(),
    {
        self.data.len()
    }

    /// Whether the account stores no byte at all.
    pub fn data_is_empty(&self) -> (empty: bool)
        ensures
            empty == (self.data@.len() == 0),
    {
        self.data.len() == 0
    }
}

} // verus!
