//! The token account that a sprite's token comes from.

use crate::error::TokenAccountError;
use crate::pubkey::Pubkey;
use crate::wire::spec_u64_at;
use vstd::prelude::*;

verus! {

/// What the sprite manager reads of a token account.
#[derive(Clone, Copy, Debug)]
pub struct TokenAccount {
    /// The token that the account holds.
    pub mint: Pubkey,
    /// How many units the account holds.
    pub amount: u64,
    /// Who else may move units out of the account, if anyone.
    pub delegate: Option<Pubkey>,
}

/// What a token account is in contracts.
pub struct TokenAccountView {
    pub mint: Seq<u8>,
    pub amount: u64,
    pub delegate: Option<Seq<u8>>,
}

impl View for TokenAccount {
    type V = TokenAccountView;

    open spec fn view(&self) -> TokenAccountView {
        TokenAccountView {
            mint: self.mint@,
            amount: self.amount,
            delegate: match self.delegate {
                Some(delegate) => Some(delegate@),
                None => None,
            },
        }
    }
}

/// How many bytes a token account has.
pub open spec fn spec_token_account_len() -> nat {
    165
}

/// What the four bytes at `at` say of an optional field behind them: that there is none,
/// that there is one, or nothing that can be read.
pub open spec fn spec_option_tag(data: Seq<u8>, at: int) -> Option<bool> {
    if data[at + 1] != 0 || data[at + 2] != 0 || data[at + 3] != 0 {
        None
    } else if data[at] == 0 {
        Some(false)
    } else if data[at] == 1 {
        Some(true)
    } else {
        None
    }
}

/// Whether the bytes of a token account are laid out as they have to be: the three
/// optional fields, the delegate at 72, the native reserve at 109 and the close authority
/// at 129, open with a tag that can be read, and the state at 108 is one of three.
pub open spec fn spec_token_account_well_formed(data: Seq<u8>) -> bool {
    &&& data.len() == spec_token_account_len()
    &&& spec_option_tag(data, 72) is Some
    &&& data[108] <= 2
    &&& spec_option_tag(data, 109) is Some
    &&& spec_option_tag(data, 129) is Some
}

/// What the bytes of a token account hold, or why they hold none: the mint in the first
/// thirty-two bytes, the amount in the eight bytes at 64, and the delegate in the
/// thirty-two bytes at 76 where the tag at 72 says that there is one. An account whose
/// state is 0 was never set up.
pub open spec fn spec_unpack_token_account(data: Seq<u8>) -> Result<
    TokenAccountView,
    TokenAccountError,
> {
    if !spec_token_account_well_formed(data) {
        Err(TokenAccountError::InvalidAccountData)
    } else if data[108] == 0 {
        Err(TokenAccountError::UninitializedAccount)
    } else {
        Ok(
            TokenAccountView {
                mint: data.subrange(0, 32),
                amount: spec_u64_at(data, 64),
                delegate: if spec_option_tag(data, 72) == Some(true) {
                    Some(data.subrange(76, 108))
                } else {
                    None
                },
            },
        )
    }
}

/// `spl_token::state::Account::unpack`: it asks for 165 bytes and reads the mint at 0, the
/// owner at 32, the amount at 64, the delegate behind a tag at 72, the state at 108, the
/// native reserve behind a tag at 109, the delegated amount at 121 and the close authority
/// behind a tag at 129. A tag is four bytes, 0 or 1 and three zero bytes; the state is 0, 1
/// or 2. Bytes of another length, with another tag or another state are no token account,
/// and an account in state 0 was never set up. Of the account that it reads, the mint, the
/// amount and the delegate are kept.
#[verifier::external_body]
pub(crate) fn unpack_token_account(data: &[u8]) -> (res: Result<TokenAccount, TokenAccountError>)
    ensures
        match res {
            Ok(account) => spec_unpack_token_account(data@) == Ok::<
                TokenAccountView,
                TokenAccountError,
            >(account@),
            Err(e) => spec_unpack_token_account(data@) == Err::<
                TokenAccountView,
                TokenAccountError,
            >(e),
        },
{
    match <spl_token::state::Account as solana_program::program_pack::Pack>::unpack(data) {
        Ok(account) => Ok(TokenAccount {
            mint: Pubkey { bytes: account.mint.to_bytes() },
            amount: account.amount,
            delegate: match account.delegate {
                solana_program::program_option::COption::Some(key) => Some(Pubkey { bytes: key.to_bytes() }),
                solana_program::program_option::COption::None => None,
            },
        }),
        Err(solana_program::program_error::ProgramError::UninitializedAccount) => Err(TokenAccountError::UninitializedAccount),
        Err(_) => Err(TokenAccountError::InvalidAccountData),
    }
}

/// Whether custody of one unit of `mint` can be taken from a token account: it has to hold
/// that token, at least one unit of it, and nobody else may be allowed to move units out.
pub open spec fn spec_source_acceptable(account: TokenAccountView, mint: Seq<u8>) -> bool {
    account.mint == mint && account.delegate is None && account.amount >= 1
}

/// Whether custody of one unit of `mint` can be taken from a token account.
pub fn source_acceptable(account: &TokenAccount, mint: &Pubkey) -> (ok: bool)
    ensures
        ok == spec_source_acceptable(account@, mint@),
{
    account.mint.same(mint) && account.delegate.is_none() && account.amount >= 1
}

} // verus!
