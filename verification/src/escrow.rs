//! The escrow that the token metadata program keeps for a base item: its seeds, and the
//! instruction that asks for it.

use crate::instruction::{
    spec_readonly, spec_writable, AccountMeta, Instruction, InstructionView,
};
use crate::pda::spec_seeds;
use crate::programs::{
    spec_sysvar_instructions_id, spec_system_program_id, spec_token_metadata_program_id,
    token_metadata_program_id,
};
use crate::pubkey::Pubkey;
use vstd::prelude::*;

verus! {

/// The bytes of the word `metadata`, with which the addresses of the token metadata program
/// begin.
pub open spec fn spec_metadata_prefix() -> Seq<u8> {
    seq![109u8, 101, 116, 97, 100, 97, 116, 97]
}

/// The bytes of the word `escrow`, with which the address of an escrow ends.
pub open spec fn spec_escrow_postfix() -> Seq<u8> {
    seq![101u8, 115, 99, 114, 111, 119]
}

/// The seeds that stand for an escrow's authority where that authority is a creator.
pub open spec fn spec_escrow_creator_seeds(creator: Seq<u8>) -> Seq<Seq<u8>> {
    seq![seq![1u8], creator]
}

/// The seeds of the escrow that the token metadata program keeps for the base item
/// `base_mint` under the authority `creator`.
pub open spec fn spec_escrow_seeds(base_mint: Seq<u8>, creator: Seq<u8>) -> Seq<Seq<u8>> {
    seq![
        spec_metadata_prefix(),
        spec_token_metadata_program_id(),
        base_mint,
        seq![1u8],
        creator,
        spec_escrow_postfix(),
    ]
}

/// The instruction that asks the token metadata program `program_id` for the escrow of a
/// base item: the accounts that it names and, as its data, the number of the instruction
/// among the instructions of that program.
pub open spec fn spec_escrow_creation_instruction(
    program_id: Seq<u8>,
    escrow: Seq<u8>,
    metadata: Seq<u8>,
    mint: Seq<u8>,
    token_account: Seq<u8>,
    edition: Seq<u8>,
    payer: Seq<u8>,
    authority: Option<Seq<u8>>,
) -> InstructionView {
    InstructionView {
        program_id,
        accounts: seq![
            spec_writable(escrow, false),
            spec_writable(metadata, false),
            spec_readonly(mint, false),
            spec_readonly(token_account, false),
            spec_readonly(edition, false),
            spec_writable(payer, true),
            spec_readonly(spec_system_program_id(), false),
            spec_readonly(spec_sysvar_instructions_id(), false),
        ] + match authority {
            Some(authority) => seq![spec_readonly(authority, true)],
            None => Seq::empty(),
        },
        data: seq![38u8],
    }
}

/// `mpl_token_metadata::state::PREFIX`: the word `metadata`.
#[verifier::external_body]
pub(crate) fn metadata_prefix() -> (bytes: Vec<u8>)
    ensures
        bytes@ == spec_metadata_prefix(),
{
    mpl_token_metadata::state::PREFIX.as_bytes().to_vec()
}

/// `mpl_token_metadata::state::ESCROW_POSTFIX`: the word `escrow`.
#[verifier::external_body]
pub(crate) fn escrow_postfix() -> (bytes: Vec<u8>)
    ensures
        bytes@ == spec_escrow_postfix(),
{
    mpl_token_metadata::state::ESCROW_POSTFIX.as_bytes().to_vec()
}

/// `EscrowAuthority::to_seeds` of `mpl_token_metadata`, of the authority `Creator(creator)`:
/// one byte of value 1, then the address of the creator.
#[verifier::external_body]
pub(crate) fn escrow_creator_seeds(creator: &Pubkey) -> (seeds: Vec<Vec<u8>>)
    ensures
        spec_seeds(seeds@) == spec_escrow_creator_seeds(creator@),
{
    let creator = solana_program::pubkey::Pubkey::new_from_array(creator.bytes);
    let authority = mpl_token_metadata::state::EscrowAuthority::Creator(creator);
    authority.to_seeds().iter().map(|seed| seed.to_vec()).collect()
}

/// `mpl_token_metadata::escrow::create_escrow_account`: it names the escrow, the metadata
/// and the payer as accounts that may change, the payer as a signer, the mint, the token
/// account, the edition, the system program and the instructions sysvar as accounts that
/// are read, and behind them the authority, where there is one, as a signer that is read.
/// The data is the one byte 38, the place of `CreateEscrowAccount` among the instructions of
/// the token metadata program.
#[verifier::external_body]
pub(crate) fn create_escrow_account(
    program_id: &Pubkey,
    escrow: &Pubkey,
    metadata: &Pubkey,
    mint: &Pubkey,
    token_account: &Pubkey,
    edition: &Pubkey,
    payer: &Pubkey,
    authority: Option<Pubkey>,
) -> (instruction: Instruction)
    ensures
        instruction@ == spec_escrow_creation_instruction(
            program_id@,
            escrow@,
            metadata@,
            mint@,
            token_account@,
            edition@,
            payer@,
            match authority {
                Some(key) => Some(key@),
                None => None,
            },
        ),
{
    let key = |k: &Pubkey| solana_program::pubkey::Pubkey::new_from_array(k.bytes);
    let ix = mpl_token_metadata::escrow::create_escrow_account(
        key(program_id), key(escrow), key(metadata), key(mint), key(token_account), key(edition),
        key(payer), authority.map(|k| key(&k)),
    );
    let meta = |m: &solana_program::instruction::AccountMeta| AccountMeta {
        pubkey: Pubkey { bytes: m.pubkey.to_bytes() },
        is_signer: m.is_signer,
        is_writable: m.is_writable,
    };
    let program_id = Pubkey { bytes: ix.program_id.to_bytes() };
    Instruction { program_id, accounts: ix.accounts.iter().map(meta).collect(), data: ix.data }
}

/// The seeds of the escrow of the base item `base_mint` under the authority `creator`.
pub fn escrow_seeds(base_mint: &Pubkey, creator: &Pubkey) -> (seeds: Vec<Vec<u8>>)
    ensures
        spec_seeds(seeds@) == spec_escrow_seeds(base_mint@, creator@),
{
    let mut seeds: Vec<Vec<u8>> = Vec::new();
    seeds.push(metadata_prefix());
    seeds.push(token_metadata_program_id().to_vec());
    seeds.push(base_mint.to_vec());
    let mut authority = escrow_creator_seeds(creator);
    let ghost authority_seeds = authority@;
    assert(spec_seeds(authority_seeds).len() == 2);
    assert(spec_seeds(authority_seeds)[0] == seq![1u8]);
    assert(spec_seeds(authority_seeds)[1] == creator@);
    seeds.append(&mut authority);
    seeds.push(escrow_postfix());
    assert(spec_seeds(seeds@) =~= spec_escrow_seeds(base_mint@, creator@));
    seeds
}

} // verus!
