//! Custody of a sprite's token: whether the slot that is to hold it is a token account
//! already, and what is asked of other programs where it is not.

use crate::account_info::AccountInfo;
use crate::error::SpriteManagerError;
use crate::instruction::{
    spec_readonly, spec_writable, AccountMeta, Instruction, InstructionView,
};
use crate::pda::{program_address, try_find_program_address};
use crate::programs::{
    associated_token_program_id, spec_associated_token_program_id, spec_system_program_id,
    spec_token_program_id, token_program_id,
};
use crate::wire::spec_u64_le;
use crate::pubkey::Pubkey;
use vstd::prelude::*;

verus! {

/// A call into another program that an instruction asks for: the instruction for that
/// program, the accounts that are handed on, each by its place among the accounts of the
/// running instruction, and the seeds with which the running program signs, if it signs.
#[derive(Clone, Debug)]
pub struct Invocation {
    pub instruction: Instruction,
    pub accounts: Vec<usize>,
    pub signer_seeds: Option<Vec<Vec<u8>>>,
}

/// What a call into another program is in contracts.
pub struct InvocationView {
    pub instruction: InstructionView,
    pub accounts: Seq<usize>,
    pub signer_seeds: Option<Seq<Seq<u8>>>,
}

impl View for Invocation {
    type V = InvocationView;

    open spec fn view(&self) -> InvocationView {
        InvocationView {
            instruction: self.instruction@,
            accounts: self.accounts@,
            signer_seeds: match self.signer_seeds {
                Some(seeds) => Some(crate::pda::spec_seeds(seeds@)),
                None => None,
            },
        }
    }
}

/// The calls of a list, as they are in contracts.
pub open spec fn spec_invocations(calls: Seq<Invocation>) -> Seq<InvocationView> {
    calls.map_values(|call: Invocation| call@)
}

/// The seeds from which the token account of `wallet` for `mint` is derived.
pub open spec fn spec_associated_token_seeds(
    wallet: Seq<u8>,
    mint: Seq<u8>,
    token_program: Seq<u8>,
) -> Seq<Seq<u8>> {
    seq![wallet, token_program, mint]
}

/// The address of the token account of `wallet` for `mint`, where one is derived.
pub open spec fn spec_associated_token_address(
    wallet: Seq<u8>,
    mint: Seq<u8>,
    token_program: Seq<u8>,
) -> Option<(Seq<u8>, u8)> {
    program_address(
        spec_associated_token_seeds(wallet, mint, token_program),
        spec_associated_token_program_id(),
    )
}

/// The instruction that asks for the token account of `wallet` for the token `mint`, paid
/// for by `funding`.
pub open spec fn spec_associated_token_account_instruction(
    funding: Seq<u8>,
    wallet: Seq<u8>,
    mint: Seq<u8>,
    token_program: Seq<u8>,
) -> InstructionView {
    InstructionView {
        program_id: spec_associated_token_program_id(),
        accounts: seq![
            spec_writable(funding, true),
            spec_writable(spec_associated_token_address(wallet, mint, token_program)->Some_0.0, false),
            spec_readonly(wallet, false),
            spec_readonly(mint, false),
            spec_readonly(spec_system_program_id(), false),
            spec_readonly(token_program, false),
        ],
        data: seq![0u8],
    }
}

/// The instruction that moves `amount` units from `source` to `destination` on the word of
/// `authority`, who signs alone: the number 3 of the instruction among those of the token
/// program, and the amount in eight bytes.
pub open spec fn spec_token_transfer_instruction(
    token_program: Seq<u8>,
    source: Seq<u8>,
    destination: Seq<u8>,
    authority: Seq<u8>,
    amount: u64,
) -> InstructionView {
    InstructionView {
        program_id: token_program,
        accounts: seq![
            spec_writable(source, false),
            spec_writable(destination, false),
            spec_readonly(authority, false),
            spec_readonly(authority, true),
        ],
        data: seq![3u8] + spec_u64_le(amount),
    }
}

/// `spl_associated_token_account::instruction::create_associated_token_account`: it names
/// the funding account as a signer that may change, the token account, at the address
/// that the wallet, the token program and the mint derive, as an account that may change,
/// and the wallet, the mint, the system program and the token program as accounts that are
/// read. The data is the one byte 0. It panics where the seeds derive no address: those
/// inputs are left out.
#[verifier::external_body]
pub(crate) fn create_associated_token_account(
    funding: &Pubkey,
    wallet: &Pubkey,
    mint: &Pubkey,
    token_program: &Pubkey,
) -> (instruction: Instruction)
    requires
        spec_associated_token_address(wallet@, mint@, token_program@) is Some,
    ensures
        instruction@ == spec_associated_token_account_instruction(
            funding@,
            wallet@,
            mint@,
            token_program@,
        ),
{
    let key = |k: &Pubkey| solana_program::pubkey::Pubkey::new_from_array(k.bytes);
    let ix = spl_associated_token_account::instruction::create_associated_token_account(
        &key(funding), &key(wallet), &key(mint), &key(token_program),
    );
    let meta = |m: &solana_program::instruction::AccountMeta| AccountMeta {
        pubkey: Pubkey { bytes: m.pubkey.to_bytes() },
        is_signer: m.is_signer,
        is_writable: m.is_writable,
    };
    let program_id = Pubkey { bytes: ix.program_id.to_bytes() };
    Instruction { program_id, accounts: ix.accounts.iter().map(meta).collect(), data: ix.data }
}

/// `spl_token::instruction::transfer` with one signer, the authority itself: it names the
/// source and the destination as accounts that may change, then the authority as an
/// account that is read, and once more as a signer. The data is the byte 3 and the amount
/// in eight bytes, the least significant first. It fails where `token_program` is not the
/// address of the token program: those inputs are left out.
#[verifier::external_body]
pub(crate) fn token_transfer(
    token_program: &Pubkey,
    source: &Pubkey,
    destination: &Pubkey,
    authority: &Pubkey,
    amount: u64,
) -> (instruction: Instruction)
    requires
        token_program@ == spec_token_program_id(),
    ensures
        instruction@ == spec_token_transfer_instruction(
            token_program@,
            source@,
            destination@,
            authority@,
            amount,
        ),
{
    let key = |k: &Pubkey| solana_program::pubkey::Pubkey::new_from_array(k.bytes);
    let signer = key(authority);
    let ix = spl_token::instruction::transfer(
        &key(token_program), &key(source), &key(destination), &signer, &[&signer], amount,
    ).unwrap();
    let meta = |m: &solana_program::instruction::AccountMeta| AccountMeta {
        pubkey: Pubkey { bytes: m.pubkey.to_bytes() },
        is_signer: m.is_signer,
        is_writable: m.is_writable,
    };
    let program_id = Pubkey { bytes: ix.program_id.to_bytes() };
    Instruction { program_id, accounts: ix.accounts.iter().map(meta).collect(), data: ix.data }
}

/// Whether custody of a sprite's token still has to be taken: the slot that is to hold it
/// does not belong to the token program, so it is no token account yet, whatever balance
/// its address has.
pub open spec fn spec_custody_missing(slot_owner: Seq<u8>) -> bool {
    slot_owner != spec_token_program_id()
}

/// The places of the accounts that the creation of the slot is handed, among the accounts
/// of `StoreSprite`: the payer, the slot, the escrow, the sprite's mint, the system program
/// and the token program.
pub open spec fn spec_slot_creation_accounts() -> Seq<usize> {
    seq![5usize, 4, 0, 2, 7, 8]
}

/// The places of the accounts that the transfer is handed, among the accounts of
/// `StoreSprite`: the source, the slot, the payer and the token program.
pub open spec fn spec_transfer_accounts() -> Seq<usize> {
    seq![3usize, 4, 5, 8]
}

/// What taking custody asks of other programs: nothing where the token program owns the
/// slot, and else the creation of the slot for the escrow and the sprite's mint, paid for
/// by the payer, and then the move of exactly one unit from the source into the slot, on
/// the word of the payer. Where the address of such a slot cannot be derived at all there
/// is no way to ask for it.
pub open spec fn spec_ensure_custody(
    slot_key: Seq<u8>,
    slot_owner: Seq<u8>,
    payer: Seq<u8>,
    escrow: Seq<u8>,
    sprite_mint: Seq<u8>,
    source: Seq<u8>,
) -> Result<Seq<InvocationView>, SpriteManagerError> {
    if !spec_custody_missing(slot_owner) {
        Ok(Seq::empty())
    } else if spec_associated_token_address(escrow, sprite_mint, spec_token_program_id())
        is None {
        Err(SpriteManagerError::DerivedKeyInvalid)
    } else {
        Ok(
            seq![
                InvocationView {
                    instruction: spec_associated_token_account_instruction(
                        payer,
                        escrow,
                        sprite_mint,
                        spec_token_program_id(),
                    ),
                    accounts: spec_slot_creation_accounts(),
                    signer_seeds: None,
                },
                InvocationView {
                    instruction: spec_token_transfer_instruction(
                        spec_token_program_id(),
                        source,
                        slot_key,
                        payer,
                        1,
                    ),
                    accounts: spec_transfer_accounts(),
                    signer_seeds: None,
                },
            ],
        )
    }
}

/// Sees to it that the slot `destination` holds the sprite's token: where the token program
/// does not own the slot, so that it is no token account yet, asks for its creation and for
/// the transfer of one unit into it, and asks for nothing where the token program owns
/// it.
pub fn ensure_custody(
    destination: &AccountInfo,
    payer: &Pubkey,
    escrow: &Pubkey,
    sprite_mint: &Pubkey,
    source: &Pubkey,
) -> (res: Result<Vec<Invocation>, SpriteManagerError>)
    ensures
        match res {
            Ok(calls) => spec_ensure_custody(
                destination.key@,
                destination.owner@,
                payer@,
                escrow@,
                sprite_mint@,
                source@,
            ) == Ok::<Seq<InvocationView>, SpriteManagerError>(spec_invocations(calls@)),
            Err(e) => spec_ensure_custody(
                destination.key@,
                destination.owner@,
                payer@,
                escrow@,
                sprite_mint@,
                source@,
            ) == Err::<Seq<InvocationView>, SpriteManagerError>(e),
        },
{
    let token_program = token_program_id();
    let mut calls: Vec<Invocation> = Vec::new();
    if destination.owner.same(&token_program) {
        assert(spec_invocations(calls@) =~= Seq::<InvocationView>::empty());
        return Ok(calls);
    }
    let mut seeds: Vec<Vec<u8>> = Vec::new();
    seeds.push(escrow.to_vec());
    seeds.push(token_program.to_vec());
    seeds.push(sprite_mint.to_vec());
    assert(crate::pda::spec_seeds(seeds@) =~= spec_associated_token_seeds(
        escrow@,
        sprite_mint@,
        token_program@,
    ));
    if try_find_program_address(&seeds, &associated_token_program_id()).is_none() {
        return Err(SpriteManagerError::DerivedKeyInvalid);
    }
    let create = create_associated_token_account(payer, escrow, sprite_mint, &token_program);
    let transfer = token_transfer(&token_program, source, &destination.key, payer, 1);
    let mut create_accounts: Vec<usize> = Vec::new();
    create_accounts.push(5);
    create_accounts.push(4);
    create_accounts.push(0);
    create_accounts.push(2);
    create_accounts.push(7);
    create_accounts.push(8);
    assert(create_accounts@ =~= spec_slot_creation_accounts());
    let mut transfer_accounts: Vec<usize> = Vec::new();
    transfer_accounts.push(3);
    transfer_accounts.push(4);
    transfer_accounts.push(5);
    transfer_accounts.push(8);
    assert(transfer_accounts@ =~= spec_transfer_accounts());
    calls.push(Invocation { instruction: create, accounts: create_accounts, signer_seeds: None });
    calls.push(
        Invocation { instruction: transfer, accounts: transfer_accounts, signer_seeds: None },
    );
    assert(spec_invocations(calls@) =~= seq![calls@[0]@, calls@[1]@]);
    Ok(calls)
}

/// Taking custody asks for one creation of the slot and one transfer at most, the transfer
/// of exactly one unit. It asks for both of a slot that the token program does not own,
/// whatever balance the address has, and it asks nothing of a slot that the token program
/// owns, as it does once the slot was created: to take custody a second time changes
/// nothing.
pub proof fn lemma_custody_taken_once(
    slot_key: Seq<u8>,
    slot_owner: Seq<u8>,
    payer: Seq<u8>,
    escrow: Seq<u8>,
    sprite_mint: Seq<u8>,
    source: Seq<u8>,
)
    ensures
        spec_ensure_custody(
            slot_key,
            slot_owner,
            payer,
            escrow,
            sprite_mint,
            source,
        ) matches Ok(calls) ==> calls.len() == 0 || (calls.len() == 2 && calls[0].instruction
            == spec_associated_token_account_instruction(
            payer,
            escrow,
            sprite_mint,
            spec_token_program_id(),
        ) && calls[1].instruction == spec_token_transfer_instruction(
            spec_token_program_id(),
            source,
            slot_key,
            payer,
            1,
        ) && calls[1].instruction.data == seq![3u8, 1, 0, 0, 0, 0, 0, 0, 0]),
        slot_owner != spec_token_program_id() ==> match spec_ensure_custody(
            slot_key,
            slot_owner,
            payer,
            escrow,
            sprite_mint,
            source,
        ) {
            Ok(calls) => calls.len() == 2,
            Err(e) => e == SpriteManagerError::DerivedKeyInvalid,
        },
        spec_ensure_custody(
            slot_key,
            spec_token_program_id(),
            payer,
            escrow,
            sprite_mint,
            source,
        ) == Ok::<Seq<InvocationView>, SpriteManagerError>(Seq::empty()),
{
    assert(seq![3u8] + spec_u64_le(1) =~= seq![3u8, 1, 0, 0, 0, 0, 0, 0, 0]);
}

} // verus!
