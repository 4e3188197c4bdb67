//! What the instructions of the sprite manager come to: the checks in their order, and the
//! plan of what is to be done where they pass.

use crate::account_info::AccountInfo;
use crate::assertions::{assert_derivation, assert_owned_by, assert_signer, spec_derivation};
use crate::custody::{
    ensure_custody, spec_custody_missing, spec_ensure_custody, spec_invocations, Invocation,
    InvocationView,
};
use crate::error::{ProcessError, SpriteManagerError};
use crate::escrow::{
    create_escrow_account, escrow_seeds, spec_escrow_creation_instruction, spec_escrow_seeds,
};
use crate::instruction::{
    SpriteManagerInstruction, SpriteManagerInstructionView, StoreSpriteArgs, StoreSpriteArgsView,
};
use crate::pda::{
    spec_seeds, spec_sprite_seeds, spec_sprite_signer_seeds, sprite_seeds, sprite_signer_seeds,
};
use crate::programs::{spec_token_metadata_program_id, token_metadata_program_id};
use crate::pubkey::Pubkey;
use crate::state::{
    spec_from_account_info, Key, Sprite, SpriteAccount, SpriteAccountView, SpriteView,
};
use crate::storage::{
    append_sprite, lemma_store_appends, spec_append_sprite, spec_storage_after, spec_with_sprite,
    StorageUpdate, StorageUpdateView,
};
use crate::token::{
    source_acceptable, spec_option_tag, spec_source_acceptable, spec_unpack_token_account,
    unpack_token_account,
};
use crate::wire::{spec_from_slice, try_from_slice, Wire};
use vstd::prelude::*;

verus! {

/// What `CreateSpriteAccount` asks to be done, in this order: storage of `space` bytes is
/// set aside for the registry, paid for by the creator and signed for with `signer_seeds`;
/// `data` is written to it; the escrow is asked for.
#[derive(Clone, Debug)]
pub struct CreateSpriteAccountPlan {
    pub space: usize,
    pub signer_seeds: Vec<Vec<u8>>,
    pub data: Vec<u8>,
    pub escrow: Invocation,
}

/// What the plan of `CreateSpriteAccount` is in contracts.
pub struct CreateSpriteAccountPlanView {
    pub space: usize,
    pub signer_seeds: Seq<Seq<u8>>,
    pub data: Seq<u8>,
    pub escrow: InvocationView,
}

impl View for CreateSpriteAccountPlan {
    type V = CreateSpriteAccountPlanView;

    open spec fn view(&self) -> CreateSpriteAccountPlanView {
        CreateSpriteAccountPlanView {
            space: self.space,
            signer_seeds: spec_seeds(self.signer_seeds@),
            data: self.data@,
            escrow: self.escrow@,
        }
    }
}

/// What `StoreSprite` asks to be done, in this order: the calls of `custody` are made; then
/// the registry's storage is changed as `record` says or, where `record` is an error, the
/// instruction fails with that error.
#[derive(Debug)]
pub struct StoreSpritePlan {
    pub custody: Vec<Invocation>,
    pub record: Result<StorageUpdate, SpriteManagerError>,
}

/// What the plan of `StoreSprite` is in contracts.
pub struct StoreSpritePlanView {
    pub custody: Seq<InvocationView>,
    pub record: Result<StorageUpdateView, SpriteManagerError>,
}

impl View for StoreSpritePlan {
    type V = StoreSpritePlanView;

    open spec fn view(&self) -> StoreSpritePlanView {
        StoreSpritePlanView {
            custody: spec_invocations(self.custody@),
            record: match self.record {
                Ok(update) => Ok(update@),
                Err(e) => Err(e),
            },
        }
    }
}

/// What an instruction asks to be done.
#[derive(Debug)]
pub enum Plan {
    CreateSpriteAccount(CreateSpriteAccountPlan),
    StoreSprite(StoreSpritePlan),
}

/// What a plan is in contracts.
pub enum PlanView {
    CreateSpriteAccount(CreateSpriteAccountPlanView),
    StoreSprite(StoreSpritePlanView),
}

impl View for Plan {
    type V = PlanView;

    open spec fn view(&self) -> PlanView {
        match self {
            Plan::CreateSpriteAccount(plan) => PlanView::CreateSpriteAccount(plan@),
            Plan::StoreSprite(plan) => PlanView::StoreSprite(plan@),
        }
    }
}

/// The registry of the base item `base_mint` with no sprite in it.
pub open spec fn spec_empty_registry(base_mint: Seq<u8>) -> SpriteAccountView {
    SpriteAccountView { key: Key::SpriteAccount, base_mint, sprites: Seq::empty() }
}

/// The places of the accounts that the creation of the escrow is handed, among the accounts
/// of `CreateSpriteAccount`.
pub open spec fn spec_escrow_creation_accounts() -> Seq<usize> {
    seq![0usize, 1, 2, 3, 4, 6, 8, 5, 9]
}

/// What `CreateSpriteAccount` comes to. Its accounts are, in this order: the escrow, the
/// metadata of the base item, the mint of the base item, the token account of the base
/// item, its edition, the registry, the creator, the token metadata program, the system
/// program and the instructions sysvar.
pub open spec fn spec_process_create_sprite_account(
    program_id: Seq<u8>,
    accounts: Seq<AccountInfo>,
) -> Result<CreateSpriteAccountPlanView, ProcessError> {
    if accounts.len() < 10 {
        Err(ProcessError::NotEnoughAccountKeys)
    } else {
        let base_mint = accounts[2].key@;
        let registry = accounts[5];
        match spec_derivation(program_id, registry.key@, spec_sprite_seeds(base_mint)) {
            None => Err(ProcessError::Custom(SpriteManagerError::DerivedKeyInvalid)),
            Some(bump) => if !accounts[6].is_signer {
                Err(ProcessError::MissingRequiredSignature)
            } else if registry.owner@ != accounts[8].key@ || registry.data@.len() != 0 {
                Err(ProcessError::Custom(SpriteManagerError::AlreadyInitialized))
            } else {
                let data = SpriteAccount::spec_encode(spec_empty_registry(base_mint));
                let seeds = spec_sprite_signer_seeds(base_mint, bump);
                Ok(
                    CreateSpriteAccountPlanView {
                        space: data.len() as usize,
                        signer_seeds: seeds,
                        data,
                        escrow: InvocationView {
                            instruction: spec_escrow_creation_instruction(
                                spec_token_metadata_program_id(),
                                accounts[0].key@,
                                accounts[1].key@,
                                base_mint,
                                accounts[3].key@,
                                accounts[4].key@,
                                accounts[6].key@,
                                Some(registry.key@),
                            ),
                            accounts: spec_escrow_creation_accounts(),
                            signer_seeds: Some(seeds),
                        },
                    },
                )
            },
        }
    }
}

/// Carries out `CreateSpriteAccount` as far as it is a decision: checks the accounts and
/// says what is to be done.
pub fn process_create_sprite_account(program_id: &Pubkey, accounts: &[AccountInfo]) -> (res:
    Result<CreateSpriteAccountPlan, ProcessError>)
    ensures
        match res {
            Ok(plan) => spec_process_create_sprite_account(program_id@, accounts@) == Ok::<
                CreateSpriteAccountPlanView,
                ProcessError,
            >(plan@),
            Err(e) => spec_process_create_sprite_account(program_id@, accounts@) == Err::<
                CreateSpriteAccountPlanView,
                ProcessError,
            >(e),
        },
{
    if accounts.len() < 10 {
        return Err(ProcessError::NotEnoughAccountKeys);
    }
    let escrow_info = &accounts[0];
    let metadata_info = &accounts[1];
    let mint_info = &accounts[2];
    let token_account_info = &accounts[3];
    let edition_info = &accounts[4];
    let sprite_pda_info = &accounts[5];
    let creator_info = &accounts[6];
    let system_program_info = &accounts[8];

    let path = sprite_seeds(&mint_info.key);
    let sprite_pda_bump = match assert_derivation(
        program_id,
        sprite_pda_info,
        &path,
        SpriteManagerError::DerivedKeyInvalid,
    ) {
        Ok(bump) => bump,
        Err(e) => {
            return Err(ProcessError::Custom(e));
        },
    };
    match assert_signer(creator_info) {
        Ok(()) => {},
        Err(e) => {
            return Err(e);
        },
    }
    match assert_owned_by(
        sprite_pda_info,
        &system_program_info.key,
        SpriteManagerError::AlreadyInitialized,
    ) {
        Ok(()) => {},
        Err(e) => {
            return Err(ProcessError::Custom(e));
        },
    }
    if !sprite_pda_info.data_is_empty() {
        return Err(ProcessError::Custom(SpriteManagerError::AlreadyInitialized));
    }
    let signer_seeds = sprite_signer_seeds(&mint_info.key, sprite_pda_bump);

    let sprite_account = SpriteAccount {
        key: Key::SpriteAccount,
        base_mint: mint_info.key,
        sprites: Vec::new(),
    };
    assert(sprite_account@.sprites =~= Seq::<SpriteView>::empty());
    let mut serialized_data: Vec<u8> = Vec::new();
    proof {
        crate::state::lemma_account_models(sprite_account);
    }
    sprite_account.write(&mut serialized_data);
    assert(serialized_data@ =~= SpriteAccount::spec_encode(spec_empty_registry(mint_info.key@)));

    let create_escrow_account_ix = create_escrow_account(
        &token_metadata_program_id(),
        &escrow_info.key,
        &metadata_info.key,
        &mint_info.key,
        &token_account_info.key,
        &edition_info.key,
        &creator_info.key,
        Some(sprite_pda_info.key),
    );
    let mut account_infos: Vec<usize> = Vec::new();
    account_infos.push(0);
    account_infos.push(1);
    account_infos.push(2);
    account_infos.push(3);
    account_infos.push(4);
    account_infos.push(6);
    account_infos.push(8);
    account_infos.push(5);
    account_infos.push(9);
    assert(account_infos@ =~= spec_escrow_creation_accounts());
    let escrow_signer_seeds = sprite_signer_seeds(&mint_info.key, sprite_pda_bump);
    Ok(
        CreateSpriteAccountPlan {
            space: serialized_data.len(),
            signer_seeds,
            data: serialized_data,
            escrow: Invocation {
                instruction: create_escrow_account_ix,
                accounts: account_infos,
                signer_seeds: Some(escrow_signer_seeds),
            },
        },
    )
}

/// The sprite that `StoreSprite` stores: what its arguments tell, and the token `mint`.
pub open spec fn spec_sprite_of(args: StoreSpriteArgsView, mint: Seq<u8>) -> SpriteView {
    SpriteView {
        name: args.name,
        description: args.description,
        perspective_tags: args.perspective_tags,
        style_tags: args.style_tags,
        custom_tags: args.custom_tags,
        mint,
    }
}

/// What `StoreSprite` comes to. Its accounts are, in this order: the escrow, the mint of
/// the base item, the mint of the sprite, the token account that the sprite's token comes
/// from, the slot that is to hold it, the payer, the registry, the system program, the
/// token program and the associated token account program.
pub open spec fn spec_process_store_sprite(
    program_id: Seq<u8>,
    accounts: Seq<AccountInfo>,
    args: StoreSpriteArgsView,
) -> Result<StoreSpritePlanView, ProcessError> {
    if accounts.len() < 10 {
        Err(ProcessError::NotEnoughAccountKeys)
    } else {
        let escrow = accounts[0];
        let base_mint = accounts[1].key@;
        let sprite_mint = accounts[2].key@;
        let source = accounts[3];
        let slot = accounts[4];
        let payer = accounts[5];
        let registry = accounts[6];
        if !payer.is_signer {
            Err(ProcessError::MissingRequiredSignature)
        } else if spec_derivation(
            spec_token_metadata_program_id(),
            escrow.key@,
            spec_escrow_seeds(base_mint, registry.key@),
        ) is None {
            Err(ProcessError::Custom(SpriteManagerError::DerivedKeyInvalid))
        } else {
            match spec_unpack_token_account(source.data@) {
                Err(e) => Err(ProcessError::TokenAccount(e)),
                Ok(held) => if !spec_source_acceptable(held, sprite_mint) {
                    Err(ProcessError::SourceRejected)
                } else if spec_derivation(program_id, registry.key@, spec_sprite_seeds(base_mint))
                    is None {
                    Err(ProcessError::Custom(SpriteManagerError::DerivedKeyInvalid))
                } else {
                    match spec_ensure_custody(
                        slot.key@,
                        slot.owner@,
                        payer.key@,
                        escrow.key@,
                        sprite_mint,
                        source.key@,
                    ) {
                        Err(e) => Err(ProcessError::Custom(e)),
                        Ok(custody) => Ok(
                            StoreSpritePlanView {
                                custody,
                                record: spec_append_sprite(
                                    registry.data@,
                                    registry.owner@,
                                    spec_sprite_of(args, sprite_mint),
                                ),
                            },
                        ),
                    }
                },
            }
        }
    }
}

/// Carries out `StoreSprite` as far as it is a decision: checks the accounts and says what
/// is to be done.
pub fn process_store_sprite(program_id: &Pubkey, accounts: &[AccountInfo], args: StoreSpriteArgs) -> (res:
    Result<StoreSpritePlan, ProcessError>)
    ensures
        match res {
            Ok(plan) => spec_process_store_sprite(program_id@, accounts@, args@) == Ok::<
                StoreSpritePlanView,
                ProcessError,
            >(plan@),
            Err(e) => spec_process_store_sprite(program_id@, accounts@, args@) == Err::<
                StoreSpritePlanView,
                ProcessError,
            >(e),
        },
{
    if accounts.len() < 10 {
        return Err(ProcessError::NotEnoughAccountKeys);
    }
    let escrow_info = &accounts[0];
    let base_mint_info = &accounts[1];
    let sprite_mint_info = &accounts[2];
    let sprite_mint_src_info = &accounts[3];
    let sprite_mint_dst_info = &accounts[4];
    let payer_info = &accounts[5];
    let sprite_pda_info = &accounts[6];

    match assert_signer(payer_info) {
        Ok(()) => {},
        Err(e) => {
            return Err(e);
        },
    }
    let escrow_path = escrow_seeds(&base_mint_info.key, &sprite_pda_info.key);
    match assert_derivation(
        &token_metadata_program_id(),
        escrow_info,
        &escrow_path,
        SpriteManagerError::DerivedKeyInvalid,
    ) {
        Ok(_) => {},
        Err(e) => {
            return Err(ProcessError::Custom(e));
        },
    }
    let attribute_src = match unpack_token_account(sprite_mint_src_info.data.as_slice()) {
        Ok(held) => held,
        Err(e) => {
            return Err(ProcessError::TokenAccount(e));
        },
    };
    if !source_acceptable(&attribute_src, &sprite_mint_info.key) {
        return Err(ProcessError::SourceRejected);
    }
    let sprite_path = sprite_seeds(&base_mint_info.key);
    match assert_derivation(
        program_id,
        sprite_pda_info,
        &sprite_path,
        SpriteManagerError::DerivedKeyInvalid,
    ) {
        Ok(_) => {},
        Err(e) => {
            return Err(ProcessError::Custom(e));
        },
    }
    let custody = match ensure_custody(
        sprite_mint_dst_info,
        &payer_info.key,
        &escrow_info.key,
        &sprite_mint_info.key,
        &sprite_mint_src_info.key,
    ) {
        Ok(calls) => calls,
        Err(e) => {
            return Err(ProcessError::Custom(e));
        },
    };
    let sprite = Sprite {
        name: args.name,
        description: args.description,
        perspective_tags: args.perspective_tags,
        style_tags: args.style_tags,
        custom_tags: args.custom_tags,
        mint: sprite_mint_info.key,
    };
    assert(sprite@ == spec_sprite_of(args@, sprite_mint_info.key@));
    let record = append_sprite(sprite_pda_info, sprite);
    Ok(StoreSpritePlan { custody, record })
}

/// The entry to the sprite manager.
pub struct Processor;

/// What an instruction comes to: its data is read, and it is carried out as the kind of
/// instruction that the data names.
pub open spec fn spec_process_instruction(
    program_id: Seq<u8>,
    accounts: Seq<AccountInfo>,
    instruction_data: Seq<u8>,
) -> Result<PlanView, ProcessError> {
    match spec_from_slice::<SpriteManagerInstruction>(instruction_data) {
        Err(e) => Err(ProcessError::BorshIoError(e)),
        Ok(SpriteManagerInstructionView::CreateSpriteAccount) => {
            match spec_process_create_sprite_account(program_id, accounts) {
                Ok(plan) => Ok(PlanView::CreateSpriteAccount(plan)),
                Err(e) => Err(e),
            }
        },
        Ok(SpriteManagerInstructionView::StoreSprite(args)) => {
            match spec_process_store_sprite(program_id, accounts, args) {
                Ok(plan) => Ok(PlanView::StoreSprite(plan)),
                Err(e) => Err(e),
            }
        },
    }
}

impl Processor {
    /// Reads the data of an instruction and carries the instruction out as far as it is a
    /// decision: says what is to be done, or why nothing is.
    pub fn process_instruction(
        program_id: &Pubkey,
        accounts: &[AccountInfo],
        instruction_data: &[u8],
    ) -> (res: Result<Plan, ProcessError>)
        ensures
            match res {
                Ok(plan) => spec_process_instruction(program_id@, accounts@, instruction_data@)
                    == Ok::<PlanView, ProcessError>(plan@),
                Err(e) => spec_process_instruction(program_id@, accounts@, instruction_data@)
                    == Err::<PlanView, ProcessError>(e),
            },
    {
        let instruction = match try_from_slice::<SpriteManagerInstruction>(instruction_data) {
            Ok(instruction) => instruction,
            Err(e) => {
                return Err(ProcessError::BorshIoError(e));
            },
        };
        match instruction {
            SpriteManagerInstruction::CreateSpriteAccount => {
                match process_create_sprite_account(program_id, accounts) {
                    Ok(plan) => Ok(Plan::CreateSpriteAccount(plan)),
                    Err(e) => Err(e),
                }
            },
            SpriteManagerInstruction::StoreSprite(args) => {
                match process_store_sprite(program_id, accounts, args) {
                    Ok(plan) => Ok(Plan::StoreSprite(plan)),
                    Err(e) => Err(e),
                }
            },
        }
    }
}

/// `CreateSpriteAccount` for a registry whose storage holds data already fails, and says
/// that the registry exists. This is so where the instruction comes as far as that check:
/// with all its accounts, the registry at the address that its base item derives, and the
/// creator's signature.
pub proof fn lemma_create_fails_on_written_storage(program_id: Seq<u8>, accounts: Seq<AccountInfo>)
    requires
        accounts.len() >= 10,
        spec_derivation(program_id, accounts[5].key@, spec_sprite_seeds(accounts[2].key@)) is Some,
        accounts[6].is_signer,
        accounts[5].data@.len() > 0,
    ensures
        spec_process_create_sprite_account(program_id, accounts) == Err::<
            CreateSpriteAccountPlanView,
            ProcessError,
        >(ProcessError::Custom(SpriteManagerError::AlreadyInitialized)),
{
}

/// `CreateSpriteAccount` for a registry whose storage was never written succeeds, and the
/// bytes that it has written there are a registry of the base item with no sprite in it.
/// This is so where the instruction comes with all its accounts, the registry at the
/// address that its base item derives, and the creator's signature.
pub proof fn lemma_create_succeeds_on_fresh_storage(program_id: Seq<u8>, accounts: Seq<AccountInfo>)
    requires
        accounts.len() >= 10,
        spec_derivation(program_id, accounts[5].key@, spec_sprite_seeds(accounts[2].key@)) is Some,
        accounts[6].is_signer,
        accounts[5].owner@ == accounts[8].key@,
        accounts[5].data@.len() == 0,
    ensures
        spec_process_create_sprite_account(program_id, accounts) is Ok,
        spec_process_create_sprite_account(program_id, accounts)->Ok_0.space
            == spec_process_create_sprite_account(program_id, accounts)->Ok_0.data.len(),
        spec_from_account_info::<SpriteAccount>(
            spec_process_create_sprite_account(program_id, accounts)->Ok_0.data,
            crate::spec_id(),
        ) == Ok::<SpriteAccountView, SpriteManagerError>(spec_empty_registry(accounts[2].key@)),
{
    let record = spec_empty_registry(accounts[2].key@);
    let data = SpriteAccount::spec_encode(record);
    assert(crate::wire::spec_encode_items::<Sprite>(record.sprites) =~= Seq::<u8>::empty());
    crate::wire::lemma_u32_le_len(0);
    assert(data.len() == 37);
    crate::state::lemma_registry_read_back(record);
    reveal(spec_from_account_info);
}

/// `StoreSprite` only adds. Where it succeeds, the registry holds one sprite more than it
/// held: the sprite that the arguments tell of, bound to the sprite's mint, behind the
/// sprites that were there. Custody is asked for by one creation of the slot and one
/// transfer where the token program does not own the slot, and not at all where it does.
pub proof fn lemma_store_sprite_appends(
    program_id: Seq<u8>,
    accounts: Seq<AccountInfo>,
    args: StoreSpriteArgsView,
)
    requires
        spec_process_store_sprite(program_id, accounts, args) is Ok,
        spec_process_store_sprite(program_id, accounts, args)->Ok_0.record is Ok,
    ensures
        ({
            let plan = spec_process_store_sprite(program_id, accounts, args)->Ok_0;
            let registry = accounts[6];
            let before = spec_from_account_info::<SpriteAccount>(registry.data@, registry.owner@);
            let after = spec_from_account_info::<SpriteAccount>(
                spec_storage_after(registry.data@, plan.record->Ok_0),
                registry.owner@,
            );
            &&& before is Ok
            &&& after == Ok::<SpriteAccountView, SpriteManagerError>(
                spec_with_sprite(before->Ok_0, spec_sprite_of(args, accounts[2].key@)),
            )
            &&& after->Ok_0.sprites.len() == before->Ok_0.sprites.len() + 1
            &&& plan.custody.len() == 0 || plan.custody.len() == 2
            &&& !spec_custody_missing(accounts[4].owner@) ==> plan.custody.len() == 0
            &&& spec_custody_missing(accounts[4].owner@) ==> plan.custody.len() == 2
        }),
{
    let registry = accounts[6];
    lemma_store_appends(
        registry.data@,
        registry.owner@,
        spec_sprite_of(args, accounts[2].key@),
    );
}

/// `StoreSprite` from a source that has a delegate, that holds no unit or that holds
/// another token fails, and nothing is planned: neither a call nor a change of the
/// registry.
pub proof fn lemma_store_sprite_rejects_source(
    program_id: Seq<u8>,
    accounts: Seq<AccountInfo>,
    args: StoreSpriteArgsView,
)
    requires
        accounts.len() >= 10,
        spec_unpack_token_account(accounts[3].data@) matches Ok(held) && !spec_source_acceptable(
            held,
            accounts[2].key@,
        ),
    ensures
        spec_process_store_sprite(program_id, accounts, args) is Err,
{
}

/// `StoreSprite` from a source whose bytes say that it has a delegate fails, whatever else
/// the bytes hold.
pub proof fn lemma_store_sprite_rejects_delegate(
    program_id: Seq<u8>,
    accounts: Seq<AccountInfo>,
    args: StoreSpriteArgsView,
)
    requires
        accounts.len() >= 10,
        spec_option_tag(accounts[3].data@, 72) == Some(true),
    ensures
        spec_process_store_sprite(program_id, accounts, args) is Err,
{
}

} // verus!
