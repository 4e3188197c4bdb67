//! The instructions of the sprite manager, their data, and how a client builds them.

use crate::programs::{
    associated_token_program_id, spec_associated_token_program_id, spec_sysvar_instructions_id,
    spec_system_program_id, spec_token_metadata_program_id, spec_token_program_id,
    sysvar_instructions_id, system_program_id, token_metadata_program_id, token_program_id,
};
use crate::pubkey::Pubkey;
use crate::state::{PerspectiveTags, StyleTags};
use crate::wire::{
    lemma_concat_assoc, lemma_read_head, lemma_read_seq_head, lemma_read_seq_written,
    lemma_seq_written_where_read, lemma_subrange_join, read_seq, seq_fits, spec_encode_seq,
    spec_models, spec_read_seq, spec_seq_fits, write_seq, DecodeError, Wire,
};
use vstd::prelude::*;

verus! {

/// What is told of a sprite when it is stored.
#[derive(Clone, Debug)]
pub struct StoreSpriteArgs {
    pub name: String,
    pub description: String,
    pub perspective_tags: Vec<PerspectiveTags>,
    pub style_tags: Vec<StyleTags>,
    pub custom_tags: Vec<String>,
}

/// What the arguments of `StoreSprite` are in contracts.
pub struct StoreSpriteArgsView {
    pub name: Seq<char>,
    pub description: Seq<char>,
    pub perspective_tags: Seq<PerspectiveTags>,
    pub style_tags: Seq<StyleTags>,
    pub custom_tags: Seq<Seq<char>>,
}

impl View for StoreSpriteArgs {
    type V = StoreSpriteArgsView;

    open spec fn view(&self) -> StoreSpriteArgsView {
        StoreSpriteArgsView {
            name: self.name@,
            description: self.description@,
            perspective_tags: self.perspective_tags@,
            style_tags: self.style_tags@,
            custom_tags: self.custom_tags@.map_values(|tag: String| tag@),
        }
    }
}

/// The vectors of the arguments, item by item, are what their view holds.
pub proof fn lemma_args_models(args: StoreSpriteArgs)
    ensures
        spec_models::<PerspectiveTags>(args.perspective_tags@) == args@.perspective_tags,
        spec_models::<StyleTags>(args.style_tags@) == args@.style_tags,
        spec_models::<String>(args.custom_tags@) == args@.custom_tags,
{
    assert(spec_models::<PerspectiveTags>(args.perspective_tags@) =~= args@.perspective_tags);
    assert(spec_models::<StyleTags>(args.style_tags@) =~= args@.style_tags);
    assert(spec_models::<String>(args.custom_tags@) =~= args@.custom_tags);
}

impl Wire for StoreSpriteArgs {
    type Model = StoreSpriteArgsView;

    open spec fn model(&self) -> StoreSpriteArgsView {
        self@
    }

    open spec fn spec_encode(m: StoreSpriteArgsView) -> Seq<u8> {
        String::spec_encode(m.name) + (String::spec_encode(m.description) + (spec_encode_seq::<
            PerspectiveTags,
        >(m.perspective_tags) + (spec_encode_seq::<StyleTags>(m.style_tags) + spec_encode_seq::<
            String,
        >(m.custom_tags))))
    }

    open spec fn spec_fits(m: StoreSpriteArgsView) -> bool {
        &&& String::spec_fits(m.name)
        &&& String::spec_fits(m.description)
        &&& spec_seq_fits::<PerspectiveTags>(m.perspective_tags)
        &&& spec_seq_fits::<StyleTags>(m.style_tags)
        &&& spec_seq_fits::<String>(m.custom_tags)
    }

    open spec fn spec_read(data: Seq<u8>, pos: int) -> Result<
        (StoreSpriteArgsView, int),
        DecodeError,
    > {
        match String::spec_read(data, pos) {
            Err(e) => Err(e),
            Ok((name, at1)) => match String::spec_read(data, at1) {
                Err(e) => Err(e),
                Ok((description, at2)) => match spec_read_seq::<PerspectiveTags>(data, at2) {
                    Err(e) => Err(e),
                    Ok((perspective_tags, at3)) => match spec_read_seq::<StyleTags>(data, at3) {
                        Err(e) => Err(e),
                        Ok((style_tags, at4)) => match spec_read_seq::<String>(data, at4) {
                            Err(e) => Err(e),
                            Ok((custom_tags, at5)) => Ok(
                                (
                                    StoreSpriteArgsView {
                                        name,
                                        description,
                                        perspective_tags,
                                        style_tags,
                                        custom_tags,
                                    },
                                    at5,
                                ),
                            ),
                        },
                    },
                },
            },
        }
    }

    fn fits(&self) -> (ok: bool) {
        proof {
            lemma_args_models(*self);
        }
        self.name.fits() && self.description.fits() && seq_fits(&self.perspective_tags) && seq_fits(
            &self.style_tags,
        ) && seq_fits(&self.custom_tags)
    }

    fn write(&self, out: &mut Vec<u8>) {
        proof {
            lemma_args_models(*self);
        }
        self.name.write(out);
        self.description.write(out);
        write_seq(&self.perspective_tags, out);
        write_seq(&self.style_tags, out);
        write_seq(&self.custom_tags, out);
        proof {
            let o = old(out)@;
            let e1 = String::spec_encode(self@.name);
            let e2 = String::spec_encode(self@.description);
            let e3 = spec_encode_seq::<PerspectiveTags>(self@.perspective_tags);
            let e4 = spec_encode_seq::<StyleTags>(self@.style_tags);
            let e5 = spec_encode_seq::<String>(self@.custom_tags);
            lemma_concat_assoc(o + e1 + e2 + e3, e4, e5);
            lemma_concat_assoc(o + e1 + e2, e3, e4 + e5);
            lemma_concat_assoc(o + e1, e2, e3 + (e4 + e5));
            lemma_concat_assoc(o, e1, e2 + (e3 + (e4 + e5)));
        }
    }

    fn read(data: &[u8], pos: usize) -> (res: Result<(StoreSpriteArgs, usize), DecodeError>) {
        let (name, at1) = match String::read(data, pos) {
            Ok(pair) => pair,
            Err(e) => {
                return Err(e);
            },
        };
        let (description, at2) = match String::read(data, at1) {
            Ok(pair) => pair,
            Err(e) => {
                return Err(e);
            },
        };
        let (perspective_tags, at3) = match read_seq::<PerspectiveTags>(data, at2) {
            Ok(pair) => pair,
            Err(e) => {
                return Err(e);
            },
        };
        let (style_tags, at4) = match read_seq::<StyleTags>(data, at3) {
            Ok(pair) => pair,
            Err(e) => {
                return Err(e);
            },
        };
        let (custom_tags, at5) = match read_seq::<String>(data, at4) {
            Ok(pair) => pair,
            Err(e) => {
                return Err(e);
            },
        };
        let args = StoreSpriteArgs { name, description, perspective_tags, style_tags, custom_tags };
        proof {
            lemma_args_models(args);
        }
        Ok((args, at5))
    }

    proof fn lemma_read_written(data: Seq<u8>, pos: int, m: StoreSpriteArgsView) {
        let e1 = String::spec_encode(m.name);
        let e2 = String::spec_encode(m.description);
        let e3 = spec_encode_seq::<PerspectiveTags>(m.perspective_tags);
        let e4 = spec_encode_seq::<StyleTags>(m.style_tags);
        let e5 = spec_encode_seq::<String>(m.custom_tags);
        let r3 = e4 + e5;
        let r2 = e3 + r3;
        let r1 = e2 + r2;
        let at1: int = pos + e1.len();
        let at2: int = at1 + e2.len();
        let at3: int = at2 + e3.len();
        let at4: int = at3 + e4.len();
        lemma_read_head::<String>(data, pos, m.name, r1);
        lemma_read_head::<String>(data, at1, m.description, r2);
        lemma_read_seq_head::<PerspectiveTags>(data, at2, m.perspective_tags, r3);
        lemma_read_seq_head::<StyleTags>(data, at3, m.style_tags, e5);
        lemma_read_seq_written::<String>(data, at4, m.custom_tags);
    }

    proof fn lemma_written_where_read(data: Seq<u8>, pos: int) {
        let at1 = String::spec_read(data, pos)->Ok_0.1;
        String::lemma_written_where_read(data, pos);
        let at2 = String::spec_read(data, at1)->Ok_0.1;
        String::lemma_written_where_read(data, at1);
        let at3 = spec_read_seq::<PerspectiveTags>(data, at2)->Ok_0.1;
        lemma_seq_written_where_read::<PerspectiveTags>(data, at2);
        let at4 = spec_read_seq::<StyleTags>(data, at3)->Ok_0.1;
        lemma_seq_written_where_read::<StyleTags>(data, at3);
        let at5 = spec_read_seq::<String>(data, at4)->Ok_0.1;
        lemma_seq_written_where_read::<String>(data, at4);
        lemma_subrange_join(data, at3, at4, at5);
        lemma_subrange_join(data, at2, at3, at5);
        lemma_subrange_join(data, at1, at2, at5);
        lemma_subrange_join(data, pos, at1, at5);
    }
}

/// The instructions that the sprite manager carries out.
#[derive(Clone, Debug)]
pub enum SpriteManagerInstruction {
    /// Creates the registry of a base item.
    CreateSpriteAccount,
    /// Stores a sprite in the registry of a base item.
    StoreSprite(StoreSpriteArgs),
}

/// What an instruction is in contracts.
pub enum SpriteManagerInstructionView {
    CreateSpriteAccount,
    StoreSprite(StoreSpriteArgsView),
}

impl View for SpriteManagerInstruction {
    type V = SpriteManagerInstructionView;

    open spec fn view(&self) -> SpriteManagerInstructionView {
        match self {
            SpriteManagerInstruction::CreateSpriteAccount => {
                SpriteManagerInstructionView::CreateSpriteAccount
            },
            SpriteManagerInstruction::StoreSprite(args) => SpriteManagerInstructionView::StoreSprite(
                args@,
            ),
        }
    }
}

impl Wire for SpriteManagerInstruction {
    type Model = SpriteManagerInstructionView;

    open spec fn model(&self) -> SpriteManagerInstructionView {
        self@
    }

    open spec fn spec_encode(m: SpriteManagerInstructionView) -> Seq<u8> {
        match m {
            SpriteManagerInstructionView::CreateSpriteAccount => seq![0u8],
            SpriteManagerInstructionView::StoreSprite(args) => seq![1u8]
                + StoreSpriteArgs::spec_encode(args),
        }
    }

    open spec fn spec_fits(m: SpriteManagerInstructionView) -> bool {
        match m {
            SpriteManagerInstructionView::CreateSpriteAccount => true,
            SpriteManagerInstructionView::StoreSprite(args) => StoreSpriteArgs::spec_fits(args),
        }
    }

    open spec fn spec_read(data: Seq<u8>, pos: int) -> Result<
        (SpriteManagerInstructionView, int),
        DecodeError,
    > {
        if !(0 <= pos < data.len()) {
            Err(DecodeError::UnexpectedLength)
        } else if data[pos] == 0 {
            Ok((SpriteManagerInstructionView::CreateSpriteAccount, pos + 1))
        } else if data[pos] == 1 {
            match StoreSpriteArgs::spec_read(data, pos + 1) {
                Err(e) => Err(e),
                Ok((args, next)) => Ok((SpriteManagerInstructionView::StoreSprite(args), next)),
            }
        } else {
            Err(DecodeError::InvalidVariant)
        }
    }

    fn fits(&self) -> (ok: bool) {
        match self {
            SpriteManagerInstruction::CreateSpriteAccount => true,
            SpriteManagerInstruction::StoreSprite(args) => args.fits(),
        }
    }

    fn write(&self, out: &mut Vec<u8>) {
        match self {
            SpriteManagerInstruction::CreateSpriteAccount => {
                out.push(0);
            },
            SpriteManagerInstruction::StoreSprite(args) => {
                out.push(1);
                args.write(out);
            },
        }
        assert(out@ =~= old(out)@ + Self::spec_encode(self@));
    }

    fn read(data: &[u8], pos: usize) -> (res: Result<(SpriteManagerInstruction, usize), DecodeError>) {
        if pos >= data.len() {
            return Err(DecodeError::UnexpectedLength);
        }
        let tag: u8 = data[pos];
        if tag == 0 {
            Ok((SpriteManagerInstruction::CreateSpriteAccount, pos + 1))
        } else if tag == 1 {
            match StoreSpriteArgs::read(data, pos + 1) {
                Err(e) => Err(e),
                Ok((args, next)) => Ok((SpriteManagerInstruction::StoreSprite(args), next)),
            }
        } else {
            Err(DecodeError::InvalidVariant)
        }
    }

    proof fn lemma_read_written(data: Seq<u8>, pos: int, m: SpriteManagerInstructionView) {
        let whole = Self::spec_encode(m);
        assert(data.subrange(pos, pos + whole.len())[0] == data[pos]);
        match m {
            SpriteManagerInstructionView::CreateSpriteAccount => {},
            SpriteManagerInstructionView::StoreSprite(args) => {
                let body = StoreSpriteArgs::spec_encode(args);
                let end: int = (body.len() + 1) as int;
                assert(data.subrange(pos + 1, pos + end) =~= whole.subrange(1, end));
                assert(whole.subrange(1, end) =~= body);
                StoreSpriteArgs::lemma_read_written(data, pos + 1, args);
            },
        }
    }

    proof fn lemma_written_where_read(data: Seq<u8>, pos: int) {
        if data[pos] == 0 {
            assert(data.subrange(pos, pos + 1) =~= seq![0u8]);
        } else {
            let end = StoreSpriteArgs::spec_read(data, pos + 1)->Ok_0.1;
            StoreSpriteArgs::lemma_written_where_read(data, pos + 1);
            assert(data.subrange(pos, pos + 1) =~= seq![1u8]);
            lemma_subrange_join(data, pos, pos + 1, end);
        }
    }
}

/// An account as an instruction names it: its address, whether it has to sign, and whether
/// the instruction may change it.
#[derive(Clone, Copy, Debug)]
pub struct AccountMeta {
    pub pubkey: Pubkey,
    pub is_signer: bool,
    pub is_writable: bool,
}

/// What a named account is in contracts.
pub struct AccountMetaView {
    pub pubkey: Seq<u8>,
    pub is_signer: bool,
    pub is_writable: bool,
}

impl View for AccountMeta {
    type V = AccountMetaView;

    open spec fn view(&self) -> AccountMetaView {
        AccountMetaView {
            pubkey: self.pubkey@,
            is_signer: self.is_signer,
            is_writable: self.is_writable,
        }
    }
}

/// An account that the instruction may change.
pub open spec fn spec_writable(pubkey: Seq<u8>, is_signer: bool) -> AccountMetaView {
    AccountMetaView { pubkey, is_signer, is_writable: true }
}

/// An account that the instruction only reads.
pub open spec fn spec_readonly(pubkey: Seq<u8>, is_signer: bool) -> AccountMetaView {
    AccountMetaView { pubkey, is_signer, is_writable: false }
}

impl AccountMeta {
    /// Names an account that the instruction may change.
    pub fn new(pubkey: Pubkey, is_signer: bool) -> (meta: AccountMeta)
        ensures
            meta@ == spec_writable(pubkey@, is_signer),
    {
        AccountMeta { pubkey, is_signer, is_writable: true }
    }

    /// Names an account that the instruction only reads.
    pub fn new_readonly(pubkey: Pubkey, is_signer: bool) -> (meta: AccountMeta)
        ensures
            meta@ == spec_readonly(pubkey@, is_signer),
    {
        AccountMeta { pubkey, is_signer, is_writable: false }
    }
}

/// An instruction for a program: the program, the accounts that it names, and its data.
#[derive(Clone, Debug)]
pub struct Instruction {
    pub program_id: Pubkey,
    pub accounts: Vec<AccountMeta>,
    pub data: Vec<u8>,
}

/// What an instruction for a program is in contracts.
pub struct InstructionView {
    pub program_id: Seq<u8>,
    pub accounts: Seq<AccountMetaView>,
    pub data: Seq<u8>,
}

impl View for Instruction {
    type V = InstructionView;

    open spec fn view(&self) -> InstructionView {
        InstructionView {
            program_id: self.program_id@,
            accounts: self.accounts@.map_values(|meta: AccountMeta| meta@),
            data: self.data@,
        }
    }
}

/// The accounts that `CreateSpriteAccount` names, in their order.
pub open spec fn spec_create_sprite_account_metas(
    escrow: Seq<u8>,
    metadata: Seq<u8>,
    mint: Seq<u8>,
    token_account: Seq<u8>,
    edition: Seq<u8>,
    sprite_account: Seq<u8>,
    creator: Seq<u8>,
) -> Seq<AccountMetaView> {
    seq![
        spec_writable(escrow, false),
        spec_writable(metadata, false),
        spec_readonly(mint, false),
        spec_readonly(token_account, false),
        spec_readonly(edition, false),
        spec_writable(sprite_account, false),
        spec_readonly(creator, true),
        spec_readonly(spec_token_metadata_program_id(), false),
        spec_readonly(spec_system_program_id(), false),
        spec_readonly(spec_sysvar_instructions_id(), false),
    ]
}

/// The accounts that `StoreSprite` names, in their order.
pub open spec fn spec_store_sprite_metas(
    escrow: Seq<u8>,
    base_mint: Seq<u8>,
    sprite_mint: Seq<u8>,
    sprite_mint_src: Seq<u8>,
    sprite_mint_dst: Seq<u8>,
    payer: Seq<u8>,
    sprite_account: Seq<u8>,
) -> Seq<AccountMetaView> {
    seq![
        spec_writable(escrow, false),
        spec_readonly(base_mint, false),
        spec_readonly(sprite_mint, false),
        spec_writable(sprite_mint_src, false),
        spec_writable(sprite_mint_dst, false),
        spec_writable(payer, true),
        spec_writable(sprite_account, false),
        spec_readonly(spec_system_program_id(), false),
        spec_readonly(spec_token_program_id(), false),
        spec_readonly(spec_associated_token_program_id(), false),
    ]
}

/// Builds the instruction that creates the registry of the base item `mint`.
pub fn create_sprite_account(
    program_id: &Pubkey,
    escrow: &Pubkey,
    metadata: &Pubkey,
    mint: &Pubkey,
    token_account: &Pubkey,
    edition: &Pubkey,
    sprite_account: &Pubkey,
    creator: &Pubkey,
) -> (instruction: Instruction)
    ensures
        instruction@ == (InstructionView {
            program_id: program_id@,
            accounts: spec_create_sprite_account_metas(
                escrow@,
                metadata@,
                mint@,
                token_account@,
                edition@,
                sprite_account@,
                creator@,
            ),
            data: SpriteManagerInstruction::spec_encode(
                SpriteManagerInstructionView::CreateSpriteAccount,
            ),
        }),
{
    let mut accounts: Vec<AccountMeta> = Vec::new();
    accounts.push(AccountMeta::new(*escrow, false));
    accounts.push(AccountMeta::new(*metadata, false));
    accounts.push(AccountMeta::new_readonly(*mint, false));
    accounts.push(AccountMeta::new_readonly(*token_account, false));
    accounts.push(AccountMeta::new_readonly(*edition, false));
    accounts.push(AccountMeta::new(*sprite_account, false));
    accounts.push(AccountMeta::new_readonly(*creator, true));
    accounts.push(AccountMeta::new_readonly(token_metadata_program_id(), false));
    accounts.push(AccountMeta::new_readonly(system_program_id(), false));
    accounts.push(AccountMeta::new_readonly(sysvar_instructions_id(), false));
    let mut data: Vec<u8> = Vec::new();
    SpriteManagerInstruction::CreateSpriteAccount.write(&mut data);
    let instruction = Instruction { program_id: *program_id, accounts, data };
    assert(instruction@.accounts =~= spec_create_sprite_account_metas(
        escrow@,
        metadata@,
        mint@,
        token_account@,
        edition@,
        sprite_account@,
        creator@,
    ));
    assert(instruction@.data =~= SpriteManagerInstruction::spec_encode(
        SpriteManagerInstructionView::CreateSpriteAccount,
    ));
    instruction
}

/// The arguments of `store_sprite` as the arguments of the instruction.
pub open spec fn spec_store_sprite_args(
    name: Seq<char>,
    description: Seq<char>,
    perspective_tags: Seq<PerspectiveTags>,
    style_tags: Seq<StyleTags>,
    custom_tags: Seq<Seq<char>>,
) -> StoreSpriteArgsView {
    StoreSpriteArgsView { name, description, perspective_tags, style_tags, custom_tags }
}

/// Builds the instruction that stores a sprite in the registry of the base item `base_mint`.
/// The lengths of the texts and of the lists have to fit in four bytes each.
pub fn store_sprite(
    program_id: &Pubkey,
    escrow: &Pubkey,
    base_mint: &Pubkey,
    sprite_mint: &Pubkey,
    sprite_mint_src: &Pubkey,
    sprite_mint_dst: &Pubkey,
    payer: &Pubkey,
    sprite_account: &Pubkey,
    name: String,
    description: String,
    perspective_tags: Vec<PerspectiveTags>,
    style_tags: Vec<StyleTags>,
    custom_tags: Vec<String>,
) -> (instruction: Instruction)
    requires
        StoreSpriteArgs::spec_fits(
            spec_store_sprite_args(
                name@,
                description@,
                perspective_tags@,
                style_tags@,
                custom_tags@.map_values(|tag: String| tag@),
            ),
        ),
    ensures
        instruction@ == (InstructionView {
            program_id: program_id@,
            accounts: spec_store_sprite_metas(
                escrow@,
                base_mint@,
                sprite_mint@,
                sprite_mint_src@,
                sprite_mint_dst@,
                payer@,
                sprite_account@,
            ),
            data: SpriteManagerInstruction::spec_encode(
                SpriteManagerInstructionView::StoreSprite(
                    spec_store_sprite_args(
                        name@,
                        description@,
                        perspective_tags@,
                        style_tags@,
                        custom_tags@.map_values(|tag: String| tag@),
                    ),
                ),
            ),
        }),
{
    let mut accounts: Vec<AccountMeta> = Vec::new();
    accounts.push(AccountMeta::new(*escrow, false));
    accounts.push(AccountMeta::new_readonly(*base_mint, false));
    accounts.push(AccountMeta::new_readonly(*sprite_mint, false));
    accounts.push(AccountMeta::new(*sprite_mint_src, false));
    accounts.push(AccountMeta::new(*sprite_mint_dst, false));
    accounts.push(AccountMeta::new(*payer, true));
    accounts.push(AccountMeta::new(*sprite_account, false));
    accounts.push(AccountMeta::new_readonly(system_program_id(), false));
    accounts.push(AccountMeta::new_readonly(token_program_id(), false));
    accounts.push(AccountMeta::new_readonly(associated_token_program_id(), false));
    let instruction_args = StoreSpriteArgs {
        name,
        description,
        perspective_tags,
        style_tags,
        custom_tags,
    };
    let mut data: Vec<u8> = Vec::new();
    SpriteManagerInstruction::StoreSprite(instruction_args).write(&mut data);
    let instruction = Instruction { program_id: *program_id, accounts, data };
    assert(instruction@.accounts =~= spec_store_sprite_metas(
        escrow@,
        base_mint@,
        sprite_mint@,
        sprite_mint_src@,
        sprite_mint_dst@,
        payer@,
        sprite_account@,
    ));
    assert(instruction@.data =~= SpriteManagerInstruction::spec_encode(
        SpriteManagerInstructionView::StoreSprite(instruction_args@),
    ));
    instruction
}

} // verus!
