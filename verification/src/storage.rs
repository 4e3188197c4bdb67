//! What becomes of the storage of a registry when a sprite is stored in it.

use crate::account_info::AccountInfo;
use crate::error::SpriteManagerError;
use crate::state::{
    spec_from_account_info, spec_is_correct_account_type, Key, SolanaAccount, Sprite,
    SpriteAccount, SpriteAccountView, SpriteView,
};
use crate::wire::{append_bytes, spec_encode_items, spec_u32_le, try_to_vec, Wire};
use vstd::prelude::*;

verus! {

/// What becomes of the registry's storage when a sprite is stored: it grows to `resize`
/// bytes where it is too small, and `data` is written at its start.
#[derive(Clone, Debug)]
pub struct StorageUpdate {
    pub resize: Option<usize>,
    pub data: Vec<u8>,
}

/// What a change of the registry's storage is in contracts.
pub struct StorageUpdateView {
    pub resize: Option<usize>,
    pub data: Seq<u8>,
}

impl View for StorageUpdate {
    type V = StorageUpdateView;

    open spec fn view(&self) -> StorageUpdateView {
        StorageUpdateView { resize: self.resize, data: self.data@ }
    }
}

/// The storage after a change: the new bytes, and behind them what the old storage held
/// there.
pub open spec fn spec_storage_after(old_storage: Seq<u8>, update: StorageUpdateView) -> Seq<u8> {
    if update.data.len() >= old_storage.len() {
        update.data
    } else {
        update.data + old_storage.subrange(update.data.len() as int, old_storage.len() as int)
    }
}

impl StorageUpdate {
    /// Carries the change out on a copy of the storage.
    pub fn apply(&self, storage: &mut Vec<u8>)
        ensures
            final(storage)@ == spec_storage_after(old(storage)@, self@),
    {
        let mut next: Vec<u8> = Vec::new();
        append_bytes(&mut next, self.data.as_slice());
        if self.data.len() < storage.len() {
            let from: usize = self.data.len();
            let mut i: usize = from;
            while i < storage.len()
                invariant
                    from <= i <= storage@.len(),
                    from == self.data@.len(),
                    storage@ == old(storage)@,
                    next@ == self.data@ + storage@.subrange(from as int, i as int),
                decreases storage@.len() - i,
            {
                next.push(storage[i]);
                i += 1;
                assert(next@ =~= self.data@ + storage@.subrange(from as int, i as int));
            }
        }
        *storage = next;
    }
}

/// A registry with one more sprite behind the ones it has.
pub open spec fn spec_with_sprite(record: SpriteAccountView, sprite: SpriteView) -> SpriteAccountView {
    SpriteAccountView {
        key: record.key,
        base_mint: record.base_mint,
        sprites: record.sprites.push(sprite),
    }
}

/// What storing a sprite does to the registry's storage: the record is read, the sprite is
/// put behind the others, and the record is written out anew. The storage grows only where
/// the new record does not fit in it.
#[verifier::opaque]
pub open spec fn spec_append_sprite(data: Seq<u8>, owner: Seq<u8>, sprite: SpriteView) -> Result<
    StorageUpdateView,
    SpriteManagerError,
> {
    match spec_from_account_info::<SpriteAccount>(data, owner) {
        Err(e) => Err(e),
        Ok(record) => {
            let grown = spec_with_sprite(record, sprite);
            if !SpriteAccount::spec_fits(grown) {
                Err(SpriteManagerError::FailedToSerialize)
            } else {
                let bytes = SpriteAccount::spec_encode(grown);
                Ok(
                    StorageUpdateView {
                        resize: if bytes.len() > data.len() {
                            Some(bytes.len() as usize)
                        } else {
                            None
                        },
                        data: bytes,
                    },
                )
            }
        },
    }
}

/// Puts a sprite behind the sprites of the registry that the account `registry` stores,
/// and says what becomes of the storage.
pub fn append_sprite(registry: &AccountInfo, sprite: Sprite) -> (res: Result<
    StorageUpdate,
    SpriteManagerError,
>)
    ensures
        match res {
            Ok(update) => spec_append_sprite(registry.data@, registry.owner@, sprite@) == Ok::<
                StorageUpdateView,
                SpriteManagerError,
            >(update@),
            Err(e) => spec_append_sprite(registry.data@, registry.owner@, sprite@) == Err::<
                StorageUpdateView,
                SpriteManagerError,
            >(e),
        },
{
    proof {
        reveal(spec_from_account_info);
        reveal(spec_append_sprite);
    }
    let mut sprite_account = match SpriteAccount::from_account_info(registry) {
        Ok(record) => record,
        Err(e) => {
            return Err(e);
        },
    };
    let ghost record = sprite_account@;
    sprite_account.sprites.push(sprite);
    assert(sprite_account@.sprites =~= record.sprites.push(sprite@));
    assert(sprite_account@ == spec_with_sprite(record, sprite@));
    let serialized_data = match try_to_vec(&sprite_account) {
        Some(bytes) => bytes,
        None => {
            return Err(SpriteManagerError::FailedToSerialize);
        },
    };
    let resize = if serialized_data.len() > registry.data.len() {
        Some(serialized_data.len())
    } else {
        None
    };
    Ok(StorageUpdate { resize, data: serialized_data })
}

/// Where the old record ends in the storage of a registry that can be read.
pub open spec fn spec_record_end(data: Seq<u8>) -> int {
    SpriteAccount::spec_read(data, 0)->Ok_0.1
}

/// How the bytes of a registry are laid out: the tag, the base item, the number of the
/// sprites, the sprites.
proof fn lemma_record_layout(record: SpriteAccountView)
    requires
        record.base_mint.len() == 32,
    ensures
        SpriteAccount::spec_encode(record).len() == 37 + spec_encode_items::<Sprite>(
            record.sprites,
        ).len(),
        SpriteAccount::spec_encode(record)[0] == record.key.spec_to_u8(),
        SpriteAccount::spec_encode(record).subrange(0, 33) == seq![record.key.spec_to_u8()]
            + record.base_mint,
        SpriteAccount::spec_encode(record).subrange(
            37,
            SpriteAccount::spec_encode(record).len() as int,
        ) == spec_encode_items::<Sprite>(record.sprites),
{
    crate::wire::lemma_u32_le_len(record.sprites.len() as u32);
    let bytes = SpriteAccount::spec_encode(record);
    let items = spec_encode_items::<Sprite>(record.sprites);
    let count = spec_u32_le(record.sprites.len() as u32);
    assert(bytes == seq![record.key.spec_to_u8()] + (record.base_mint + (count + items)));
    assert(bytes.subrange(0, 33) =~= seq![record.key.spec_to_u8()] + record.base_mint);
    assert(bytes.subrange(37, bytes.len() as int) =~= items);
}

/// What a store that succeeds has read, and what it writes.
proof fn lemma_append_parts(data: Seq<u8>, owner: Seq<u8>, sprite: SpriteView)
    requires
        spec_append_sprite(data, owner, sprite) is Ok,
    ensures
        ({
            let before = spec_from_account_info::<SpriteAccount>(data, owner)->Ok_0;
            let grown = spec_with_sprite(before, sprite);
            &&& spec_from_account_info::<SpriteAccount>(data, owner) is Ok
            &&& spec_is_correct_account_type(data, Key::SpriteAccount)
            &&& SpriteAccount::spec_read(data, 0) is Ok
            &&& SpriteAccount::spec_read(data, 0)->Ok_0.0 == before
            &&& owner == crate::spec_id()
            &&& SpriteAccount::spec_fits(grown)
            &&& spec_append_sprite(data, owner, sprite)->Ok_0.data == SpriteAccount::spec_encode(
                grown,
            )
        }),
{
    reveal(spec_from_account_info);
    reveal(spec_append_sprite);
}

/// The storage after a change opens with the bytes that were written.
proof fn lemma_storage_head(old_storage: Seq<u8>, update: StorageUpdateView)
    ensures
        update.data.len() <= spec_storage_after(old_storage, update).len(),
        spec_storage_after(old_storage, update).subrange(0, update.data.len() as int)
            == update.data,
{
    assert(spec_storage_after(old_storage, update).subrange(0, update.data.len() as int)
        =~= update.data);
}

/// Storage that holds a record opens with the tag of that record.
proof fn lemma_first_byte(data: Seq<u8>)
    requires
        SpriteAccount::spec_read(data, 0) is Ok,
    ensures
        data.len() > 0,
        data[0] == SpriteAccount::spec_read(data, 0)->Ok_0.0.key.spec_to_u8(),
{
}

/// Storage of the sprite manager that opens with the tag of a registry or of unwritten
/// storage and holds a record is read as that record.
proof fn lemma_read_of_tagged(data: Seq<u8>, owner: Seq<u8>)
    requires
        SpriteAccount::spec_read(data, 0) is Ok,
        data.len() > 0,
        data[0] == 0 || data[0] == 1,
        owner == crate::spec_id(),
    ensures
        spec_from_account_info::<SpriteAccount>(data, owner) == Ok::<
            SpriteAccountView,
            SpriteManagerError,
        >(SpriteAccount::spec_read(data, 0)->Ok_0.0),
{
    reveal(spec_from_account_info);
}

/// The record that a store has written is read back from the storage.
proof fn lemma_store_read_back(data: Seq<u8>, owner: Seq<u8>, sprite: SpriteView)
    requires
        spec_append_sprite(data, owner, sprite) is Ok,
    ensures
        spec_from_account_info::<SpriteAccount>(data, owner) is Ok,
        spec_from_account_info::<SpriteAccount>(
            spec_storage_after(data, spec_append_sprite(data, owner, sprite)->Ok_0),
            owner,
        ) == Ok::<SpriteAccountView, SpriteManagerError>(
            spec_with_sprite(spec_from_account_info::<SpriteAccount>(data, owner)->Ok_0, sprite),
        ),
{
    lemma_append_parts(data, owner, sprite);
    let before = spec_from_account_info::<SpriteAccount>(data, owner)->Ok_0;
    let grown = spec_with_sprite(before, sprite);
    let update = spec_append_sprite(data, owner, sprite)->Ok_0;
    let storage = spec_storage_after(data, update);
    lemma_storage_head(data, update);
    SpriteAccount::lemma_read_written(storage, 0, grown);
    lemma_first_byte(data);
    lemma_first_byte(storage);
    lemma_read_of_tagged(storage, owner);
}

/// To store a sprite only adds it: the registry then holds one sprite more, the new one
/// behind the others, and the sprites that it held before are what they were.
pub proof fn lemma_store_appends(data: Seq<u8>, owner: Seq<u8>, sprite: SpriteView)
    requires
        spec_append_sprite(data, owner, sprite) is Ok,
    ensures
        ({
            let before = spec_from_account_info::<SpriteAccount>(data, owner)->Ok_0;
            let storage = spec_storage_after(data, spec_append_sprite(data, owner, sprite)->Ok_0);
            let after = spec_from_account_info::<SpriteAccount>(storage, owner);
            &&& spec_from_account_info::<SpriteAccount>(data, owner) is Ok
            &&& after == Ok::<SpriteAccountView, SpriteManagerError>(
                spec_with_sprite(before, sprite),
            )
            &&& after->Ok_0.sprites.len() == before.sprites.len() + 1
            &&& after->Ok_0.sprites.last() == sprite
            &&& forall|i: int|
                0 <= i < before.sprites.len() ==> after->Ok_0.sprites[i] == before.sprites[i]
        }),
{
    lemma_store_read_back(data, owner, sprite);
}

/// A stretch of bytes within the head of a buffer is that stretch of the head.
proof fn lemma_within_head(buffer: Seq<u8>, head: Seq<u8>, from: int, to: int)
    requires
        head.len() <= buffer.len(),
        buffer.subrange(0, head.len() as int) == head,
        0 <= from <= to <= head.len(),
    ensures
        buffer.subrange(from, to) == head.subrange(from, to),
{
    assert(buffer.subrange(from, to) =~= buffer.subrange(0, head.len() as int).subrange(from, to));
}

/// The bytes of a registry with one sprite more are those of the registry but for the
/// number of the sprites, and behind them the new sprite.
proof fn lemma_grown_layout(record: SpriteAccountView, sprite: SpriteView)
    requires
        record.base_mint.len() == 32,
    ensures
        ({
            let bytes = SpriteAccount::spec_encode(record);
            let grown = SpriteAccount::spec_encode(spec_with_sprite(record, sprite));
            &&& 37 <= bytes.len() <= grown.len()
            &&& grown.subrange(0, 33) == bytes.subrange(0, 33)
            &&& grown.subrange(37, bytes.len() as int) == bytes.subrange(37, bytes.len() as int)
        }),
{
    let with = spec_with_sprite(record, sprite);
    let bytes = SpriteAccount::spec_encode(record);
    let grown = SpriteAccount::spec_encode(with);
    let items = spec_encode_items::<Sprite>(record.sprites);
    lemma_record_layout(record);
    lemma_record_layout(with);
    assert(spec_encode_items::<Sprite>(with.sprites) == items + Sprite::spec_encode(sprite)) by {
        assert(with.sprites.drop_last() =~= record.sprites);
    }
    assert(grown.subrange(37, bytes.len() as int) =~= grown.subrange(
        37,
        grown.len() as int,
    ).subrange(0, items.len() as int));
}

/// To store a sprite leaves the bytes of the sprites that were stored before as they are
/// and where they are: behind the tag and the base item, which stay as well, and the
/// number of the sprites, which alone changes.
pub proof fn lemma_store_keeps_bytes(data: Seq<u8>, owner: Seq<u8>, sprite: SpriteView)
    requires
        spec_append_sprite(data, owner, sprite) is Ok,
    ensures
        ({
            let storage = spec_storage_after(data, spec_append_sprite(data, owner, sprite)->Ok_0);
            let end = spec_record_end(data);
            &&& 37 <= end <= data.len()
            &&& end <= storage.len()
            &&& storage.subrange(0, 33) == data.subrange(0, 33)
            &&& storage.subrange(37, end) == data.subrange(37, end)
        }),
{
    lemma_append_parts(data, owner, sprite);
    let before = spec_from_account_info::<SpriteAccount>(data, owner)->Ok_0;
    let update = spec_append_sprite(data, owner, sprite)->Ok_0;
    let bytes = SpriteAccount::spec_encode(before);
    let grown = SpriteAccount::spec_encode(spec_with_sprite(before, sprite));
    let storage = spec_storage_after(data, update);
    let end = spec_record_end(data);
    SpriteAccount::lemma_written_where_read(data, 0);
    lemma_storage_head(data, update);
    lemma_grown_layout(before, sprite);
    lemma_within_head(data, bytes, 0, 33);
    lemma_within_head(data, bytes, 37, end);
    lemma_within_head(storage, grown, 0, 33);
    lemma_within_head(storage, grown, 37, end);
}

/// The storage of a registry after the sprites of a list were stored in it one after the
/// other, or the error of the first that could not be stored.
pub open spec fn spec_store_all(data: Seq<u8>, owner: Seq<u8>, sprites: Seq<SpriteView>) -> Result<
    Seq<u8>,
    SpriteManagerError,
>
    decreases sprites.len(),
{
    if sprites.len() == 0 {
        Ok(data)
    } else {
        match spec_store_all(data, owner, sprites.drop_last()) {
            Err(e) => Err(e),
            Ok(storage) => match spec_append_sprite(storage, owner, sprites.last()) {
                Err(e) => Err(e),
                Ok(update) => Ok(spec_storage_after(storage, update)),
            },
        }
    }
}

/// After any number of sprites were stored with success, the registry holds the sprites
/// that it held before and behind them the ones that were stored, in the order in which
/// they were stored: a registry that was empty holds as many as were stored.
pub proof fn lemma_store_all_appends(data: Seq<u8>, owner: Seq<u8>, sprites: Seq<SpriteView>)
    requires
        spec_from_account_info::<SpriteAccount>(data, owner) is Ok,
        spec_store_all(data, owner, sprites) is Ok,
    ensures
        ({
            let before = spec_from_account_info::<SpriteAccount>(data, owner)->Ok_0;
            let after = spec_from_account_info::<SpriteAccount>(
                spec_store_all(data, owner, sprites)->Ok_0,
                owner,
            );
            &&& after is Ok
            &&& after->Ok_0.key == before.key
            &&& after->Ok_0.base_mint == before.base_mint
            &&& after->Ok_0.sprites == before.sprites + sprites
            &&& after->Ok_0.sprites.len() == before.sprites.len() + sprites.len()
        }),
    decreases sprites.len(),
{
    let before = spec_from_account_info::<SpriteAccount>(data, owner)->Ok_0;
    if sprites.len() == 0 {
        assert(before.sprites + sprites =~= before.sprites);
    } else {
        let init = sprites.drop_last();
        let last = sprites.last();
        assert(spec_store_all(data, owner, init) is Ok);
        lemma_store_all_appends(data, owner, init);
        let storage = spec_store_all(data, owner, init)->Ok_0;
        assert(spec_append_sprite(storage, owner, last) is Ok);
        let update = spec_append_sprite(storage, owner, last)->Ok_0;
        assert(spec_store_all(data, owner, sprites) == Ok::<Seq<u8>, SpriteManagerError>(
            spec_storage_after(storage, update),
        ));
        lemma_store_read_back(storage, owner, last);
        assert((before.sprites + init).push(last) =~= before.sprites + sprites);
    }
}

} // verus!
