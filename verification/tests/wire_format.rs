use borsh::{BorshDeserialize, BorshSerialize};
use sprite_manager::instruction::{SpriteManagerInstruction, StoreSpriteArgs};
use sprite_manager::pubkey::Pubkey;
use sprite_manager::state::{
    Key, PerspectiveTags, SolanaAccount, Sprite, SpriteAccount, StyleTags,
};
use sprite_manager::wire::{
    read_seq, read_string, read_u32, try_from_slice, try_to_vec, write_string, write_u32,
    DecodeError, Wire,
};

fn key(byte: u8) -> Pubkey {
    Pubkey::new_from_array([byte; 32])
}

fn sample_sprite(name: &str, mint: u8) -> Sprite {
    Sprite {
        name: name.to_string(),
        description: "a test".to_string(),
        perspective_tags: vec![PerspectiveTags::TopDown, PerspectiveTags::Platformer],
        style_tags: vec![StyleTags::Pixel, StyleTags::Cartoon, StyleTags::Pixel],
        custom_tags: vec!["test".to_string(), "héllo".to_string()],
        mint: key(mint),
    }
}

fn same_sprite(a: &Sprite, b: &Sprite) -> bool {
    a.name == b.name
        && a.description == b.description
        && a.perspective_tags == b.perspective_tags
        && a.style_tags == b.style_tags
        && a.custom_tags == b.custom_tags
        && a.mint == b.mint
}

#[test]
fn u32_is_written_least_significant_byte_first() {
    let mut out = vec![9u8];
    write_u32(&mut out, 0x0403_0201);
    assert_eq!(out, vec![9, 1, 2, 3, 4]);
    let mut out = Vec::new();
    write_u32(&mut out, u32::MAX);
    assert_eq!(out, vec![255, 255, 255, 255]);
    let mut out = Vec::new();
    write_u32(&mut out, 0);
    assert_eq!(out, vec![0, 0, 0, 0]);
}

#[test]
fn u32_is_read_back_at_any_position() {
    let data = [7u8, 0x78, 0x56, 0x34, 0x12, 9];
    assert_eq!(read_u32(&data, 1), Ok((0x1234_5678, 5)));
    assert_eq!(read_u32(&data, 2), Ok((0x0912_3456, 6)));
    assert_eq!(read_u32(&data, 3), Err(DecodeError::UnexpectedLength));
    assert_eq!(read_u32(&data, 6), Err(DecodeError::UnexpectedLength));
}

#[test]
fn string_is_length_then_utf8() {
    let mut out = Vec::new();
    write_string(&mut out, "héllo");
    assert_eq!(out, vec![6, 0, 0, 0, b'h', 0xc3, 0xa9, b'l', b'l', b'o']);
    assert_eq!(read_string(&out, 0), Ok(("héllo".to_string(), 10)));
    let mut empty = Vec::new();
    write_string(&mut empty, "");
    assert_eq!(empty, vec![0, 0, 0, 0]);
    assert_eq!(read_string(&empty, 0), Ok((String::new(), 4)));
}

#[test]
fn string_that_is_not_utf8_is_refused() {
    let data = [2u8, 0, 0, 0, 0xff, 0xfe];
    assert_eq!(read_string(&data, 0), Err(DecodeError::InvalidUtf8));
    let truncated = [2u8, 0, 0, 0, 0xc3];
    assert_eq!(read_string(&truncated, 0), Err(DecodeError::UnexpectedLength));
    let half_char = [1u8, 0, 0, 0, 0xc3];
    assert_eq!(read_string(&half_char, 0), Err(DecodeError::InvalidUtf8));
}

#[test]
fn string_with_a_length_beyond_the_buffer_is_refused() {
    let data = [255u8, 255, 255, 255, b'a'];
    assert_eq!(read_string(&data, 0), Err(DecodeError::UnexpectedLength));
}

#[test]
fn tags_are_one_byte_each() {
    assert_eq!(PerspectiveTags::RPG.to_u8(), 0);
    assert_eq!(PerspectiveTags::TopDown.to_u8(), 1);
    assert_eq!(PerspectiveTags::SideScroller.to_u8(), 2);
    assert_eq!(PerspectiveTags::Platformer.to_u8(), 3);
    assert_eq!(StyleTags::Pixel.to_u8(), 0);
    assert_eq!(StyleTags::Vector.to_u8(), 1);
    assert_eq!(StyleTags::HandDrawn.to_u8(), 2);
    assert_eq!(StyleTags::Cartoon.to_u8(), 3);
    for byte in 0..=3u8 {
        assert_eq!(PerspectiveTags::from_u8(byte).map(|tag| tag.to_u8()), Some(byte));
        assert_eq!(StyleTags::from_u8(byte).map(|tag| tag.to_u8()), Some(byte));
    }
    for byte in 4..=255u8 {
        assert_eq!(PerspectiveTags::from_u8(byte), None);
        assert_eq!(StyleTags::from_u8(byte), None);
    }
    assert_eq!(PerspectiveTags::read(&[2], 0), Ok((PerspectiveTags::SideScroller, 1)));
    assert_eq!(PerspectiveTags::read(&[4], 0), Err(DecodeError::InvalidVariant));
    assert_eq!(StyleTags::read(&[9], 0), Err(DecodeError::InvalidVariant));
    assert_eq!(StyleTags::read(&[], 0), Err(DecodeError::UnexpectedLength));
}

#[test]
fn key_tags() {
    assert_eq!(Key::Uninitialized.to_u8(), 0);
    assert_eq!(Key::SpriteAccount.to_u8(), 1);
    assert_eq!(Key::from_u8(0), Some(Key::Uninitialized));
    assert_eq!(Key::from_u8(1), Some(Key::SpriteAccount));
    assert_eq!(Key::from_u8(2), None);
    assert_eq!(Key::from_u8(255), None);
    assert_eq!(Key::default(), Key::Uninitialized);
}

#[test]
fn empty_registry_is_thirty_seven_bytes() {
    let account = SpriteAccount { key: Key::SpriteAccount, base_mint: key(7), sprites: vec![] };
    let bytes = try_to_vec(&account).expect("an empty registry can be written");
    let mut expected = vec![1u8];
    expected.extend_from_slice(&[7u8; 32]);
    expected.extend_from_slice(&[0, 0, 0, 0]);
    assert_eq!(bytes, expected);
    assert_eq!(bytes.len(), 37);
}

#[test]
fn sprite_bytes_are_its_fields_in_order() {
    let sprite = Sprite {
        name: "ab".to_string(),
        description: "".to_string(),
        perspective_tags: vec![PerspectiveTags::Platformer],
        style_tags: vec![],
        custom_tags: vec!["x".to_string()],
        mint: key(5),
    };
    let bytes = try_to_vec(&sprite).expect("the sprite can be written");
    let mut expected = vec![
        2u8, 0, 0, 0, b'a', b'b', // name
        0, 0, 0, 0, // description
        1, 0, 0, 0, 3, // perspective tags
        0, 0, 0, 0, // style tags
        1, 0, 0, 0, 1, 0, 0, 0, b'x', // custom tags
    ];
    expected.extend_from_slice(&[5u8; 32]);
    assert_eq!(bytes, expected);
}

#[test]
fn sprite_bytes_are_those_that_borsh_writes() {
    let sprite = sample_sprite("knight", 9);
    let ours = try_to_vec(&sprite).expect("the sprite can be written");
    let theirs = (
        sprite.name.clone(),
        sprite.description.clone(),
        sprite.perspective_tags.iter().map(|tag| tag.to_u8()).collect::<Vec<u8>>(),
        sprite.style_tags.iter().map(|tag| tag.to_u8()).collect::<Vec<u8>>(),
        sprite.custom_tags.clone(),
        sprite.mint.to_bytes(),
    )
        .try_to_vec()
        .expect("borsh writes the tuple");
    assert_eq!(ours, theirs);
}

#[test]
fn registry_bytes_are_those_that_borsh_writes() {
    let account = SpriteAccount {
        key: Key::SpriteAccount,
        base_mint: key(3),
        sprites: vec![sample_sprite("a", 1), sample_sprite("bb", 2), sample_sprite("", 3)],
    };
    let ours = try_to_vec(&account).expect("the registry can be written");
    let sprites: Vec<(String, String, Vec<u8>, Vec<u8>, Vec<String>, [u8; 32])> = account
        .sprites
        .iter()
        .map(|sprite| {
            (
                sprite.name.clone(),
                sprite.description.clone(),
                sprite.perspective_tags.iter().map(|tag| tag.to_u8()).collect(),
                sprite.style_tags.iter().map(|tag| tag.to_u8()).collect(),
                sprite.custom_tags.clone(),
                sprite.mint.to_bytes(),
            )
        })
        .collect();
    let theirs = (1u8, [3u8; 32], sprites).try_to_vec().expect("borsh writes the tuple");
    assert_eq!(ours, theirs);
}

#[test]
fn registry_is_read_back_with_no_sprite() {
    let account = SpriteAccount { key: Key::SpriteAccount, base_mint: key(7), sprites: vec![] };
    let bytes = try_to_vec(&account).expect("an empty registry can be written");
    let back = SpriteAccount::safe_deserialize(&bytes).expect("the registry is read back");
    assert_eq!(back.key, Key::SpriteAccount);
    assert_eq!(back.base_mint, key(7));
    assert!(back.sprites.is_empty());
}

#[test]
fn registry_is_read_back_with_many_sprites() {
    let mut sprites = Vec::new();
    for i in 0..40u8 {
        sprites.push(sample_sprite(&format!("sprite {}", i), i));
    }
    let account = SpriteAccount { key: Key::SpriteAccount, base_mint: key(200), sprites };
    let bytes = try_to_vec(&account).expect("the registry can be written");
    let back = SpriteAccount::safe_deserialize(&bytes).expect("the registry is read back");
    assert_eq!(back.key, account.key);
    assert_eq!(back.base_mint, account.base_mint);
    assert_eq!(back.sprites.len(), 40);
    for (a, b) in account.sprites.iter().zip(back.sprites.iter()) {
        assert!(same_sprite(a, b));
    }
    let again = try_to_vec(&back).expect("the registry can be written again");
    assert_eq!(again, bytes);
}

#[test]
fn registry_with_the_tag_of_unwritten_storage_is_read_back() {
    let account = SpriteAccount { key: Key::Uninitialized, base_mint: key(1), sprites: vec![] };
    let bytes = try_to_vec(&account).expect("the registry can be written");
    assert_eq!(bytes[0], 0);
    let back = SpriteAccount::safe_deserialize(&bytes).expect("the registry is read back");
    assert_eq!(back.key, Key::Uninitialized);
    assert_eq!(back.base_mint, key(1));
}

#[test]
fn default_registry_is_unwritten_and_empty() {
    let account = SpriteAccount::default();
    assert_eq!(account.key, Key::Uninitialized);
    assert_eq!(account.base_mint, key(0));
    assert!(account.sprites.is_empty());
    let sprite = Sprite::default();
    assert_eq!(sprite.name, "");
    assert_eq!(sprite.description, "");
    assert!(sprite.perspective_tags.is_empty());
    assert!(sprite.style_tags.is_empty());
    assert!(sprite.custom_tags.is_empty());
    assert_eq!(sprite.mint, key(0));
}

#[test]
fn foreign_first_byte_is_a_type_mismatch_whatever_follows() {
    let account = SpriteAccount {
        key: Key::SpriteAccount,
        base_mint: key(7),
        sprites: vec![sample_sprite("a", 1)],
    };
    let good = try_to_vec(&account).expect("the registry can be written");
    for first in 2..=255u8 {
        let mut bytes = good.clone();
        bytes[0] = first;
        assert_eq!(
            SpriteAccount::safe_deserialize(&bytes).err(),
            Some(DecodeError::DataTypeMismatch)
        );
        assert_eq!(
            SpriteAccount::safe_deserialize(&[first]).err(),
            Some(DecodeError::DataTypeMismatch)
        );
        assert_eq!(
            SpriteAccount::safe_deserialize(&[first, 1, 2, 3]).err(),
            Some(DecodeError::DataTypeMismatch)
        );
    }
}

#[test]
fn empty_storage_is_a_type_mismatch() {
    assert_eq!(SpriteAccount::safe_deserialize(&[]).err(), Some(DecodeError::DataTypeMismatch));
    assert!(!SpriteAccount::is_correct_account_type(&[], Key::SpriteAccount));
    assert!(!SpriteAccount::is_correct_account_type(&[], Key::Uninitialized));
}

#[test]
fn account_type_goes_by_the_first_byte() {
    assert!(SpriteAccount::is_correct_account_type(&[1, 9, 9], Key::SpriteAccount));
    assert!(SpriteAccount::is_correct_account_type(&[0, 9, 9], Key::SpriteAccount));
    assert!(SpriteAccount::is_correct_account_type(&[0], Key::Uninitialized));
    assert!(!SpriteAccount::is_correct_account_type(&[1], Key::Uninitialized));
    assert!(!SpriteAccount::is_correct_account_type(&[2], Key::SpriteAccount));
    assert!(!SpriteAccount::is_correct_account_type(&[255, 1], Key::SpriteAccount));
    assert_eq!(SpriteAccount::key(), Key::SpriteAccount);
    assert_eq!(SpriteAccount::size(), 0);
}

#[test]
fn truncated_registry_is_refused() {
    let account = SpriteAccount {
        key: Key::SpriteAccount,
        base_mint: key(7),
        sprites: vec![sample_sprite("a", 1)],
    };
    let bytes = try_to_vec(&account).expect("the registry can be written");
    for len in 1..bytes.len() {
        assert_eq!(
            SpriteAccount::safe_deserialize(&bytes[..len]).err(),
            Some(DecodeError::UnexpectedLength),
            "a registry cut to {} bytes",
            len
        );
    }
}

#[test]
fn registry_with_an_unknown_tag_in_a_sprite_is_refused() {
    let mut sprite = sample_sprite("a", 1);
    sprite.custom_tags = vec![];
    sprite.style_tags = vec![StyleTags::Vector];
    sprite.perspective_tags = vec![PerspectiveTags::RPG];
    let account = SpriteAccount { key: Key::SpriteAccount, base_mint: key(7), sprites: vec![sprite] };
    let good = try_to_vec(&account).expect("the registry can be written");
    // tag, base item, count, name "a", description "a test", then the perspective tags
    let perspective_at = 1 + 32 + 4 + (4 + 1) + (4 + 6) + 4;
    assert_eq!(good[perspective_at], 0);
    let mut bad = good.clone();
    bad[perspective_at] = 4;
    assert_eq!(SpriteAccount::safe_deserialize(&bad).err(), Some(DecodeError::InvalidVariant));
    let style_at = perspective_at + 1 + 4;
    assert_eq!(good[style_at], 1);
    let mut bad = good.clone();
    bad[style_at] = 77;
    assert_eq!(SpriteAccount::safe_deserialize(&bad).err(), Some(DecodeError::InvalidVariant));
}

#[test]
fn registry_with_bad_text_is_refused() {
    let account = SpriteAccount {
        key: Key::SpriteAccount,
        base_mint: key(7),
        sprites: vec![sample_sprite("a", 1)],
    };
    let mut bytes = try_to_vec(&account).expect("the registry can be written");
    let name_at = 1 + 32 + 4 + 4;
    assert_eq!(bytes[name_at], b'a');
    bytes[name_at] = 0xff;
    assert_eq!(SpriteAccount::safe_deserialize(&bytes).err(), Some(DecodeError::InvalidUtf8));
}

#[test]
fn bytes_behind_a_registry_are_left_unread() {
    let account = SpriteAccount {
        key: Key::SpriteAccount,
        base_mint: key(7),
        sprites: vec![sample_sprite("a", 1)],
    };
    let mut bytes = try_to_vec(&account).expect("the registry can be written");
    let len = bytes.len();
    bytes.extend_from_slice(&[0xaa; 50]);
    let back = SpriteAccount::safe_deserialize(&bytes).expect("the registry is read");
    assert_eq!(back.sprites.len(), 1);
    assert!(same_sprite(&back.sprites[0], &account.sprites[0]));
    assert_eq!(SpriteAccount::read(&bytes, 0).map(|(_, next)| next), Ok(len));
    assert_eq!(
        try_from_slice::<SpriteAccount>(&bytes).err(),
        Some(DecodeError::NotAllBytesRead)
    );
    assert!(try_from_slice::<SpriteAccount>(&bytes[..len]).is_ok());
}

#[test]
fn pad_length_fills_to_the_fixed_size() {
    let mut empty: Vec<u8> = Vec::new();
    assert_eq!(SpriteAccount::pad_length(&mut empty), Ok(()));
    assert!(empty.is_empty());
    let mut full = vec![1u8, 2, 3];
    assert_eq!(
        SpriteAccount::pad_length(&mut full),
        Err(sprite_manager::error::SpriteManagerError::NumericalOverflow)
    );
    assert_eq!(full, vec![1, 2, 3]);
}

#[test]
fn instruction_data_of_create_is_one_zero_byte() {
    let bytes = try_to_vec(&SpriteManagerInstruction::CreateSpriteAccount).expect("it is written");
    assert_eq!(bytes, vec![0]);
    let back = try_from_slice::<SpriteManagerInstruction>(&bytes).expect("it is read back");
    assert!(matches!(back, SpriteManagerInstruction::CreateSpriteAccount));
}

#[test]
fn instruction_data_of_store_is_a_one_byte_and_the_arguments() {
    let args = StoreSpriteArgs {
        name: "test".to_string(),
        description: "a test".to_string(),
        perspective_tags: vec![],
        style_tags: vec![],
        custom_tags: vec!["test".to_string()],
    };
    let bytes = try_to_vec(&SpriteManagerInstruction::StoreSprite(args.clone())).expect("written");
    let expected = vec![
        1u8, // StoreSprite
        4, 0, 0, 0, b't', b'e', b's', b't', // name
        6, 0, 0, 0, b'a', b' ', b't', b'e', b's', b't', // description
        0, 0, 0, 0, // perspective tags
        0, 0, 0, 0, // style tags
        1, 0, 0, 0, 4, 0, 0, 0, b't', b'e', b's', b't', // custom tags
    ];
    assert_eq!(bytes, expected);
    match try_from_slice::<SpriteManagerInstruction>(&bytes).expect("read back") {
        SpriteManagerInstruction::StoreSprite(back) => {
            assert_eq!(back.name, args.name);
            assert_eq!(back.description, args.description);
            assert_eq!(back.perspective_tags, args.perspective_tags);
            assert_eq!(back.style_tags, args.style_tags);
            assert_eq!(back.custom_tags, args.custom_tags);
        }
        SpriteManagerInstruction::CreateSpriteAccount => panic!("the wrong instruction"),
    }
}

#[test]
fn instruction_data_with_an_unknown_tag_or_bytes_left_over_is_refused() {
    assert_eq!(
        try_from_slice::<SpriteManagerInstruction>(&[]).err(),
        Some(DecodeError::UnexpectedLength)
    );
    assert_eq!(
        try_from_slice::<SpriteManagerInstruction>(&[2]).err(),
        Some(DecodeError::InvalidVariant)
    );
    assert_eq!(
        try_from_slice::<SpriteManagerInstruction>(&[0, 0]).err(),
        Some(DecodeError::NotAllBytesRead)
    );
    assert_eq!(
        try_from_slice::<SpriteManagerInstruction>(&[1, 4, 0, 0, 0, b'a']).err(),
        Some(DecodeError::UnexpectedLength)
    );
}

#[test]
fn reading_behind_the_end_of_a_buffer_fails() {
    let data = [1u8, 0, 0, 0];
    assert_eq!(read_u32(&data, 0), Ok((1, 4)));
    assert_eq!(read_u32(&data, 4), Err(DecodeError::UnexpectedLength));
    assert_eq!(read_u32(&data, 5), Err(DecodeError::UnexpectedLength));
    assert_eq!(read_u32(&data, usize::MAX), Err(DecodeError::UnexpectedLength));
    assert_eq!(read_string(&data, 9), Err(DecodeError::UnexpectedLength));
    assert_eq!(Pubkey::read(&[0u8; 40], 9), Err(DecodeError::UnexpectedLength));
    assert_eq!(Pubkey::read(&[0u8; 40], 41), Err(DecodeError::UnexpectedLength));
    assert_eq!(Pubkey::read(&[3u8; 40], 8), Ok((key(3), 40)));
    assert_eq!(Key::read(&[1u8], 1), Err(DecodeError::UnexpectedLength));
    assert_eq!(Key::read(&[1u8], 7), Err(DecodeError::UnexpectedLength));
    assert_eq!(Key::read(&[1u8], 0), Ok((Key::SpriteAccount, 1)));
    assert_eq!(Key::read(&[5u8], 0), Err(DecodeError::InvalidVariant));
    assert_eq!(
        SpriteManagerInstruction::read(&[0u8], 3).err(),
        Some(DecodeError::UnexpectedLength)
    );
}

/// All byte strings up to `len` bytes over a few bytes that matter: small numbers, a
/// letter, the two bytes of a two-byte character, and a byte that no text holds.
fn small_buffers(len: usize) -> Vec<Vec<u8>> {
    let alphabet = [0u8, 1, 2, b'a', 0xc3, 0xa9, 0xff];
    let mut all: Vec<Vec<u8>> = vec![vec![]];
    let mut last: Vec<Vec<u8>> = vec![vec![]];
    for _ in 0..len {
        let mut next = Vec::new();
        for buffer in last.iter() {
            for byte in alphabet.iter() {
                let mut longer = buffer.clone();
                longer.push(*byte);
                next.push(longer);
            }
        }
        all.extend(next.iter().cloned());
        last = next;
    }
    all
}

#[test]
fn texts_are_read_as_borsh_reads_them() {
    for buffer in small_buffers(6) {
        let mut rest: &[u8] = &buffer;
        let theirs = String::deserialize(&mut rest).ok().map(|text| (text, buffer.len() - rest.len()));
        let ours = read_string(&buffer, 0).ok();
        assert_eq!(ours, theirs, "the bytes {:?}", buffer);
    }
}

#[test]
fn lists_of_texts_are_read_as_borsh_reads_them() {
    for buffer in small_buffers(5) {
        let mut longer = vec![1u8, 0, 0, 0];
        longer.extend_from_slice(&buffer);
        for bytes in [buffer.clone(), longer] {
            let mut rest: &[u8] = &bytes;
            let theirs = Vec::<String>::deserialize(&mut rest)
                .ok()
                .map(|texts| (texts, bytes.len() - rest.len()));
            let ours = read_seq::<String>(&bytes, 0).ok();
            assert_eq!(ours, theirs, "the bytes {:?}", bytes);
        }
    }
}

#[test]
fn numbers_are_read_as_borsh_reads_them() {
    for buffer in small_buffers(5) {
        let mut rest: &[u8] = &buffer;
        let theirs = u32::deserialize(&mut rest).ok().map(|n| (n, buffer.len() - rest.len()));
        assert_eq!(read_u32(&buffer, 0).ok(), theirs, "the bytes {:?}", buffer);
    }
    for n in [0u32, 1, 255, 256, 65535, 65536, 16777215, 16777216, 0x1234_5678, u32::MAX] {
        let mut ours = Vec::new();
        write_u32(&mut ours, n);
        assert_eq!(ours, n.try_to_vec().expect("borsh writes the number"));
        assert_eq!(ours, n.to_le_bytes().to_vec());
        assert_eq!(read_u32(&ours, 0), Ok((n, 4)));
    }
}
