use sprite_manager::instruction::{
    create_sprite_account, store_sprite, AccountMeta, Instruction,
};
use sprite_manager::pubkey::Pubkey;
use sprite_manager::state::{PerspectiveTags, StyleTags};
use std::str::FromStr;

fn key(byte: u8) -> Pubkey {
    Pubkey::new_from_array([byte; 32])
}

fn base58(text: &str) -> [u8; 32] {
    solana_program::pubkey::Pubkey::from_str(text).expect("an address in base 58").to_bytes()
}

fn metas(instruction: &Instruction) -> Vec<([u8; 32], bool, bool)> {
    instruction
        .accounts
        .iter()
        .map(|meta| (meta.pubkey.to_bytes(), meta.is_signer, meta.is_writable))
        .collect()
}

#[test]
fn account_metas_are_writable_or_readonly() {
    let writable = AccountMeta::new(key(1), true);
    assert_eq!(writable.pubkey, key(1));
    assert!(writable.is_signer);
    assert!(writable.is_writable);
    let readonly = AccountMeta::new_readonly(key(2), false);
    assert_eq!(readonly.pubkey, key(2));
    assert!(!readonly.is_signer);
    assert!(!readonly.is_writable);
}

#[test]
fn create_sprite_account_names_its_accounts_in_order() {
    let instruction = create_sprite_account(
        &key(100),
        &key(1),
        &key(2),
        &key(3),
        &key(4),
        &key(5),
        &key(6),
        &key(7),
    );
    assert_eq!(instruction.program_id, key(100));
    assert_eq!(instruction.data, vec![0]);
    assert_eq!(
        metas(&instruction),
        vec![
            ([1; 32], false, true),
            ([2; 32], false, true),
            ([3; 32], false, false),
            ([4; 32], false, false),
            ([5; 32], false, false),
            ([6; 32], false, true),
            ([7; 32], true, false),
            (base58("metaqbxxUerdq28cj1RbAWkYQm3ybzjb6a8bt518x1s"), false, false),
            (base58("11111111111111111111111111111111"), false, false),
            (base58("Sysvar1nstructions1111111111111111111111111"), false, false),
        ]
    );
}

#[test]
fn store_sprite_names_its_accounts_in_order() {
    let instruction = store_sprite(
        &key(100),
        &key(1),
        &key(2),
        &key(3),
        &key(4),
        &key(5),
        &key(6),
        &key(7),
        "test".to_string(),
        "a test".to_string(),
        vec![PerspectiveTags::SideScroller],
        vec![StyleTags::HandDrawn, StyleTags::Vector],
        vec!["test".to_string()],
    );
    assert_eq!(instruction.program_id, key(100));
    assert_eq!(
        metas(&instruction),
        vec![
            ([1; 32], false, true),
            ([2; 32], false, false),
            ([3; 32], false, false),
            ([4; 32], false, true),
            ([5; 32], false, true),
            ([6; 32], true, true),
            ([7; 32], false, true),
            (base58("11111111111111111111111111111111"), false, false),
            (base58("TokenkegQfeZyiNwAJbNbGKPFXCWuBvf9Ss623VQ5DA"), false, false),
            (base58("ATokenGPvbdGVxr1b2hvZbsiqW5xWH25efTNsLJA8knL"), false, false),
        ]
    );
    assert_eq!(
        instruction.data,
        vec![
            1u8, // StoreSprite
            4, 0, 0, 0, b't', b'e', b's', b't', // name
            6, 0, 0, 0, b'a', b' ', b't', b'e', b's', b't', // description
            1, 0, 0, 0, 2, // perspective tags
            2, 0, 0, 0, 2, 1, // style tags
            1, 0, 0, 0, 4, 0, 0, 0, b't', b'e', b's', b't', // custom tags
        ]
    );
}

#[test]
fn the_programs_are_named_by_the_addresses_that_they_declare() {
    let create = create_sprite_account(
        &key(0),
        &key(0),
        &key(0),
        &key(0),
        &key(0),
        &key(0),
        &key(0),
        &key(0),
    );
    assert_eq!(create.accounts[7].pubkey.to_bytes(), mpl_token_metadata::id().to_bytes());
    assert_eq!(
        create.accounts[8].pubkey.to_bytes(),
        solana_program::system_program::id().to_bytes()
    );
    assert_eq!(
        create.accounts[9].pubkey.to_bytes(),
        solana_program::sysvar::instructions::id().to_bytes()
    );
    let store = store_sprite(
        &key(0),
        &key(0),
        &key(0),
        &key(0),
        &key(0),
        &key(0),
        &key(0),
        &key(0),
        String::new(),
        String::new(),
        vec![],
        vec![],
        vec![],
    );
    assert_eq!(
        store.accounts[7].pubkey.to_bytes(),
        solana_program::system_program::id().to_bytes()
    );
    assert_eq!(store.accounts[8].pubkey.to_bytes(), spl_token::id().to_bytes());
    assert_eq!(
        store.accounts[9].pubkey.to_bytes(),
        spl_associated_token_account::id().to_bytes()
    );
    assert_eq!(
        store.data,
        vec![1, 0, 0, 0, 0, 0, 0, 0, 0, 0, 0, 0, 0, 0, 0, 0, 0, 0, 0, 0, 0]
    );
}

#[test]
fn store_sprite_is_signed_and_paid_for_by_the_payer_alone() {
    let instruction = store_sprite(
        &key(100),
        &key(1),
        &key(2),
        &key(3),
        &key(4),
        &key(5),
        &key(6),
        &key(7),
        "test".to_string(),
        "a test".to_string(),
        vec![],
        vec![],
        vec!["test".to_string()],
    );
    let signers: Vec<usize> =
        (0..10).filter(|place| instruction.accounts[*place].is_signer).collect();
    assert_eq!(signers, vec![5]);
    assert!(instruction.accounts[5].is_writable);
    assert_eq!(instruction.accounts[5].pubkey, key(6));
    assert!(instruction.accounts[0].is_writable);
    assert!(instruction.accounts[6].is_writable);
    for place in [1usize, 2, 7, 8, 9] {
        assert!(!instruction.accounts[place].is_writable);
    }
}
