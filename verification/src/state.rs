//! What the sprite manager stores: the registry of a base item and its sprites.

use crate::account_info::AccountInfo;
use crate::assertions::assert_owned_by;
use crate::error::SpriteManagerError;
use crate::pubkey::Pubkey;
use crate::wire::{
    lemma_concat_assoc, lemma_read_head, lemma_read_seq_head, lemma_read_seq_written,
    lemma_seq_written_where_read, lemma_subrange_join, read_seq, seq_fits, spec_encode_seq,
    spec_models, spec_read_seq, spec_seq_fits, write_seq, DecodeError, Wire,
};
use vstd::prelude::*;

verus! {

/// The word that all addresses of the sprite manager are derived from.
pub const PREFIX: &'static str = "sprite";

/// The tag that opens every stored record and says what kind of record follows.
#[derive(Clone, Copy, Debug, PartialEq, Eq, Structural)]
pub enum Key {
    /// Storage that was set aside and never written.
    Uninitialized,
    /// The registry of the sprites of one base item.
    SpriteAccount,
}

impl Key {
    /// The byte that stands for the tag in stored bytes.
    pub open spec fn spec_to_u8(self) -> u8 {
        match self {
            Key::Uninitialized => 0,
            Key::SpriteAccount => 1,
        }
    }

    /// The tag that a byte stands for, if it stands for one.
    pub open spec fn spec_from_u8(byte: u8) -> Option<Key> {
        if byte == 0 {
            Some(Key::Uninitialized)
        } else if byte == 1 {
            Some(Key::SpriteAccount)
        } else {
            None
        }
    }

    /// The byte that stands for the tag in stored bytes.
    pub fn to_u8(&self) -> (byte: u8)
        ensures
            byte == self.spec_to_u8(),
    {
        match self {
            Key::Uninitialized => 0,
            Key::SpriteAccount => 1,
        }
    }

    /// The tag that a byte stands for, if it stands for one.
    pub fn from_u8(byte: u8) -> (key: Option<Key>)
        ensures
            key == Self::spec_from_u8(byte),
    {
        match byte {
            0 => Some(Key::Uninitialized),
            1 => Some(Key::SpriteAccount),
            _ => None,
        }
    }
}

impl Default for Key {
    fn default() -> (key: Key)
        ensures
            key == Key::Uninitialized,
    {
        Key::Uninitialized
    }
}

/// The point of view from which a sprite is drawn.
#[derive(Clone, Debug, PartialEq, Eq, Structural)]
pub enum PerspectiveTags {
    RPG,
    TopDown,
    SideScroller,
    Platformer,
}

impl PerspectiveTags {
    /// The byte that stands for the tag in stored bytes.
    pub open spec fn spec_to_u8(self) -> u8 {
        match self {
            PerspectiveTags::RPG => 0,
            PerspectiveTags::TopDown => 1,
            PerspectiveTags::SideScroller => 2,
            PerspectiveTags::Platformer => 3,
        }
    }

    /// The tag that a byte stands for, if it stands for one.
    pub open spec fn spec_from_u8(byte: u8) -> Option<PerspectiveTags> {
        if byte == 0 {
            Some(PerspectiveTags::RPG)
        } else if byte == 1 {
            Some(PerspectiveTags::TopDown)
        } else if byte == 2 {
            Some(PerspectiveTags::SideScroller)
        } else if byte == 3 {
            Some(PerspectiveTags::Platformer)
        } else {
            None
        }
    }

    /// The byte that stands for the tag in stored bytes.
    pub fn to_u8(&self) -> (byte: u8)
        ensures
            byte == self.spec_to_u8(),
    {
        match self {
            PerspectiveTags::RPG => 0,
            PerspectiveTags::TopDown => 1,
            PerspectiveTags::SideScroller => 2,
            PerspectiveTags::Platformer => 3,
        }
    }

    /// The tag that a byte stands for, if it stands for one.
    pub fn from_u8(byte: u8) -> (tag: Option<PerspectiveTags>)
        ensures
            tag == Self::spec_from_u8(byte),
    {
        match byte {
            0 => Some(PerspectiveTags::RPG),
            1 => Some(PerspectiveTags::TopDown),
            2 => Some(PerspectiveTags::SideScroller),
            3 => Some(PerspectiveTags::Platformer),
            _ => None,
        }
    }
}

/// The manner in which a sprite is drawn.
#[derive(Clone, Debug, PartialEq, Eq, Structural)]
pub enum StyleTags {
    Pixel,
    Vector,
    HandDrawn,
    Cartoon,
}

impl StyleTags {
    /// The byte that stands for the tag in stored bytes.
    pub open spec fn spec_to_u8(self) -> u8 {
        match self {
            StyleTags::Pixel => 0,
            StyleTags::Vector => 1,
            StyleTags::HandDrawn => 2,
            StyleTags::Cartoon => 3,
        }
    }

    /// The tag that a byte stands for, if it stands for one.
    pub open spec fn spec_from_u8(byte: u8) -> Option<StyleTags> {
        if byte == 0 {
            Some(StyleTags::Pixel)
        } else if byte == 1 {
            Some(StyleTags::Vector)
        } else if byte == 2 {
            Some(StyleTags::HandDrawn)
        } else if byte == 3 {
            Some(StyleTags::Cartoon)
        } else {
            None
        }
    }

    /// The byte that stands for the tag in stored bytes.
    pub fn to_u8(&self) -> (byte: u8)
        ensures
            byte == self.spec_to_u8(),
    {
        match self {
            StyleTags::Pixel => 0,
            StyleTags::Vector => 1,
            StyleTags::HandDrawn => 2,
            StyleTags::Cartoon => 3,
        }
    }

    /// The tag that a byte stands for, if it stands for one.
    pub fn from_u8(byte: u8) -> (tag: Option<StyleTags>)
        ensures
            tag == Self::spec_from_u8(byte),
    {
        match byte {
            0 => Some(StyleTags::Pixel),
            1 => Some(StyleTags::Vector),
            2 => Some(StyleTags::HandDrawn),
            3 => Some(StyleTags::Cartoon),
            _ => None,
        }
    }
}

/// Reads one tag byte at `pos` and names the variant that `from_u8` finds for it.
pub open spec fn spec_read_tag<T>(
    data: Seq<u8>,
    pos: int,
    from_u8: spec_fn(u8) -> Option<T>,
) -> Result<(T, int), DecodeError> {
    if 0 <= pos < data.len() {
        match from_u8(data[pos]) {
            Some(tag) => Ok((tag, pos + 1)),
            None => Err(DecodeError::InvalidVariant),
        }
    } else {
        Err(DecodeError::UnexpectedLength)
    }
}

impl Wire for Key {
    type Model = Key;

    open spec fn model(&self) -> Key {
        *self
    }

    open spec fn spec_encode(m: Key) -> Seq<u8> {
        seq![m.spec_to_u8()]
    }

    open spec fn spec_fits(m: Key) -> bool {
        true
    }

    open spec fn spec_read(data: Seq<u8>, pos: int) -> Result<(Key, int), DecodeError> {
        spec_read_tag(data, pos, |byte: u8| Key::spec_from_u8(byte))
    }

    fn fits(&self) -> (ok: bool) {
        true
    }

    fn write(&self, out: &mut Vec<u8>) {
        out.push(self.to_u8());
        assert(out@ =~= old(out)@ + seq![self.spec_to_u8()]);
    }

    fn read(data: &[u8], pos: usize) -> (res: Result<(Key, usize), DecodeError>) {
        if pos >= data.len() {
            return Err(DecodeError::UnexpectedLength);
        }
        match Key::from_u8(data[pos]) {
            Some(key) => Ok((key, pos + 1)),
            None => Err(DecodeError::InvalidVariant),
        }
    }

    proof fn lemma_read_written(data: Seq<u8>, pos: int, m: Key) {
        assert(data.subrange(pos, pos + 1)[0] == data[pos]);
    }

    proof fn lemma_written_where_read(data: Seq<u8>, pos: int) {
        assert(data.subrange(pos, pos + 1) =~= seq![data[pos]]);
    }
}

impl Wire for PerspectiveTags {
    type Model = PerspectiveTags;

    open spec fn model(&self) -> PerspectiveTags {
        *self
    }

    open spec fn spec_encode(m: PerspectiveTags) -> Seq<u8> {
        seq![m.spec_to_u8()]
    }

    open spec fn spec_fits(m: PerspectiveTags) -> bool {
        true
    }

    open spec fn spec_read(data: Seq<u8>, pos: int) -> Result<(PerspectiveTags, int), DecodeError> {
        spec_read_tag(data, pos, |byte: u8| PerspectiveTags::spec_from_u8(byte))
    }

    fn fits(&self) -> (ok: bool) {
        true
    }

    fn write(&self, out: &mut Vec<u8>) {
        out.push(self.to_u8());
        assert(out@ =~= old(out)@ + seq![self.spec_to_u8()]);
    }

    fn read(data: &[u8], pos: usize) -> (res: Result<(PerspectiveTags, usize), DecodeError>) {
        if pos >= data.len() {
            return Err(DecodeError::UnexpectedLength);
        }
        match PerspectiveTags::from_u8(data[pos]) {
            Some(tag) => Ok((tag, pos + 1)),
            None => Err(DecodeError::InvalidVariant),
        }
    }

    proof fn lemma_read_written(data: Seq<u8>, pos: int, m: PerspectiveTags) {
        assert(data.subrange(pos, pos + 1)[0] == data[pos]);
    }

    proof fn lemma_written_where_read(data: Seq<u8>, pos: int) {
        assert(data.subrange(pos, pos + 1) =~= seq![data[pos]]);
    }
}

impl Wire for StyleTags {
    type Model = StyleTags;

    open spec fn model(&self) -> StyleTags {
        *self
    }

    open spec fn spec_encode(m: StyleTags) -> Seq<u8> {
        seq![m.spec_to_u8()]
    }

    open spec fn spec_fits(m: StyleTags) -> bool {
        true
    }

    open spec fn spec_read(data: Seq<u8>, pos: int) -> Result<(StyleTags, int), DecodeError> {
        spec_read_tag(data, pos, |byte: u8| StyleTags::spec_from_u8(byte))
    }

    fn fits(&self) -> (ok: bool) {
        true
    }

    fn write(&self, out: &mut Vec<u8>) {
        out.push(self.to_u8());
        assert(out@ =~= old(out)@ + seq![self.spec_to_u8()]);
    }

    fn read(data: &[u8], pos: usize) -> (res: Result<(StyleTags, usize), DecodeError>) {
        if pos >= data.len() {
            return Err(DecodeError::UnexpectedLength);
        }
        match StyleTags::from_u8(data[pos]) {
            Some(tag) => Ok((tag, pos + 1)),
            None => Err(DecodeError::InvalidVariant),
        }
    }

    proof fn lemma_read_written(data: Seq<u8>, pos: int, m: StyleTags) {
        assert(data.subrange(pos, pos + 1)[0] == data[pos]);
    }

    proof fn lemma_written_where_read(data: Seq<u8>, pos: int) {
        assert(data.subrange(pos, pos + 1) =~= seq![data[pos]]);
    }
}

impl Wire for Pubkey {
    type Model = Seq<u8>;

    open spec fn model(&self) -> Seq<u8> {
        self@
    }

    open spec fn spec_encode(m: Seq<u8>) -> Seq<u8> {
        m
    }

    open spec fn spec_fits(m: Seq<u8>) -> bool {
        m.len() == 32
    }

    open spec fn spec_read(data: Seq<u8>, pos: int) -> Result<(Seq<u8>, int), DecodeError> {
        if 0 <= pos && pos + 32 <= data.len() {
            Ok((data.subrange(pos, pos + 32), pos + 32))
        } else {
            Err(DecodeError::UnexpectedLength)
        }
    }

    fn fits(&self) -> (ok: bool) {
        true
    }

    fn write(&self, out: &mut Vec<u8>) {
        let mut i: usize = 0;
        while i < 32
            invariant
                i <= 32,
                out@ == old(out)@ + self.bytes@.subrange(0, i as int),
            decreases 32 - i,
        {
            out.push(self.bytes[i]);
            i += 1;
            assert(out@ =~= old(out)@ + self.bytes@.subrange(0, i as int));
        }
        assert(self.bytes@.subrange(0, 32) =~= self.bytes@);
    }

    fn read(data: &[u8], pos: usize) -> (res: Result<(Pubkey, usize), DecodeError>) {
        if pos > data.len() || data.len() - pos < 32 {
            return Err(DecodeError::UnexpectedLength);
        }
        let mut bytes: [u8; 32] = [0u8; 32];
        let mut i: usize = 0;
        while i < 32
            invariant
                i <= 32,
                pos + 32 <= data@.len(),
                forall|j: int| 0 <= j < i ==> bytes[j] == data@[pos + j],
            decreases 32 - i,
        {
            bytes[i] = data[pos + i];
            i += 1;
        }
        let key = Pubkey { bytes };
        assert(key@ =~= data@.subrange(pos as int, pos + 32));
        Ok((key, pos + 32))
    }

    proof fn lemma_read_written(data: Seq<u8>, pos: int, m: Seq<u8>) {
    }

    proof fn lemma_written_where_read(data: Seq<u8>, pos: int) {
    }
}

/// One sprite of a base item: what is told of it, and the token that stands for it.
#[derive(Clone, Debug)]
pub struct Sprite {
    pub name: String,
    pub description: String,
    pub perspective_tags: Vec<PerspectiveTags>,
    pub style_tags: Vec<StyleTags>,
    pub custom_tags: Vec<String>,
    pub mint: Pubkey,
}

/// What a sprite is in contracts.
pub struct SpriteView {
    pub name: Seq<char>,
    pub description: Seq<char>,
    pub perspective_tags: Seq<PerspectiveTags>,
    pub style_tags: Seq<StyleTags>,
    pub custom_tags: Seq<Seq<char>>,
    pub mint: Seq<u8>,
}

impl View for Sprite {
    type V = SpriteView;

    open spec fn view(&self) -> SpriteView {
        SpriteView {
            name: self.name@,
            description: self.description@,
            perspective_tags: self.perspective_tags@,
            style_tags: self.style_tags@,
            custom_tags: self.custom_tags@.map_values(|tag: String| tag@),
            mint: self.mint@,
        }
    }
}

impl Default for Sprite {
    fn default() -> (sprite: Sprite)
        ensures
            sprite@ == (SpriteView {
                name: Seq::empty(),
                description: Seq::empty(),
                perspective_tags: Seq::empty(),
                style_tags: Seq::empty(),
                custom_tags: Seq::empty(),
                mint: Seq::new(32, |i: int| 0u8),
            }),
    {
        let sprite = Sprite {
            name: String::new(),
            description: String::new(),
            perspective_tags: Vec::new(),
            style_tags: Vec::new(),
            custom_tags: Vec::new(),
            mint: Pubkey::default(),
        };
        assert(sprite@.custom_tags =~= Seq::<Seq<char>>::empty());
        assert(sprite@.mint =~= Seq::new(32, |i: int| 0u8));
        sprite
    }
}

impl Wire for Sprite {
    type Model = SpriteView;

    open spec fn model(&self) -> SpriteView {
        self@
    }

    open spec fn spec_encode(m: SpriteView) -> Seq<u8> {
        String::spec_encode(m.name) + (String::spec_encode(m.description) + (spec_encode_seq::<
            PerspectiveTags,
        >(m.perspective_tags) + (spec_encode_seq::<StyleTags>(m.style_tags) + (spec_encode_seq::<
            String,
        >(m.custom_tags) + m.mint))))
    }

    open spec fn spec_fits(m: SpriteView) -> bool {
        &&& String::spec_fits(m.name)
        &&& String::spec_fits(m.description)
        &&& spec_seq_fits::<PerspectiveTags>(m.perspective_tags)
        &&& spec_seq_fits::<StyleTags>(m.style_tags)
        &&& spec_seq_fits::<String>(m.custom_tags)
        &&& Pubkey::spec_fits(m.mint)
    }

    open spec fn spec_read(data: Seq<u8>, pos: int) -> Result<(SpriteView, int), DecodeError> {
        match String::spec_read(data, pos) {
            Err(e) => Err(e),
            Ok((name, at1)) => match String::spec_read(data, at1) {
                Err(e) => Err(e),
                Ok((description, at2)) => match spec_read_seq::<PerspectiveTags>(data, at2) {
                    Err(e) => Err(e),
                    Ok((perspective_tags, at3)) => match spec_read_seq::<StyleTags>(data, at3) {
                        Err(e) => Err(e),
                        Ok((style_tags, at4)) => match spec_read_seq::<String>(data, at4) {
                            Err(e) => Err(e),
                            Ok((custom_tags, at5)) => match Pubkey::spec_read(data, at5) {
                                Err(e) => Err(e),
                                Ok((mint, at6)) => Ok(
                                    (
                                        SpriteView {
                                            name,
                                            description,
                                            perspective_tags,
                                            style_tags,
                                            custom_tags,
                                            mint,
                                        },
                                        at6,
                                    ),
                                ),
                            },
                        },
                    },
                },
            },
        }
    }

    fn fits(&self) -> (ok: bool) {
        proof {
            lemma_sprite_models(*self);
        }
        self.name.fits() && self.description.fits() && seq_fits(&self.perspective_tags) && seq_fits(
            &self.style_tags,
        ) && seq_fits(&self.custom_tags)
    }

    fn write(&self, out: &mut Vec<u8>) {
        proof {
            lemma_sprite_models(*self);
        }
        self.name.write(out);
        self.description.write(out);
        write_seq(&self.perspective_tags, out);
        write_seq(&self.style_tags, out);
        write_seq(&self.custom_tags, out);
        self.mint.write(out);
        proof {
            let o = old(out)@;
            let e1 = String::spec_encode(self@.name);
            let e2 = String::spec_encode(self@.description);
            let e3 = spec_encode_seq::<PerspectiveTags>(self@.perspective_tags);
            let e4 = spec_encode_seq::<StyleTags>(self@.style_tags);
            let e5 = spec_encode_seq::<String>(self@.custom_tags);
            let e6 = self@.mint;
            lemma_concat_assoc(o + e1 + e2 + e3 + e4, e5, e6);
            lemma_concat_assoc(o + e1 + e2 + e3, e4, e5 + e6);
            lemma_concat_assoc(o + e1 + e2, e3, e4 + (e5 + e6));
            lemma_concat_assoc(o + e1, e2, e3 + (e4 + (e5 + e6)));
            lemma_concat_assoc(o, e1, e2 + (e3 + (e4 + (e5 + e6))));
        }
    }

    fn read(data: &[u8], pos: usize) -> (res: Result<(Sprite, usize), DecodeError>) {
        let (name, at1) = match String::read(data, pos) {
            Ok(pair) => pair,
            Err(e) => {
                return Err(e);
            },
        };
        let (description, at2) = match String::read(data, at1) {
            Ok(pair) => pair,
            Err(e) => {
                return Err(e);
            },
        };
        let (perspective_tags, at3) = match read_seq::<PerspectiveTags>(data, at2) {
            Ok(pair) => pair,
            Err(e) => {
                return Err(e);
            },
        };
        let (style_tags, at4) = match read_seq::<StyleTags>(data, at3) {
            Ok(pair) => pair,
            Err(e) => {
                return Err(e);
            },
        };
        let (custom_tags, at5) = match read_seq::<String>(data, at4) {
            Ok(pair) => pair,
            Err(e) => {
                return Err(e);
            },
        };
        let (mint, at6) = match Pubkey::read(data, at5) {
            Ok(pair) => pair,
            Err(e) => {
                return Err(e);
            },
        };
        let sprite = Sprite { name, description, perspective_tags, style_tags, custom_tags, mint };
        proof {
            lemma_sprite_models(sprite);
        }
        Ok((sprite, at6))
    }

    proof fn lemma_read_written(data: Seq<u8>, pos: int, m: SpriteView) {
        let e1 = String::spec_encode(m.name);
        let e2 = String::spec_encode(m.description);
        let e3 = spec_encode_seq::<PerspectiveTags>(m.perspective_tags);
        let e4 = spec_encode_seq::<StyleTags>(m.style_tags);
        let e5 = spec_encode_seq::<String>(m.custom_tags);
        let r4 = e5 + m.mint;
        let r3 = e4 + r4;
        let r2 = e3 + r3;
        let r1 = e2 + r2;
        let at1: int = pos + e1.len();
        let at2: int = at1 + e2.len();
        let at3: int = at2 + e3.len();
        let at4: int = at3 + e4.len();
        let at5: int = at4 + e5.len();
        lemma_read_head::<String>(data, pos, m.name, r1);
        lemma_read_head::<String>(data, at1, m.description, r2);
        lemma_read_seq_head::<PerspectiveTags>(data, at2, m.perspective_tags, r3);
        lemma_read_seq_head::<StyleTags>(data, at3, m.style_tags, r4);
        lemma_read_seq_head::<String>(data, at4, m.custom_tags, m.mint);
        Pubkey::lemma_read_written(data, at5, m.mint);
    }

    proof fn lemma_written_where_read(data: Seq<u8>, pos: int) {
        let at1 = String::spec_read(data, pos)->Ok_0.1;
        String::lemma_written_where_read(data, pos);
        let at2 = String::spec_read(data, at1)->Ok_0.1;
        String::lemma_written_where_read(data, at1);
        let at3 = spec_read_seq::<PerspectiveTags>(data, at2)->Ok_0.1;
        lemma_seq_written_where_read::<PerspectiveTags>(data, at2);
        let at4 = spec_read_seq::<StyleTags>(data, at3)->Ok_0.1;
        lemma_seq_written_where_read::<StyleTags>(data, at3);
        let at5 = spec_read_seq::<String>(data, at4)->Ok_0.1;
        lemma_seq_written_where_read::<String>(data, at4);
        let at6 = Pubkey::spec_read(data, at5)->Ok_0.1;
        Pubkey::lemma_written_where_read(data, at5);
        lemma_subrange_join(data, at4, at5, at6);
        lemma_subrange_join(data, at3, at4, at6);
        lemma_subrange_join(data, at2, at3, at6);
        lemma_subrange_join(data, at1, at2, at6);
        lemma_subrange_join(data, pos, at1, at6);
    }
}

/// The vectors of a sprite, item by item, are what its view holds.
pub proof fn lemma_sprite_models(sprite: Sprite)
    ensures
        spec_models::<PerspectiveTags>(sprite.perspective_tags@) == sprite@.perspective_tags,
        spec_models::<StyleTags>(sprite.style_tags@) == sprite@.style_tags,
        spec_models::<String>(sprite.custom_tags@) == sprite@.custom_tags,
{
    assert(spec_models::<PerspectiveTags>(sprite.perspective_tags@) =~= sprite@.perspective_tags);
    assert(spec_models::<StyleTags>(sprite.style_tags@) =~= sprite@.style_tags);
    assert(spec_models::<String>(sprite.custom_tags@) =~= sprite@.custom_tags);
}

/// The registry of one base item: the item it is bound to and its sprites, oldest first.
#[derive(Clone, Debug)]
pub struct SpriteAccount {
    pub key: Key,
    pub base_mint: Pubkey,
    pub sprites: Vec<Sprite>,
}

/// What a registry is in contracts.
pub struct SpriteAccountView {
    pub key: Key,
    pub base_mint: Seq<u8>,
    pub sprites: Seq<SpriteView>,
}

impl View for SpriteAccount {
    type V = SpriteAccountView;

    open spec fn view(&self) -> SpriteAccountView {
        SpriteAccountView {
            key: self.key,
            base_mint: self.base_mint@,
            sprites: self.sprites@.map_values(|sprite: Sprite| sprite@),
        }
    }
}

impl Default for SpriteAccount {
    fn default() -> (account: SpriteAccount)
        ensures
            account@ == (SpriteAccountView {
                key: Key::Uninitialized,
                base_mint: Seq::new(32, |i: int| 0u8),
                sprites: Seq::empty(),
            }),
    {
        let account = SpriteAccount {
            key: Key::default(),
            base_mint: Pubkey::default(),
            sprites: Vec::new(),
        };
        assert(account@.sprites =~= Seq::<SpriteView>::empty());
        account
    }
}

impl Wire for SpriteAccount {
    type Model = SpriteAccountView;

    open spec fn model(&self) -> SpriteAccountView {
        self@
    }

    open spec fn spec_encode(m: SpriteAccountView) -> Seq<u8> {
        Key::spec_encode(m.key) + (m.base_mint + spec_encode_seq::<Sprite>(m.sprites))
    }

    open spec fn spec_fits(m: SpriteAccountView) -> bool {
        Pubkey::spec_fits(m.base_mint) && spec_seq_fits::<Sprite>(m.sprites)
    }

    open spec fn spec_read(data: Seq<u8>, pos: int) -> Result<(SpriteAccountView, int), DecodeError> {
        match Key::spec_read(data, pos) {
            Err(e) => Err(e),
            Ok((key, at1)) => match Pubkey::spec_read(data, at1) {
                Err(e) => Err(e),
                Ok((base_mint, at2)) => match spec_read_seq::<Sprite>(data, at2) {
                    Err(e) => Err(e),
                    Ok((sprites, at3)) => Ok((SpriteAccountView { key, base_mint, sprites }, at3)),
                },
            },
        }
    }

    fn fits(&self) -> (ok: bool) {
        proof {
            lemma_account_models(*self);
        }
        seq_fits(&self.sprites)
    }

    fn write(&self, out: &mut Vec<u8>) {
        proof {
            lemma_account_models(*self);
        }
        self.key.write(out);
        self.base_mint.write(out);
        write_seq(&self.sprites, out);
        proof {
            let o = old(out)@;
            let e1 = Key::spec_encode(self@.key);
            let e2 = self@.base_mint;
            let e3 = spec_encode_seq::<Sprite>(self@.sprites);
            lemma_concat_assoc(o + e1, e2, e3);
            lemma_concat_assoc(o, e1, e2 + e3);
        }
    }

    fn read(data: &[u8], pos: usize) -> (res: Result<(SpriteAccount, usize), DecodeError>) {
        let (key, at1) = match Key::read(data, pos) {
            Ok(pair) => pair,
            Err(e) => {
                return Err(e);
            },
        };
        let (base_mint, at2) = match Pubkey::read(data, at1) {
            Ok(pair) => pair,
            Err(e) => {
                return Err(e);
            },
        };
        let (sprites, at3) = match read_seq::<Sprite>(data, at2) {
            Ok(pair) => pair,
            Err(e) => {
                return Err(e);
            },
        };
        let account = SpriteAccount { key, base_mint, sprites };
        proof {
            lemma_account_models(account);
        }
        Ok((account, at3))
    }

    proof fn lemma_read_written(data: Seq<u8>, pos: int, m: SpriteAccountView) {
        let e3 = spec_encode_seq::<Sprite>(m.sprites);
        lemma_read_head::<Key>(data, pos, m.key, m.base_mint + e3);
        lemma_read_head::<Pubkey>(data, pos + 1, m.base_mint, e3);
        lemma_read_seq_written::<Sprite>(data, pos + 33, m.sprites);
    }

    proof fn lemma_written_where_read(data: Seq<u8>, pos: int) {
        Key::lemma_written_where_read(data, pos);
        Pubkey::lemma_written_where_read(data, pos + 1);
        let end = spec_read_seq::<Sprite>(data, pos + 33)->Ok_0.1;
        lemma_seq_written_where_read::<Sprite>(data, pos + 33);
        lemma_subrange_join(data, pos + 1, pos + 33, end);
        lemma_subrange_join(data, pos, pos + 1, end);
    }
}

/// The sprites of a registry, one by one, are what its view holds.
pub proof fn lemma_account_models(account: SpriteAccount)
    ensures
        spec_models::<Sprite>(account.sprites@) == account@.sprites,
{
    assert(spec_models::<Sprite>(account.sprites@) =~= account@.sprites);
}

/// Whether stored bytes may be read as a record of the kind `data_type`: their first byte has
/// to be the tag of that kind, or the tag of storage that was never written.
pub open spec fn spec_is_correct_account_type(data: Seq<u8>, data_type: Key) -> bool {
    data.len() > 0 && match Key::spec_from_u8(data[0]) {
        Some(key) => key == data_type || key == Key::Uninitialized,
        None => false,
    }
}

/// What reading a record comes to, given whether the tag of the bytes allows it and what the
/// bytes hold: without the tag nothing is read.
pub open spec fn spec_checked_read<M>(tag_ok: bool, read: Result<(M, int), DecodeError>) -> Result<
    M,
    DecodeError,
> {
    if !tag_ok {
        Err(DecodeError::DataTypeMismatch)
    } else {
        match read {
            Ok((record, _)) => Ok(record),
            Err(e) => Err(e),
        }
    }
}

/// What reading the record of an account comes to: bytes that cannot be read count as
/// bytes of another kind, and a record that was read counts only in an account of the
/// sprite manager.
pub open spec fn spec_owned_read<M>(read: Result<M, DecodeError>, owner: Seq<u8>) -> Result<
    M,
    SpriteManagerError,
> {
    match read {
        Err(_) => Err(SpriteManagerError::DataTypeMismatch),
        Ok(record) => if owner != crate::spec_id() {
            Err(SpriteManagerError::IncorrectOwner)
        } else {
            Ok(record)
        },
    }
}

/// A kind of record that accounts of the sprite manager store.
pub trait SolanaAccount: Wire {
    /// The tag of records of this kind.
    spec fn spec_key() -> Key;

    /// The fixed size to which records of this kind are padded.
    spec fn spec_size() -> nat;

    fn key() -> (key: Key)
        ensures
            key == Self::spec_key(),
    ;

    fn size() -> (size: usize)
        ensures
            size == Self::spec_size(),
    ;

    /// Whether stored bytes may be read as a record of the kind `data_type`. Bytes that
    /// are empty may not.
    fn is_correct_account_type(data: &[u8], data_type: Key) -> (ok: bool)
        ensures
            ok == spec_is_correct_account_type(data@, data_type),
    {
        if data.len() == 0 {
            return false;
        }
        match Key::from_u8(data[0]) {
            Some(key) => key == data_type || key == Key::Uninitialized,
            None => false,
        }
    }

    /// Fills `buf` with zero bytes up to the fixed size of the kind. A buffer that is longer
    /// than that already is left as it is, and the size computation is reported as failed.
    fn pad_length(buf: &mut Vec<u8>) -> (res: Result<(), SpriteManagerError>)
        ensures
            old(buf)@.len() <= Self::spec_size() ==> res is Ok && final(buf)@ == old(buf)@
                + Seq::new((Self::spec_size() - old(buf)@.len()) as nat, |i: int| 0u8),
            old(buf)@.len() > Self::spec_size() ==> res == Err::<(), SpriteManagerError>(
                SpriteManagerError::NumericalOverflow,
            ) && final(buf)@ == old(buf)@,
    {
        let size = Self::size();
        if buf.len() > size {
            return Err(SpriteManagerError::NumericalOverflow);
        }
        let padding_length: usize = size - buf.len();
        let mut i: usize = 0;
        while i < padding_length
            invariant
                i <= padding_length,
                buf@ == old(buf)@ + Seq::new(i as nat, |i: int| 0u8),
            decreases padding_length - i,
        {
            buf.push(0);
            i += 1;
            assert(buf@ =~= old(buf)@ + Seq::new(i as nat, |i: int| 0u8));
        }
        Ok(())
    }

    /// Reads stored bytes as a record of this kind, after a look at their tag. Bytes behind
    /// the record are left unread.
    fn safe_deserialize(data: &[u8]) -> (res: Result<Self, DecodeError>)
        ensures
            match res {
                Ok(record) => spec_checked_read(
                    spec_is_correct_account_type(data@, Self::spec_key()),
                    Self::spec_read(data@, 0),
                ) == Ok::<Self::Model, DecodeError>(record.model()),
                Err(e) => spec_checked_read(
                    spec_is_correct_account_type(data@, Self::spec_key()),
                    Self::spec_read(data@, 0),
                ) == Err::<Self::Model, DecodeError>(e),
            },
    {
        if !Self::is_correct_account_type(data, Self::key()) {
            return Err(DecodeError::DataTypeMismatch);
        }
        match Self::read(data, 0) {
            Ok((record, _)) => Ok(record),
            Err(e) => Err(e),
        }
    }

    /// Reads the record that an account stores. The account has to belong to the sprite
    /// manager.
    fn from_account_info(a: &AccountInfo) -> (res: Result<Self, SpriteManagerError>)
        ensures
            match res {
                Ok(record) => spec_owned_read(
                    spec_checked_read(
                        spec_is_correct_account_type(a.data@, Self::spec_key()),
                        Self::spec_read(a.data@, 0),
                    ),
                    a.owner@,
                ) == Ok::<Self::Model, SpriteManagerError>(record.model()),
                Err(e) => spec_owned_read(
                    spec_checked_read(
                        spec_is_correct_account_type(a.data@, Self::spec_key()),
                        Self::spec_read(a.data@, 0),
                    ),
                    a.owner@,
                ) == Err::<Self::Model, SpriteManagerError>(e),
            },
    {
        let record = match Self::safe_deserialize(a.data.as_slice()) {
            Ok(record) => record,
            Err(_) => {
                return Err(SpriteManagerError::DataTypeMismatch);
            },
        };
        match assert_owned_by(a, &crate::id(), SpriteManagerError::IncorrectOwner) {
            Ok(()) => Ok(record),
            Err(e) => Err(e),
        }
    }
}

/// What `safe_deserialize` makes of stored bytes.
pub open spec fn spec_safe_deserialize<T: SolanaAccount>(data: Seq<u8>) -> Result<
    T::Model,
    DecodeError,
> {
    spec_checked_read(spec_is_correct_account_type(data, T::spec_key()), T::spec_read(data, 0))
}

/// What `from_account_info` makes of an account with the bytes `data` that belongs to
/// `owner`.
#[verifier::opaque]
pub open spec fn spec_from_account_info<T: SolanaAccount>(data: Seq<u8>, owner: Seq<u8>) -> Result<
    T::Model,
    SpriteManagerError,
> {
    spec_owned_read(spec_safe_deserialize::<T>(data), owner)
}

impl SolanaAccount for SpriteAccount {
    open spec fn spec_key() -> Key {
        Key::SpriteAccount
    }

    open spec fn spec_size() -> nat {
        0
    }

    fn key() -> (key: Key) {
        Key::SpriteAccount
    }

    fn size() -> (size: usize) {
        0
    }
}

/// A registry that was written out is read back as it was, whether it holds no sprite or
/// many.
pub proof fn lemma_registry_read_back(record: SpriteAccountView)
    requires
        SpriteAccount::spec_fits(record),
    ensures
        spec_safe_deserialize::<SpriteAccount>(SpriteAccount::spec_encode(record)) == Ok::<
            SpriteAccountView,
            DecodeError,
        >(record),
{
    let data = SpriteAccount::spec_encode(record);
    assert(data.subrange(0, data.len() as int) =~= data);
    SpriteAccount::lemma_read_written(data, 0, record);
    assert(data[0] == record.key.spec_to_u8());
}

/// Bytes whose first byte is neither the tag of unwritten storage nor the tag of a registry
/// are read as no registry, whatever bytes follow and whoever owns them.
pub proof fn lemma_foreign_tag_rejected(data: Seq<u8>, owner: Seq<u8>)
    requires
        data.len() > 0,
        data[0] != Key::Uninitialized.spec_to_u8(),
        data[0] != Key::SpriteAccount.spec_to_u8(),
    ensures
        spec_safe_deserialize::<SpriteAccount>(data) == Err::<SpriteAccountView, DecodeError>(
            DecodeError::DataTypeMismatch,
        ),
        spec_from_account_info::<SpriteAccount>(data, owner) == Err::<
            SpriteAccountView,
            SpriteManagerError,
        >(SpriteManagerError::DataTypeMismatch),
{
    reveal(spec_from_account_info);
}

} // verus!
