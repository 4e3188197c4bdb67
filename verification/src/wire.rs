//! The byte format: numbers in four bytes with the least significant first, texts and
//! sequences behind their lengths, and tags in one byte.

use vstd::prelude::*;
use vstd::utf8::*;

verus! {

/// Why a byte buffer could not be read as a value.
#[derive(Clone, Copy, Debug, PartialEq, Eq, Structural)]
pub enum DecodeError {
    /// The leading tag names another kind of record.
    DataTypeMismatch,
    /// The buffer ends before the value does.
    UnexpectedLength,
    /// A tag byte names no variant.
    InvalidVariant,
    /// A text field is not UTF-8.
    InvalidUtf8,
    /// Bytes are left over after the value.
    NotAllBytesRead,
}

/// The four bytes of `n`, least significant first.
#[verifier::opaque]
pub open spec fn spec_u32_le(n: u32) -> Seq<u8> {
    seq![
        (n % 256) as u8,
        (n / 256 % 256) as u8,
        (n / 256 / 256 % 256) as u8,
        (n / 256 / 256 / 256 % 256) as u8,
    ]
}

/// The number whose four bytes, least significant first, start at `pos`.
#[verifier::opaque]
pub open spec fn spec_u32_at(data: Seq<u8>, pos: int) -> u32 {
    (data[pos] + 256 * (data[pos + 1] + 256 * (data[pos + 2] + 256 * data[pos + 3]))) as u32
}

/// The eight bytes of `n`, least significant first.
pub open spec fn spec_u64_le(n: u64) -> Seq<u8> {
    seq![
        (n % 256) as u8,
        (n / 256 % 256) as u8,
        (n / 256 / 256 % 256) as u8,
        (n / 256 / 256 / 256 % 256) as u8,
        (n / 256 / 256 / 256 / 256 % 256) as u8,
        (n / 256 / 256 / 256 / 256 / 256 % 256) as u8,
        (n / 256 / 256 / 256 / 256 / 256 / 256 % 256) as u8,
        (n / 256 / 256 / 256 / 256 / 256 / 256 / 256 % 256) as u8,
    ]
}

/// The number whose eight bytes, least significant first, start at `pos`.
pub open spec fn spec_u64_at(data: Seq<u8>, pos: int) -> u64 {
    (data[pos] + 256 * (data[pos + 1] + 256 * (data[pos + 2] + 256 * (data[pos + 3] + 256 * (
        data[pos + 4] + 256 * (data[pos + 5] + 256 * (data[pos + 6] + 256 * data[pos + 7]))))))) as u64
}

/// Reads a four-byte number at `pos`: the number and the position behind it.
pub open spec fn spec_read_u32(data: Seq<u8>, pos: int) -> Result<(u32, int), DecodeError> {
    if 0 <= pos && pos + 4 <= data.len() {
        Ok((spec_u32_at(data, pos), pos + 4))
    } else {
        Err(DecodeError::UnexpectedLength)
    }
}

/// A byte string behind its length. The length has to fit in four bytes.
pub open spec fn spec_encode_bytes(bytes: Seq<u8>) -> Seq<u8> {
    spec_u32_le(bytes.len() as u32) + bytes
}

/// Reads a length and that many bytes.
pub open spec fn spec_read_bytes(data: Seq<u8>, pos: int) -> Result<(Seq<u8>, int), DecodeError> {
    match spec_read_u32(data, pos) {
        Err(e) => Err(e),
        Ok((len, start)) => if start + len <= data.len() {
            Ok((data.subrange(start, start + len), start + len))
        } else {
            Err(DecodeError::UnexpectedLength)
        },
    }
}

/// A text as its UTF-8 bytes behind their number.
#[verifier::opaque]
pub open spec fn spec_encode_string(text: Seq<char>) -> Seq<u8> {
    spec_encode_bytes(encode_utf8(text))
}

/// Reads a text: a length, that many bytes, and they must be UTF-8.
#[verifier::opaque]
pub open spec fn spec_read_string(data: Seq<u8>, pos: int) -> Result<(Seq<char>, int), DecodeError> {
    match spec_read_bytes(data, pos) {
        Err(e) => Err(e),
        Ok((bytes, next)) => if valid_utf8(bytes) {
            Ok((decode_utf8(bytes), next))
        } else {
            Err(DecodeError::InvalidUtf8)
        },
    }
}

/// Appends the four bytes of `n` to `out`.
pub fn write_u32(out: &mut Vec<u8>, n: u32)
    ensures
        final(out)@ == old(out)@ + spec_u32_le(n),
{
    proof {
        reveal(spec_u32_le);
    }
    out.push((n % 256) as u8);
    out.push((n / 256 % 256) as u8);
    out.push((n / 256 / 256 % 256) as u8);
    out.push((n / 256 / 256 / 256 % 256) as u8);
    assert(out@ =~= old(out)@ + spec_u32_le(n));
}

/// Reads a four-byte number at `pos`.
pub fn read_u32(data: &[u8], pos: usize) -> (res: Result<(u32, usize), DecodeError>)
    ensures
        match res {
            Ok((n, next)) => spec_read_u32(data@, pos as int) == Ok::<(u32, int), DecodeError>((n, next as int)),
            Err(e) => spec_read_u32(data@, pos as int) == Err::<(u32, int), DecodeError>(e),
        },
        res matches Ok((_, next)) ==> pos <= next <= data@.len(),
{
    proof {
        reveal(spec_u32_at);
    }
    if pos > data.len() || data.len() - pos < 4 {
        return Err(DecodeError::UnexpectedLength);
    }
    let b0: u32 = data[pos] as u32;
    let b1: u32 = data[pos + 1] as u32;
    let b2: u32 = data[pos + 2] as u32;
    let b3: u32 = data[pos + 3] as u32;
    Ok((b0 + 256 * (b1 + 256 * (b2 + 256 * b3)), pos + 4))
}

/// A number below 256 in front of a multiple of 256 is what is left when the sum is
/// divided by 256, and the multiple is what the division gives.
pub proof fn lemma_low_byte(low: int, high: int)
    requires
        0 <= low < 256,
    ensures
        (low + 256 * high) % 256 == low,
        (low + 256 * high) / 256 == high,
{
}

/// A number is written in four bytes.
pub proof fn lemma_u32_le_len(n: u32)
    ensures
        spec_u32_le(n).len() == 4,
{
    reveal(spec_u32_le);
}

/// Reading a number behind where it was written gives it back.
pub proof fn lemma_read_u32_written(data: Seq<u8>, pos: int, n: u32)
    requires
        0 <= pos,
        pos + 4 <= data.len(),
        data.subrange(pos, pos + 4) == spec_u32_le(n),
    ensures
        spec_read_u32(data, pos) == Ok::<(u32, int), DecodeError>((n, pos + 4)),
{
    reveal(spec_u32_le);
    reveal(spec_u32_at);
    let part = data.subrange(pos, pos + 4);
    assert(part[0] == data[pos]);
    assert(part[1] == data[pos + 1]);
    assert(part[2] == data[pos + 2]);
    assert(part[3] == data[pos + 3]);
    let q0: int = n as int;
    let q1: int = q0 / 256;
    let q2: int = q1 / 256;
    let q3: int = q2 / 256;
    assert(q0 == 256 * q1 + q0 % 256);
    assert(q1 == 256 * q2 + q1 % 256);
    assert(q2 == 256 * q3 + q2 % 256);
    assert(q3 == q3 % 256);
}

/// Appends the bytes of `src` to `out`.
pub fn append_bytes(out: &mut Vec<u8>, src: &[u8])
    ensures
        final(out)@ == old(out)@ + src@,
{
    let mut i: usize = 0;
    while i < src.len()
        invariant
            i <= src@.len(),
            out@ == old(out)@ + src@.subrange(0, i as int),
        decreases src@.len() - i,
    {
        out.push(src[i]);
        i += 1;
        assert(out@ =~= old(out)@ + src@.subrange(0, i as int));
    }
    assert(src@.subrange(0, src@.len() as int) =~= src@);
}

/// Whether a field of `len` items can be written: its length has to fit in four bytes.
pub open spec fn spec_len_fits(len: nat) -> bool {
    len <= u32::MAX
}

/// Whether a length fits in four bytes.
pub fn len_fits(len: usize) -> (fits: bool)
    ensures
        fits == spec_len_fits(len as nat),
{
    len <= u32::MAX as usize
}

/// Appends a text to `out`: the number of its UTF-8 bytes, then the bytes.
pub fn write_string(out: &mut Vec<u8>, text: &str)
    requires
        spec_len_fits(encode_utf8(text@).len()),
    ensures
        final(out)@ == old(out)@ + spec_encode_string(text@),
{
    proof {
        reveal(spec_encode_string);
    }
    let bytes = text.as_bytes();
    write_u32(out, bytes.len() as u32);
    append_bytes(out, bytes);
    assert(out@ =~= old(out)@ + spec_encode_string(text@));
}

/// Reads a length at `pos` and copies that many bytes.
pub fn read_bytes(data: &[u8], pos: usize) -> (res: Result<(Vec<u8>, usize), DecodeError>)
    ensures
        match res {
            Ok((bytes, next)) => spec_read_bytes(data@, pos as int) == Ok::<
                (Seq<u8>, int),
                DecodeError,
            >((bytes@, next as int)),
            Err(e) => spec_read_bytes(data@, pos as int) == Err::<(Seq<u8>, int), DecodeError>(e),
        },
        res matches Ok((_, next)) ==> pos <= next <= data@.len(),
{
    let (len, start) = match read_u32(data, pos) {
        Ok(pair) => pair,
        Err(e) => {
            return Err(e);
        },
    };
    if data.len() - start < len as usize {
        return Err(DecodeError::UnexpectedLength);
    }
    let end: usize = start + len as usize;
    let mut bytes: Vec<u8> = Vec::new();
    let mut i: usize = start;
    while i < end
        invariant
            start <= i <= end <= data@.len(),
            bytes@ == data@.subrange(start as int, i as int),
        decreases end - i,
    {
        bytes.push(data[i]);
        i += 1;
        assert(bytes@ =~= data@.subrange(start as int, i as int));
    }
    Ok((bytes, end))
}

/// `String::from_utf8` of std: the text that well-formed UTF-8 bytes spell, and nothing for
/// bytes that are not well-formed UTF-8.
#[verifier::external_body]
fn string_from_utf8(bytes: Vec<u8>) -> (res: Option<String>)
    ensures
        match res {
            Some(text) => valid_utf8(bytes@) && text@ == decode_utf8(bytes@),
            None => !valid_utf8(bytes@),
        },
{
    match String::from_utf8(bytes) {
        Ok(text) => Some(text),
        Err(_) => None,
    }
}

/// Reads a text at `pos`.
pub fn read_string(data: &[u8], pos: usize) -> (res: Result<(String, usize), DecodeError>)
    ensures
        match res {
            Ok((text, next)) => spec_read_string(data@, pos as int) == Ok::<
                (Seq<char>, int),
                DecodeError,
            >((text@, next as int)),
            Err(e) => spec_read_string(data@, pos as int) == Err::<(Seq<char>, int), DecodeError>(
                e,
            ),
        },
        res matches Ok((_, next)) ==> pos <= next <= data@.len(),
{
    proof {
        reveal(spec_read_string);
    }
    let (bytes, next) = match read_bytes(data, pos) {
        Ok(pair) => pair,
        Err(e) => {
            return Err(e);
        },
    };
    match string_from_utf8(bytes) {
        Some(text) => Ok((text, next)),
        None => Err(DecodeError::InvalidUtf8),
    }
}

/// Reading a byte string behind where it was written gives it back.
pub proof fn lemma_read_bytes_written(data: Seq<u8>, pos: int, bytes: Seq<u8>)
    requires
        0 <= pos,
        spec_len_fits(bytes.len()),
        pos + 4 + bytes.len() <= data.len(),
        data.subrange(pos, pos + 4 + bytes.len()) == spec_encode_bytes(bytes),
    ensures
        spec_read_bytes(data, pos) == Ok::<(Seq<u8>, int), DecodeError>(
            (bytes, pos + 4 + bytes.len()),
        ),
{
    lemma_u32_le_len(bytes.len() as u32);
    let whole = data.subrange(pos, pos + 4 + bytes.len());
    assert(data.subrange(pos, pos + 4) =~= whole.subrange(0, 4));
    assert(whole.subrange(0, 4) =~= spec_u32_le(bytes.len() as u32));
    lemma_read_u32_written(data, pos, bytes.len() as u32);
    assert(data.subrange(pos + 4, pos + 4 + bytes.len()) =~= whole.subrange(
        4,
        4 + bytes.len() as int,
    ));
    assert(whole.subrange(4, 4 + bytes.len() as int) =~= bytes);
}

/// Reading a text behind where it was written gives it back.
pub proof fn lemma_read_string_written(data: Seq<u8>, pos: int, text: Seq<char>)
    requires
        0 <= pos,
        spec_len_fits(encode_utf8(text).len()),
        pos + spec_encode_string(text).len() <= data.len(),
        data.subrange(pos, pos + spec_encode_string(text).len()) == spec_encode_string(text),
    ensures
        spec_read_string(data, pos) == Ok::<(Seq<char>, int), DecodeError>(
            (text, pos + spec_encode_string(text).len()),
        ),
{
    broadcast use encode_utf8_valid_utf8, encode_utf8_decode_utf8;

    reveal(spec_encode_string);
    reveal(spec_read_string);
    lemma_u32_le_len(encode_utf8(text).len() as u32);
    lemma_read_bytes_written(data, pos, encode_utf8(text));
}

/// A number that was read stands written where it was read.
pub proof fn lemma_u32_written_where_read(data: Seq<u8>, pos: int)
    requires
        spec_read_u32(data, pos) is Ok,
    ensures
        data.subrange(pos, pos + 4) == spec_u32_le(spec_u32_at(data, pos)),
{
    reveal(spec_u32_le);
    reveal(spec_u32_at);
    let b0: int = data[pos] as int;
    let b1: int = data[pos + 1] as int;
    let b2: int = data[pos + 2] as int;
    let b3: int = data[pos + 3] as int;
    let q2: int = b2 + 256 * b3;
    let q1: int = b1 + 256 * q2;
    let q0: int = b0 + 256 * q1;
    lemma_low_byte(b0, q1);
    lemma_low_byte(b1, q2);
    lemma_low_byte(b2, b3);
    assert(data.subrange(pos, pos + 4) =~= spec_u32_le(spec_u32_at(data, pos)));
}

/// A byte string that was read stands written where it was read.
pub proof fn lemma_bytes_written_where_read(data: Seq<u8>, pos: int)
    requires
        spec_read_bytes(data, pos) is Ok,
    ensures
        spec_len_fits(spec_read_bytes(data, pos)->Ok_0.0.len()),
        0 <= pos <= spec_read_bytes(data, pos)->Ok_0.1 <= data.len(),
        data.subrange(pos, spec_read_bytes(data, pos)->Ok_0.1) == spec_encode_bytes(
            spec_read_bytes(data, pos)->Ok_0.0,
        ),
{
    lemma_u32_written_where_read(data, pos);
    let (bytes, next) = spec_read_bytes(data, pos)->Ok_0;
    assert(data.subrange(pos, next) =~= data.subrange(pos, pos + 4) + bytes);
}

/// A text that was read stands written where it was read.
pub proof fn lemma_string_written_where_read(data: Seq<u8>, pos: int)
    requires
        spec_read_string(data, pos) is Ok,
    ensures
        spec_len_fits(encode_utf8(spec_read_string(data, pos)->Ok_0.0).len()),
        0 <= pos <= spec_read_string(data, pos)->Ok_0.1 <= data.len(),
        data.subrange(pos, spec_read_string(data, pos)->Ok_0.1) == spec_encode_string(
            spec_read_string(data, pos)->Ok_0.0,
        ),
{
    reveal(spec_encode_string);
    reveal(spec_read_string);
    lemma_bytes_written_where_read(data, pos);
    decode_utf8_encode_utf8(spec_read_bytes(data, pos)->Ok_0.0);
}

/// A kind of value with a place in the byte format: how it is written, and how it is read back.
pub trait Wire: Sized {
    /// What a value of this kind is in contracts.
    type Model;

    /// The value as it is in contracts.
    spec fn model(&self) -> Self::Model;

    /// The bytes that stand for a value.
    spec fn spec_encode(m: Self::Model) -> Seq<u8>;

    /// Whether a value can be written: every length in it has to fit in four bytes.
    spec fn spec_fits(m: Self::Model) -> bool;

    /// What reading at `pos` gives: the value and the position behind it, or the reason why
    /// there is none.
    spec fn spec_read(data: Seq<u8>, pos: int) -> Result<(Self::Model, int), DecodeError>;

    /// Whether the value can be written.
    fn fits(&self) -> (ok: bool)
        ensures
            ok == Self::spec_fits(self.model()),
    ;

    /// Appends the bytes of the value to `out`.
    fn write(&self, out: &mut Vec<u8>)
        requires
            Self::spec_fits(self.model()),
        ensures
            final(out)@ == old(out)@ + Self::spec_encode(self.model()),
    ;

    /// Reads a value at `pos`, and says where the bytes behind it start.
    fn read(data: &[u8], pos: usize) -> (res: Result<(Self, usize), DecodeError>)
        ensures
            match res {
                Ok((value, next)) => Self::spec_read(data@, pos as int) == Ok::<
                    (Self::Model, int),
                    DecodeError,
                >((value.model(), next as int)) && pos <= next <= data@.len(),
                Err(e) => Self::spec_read(data@, pos as int) == Err::<
                    (Self::Model, int),
                    DecodeError,
                >(e),
            },
    ;

    /// Reading a value behind where it was written gives it back.
    proof fn lemma_read_written(data: Seq<u8>, pos: int, m: Self::Model)
        requires
            Self::spec_fits(m),
            0 <= pos,
            pos + Self::spec_encode(m).len() <= data.len(),
            data.subrange(pos, pos + Self::spec_encode(m).len()) == Self::spec_encode(m),
        ensures
            Self::spec_read(data, pos) == Ok::<(Self::Model, int), DecodeError>(
                (m, pos + Self::spec_encode(m).len()),
            ),
    ;

    /// A value that was read stands written where it was read: no other bytes give it.
    proof fn lemma_written_where_read(data: Seq<u8>, pos: int)
        requires
            Self::spec_read(data, pos) is Ok,
        ensures
            Self::spec_fits(Self::spec_read(data, pos)->Ok_0.0),
            0 <= pos <= Self::spec_read(data, pos)->Ok_0.1 <= data.len(),
            data.subrange(pos, Self::spec_read(data, pos)->Ok_0.1) == Self::spec_encode(
                Self::spec_read(data, pos)->Ok_0.0,
            ),
    ;
}

impl Wire for String {
    type Model = Seq<char>;

    open spec fn model(&self) -> Seq<char> {
        self@
    }

    open spec fn spec_encode(m: Seq<char>) -> Seq<u8> {
        spec_encode_string(m)
    }

    open spec fn spec_fits(m: Seq<char>) -> bool {
        spec_len_fits(encode_utf8(m).len())
    }

    open spec fn spec_read(data: Seq<u8>, pos: int) -> Result<(Seq<char>, int), DecodeError> {
        spec_read_string(data, pos)
    }

    fn fits(&self) -> (ok: bool) {
        len_fits(self.as_str().as_bytes().len())
    }

    fn write(&self, out: &mut Vec<u8>) {
        write_string(out, self.as_str())
    }

    fn read(data: &[u8], pos: usize) -> (res: Result<(String, usize), DecodeError>) {
        read_string(data, pos)
    }

    proof fn lemma_read_written(data: Seq<u8>, pos: int, m: Seq<char>) {
        lemma_read_string_written(data, pos, m);
    }

    proof fn lemma_written_where_read(data: Seq<u8>, pos: int) {
        lemma_string_written_where_read(data, pos);
    }
}

/// What the items of a vector are in contracts.
pub open spec fn spec_models<T: Wire>(items: Seq<T>) -> Seq<T::Model> {
    Seq::new(items.len(), |i: int| items[i].model())
}

/// The items one behind the other.
pub open spec fn spec_encode_items<T: Wire>(items: Seq<T::Model>) -> Seq<u8>
    decreases items.len(),
{
    if items.len() == 0 {
        Seq::empty()
    } else {
        spec_encode_items::<T>(items.drop_last()) + T::spec_encode(items.last())
    }
}

/// A sequence: the number of its items, then the items in order. The number has to fit in
/// four bytes.
pub open spec fn spec_encode_seq<T: Wire>(items: Seq<T::Model>) -> Seq<u8> {
    spec_u32_le(items.len() as u32) + spec_encode_items::<T>(items)
}

/// Whether each item of a sequence can be written.
pub open spec fn spec_items_fit<T: Wire>(items: Seq<T::Model>) -> bool {
    forall|i: int| 0 <= i < items.len() ==> T::spec_fits(#[trigger] items[i])
}

/// A sequence can be written if its length fits in four bytes and each item can be written.
pub open spec fn spec_seq_fits<T: Wire>(items: Seq<T::Model>) -> bool {
    spec_len_fits(items.len()) && spec_items_fit::<T>(items)
}

/// Reads `n` items one behind the other, and stops at the first that cannot be read.
pub open spec fn spec_read_items<T: Wire>(data: Seq<u8>, pos: int, n: nat) -> Result<
    (Seq<T::Model>, int),
    DecodeError,
>
    decreases n,
{
    if n == 0 {
        Ok((Seq::empty(), pos))
    } else {
        match spec_read_items::<T>(data, pos, (n - 1) as nat) {
            Err(e) => Err(e),
            Ok((items, next)) => match T::spec_read(data, next) {
                Err(e) => Err(e),
                Ok((item, end)) => Ok((items.push(item), end)),
            },
        }
    }
}

/// Reads a sequence: a number, then that many items.
pub open spec fn spec_read_seq<T: Wire>(data: Seq<u8>, pos: int) -> Result<
    (Seq<T::Model>, int),
    DecodeError,
> {
    match spec_read_u32(data, pos) {
        Err(e) => Err(e),
        Ok((n, start)) => spec_read_items::<T>(data, start, n as nat),
    }
}

/// Once an item cannot be read, asking for more items changes nothing.
pub proof fn lemma_read_items_error_stays<T: Wire>(data: Seq<u8>, pos: int, k: nat, n: nat)
    requires
        k <= n,
        spec_read_items::<T>(data, pos, k) is Err,
    ensures
        spec_read_items::<T>(data, pos, n) == spec_read_items::<T>(data, pos, k),
    decreases n,
{
    if k < n {
        lemma_read_items_error_stays::<T>(data, pos, k, (n - 1) as nat);
    }
}

/// Reading items behind where they were written gives them back.
pub proof fn lemma_read_items_written<T: Wire>(data: Seq<u8>, pos: int, items: Seq<T::Model>)
    requires
        spec_items_fit::<T>(items),
        0 <= pos,
        pos + spec_encode_items::<T>(items).len() <= data.len(),
        data.subrange(pos, pos + spec_encode_items::<T>(items).len()) == spec_encode_items::<T>(
            items,
        ),
    ensures
        spec_read_items::<T>(data, pos, items.len()) == Ok::<(Seq<T::Model>, int), DecodeError>(
            (items, pos + spec_encode_items::<T>(items).len()),
        ),
    decreases items.len(),
{
    if items.len() == 0 {
        assert(items =~= Seq::<T::Model>::empty());
    } else {
        let init = items.drop_last();
        let last = items.last();
        let head = spec_encode_items::<T>(init);
        let whole = spec_encode_items::<T>(items);
        let mid: int = pos + head.len();
        assert(whole == head + T::spec_encode(last));
        assert(data.subrange(pos, mid) =~= whole.subrange(0, head.len() as int));
        assert(whole.subrange(0, head.len() as int) =~= head);
        assert forall|i: int| 0 <= i < init.len() implies T::spec_fits(#[trigger] init[i]) by {
            assert(init[i] == items[i]);
        }
        lemma_read_items_written::<T>(data, pos, init);
        assert(data.subrange(mid, mid + T::spec_encode(last).len()) =~= whole.subrange(
            head.len() as int,
            whole.len() as int,
        ));
        assert(whole.subrange(head.len() as int, whole.len() as int) =~= T::spec_encode(last));
        T::lemma_read_written(data, mid, last);
        assert(init.push(last) =~= items);
    }
}

/// Reading a sequence behind where it was written gives it back.
pub proof fn lemma_read_seq_written<T: Wire>(data: Seq<u8>, pos: int, items: Seq<T::Model>)
    requires
        spec_seq_fits::<T>(items),
        0 <= pos,
        pos + spec_encode_seq::<T>(items).len() <= data.len(),
        data.subrange(pos, pos + spec_encode_seq::<T>(items).len()) == spec_encode_seq::<T>(items),
    ensures
        spec_read_seq::<T>(data, pos) == Ok::<(Seq<T::Model>, int), DecodeError>(
            (items, pos + spec_encode_seq::<T>(items).len()),
        ),
{
    lemma_u32_le_len(items.len() as u32);
    let whole = spec_encode_seq::<T>(items);
    let body = spec_encode_items::<T>(items);
    assert(data.subrange(pos, pos + 4) =~= whole.subrange(0, 4));
    assert(whole.subrange(0, 4) =~= spec_u32_le(items.len() as u32));
    lemma_read_u32_written(data, pos, items.len() as u32);
    assert(data.subrange(pos + 4, pos + 4 + body.len()) =~= whole.subrange(4, whole.len() as int));
    assert(whole.subrange(4, whole.len() as int) =~= body);
    lemma_read_items_written::<T>(data, pos + 4, items);
}

/// Items that were read stand written where they were read.
pub proof fn lemma_items_written_where_read<T: Wire>(data: Seq<u8>, pos: int, n: nat)
    requires
        0 <= pos <= data.len(),
        spec_read_items::<T>(data, pos, n) is Ok,
    ensures
        spec_items_fit::<T>(spec_read_items::<T>(data, pos, n)->Ok_0.0),
        spec_read_items::<T>(data, pos, n)->Ok_0.0.len() == n,
        pos <= spec_read_items::<T>(data, pos, n)->Ok_0.1 <= data.len(),
        data.subrange(pos, spec_read_items::<T>(data, pos, n)->Ok_0.1) == spec_encode_items::<T>(
            spec_read_items::<T>(data, pos, n)->Ok_0.0,
        ),
    decreases n,
{
    if n == 0 {
        assert(data.subrange(pos, pos) =~= Seq::<u8>::empty());
    } else {
        let (init, mid) = spec_read_items::<T>(data, pos, (n - 1) as nat)->Ok_0;
        lemma_items_written_where_read::<T>(data, pos, (n - 1) as nat);
        let (last, end) = T::spec_read(data, mid)->Ok_0;
        T::lemma_written_where_read(data, mid);
        let items = init.push(last);
        assert(items.drop_last() =~= init);
        assert(items.last() == last);
        assert(data.subrange(pos, end) =~= data.subrange(pos, mid) + data.subrange(mid, end));
        assert forall|i: int| 0 <= i < items.len() implies T::spec_fits(#[trigger] items[i]) by {
            if i < init.len() {
                assert(items[i] == init[i]);
            }
        }
    }
}

/// A sequence that was read stands written where it was read.
pub proof fn lemma_seq_written_where_read<T: Wire>(data: Seq<u8>, pos: int)
    requires
        spec_read_seq::<T>(data, pos) is Ok,
    ensures
        spec_seq_fits::<T>(spec_read_seq::<T>(data, pos)->Ok_0.0),
        0 <= pos <= spec_read_seq::<T>(data, pos)->Ok_0.1 <= data.len(),
        data.subrange(pos, spec_read_seq::<T>(data, pos)->Ok_0.1) == spec_encode_seq::<T>(
            spec_read_seq::<T>(data, pos)->Ok_0.0,
        ),
{
    lemma_u32_written_where_read(data, pos);
    let n = spec_u32_at(data, pos);
    lemma_items_written_where_read::<T>(data, pos + 4, n as nat);
    let (items, end) = spec_read_seq::<T>(data, pos)->Ok_0;
    assert(data.subrange(pos, end) =~= data.subrange(pos, pos + 4) + data.subrange(pos + 4, end));
}

/// Whether a vector can be written.
pub fn seq_fits<T: Wire>(items: &Vec<T>) -> (ok: bool)
    ensures
        ok == spec_seq_fits::<T>(spec_models(items@)),
{
    if !len_fits(items.len()) {
        return false;
    }
    let mut i: usize = 0;
    while i < items.len()
        invariant
            i <= items@.len(),
            forall|j: int| 0 <= j < i ==> T::spec_fits(#[trigger] spec_models(items@)[j]),
        decreases items@.len() - i,
    {
        if !items[i].fits() {
            assert(!T::spec_fits(spec_models(items@)[i as int]));
            return false;
        }
        i += 1;
    }
    true
}

/// Appends a vector to `out`: the number of its items, then the items in order.
pub fn write_seq<T: Wire>(items: &Vec<T>, out: &mut Vec<u8>)
    requires
        spec_seq_fits::<T>(spec_models(items@)),
    ensures
        final(out)@ == old(out)@ + spec_encode_seq::<T>(spec_models(items@)),
{
    let ghost models = spec_models(items@);
    write_u32(out, items.len() as u32);
    let mut i: usize = 0;
    while i < items.len()
        invariant
            i <= items@.len(),
            models == spec_models(items@),
            spec_items_fit::<T>(models),
            out@ == old(out)@ + spec_u32_le(items@.len() as u32) + spec_encode_items::<T>(
                models.take(i as int),
            ),
        decreases items@.len() - i,
    {
        assert(T::spec_fits(models[i as int]));
        items[i].write(out);
        proof {
            let next = models.take(i + 1);
            assert(next.drop_last() =~= models.take(i as int));
            assert(next.last() == items@[i as int].model());
            assert(out@ =~= old(out)@ + spec_u32_le(items@.len() as u32) + spec_encode_items::<T>(
                next,
            ));
        }
        i += 1;
    }
    assert(models.take(items@.len() as int) =~= models);
    assert(out@ =~= old(out)@ + spec_encode_seq::<T>(models));
}

/// Reads a vector at `pos`.
pub fn read_seq<T: Wire>(data: &[u8], pos: usize) -> (res: Result<(Vec<T>, usize), DecodeError>)
    ensures
        match res {
            Ok((items, next)) => spec_read_seq::<T>(data@, pos as int) == Ok::<
                (Seq<T::Model>, int),
                DecodeError,
            >((spec_models(items@), next as int)) && pos <= next <= data@.len(),
            Err(e) => spec_read_seq::<T>(data@, pos as int) == Err::<
                (Seq<T::Model>, int),
                DecodeError,
            >(e),
        },
{
    let (n, start) = match read_u32(data, pos) {
        Ok(pair) => pair,
        Err(e) => {
            return Err(e);
        },
    };
    let mut items: Vec<T> = Vec::new();
    let mut at: usize = start;
    let mut i: u32 = 0;
    assert(spec_models(items@) =~= Seq::<T::Model>::empty());
    while i < n
        invariant
            i <= n,
            start <= at <= data@.len(),
            spec_read_u32(data@, pos as int) == Ok::<(u32, int), DecodeError>((n, start as int)),
            spec_read_items::<T>(data@, start as int, i as nat) == Ok::<
                (Seq<T::Model>, int),
                DecodeError,
            >((spec_models(items@), at as int)),
        decreases n - i,
    {
        let ghost before = spec_models(items@);
        match T::read(data, at) {
            Err(e) => {
                proof {
                    assert(spec_read_items::<T>(data@, start as int, (i + 1) as nat) == Err::<
                        (Seq<T::Model>, int),
                        DecodeError,
                    >(e));
                    lemma_read_items_error_stays::<T>(
                        data@,
                        start as int,
                        (i + 1) as nat,
                        n as nat,
                    );
                }
                return Err(e);
            },
            Ok((item, next)) => {
                items.push(item);
                at = next;
                assert(spec_models(items@) =~= before.push(item.model()));
            },
        }
        i += 1;
    }
    Ok((items, at))
}

/// What a whole buffer holds: one value, and no byte more.
pub open spec fn spec_from_slice<T: Wire>(data: Seq<u8>) -> Result<T::Model, DecodeError> {
    match T::spec_read(data, 0) {
        Err(e) => Err(e),
        Ok((m, next)) => if next == data.len() {
            Ok(m)
        } else {
            Err(DecodeError::NotAllBytesRead)
        },
    }
}

/// The bytes of a value, or nothing where a length in it does not fit in four bytes.
pub fn try_to_vec<T: Wire>(value: &T) -> (res: Option<Vec<u8>>)
    ensures
        res is Some == T::spec_fits(value.model()),
        res matches Some(bytes) ==> bytes@ == T::spec_encode(value.model()),
{
    if !value.fits() {
        return None;
    }
    let mut out: Vec<u8> = Vec::new();
    value.write(&mut out);
    assert(out@ =~= T::spec_encode(value.model()));
    Some(out)
}

/// Reads a buffer as one value and asks that no byte is left over.
pub fn try_from_slice<T: Wire>(data: &[u8]) -> (res: Result<T, DecodeError>)
    ensures
        match res {
            Ok(value) => spec_from_slice::<T>(data@) == Ok::<T::Model, DecodeError>(value.model()),
            Err(e) => spec_from_slice::<T>(data@) == Err::<T::Model, DecodeError>(e),
        },
{
    match T::read(data, 0) {
        Err(e) => Err(e),
        Ok((value, next)) => if next == data.len() {
            Ok(value)
        } else {
            Err(DecodeError::NotAllBytesRead)
        },
    }
}

/// A value that was written out is read back from its bytes.
pub proof fn lemma_from_slice_of_encoded<T: Wire>(m: T::Model)
    requires
        T::spec_fits(m),
    ensures
        spec_from_slice::<T>(T::spec_encode(m)) == Ok::<T::Model, DecodeError>(m),
{
    let data = T::spec_encode(m);
    assert(data.subrange(0, data.len() as int) =~= data);
    T::lemma_read_written(data, 0, m);
}

/// Bytes that lie one stretch behind the other are the two stretches put together.
pub proof fn lemma_subrange_join(data: Seq<u8>, from: int, mid: int, to: int)
    requires
        0 <= from <= mid <= to <= data.len(),
    ensures
        data.subrange(from, to) == data.subrange(from, mid) + data.subrange(mid, to),
{
    assert(data.subrange(from, to) =~= data.subrange(from, mid) + data.subrange(mid, to));
}

/// Bytes that are put together in either grouping are the same bytes.
pub proof fn lemma_concat_assoc(a: Seq<u8>, b: Seq<u8>, c: Seq<u8>)
    ensures
        (a + b) + c == a + (b + c),
{
    assert((a + b) + c =~= a + (b + c));
}

/// A value at the head of written bytes is read back, and what was written behind it
/// stands behind it.
pub proof fn lemma_read_head<T: Wire>(data: Seq<u8>, pos: int, m: T::Model, rest: Seq<u8>)
    requires
        T::spec_fits(m),
        0 <= pos,
        pos + T::spec_encode(m).len() + rest.len() <= data.len(),
        data.subrange(pos, pos + T::spec_encode(m).len() + rest.len()) == T::spec_encode(m) + rest,
    ensures
        T::spec_read(data, pos) == Ok::<(T::Model, int), DecodeError>(
            (m, pos + T::spec_encode(m).len()),
        ),
        data.subrange(
            pos + T::spec_encode(m).len(),
            pos + T::spec_encode(m).len() + rest.len(),
        ) == rest,
{
    let head = T::spec_encode(m);
    let whole = head + rest;
    let mid: int = head.len() as int;
    let end: int = mid + rest.len();
    assert(data.subrange(pos, pos + mid) =~= whole.subrange(0, mid));
    assert(whole.subrange(0, mid) =~= head);
    assert(data.subrange(pos + mid, pos + end) =~= whole.subrange(mid, end));
    assert(whole.subrange(mid, end) =~= rest);
    T::lemma_read_written(data, pos, m);
}

/// A sequence at the head of written bytes is read back, and what was written behind it
/// stands behind it.
pub proof fn lemma_read_seq_head<T: Wire>(
    data: Seq<u8>,
    pos: int,
    items: Seq<T::Model>,
    rest: Seq<u8>,
)
    requires
        spec_seq_fits::<T>(items),
        0 <= pos,
        pos + spec_encode_seq::<T>(items).len() + rest.len() <= data.len(),
        data.subrange(pos, pos + spec_encode_seq::<T>(items).len() + rest.len())
            == spec_encode_seq::<T>(items) + rest,
    ensures
        spec_read_seq::<T>(data, pos) == Ok::<(Seq<T::Model>, int), DecodeError>(
            (items, pos + spec_encode_seq::<T>(items).len()),
        ),
        data.subrange(
            pos + spec_encode_seq::<T>(items).len(),
            pos + spec_encode_seq::<T>(items).len() + rest.len(),
        ) == rest,
{
    let head = spec_encode_seq::<T>(items);
    let whole = head + rest;
    let mid: int = head.len() as int;
    let end: int = mid + rest.len();
    assert(data.subrange(pos, pos + mid) =~= whole.subrange(0, mid));
    assert(whole.subrange(0, mid) =~= head);
    assert(data.subrange(pos + mid, pos + end) =~= whole.subrange(mid, end));
    assert(whole.subrange(mid, end) =~= rest);
    lemma_read_seq_written::<T>(data, pos, items);
}

} // verus!
