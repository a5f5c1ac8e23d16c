//! Byte strings and the fixed-width little-endian integers found in every frame.

use vstd::prelude::*;

verus! {

/// The two-byte little-endian form of `value`.
#[verifier::opaque]
pub open spec fn le16(value: u16) -> Seq<u8> {
    seq![(value % 0x100) as u8, (value / 0x100) as u8]
}

/// The four-byte little-endian form of `value`.
#[verifier::opaque]
pub open spec fn le32(value: u32) -> Seq<u8> {
    le16((value % 0x1_0000) as u16) + le16((value / 0x1_0000) as u16)
}

/// The eight-byte little-endian form of `value`.
#[verifier::opaque]
pub open spec fn le64(value: u64) -> Seq<u8> {
    le32((value % 0x1_0000_0000) as u32) + le32((value / 0x1_0000_0000) as u32)
}

/// The number whose little-endian form starts at `at`.
#[verifier::opaque]
pub open spec fn le16_at(bytes: Seq<u8>, at: int) -> u16 {
    (bytes[at] + 0x100 * bytes[at + 1]) as u16
}

/// The number whose four-byte little-endian form starts at `at`.
#[verifier::opaque]
pub open spec fn le32_at(bytes: Seq<u8>, at: int) -> u32 {
    (le16_at(bytes, at) + 0x1_0000 * le16_at(bytes, at + 2)) as u32
}

/// The number whose eight-byte little-endian form starts at `at`.
#[verifier::opaque]
pub open spec fn le64_at(bytes: Seq<u8>, at: int) -> u64 {
    (le32_at(bytes, at) + 0x1_0000_0000 * le32_at(bytes, at + 4)) as u64
}

/// `count` zero bytes.
pub open spec fn zeros(count: nat) -> Seq<u8> {
    Seq::new(count, |_i: int| 0u8)
}

/// Whether every byte is zero.
pub open spec fn all_zero(bytes: Seq<u8>) -> bool {
    forall|i: int| 0 <= i < bytes.len() ==> bytes[i] == 0
}

/// A 16-bit field read back gives the number written, and a written number reads back.
pub broadcast proof fn lemma_le16(value: u16)
    ensures
        (#[trigger] le16(value)).len() == 2,
        le16_at(le16(value), 0) == value,
{
    reveal(le16);
    reveal(le16_at);
}

/// A 32-bit field read back gives the number written.
pub broadcast proof fn lemma_le32(value: u32)
    ensures
        (#[trigger] le32(value)).len() == 4,
        le32_at(le32(value), 0) == value,
{
    reveal(le32);
    reveal(le32_at);
    let low = (value % 0x1_0000) as u16;
    let high = (value / 0x1_0000) as u16;
    lemma_le16(low);
    lemma_le16(high);
    assert(le16_at(le32(value), 0) == le16_at(le16(low), 0)) by {
        reveal(le16_at);
    }
    assert(le16_at(le32(value), 2) == le16_at(le16(high), 0)) by {
        reveal(le16_at);
    }
}

/// A 64-bit field read back gives the number written.
pub broadcast proof fn lemma_le64(value: u64)
    ensures
        (#[trigger] le64(value)).len() == 8,
        le64_at(le64(value), 0) == value,
{
    reveal(le64);
    reveal(le64_at);
    let low = (value % 0x1_0000_0000) as u32;
    let high = (value / 0x1_0000_0000) as u32;
    lemma_le32(low);
    lemma_le32(high);
    assert(le32_at(le64(value), 0) == le32_at(le32(low), 0)) by {
        reveal(le32_at);
        reveal(le16_at);
    }
    assert(le32_at(le64(value), 4) == le32_at(le32(high), 0)) by {
        reveal(le32_at);
        reveal(le16_at);
    }
}

/// The two bytes at `at` are the form of the number read there.
pub proof fn lemma_le16_at(bytes: Seq<u8>, at: int)
    requires
        0 <= at,
        at + 2 <= bytes.len(),
    ensures
        bytes.subrange(at, at + 2) == le16(le16_at(bytes, at)),
{
    reveal(le16);
    reveal(le16_at);
    assert(bytes.subrange(at, at + 2) =~= le16(le16_at(bytes, at)));
}

/// The four bytes at `at` are the form of the number read there.
pub proof fn lemma_le32_at(bytes: Seq<u8>, at: int)
    requires
        0 <= at,
        at + 4 <= bytes.len(),
    ensures
        bytes.subrange(at, at + 4) == le32(le32_at(bytes, at)),
{
    reveal(le32);
    reveal(le32_at);
    lemma_le16_at(bytes, at);
    lemma_le16_at(bytes, at + 2);
    assert(bytes.subrange(at, at + 4) =~= bytes.subrange(at, at + 2) + bytes.subrange(
        at + 2,
        at + 4,
    ));
}

/// The eight bytes at `at` are the form of the number read there.
pub proof fn lemma_le64_at(bytes: Seq<u8>, at: int)
    requires
        0 <= at,
        at + 8 <= bytes.len(),
    ensures
        bytes.subrange(at, at + 8) == le64(le64_at(bytes, at)),
{
    reveal(le64);
    reveal(le64_at);
    lemma_le32_at(bytes, at);
    lemma_le32_at(bytes, at + 4);
    assert(bytes.subrange(at, at + 8) =~= bytes.subrange(at, at + 4) + bytes.subrange(
        at + 4,
        at + 8,
    ));
}

/// A field that lies inside a longer string reads as it does by itself.
pub proof fn lemma_le_at_subrange(bytes: Seq<u8>, from: int, to: int, at: int)
    requires
        0 <= from <= to <= bytes.len(),
        0 <= at,
    ensures
        from + at + 2 <= to ==> le16_at(bytes.subrange(from, to), at) == le16_at(bytes, from + at),
        from + at + 4 <= to ==> le32_at(bytes.subrange(from, to), at) == le32_at(bytes, from + at),
        from + at + 8 <= to ==> le64_at(bytes.subrange(from, to), at) == le64_at(bytes, from + at),
{
    reveal(le16_at);
    reveal(le32_at);
    reveal(le64_at);
}

/// What stands at `at` is the form of a number exactly when that number is read there.
pub proof fn lemma_field(bytes: Seq<u8>, at: int)
    requires
        0 <= at,
    ensures
        at + 2 <= bytes.len() ==> forall|v: u16|
            bytes.subrange(at, at + 2) == #[trigger] le16(v) ==> le16_at(bytes, at) == v,
        at + 4 <= bytes.len() ==> forall|v: u32|
            bytes.subrange(at, at + 4) == #[trigger] le32(v) ==> le32_at(bytes, at) == v,
        at + 8 <= bytes.len() ==> forall|v: u64|
            bytes.subrange(at, at + 8) == #[trigger] le64(v) ==> le64_at(bytes, at) == v,
{
    if at + 2 <= bytes.len() {
        lemma_le_at_subrange(bytes, at, at + 2, 0);
        assert forall|v: u16| bytes.subrange(at, at + 2) == #[trigger] le16(v) implies le16_at(
            bytes,
            at,
        ) == v by {
            lemma_le16(v);
        }
    }
    if at + 4 <= bytes.len() {
        lemma_le_at_subrange(bytes, at, at + 4, 0);
        assert forall|v: u32| bytes.subrange(at, at + 4) == #[trigger] le32(v) implies le32_at(
            bytes,
            at,
        ) == v by {
            lemma_le32(v);
        }
    }
    if at + 8 <= bytes.len() {
        lemma_le_at_subrange(bytes, at, at + 8, 0);
        assert forall|v: u64| bytes.subrange(at, at + 8) == #[trigger] le64(v) implies le64_at(
            bytes,
            at,
        ) == v by {
            lemma_le64(v);
        }
    }
}

/// Reads a 16-bit number; `None` past the end.
pub fn u16_at(bytes: &[u8], at: usize) -> (r: Option<u16>)
    ensures
        r == (if at + 2 <= bytes@.len() {
            Some(le16_at(bytes@, at as int))
        } else {
            None
        }),
{
    let length: usize = bytes.len();
    if length < 2 || at > length - 2 {
        return None;
    }
    proof {
        reveal(le16_at);
    }
    Some(bytes[at] as u16 + 0x100 * (bytes[at + 1] as u16))
}

/// Reads a 32-bit number; `None` past the end.
pub fn u32_at(bytes: &[u8], at: usize) -> (r: Option<u32>)
    ensures
        r == (if at + 4 <= bytes@.len() {
            Some(le32_at(bytes@, at as int))
        } else {
            None
        }),
{
    let length: usize = bytes.len();
    if length < 4 || at > length - 4 {
        return None;
    }
    proof {
        reveal(le16_at);
        reveal(le32_at);
    }
    let low: u32 = bytes[at] as u32 + 0x100 * (bytes[at + 1] as u32);
    let high: u32 = bytes[at + 2] as u32 + 0x100 * (bytes[at + 3] as u32);
    Some(low + 0x1_0000 * high)
}

/// Reads a 64-bit number; `None` past the end.
pub fn u64_at(bytes: &[u8], at: usize) -> (r: Option<u64>)
    ensures
        r == (if at + 8 <= bytes@.len() {
            Some(le64_at(bytes@, at as int))
        } else {
            None
        }),
{
    let length: usize = bytes.len();
    if length < 8 || at > length - 8 {
        return None;
    }
    proof {
        reveal(le64_at);
    }
    match (u32_at(bytes, at), u32_at(bytes, at + 4)) {
        (Some(low), Some(high)) => Some(low as u64 + 0x1_0000_0000 * (high as u64)),
        _ => None,
    }
}

/// Reads 32 bytes; `None` past the end.
pub fn array_at(bytes: &[u8], at: usize) -> (r: Option<[u8; 32]>)
    ensures
        r is Some <==> at + 32 <= bytes@.len(),
        r matches Some(out) ==> out@ == bytes@.subrange(at as int, at + 32),
{
    let length: usize = bytes.len();
    if length < 32 || at > length - 32 {
        return None;
    }
    let mut out: [u8; 32] = [0u8;32];
    let mut i: usize = 0;
    while i < 32
        invariant
            0 <= i <= 32,
            at <= length - 32,
            length == bytes@.len(),
            forall|k: int| 0 <= k < i ==> out@[k] == bytes@[at + k],
        decreases 32 - i,
    {
        out[i] = bytes[at + i];
        i += 1;
    }
    assert(out@ =~= bytes@.subrange(at as int, at + 32));
    Some(out)
}

/// Appends `bytes`.
pub fn put_bytes(out: &mut Vec<u8>, bytes: &[u8])
    ensures
        final(out)@ == old(out)@ + bytes@,
{
    let ghost before = out@;
    let mut i: usize = 0;
    while i < bytes.len()
        invariant
            i <= bytes@.len(),
            out@ == before + bytes@.subrange(0, i as int),
        decreases bytes@.len() - i,
    {
        out.push(bytes[i]);
        i += 1;
        assert(out@ =~= before + bytes@.subrange(0, i as int));
    }
    assert(bytes@.subrange(0, i as int) =~= bytes@);
}

/// Appends `count` zero bytes.
pub fn put_zeros(out: &mut Vec<u8>, count: usize)
    ensures
        final(out)@ == old(out)@ + zeros(count as nat),
{
    let ghost before = out@;
    let mut i: usize = 0;
    while i < count
        invariant
            i <= count,
            out@ == before + zeros(i as nat),
        decreases count - i,
    {
        out.push(0);
        i += 1;
        assert(out@ =~= before + zeros(i as nat));
    }
}

/// Appends a 16-bit number.
pub fn put_u16(out: &mut Vec<u8>, value: u16)
    ensures
        final(out)@ == old(out)@ + le16(value),
{
    proof {
        reveal(le16);
    }
    let ghost before = out@;
    out.push((value % 0x100) as u8);
    out.push((value / 0x100) as u8);
    assert(out@ =~= before + le16(value));
}

/// Appends a 32-bit number.
pub fn put_u32(out: &mut Vec<u8>, value: u32)
    ensures
        final(out)@ == old(out)@ + le32(value),
{
    proof {
        reveal(le32);
    }
    let ghost before = out@;
    put_u16(out, (value % 0x1_0000) as u16);
    put_u16(out, (value / 0x1_0000) as u16);
    assert(out@ =~= before + le32(value));
}

/// Appends a 64-bit number.
pub fn put_u64(out: &mut Vec<u8>, value: u64)
    ensures
        final(out)@ == old(out)@ + le64(value),
{
    proof {
        reveal(le64);
    }
    let ghost before = out@;
    put_u32(out, (value % 0x1_0000_0000) as u32);
    put_u32(out, (value / 0x1_0000_0000) as u32);
    assert(out@ =~= before + le64(value));
}

/// Whether two byte strings are equal.
pub fn same_bytes(left: &[u8], right: &[u8]) -> (r: bool)
    ensures
        r == (left@ == right@),
{
    if left.len() != right.len() {
        return false;
    }
    let mut i: usize = 0;
    while i < left.len()
        invariant
            i <= left@.len(),
            left@.len() == right@.len(),
            forall|k: int| 0 <= k < i ==> left@[k] == right@[k],
        decreases left@.len() - i,
    {
        if left[i] != right[i] {
            return false;
        }
        i += 1;
    }
    assert(left@ =~= right@);
    true
}

/// Whether every byte is zero.
pub fn is_all_zero(bytes: &[u8]) -> (r: bool)
    ensures
        r == all_zero(bytes@),
{
    let mut i: usize = 0;
    while i < bytes.len()
        invariant
            i <= bytes@.len(),
            forall|k: int| 0 <= k < i ==> bytes@[k] == 0,
        decreases bytes@.len() - i,
    {
        if bytes[i] != 0 {
            return false;
        }
        i += 1;
    }
    true
}

/// Whether `bytes` starts with `prefix`.
pub fn starts_with(bytes: &[u8], prefix: &[u8]) -> (r: bool)
    ensures
        r == prefix@.is_prefix_of(bytes@),
{
    if bytes.len() < prefix.len() {
        return false;
    }
    let mut i: usize = 0;
    while i < prefix.len()
        invariant
            i <= prefix@.len() <= bytes@.len(),
            forall|k: int| 0 <= k < i ==> prefix@[k] == bytes@[k],
        decreases prefix@.len() - i,
    {
        if bytes[i] != prefix[i] {
            assert(bytes@.subrange(0, prefix@.len() as int)[i as int] != prefix@[i as int]);
            return false;
        }
        i += 1;
    }
    assert(prefix@ =~= bytes@.subrange(0, prefix@.len() as int));
    true
}

/// Whether `byte` occurs in `bytes`.
pub fn contains_byte(bytes: &[u8], byte: u8) -> (r: bool)
    ensures
        r == bytes@.contains(byte),
{
    let mut i: usize = 0;
    while i < bytes.len()
        invariant
            i <= bytes@.len(),
            forall|k: int| 0 <= k < i ==> bytes@[k] != byte,
        decreases bytes@.len() - i,
    {
        if bytes[i] == byte {
            return true;
        }
        i += 1;
    }
    false
}

/// A copy of one byte string.
pub fn copy_bytes(bytes: &[u8]) -> (r: Vec<u8>)
    ensures
        r@ == bytes@,
{
    let mut out: Vec<u8> = Vec::new();
    put_bytes(&mut out, bytes);
    assert(out@ =~= bytes@);
    out
}

/// The contents of a list of byte strings.
pub open spec fn strings(list: Seq<Vec<u8>>) -> Seq<Seq<u8>> {
    list.map_values(|item: Vec<u8>| item@)
}

/// A copy of a list of byte strings.
pub fn copy_strings(list: &Vec<Vec<u8>>) -> (r: Vec<Vec<u8>>)
    ensures
        strings(r@) == strings(list@),
        r@.len() == list@.len(),
{
    let mut out: Vec<Vec<u8>> = Vec::new();
    let mut i: usize = 0;
    while i < list.len()
        invariant
            i <= list@.len(),
            out@.len() == i,
            forall|k: int| 0 <= k < i ==> out@[k]@ == list@[k]@,
        decreases list@.len() - i,
    {
        out.push(copy_bytes(&list[i]));
        i += 1;
    }
    assert(strings(out@) =~= strings(list@));
    out
}

/// Numbers are written with their lowest byte first: two bytes, four, and eight as two words.
pub proof fn law_numbers_are_little_endian(short: u16, word: u32, low: u32, high: u32)
    ensures
        le16(short) == seq![(short % 256) as u8, (short / 256) as u8],
        le32(word) == seq![
            (word % 256) as u8,
            (word / 256 % 256) as u8,
            (word / 65536 % 256) as u8,
            (word / 16777216) as u8,
        ],
        le64((low + high * 0x1_0000_0000) as u64) == le32(low) + le32(high),
{
    reveal(le16);
    reveal(le32);
    let first = (word % 0x1_0000) as u16;
    let second = (word / 0x1_0000) as u16;
    assert(le32(word) =~= le16(first) + le16(second));
    assert(first % 256 == word % 256);
    assert(first / 256 == word / 256 % 256);
    assert(second % 256 == word / 65536 % 256);
    assert(second / 256 == word / 16777216);
    assert(le32(word) =~= seq![
        (word % 256) as u8,
        (word / 256 % 256) as u8,
        (word / 65536 % 256) as u8,
        (word / 16777216) as u8,
    ]);
    let long = (low + high * 0x1_0000_0000) as u64;
    assert(le64(long) == le32(low) + le32(high)) by {
        reveal(le64);
        assert(long % 0x1_0000_0000 == low);
        assert(long / 0x1_0000_0000 == high);
    }
}

} // verus!
