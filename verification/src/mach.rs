//! Mach messages as bytes: headers, audit trailers and their alignment.
//!
//! Darwin runs on little-endian machines only, so its native words are little-endian here.

use vstd::prelude::*;
use crate::bytes;
use crate::bytes::{array_at, put_u32, u32_at};

verus! {

/// No port.
pub const MACH_PORT_NULL: u32 = 0;

/// Bytes of a message header.
pub const MACH_HEADER_BYTES: usize = 24;

/// Bytes of an audit trailer.
pub const AUDIT_TRAILER_BYTES: usize = 52;

/// Set in the bits of a message that carries descriptors.
pub const MACH_MSGH_BITS_COMPLEX: u32 = 0x8000_0000;

/// Disposition of a send-once right.
pub const MACH_MSG_TYPE_PORT_SEND_ONCE: u32 = 18;

/// The kernel's credentials of one message: audit user, effective user and group, real user and
/// group, process, session and process version, in this order.
#[derive(Clone, Copy, Debug, PartialEq, Eq)]
pub struct AuditToken {
    pub values: [u32; 8],
}

/// The words of a token, one after another.
pub open spec fn token_bytes(words: Seq<u32>) -> Seq<u8>
    decreases words.len(),
{
    if words.len() == 0 {
        seq![]
    } else {
        token_bytes(words.drop_last()) + bytes::le32(words.last())
    }
}

/// The words that 32 bytes stand for.
pub open spec fn token_words(bytes: Seq<u8>) -> Seq<u32> {
    Seq::new(8, |i: int| bytes::le32_at(bytes, 4 * i))
}

/// Whether `bytes` are the form of `token`.
pub open spec fn is_token(bytes: Seq<u8>, token: AuditToken) -> bool {
    bytes.len() == 32 && token_words(bytes) == token.values@
}

/// A string of `4 * n` bytes for `n` words, each where it belongs.
proof fn lemma_token_bytes(words: Seq<u32>)
    ensures
        token_bytes(words).len() == 4 * words.len(),
        forall|i: int|
            0 <= i < words.len()
                ==> bytes::le32_at(token_bytes(words), 4 * i) == #[trigger] words[i],
    decreases words.len(),
{
    if words.len() > 0 {
        let before = token_bytes(words.drop_last());
        let all = token_bytes(words);
        lemma_token_bytes(words.drop_last());
        bytes::lemma_le32(words.last());
        assert(all.subrange(0, before.len() as int) =~= before);
        assert(all.subrange(before.len() as int, all.len() as int) =~= bytes::le32(words.last()));
        assert forall|i: int| 0 <= i < words.len() implies bytes::le32_at(all, 4 * i)
            == #[trigger] words[i] by {
            if i < words.len() - 1 {
                assert(words.drop_last()[i] == words[i]);
                bytes::lemma_le_at_subrange(all, 0, before.len() as int, 4 * i);
            } else {
                bytes::lemma_le_at_subrange(all, before.len() as int, all.len() as int, 0);
            }
        }
    }
}

/// A token reads back from its bytes.
pub proof fn law_token_round_trip(token: AuditToken)
    ensures
        is_token(token_bytes(token.values@), token),
{
    lemma_token_bytes(token.values@);
    assert(token_words(token_bytes(token.values@)) =~= token.values@);
}

/// Different tokens have different bytes, and every 32 bytes are the form of one token.
pub proof fn law_token_is_canonical(bytes: Seq<u8>, token: AuditToken)
    requires
        is_token(bytes, token),
    ensures
        bytes == token_bytes(token.values@),
{
    let words = token.values@;
    lemma_token_bytes(words);
    let other = token_bytes(words);
    assert forall|k: int| 0 <= k < 32 implies bytes[k] == other[k] by {
        let i = k / 4;
        assert(token_words(bytes)[i] == words[i]);
        bytes::lemma_le32_at(bytes, 4 * i);
        bytes::lemma_le32_at(other, 4 * i);
        assert(bytes.subrange(4 * i, 4 * i + 4)[k - 4 * i] == bytes[k]);
        assert(other.subrange(4 * i, 4 * i + 4)[k - 4 * i] == other[k]);
    }
    assert(bytes =~= other);
}

/// The bytes of a token.
pub fn encode_audit_token(token: AuditToken) -> (r: [u8; 32])
    ensures
        r@ == token_bytes(token.values@),
        is_token(r@, token),
{
    let mut out: Vec<u8> = Vec::new();
    let mut i: usize = 0;
    assert(token.values@.take(0) =~= seq![]);
    assert(out@ =~= token_bytes(token.values@.take(0)));
    while i < 8
        invariant
            i <= 8,
            out@ == token_bytes(token.values@.take(i as int)),
        decreases 8 - i,
    {
        put_u32(&mut out, token.values[i]);
        proof {
            let next = token.values@.take(i + 1);
            assert(next.drop_last() =~= token.values@.take(i as int));
            assert(next.last() == token.values@[i as int]);
        }
        i += 1;
    }
    proof {
        assert(token.values@.take(8) =~= token.values@);
        lemma_token_bytes(token.values@);
        law_token_round_trip(token);
    }
    let mut encoded: [u8; 32] = [0u8;32];
    let mut k: usize = 0;
    while k < 32
        invariant
            k <= 32,
            out@.len() == 32,
            forall|l: int| 0 <= l < k ==> encoded@[l] == out@[l],
        decreases 32 - k,
    {
        encoded[k] = out[k];
        k += 1;
    }
    assert(encoded@ =~= out@);
    encoded
}

/// The token that 32 bytes stand for.
pub fn decode_audit_token(bytes: [u8; 32]) -> (r: AuditToken)
    ensures
        is_token(bytes@, r),
{
    let mut values: [u32; 8] = [0u32;8];
    let mut i: usize = 0;
    while i < 8
        invariant
            i <= 8,
            forall|k: int| 0 <= k < i ==> values@[k] == bytes::le32_at(bytes@, 4 * k),
        decreases 8 - i,
    {
        match u32_at(&bytes, 4 * i) {
            Some(word) => {
                values[i] = word;
            },
            None => {},
        }
        i += 1;
    }
    assert(token_words(bytes@) =~= values@);
    AuditToken { values }
}

/// Whether two tokens are equal word for word.
pub fn same_token(left: AuditToken, right: AuditToken) -> (r: bool)
    ensures
        r == (left == right),
{
    let mut i: usize = 0;
    while i < 8
        invariant
            i <= 8,
            forall|k: int| 0 <= k < i ==> left.values@[k] == right.values@[k],
        decreases 8 - i,
    {
        if left.values[i] != right.values[i] {
            return false;
        }
        i += 1;
    }
    assert(left.values =~= right.values);
    true
}

/// Header of a Mach message.
#[derive(Clone, Copy, Debug, PartialEq, Eq, Structural)]
pub struct MachMsgHeader {
    pub bits: u32,
    pub size: u32,
    pub remote_port: u32,
    pub local_port: u32,
    pub voucher_port: u32,
    pub id: u32,
}

impl MachMsgHeader {
    /// The header that stands at `at`.
    pub open spec fn spec_at(bytes: Seq<u8>, at: int) -> MachMsgHeader {
        MachMsgHeader {
            bits: bytes::le32_at(bytes, at),
            size: bytes::le32_at(bytes, at + 4),
            remote_port: bytes::le32_at(bytes, at + 8),
            local_port: bytes::le32_at(bytes, at + 12),
            voucher_port: bytes::le32_at(bytes, at + 16),
            id: bytes::le32_at(bytes, at + 20),
        }
    }

    /// The bytes of the header.
    pub open spec fn spec_bytes(self) -> Seq<u8> {
        bytes::le32(self.bits) + bytes::le32(self.size) + bytes::le32(self.remote_port)
            + bytes::le32(self.local_port) + bytes::le32(self.voucher_port) + bytes::le32(self.id)
    }

    /// Reads the header at the start of a message; `None` where it is cut short.
    pub fn read(bytes: &[u8]) -> (r: Option<MachMsgHeader>)
        ensures
            r == (if bytes@.len() >= MACH_HEADER_BYTES {
                Some(MachMsgHeader::spec_at(bytes@, 0))
            } else {
                None
            }),
    {
        match (
            u32_at(bytes, 0),
            u32_at(bytes, 4),
            u32_at(bytes, 8),
            u32_at(bytes, 12),
            u32_at(bytes, 16),
            u32_at(bytes, 20),
        ) {
            (
                Some(bits),
                Some(size),
                Some(remote_port),
                Some(local_port),
                Some(voucher_port),
                Some(id),
            ) => Some(MachMsgHeader { bits, size, remote_port, local_port, voucher_port, id }),
            _ => None,
        }
    }

    /// Appends the header to a message.
    pub fn write(self, out: &mut Vec<u8>)
        ensures
            final(out)@ == old(out)@ + self.spec_bytes(),
    {
        let ghost before = out@;
        put_u32(out, self.bits);
        put_u32(out, self.size);
        put_u32(out, self.remote_port);
        put_u32(out, self.local_port);
        put_u32(out, self.voucher_port);
        put_u32(out, self.id);
        assert(out@ =~= before + self.spec_bytes());
    }
}

/// A header reads back from the start of a message, and what follows it is left.
pub proof fn lemma_header_round_trip(header: MachMsgHeader, rest: Seq<u8>)
    ensures
        header.spec_bytes().len() == MACH_HEADER_BYTES,
        MachMsgHeader::spec_at(header.spec_bytes() + rest, 0) == header,
        (header.spec_bytes() + rest).subrange(24, 24 + rest.len() as int) == rest,
{
    let bytes = header.spec_bytes() + rest;
    bytes::lemma_le32(header.bits);
    bytes::lemma_le32(header.size);
    bytes::lemma_le32(header.remote_port);
    bytes::lemma_le32(header.local_port);
    bytes::lemma_le32(header.voucher_port);
    bytes::lemma_le32(header.id);
    assert(bytes.subrange(0, 4) =~= bytes::le32(header.bits));
    assert(bytes.subrange(4, 8) =~= bytes::le32(header.size));
    assert(bytes.subrange(8, 12) =~= bytes::le32(header.remote_port));
    assert(bytes.subrange(12, 16) =~= bytes::le32(header.local_port));
    assert(bytes.subrange(16, 20) =~= bytes::le32(header.voucher_port));
    assert(bytes.subrange(20, 24) =~= bytes::le32(header.id));
    bytes::lemma_field(bytes, 0);
    bytes::lemma_field(bytes, 4);
    bytes::lemma_field(bytes, 8);
    bytes::lemma_field(bytes, 12);
    bytes::lemma_field(bytes, 16);
    bytes::lemma_field(bytes, 20);
    assert(bytes.subrange(24, 24 + rest.len() as int) =~= rest);
}

/// Whether a trailer of the audit format stands at `at`.
pub open spec fn trailer_stands_at(bytes: Seq<u8>, at: int) -> bool {
    &&& 0 <= at
    &&& at + AUDIT_TRAILER_BYTES <= bytes.len()
    &&& bytes::le32_at(bytes, at) == 0
    &&& bytes::le32_at(bytes, at + 4) == AUDIT_TRAILER_BYTES
}

/// The 32 bytes of the token of the trailer at `at`.
pub open spec fn trailer_token(bytes: Seq<u8>, at: int) -> Seq<u8> {
    bytes.subrange(at + 20, at + 52)
}

/// Reads the token of the trailer at `at`; `None` where the trailer is cut short or not in the
/// audit format.
pub fn read_audit_trailer(bytes: &[u8], at: usize) -> (r: Option<AuditToken>)
    ensures
        r is Some <==> trailer_stands_at(bytes@, at as int),
        r matches Some(token) ==> is_token(trailer_token(bytes@, at as int), token),
{
    if bytes.len() < AUDIT_TRAILER_BYTES || at > bytes.len() - AUDIT_TRAILER_BYTES {
        return None;
    }
    match (u32_at(bytes, at), u32_at(bytes, at + 4), array_at(bytes, at + 20)) {
        (Some(kind), Some(size), Some(token)) => {
            if kind != 0 || size as usize != AUDIT_TRAILER_BYTES {
                return None;
            }
            Some(decode_audit_token(token))
        },
        _ => None,
    }
}

/// The least multiple of four that is not smaller.
pub open spec fn rounded(size: int) -> int {
    (size + 3) / 4 * 4
}

/// Rounds a size up to the alignment of Mach messages; `None` where that does not fit.
pub fn round_mach_message(size: usize) -> (r: Option<usize>)
    ensures
        match r {
            Some(value) => value == rounded(size as int),
            None => size + 3 > usize::MAX,
        },
{
    match size.checked_add(3) {
        None => None,
        Some(value) => Some(value / 4 * 4),
    }
}

/// Rounding adds at most three bytes, is idempotent and monotonic.
pub proof fn law_rounding(a: int, b: int)
    ensures
        a <= rounded(a) <= a + 3,
        rounded(a) % 4 == 0,
        a % 4 == 0 ==> rounded(a) == a,
        rounded(rounded(a)) == rounded(a),
        a <= b ==> rounded(a) <= rounded(b),
{
}

/// The words of a token follow each other, and so do the six numbers of a header.
pub proof fn law_mach_layout(words: Seq<u32>, word: u32, header: MachMsgHeader)
    ensures
        token_bytes(Seq::empty()).len() == 0,
        token_bytes(words.push(word)) == token_bytes(words) + bytes::le32(word),
        header.spec_bytes() == bytes::le32(header.bits) + bytes::le32(header.size) + bytes::le32(
            header.remote_port,
        ) + bytes::le32(header.local_port) + bytes::le32(header.voucher_port) + bytes::le32(
            header.id,
        ),
        MachMsgHeader::spec_at(header.spec_bytes(), 0) == header,
{
    assert(words.push(word).drop_last() =~= words);
    lemma_header_round_trip(header, seq![]);
    assert(header.spec_bytes() + Seq::<u8>::empty() =~= header.spec_bytes());
}

/// A trailer is one of the ordinary kind that has room for its token, which is its last thirty-two
/// bytes.
pub proof fn law_trailers(bytes: Seq<u8>, at: int)
    requires
        0 <= at,
    ensures
        trailer_stands_at(bytes, at) <==> at + 52 <= bytes.len() && bytes::le32_at(bytes, at) == 0
            && bytes::le32_at(bytes, at + 4) == 52,
        trailer_stands_at(bytes, at) ==> trailer_token(bytes, at).len() == 32 && trailer_token(
            bytes,
            at,
        ) == bytes.subrange(at, at + 52).subrange(20, 52),
{
    if at + 52 <= bytes.len() {
        assert(bytes.subrange(at, at + 52).subrange(20, 52) =~= bytes.subrange(at + 20, at + 52));
    }
}

} // verus!
