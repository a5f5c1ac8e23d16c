//! Bounded records of the authenticated channel, with or without capabilities.

use vstd::prelude::*;
use crate::bytes;
use crate::bytes::{
    copy_bytes, is_all_zero, put_bytes, put_u16, put_u32, put_zeros, same_bytes, u16_at, u32_at,
};
use crate::mach;
use crate::mach::{
    read_audit_trailer, round_mach_message, same_token, AuditToken, MachMsgHeader,
    AUDIT_TRAILER_BYTES, MACH_HEADER_BYTES, MACH_MSGH_BITS_COMPLEX, MACH_PORT_NULL,
};
use crate::bootstrap::error::SessionTransportError;

verus! {

/// Identifier of every record.
pub const VNEXT_MESSAGE_ID: u32 = 0x4e49_5044;

/// `NIPCVNXT`
pub const VNEXT_MESSAGE_MAGIC: [u8; 8] = [0x4e, 0x49, 0x50, 0x43, 0x56, 0x4e, 0x58, 0x54];

/// Longest payload of a record.
pub const MAX_VNEXT_RECORD_BYTES: usize = 65536;

/// Most capabilities of a record.
pub const MAX_VNEXT_CAPABILITIES: usize = 16;

/// Disposition by which a right is copied into a message.
pub const MACH_MSG_TYPE_COPY_SEND: u8 = 19;

/// Disposition of a right that has arrived.
pub const RECEIVED_SEND: u8 = 17;

/// Descriptor of a port right.
pub const MACH_MSG_PORT_DESCRIPTOR: u8 = 0;

/// Bytes of a count of descriptors.
pub const MACH_BODY_BYTES: usize = 4;

/// Bytes of one descriptor.
pub const MACH_DESCRIPTOR_BYTES: usize = 12;

/// Bytes between the descriptors and the payload.
pub const VNEXT_ENVELOPE_BYTES: usize = 48;

/// Header bits of a received record without descriptors.
pub const RECEIVED_BITS: u32 = 0x1100;

/// Header bits of a received record with descriptors.
pub const RECEIVED_COMPLEX_BITS: u32 = 0x8000_1100;

/// Header bits of a record that is sent without descriptors.
pub const SENT_BITS: u32 = 0x13;

/// Header bits of a record that is sent with descriptors.
pub const SENT_COMPLEX_BITS: u32 = 0x8000_0013;

/// Whether a record may carry capabilities.
#[derive(Clone, Copy, Debug, PartialEq, Eq, Structural)]
pub enum VnextRecordKind {
    ZeroRights,
    Capabilities,
}

impl VnextRecordKind {
    /// The number that stands for the kind.
    pub open spec fn spec_code(self) -> u32 {
        match self {
            VnextRecordKind::ZeroRights => 1,
            VnextRecordKind::Capabilities => 2,
        }
    }

    /// The number that stands for the kind.
    pub fn code(self) -> (r: u32)
        ensures
            r == self.spec_code(),
    {
        match self {
            VnextRecordKind::ZeroRights => 1,
            VnextRecordKind::Capabilities => 2,
        }
    }
}

/// Received send right owned by this process, by its name.
#[derive(Debug, PartialEq, Eq, Structural)]
pub struct SendRight(pub u32);

impl SendRight {
    /// The name of the right.
    pub fn name(&self) -> (r: u32)
        ensures
            r == self.0,
    {
        self.0
    }
}

/// One descriptor of a right.
pub open spec fn descriptor_bytes(name: u32, disposition: u8) -> Seq<u8> {
    bytes::le32(name) + bytes::le32(0) + bytes::le16(0)
        + seq![disposition, MACH_MSG_PORT_DESCRIPTOR]
}

/// The descriptors of a list of rights, one after another.
pub open spec fn descriptors_bytes(names: Seq<u32>, disposition: u8) -> Seq<u8>
    decreases names.len(),
{
    if names.len() == 0 {
        seq![]
    } else {
        descriptors_bytes(names.drop_last(), disposition) + descriptor_bytes(
            names.last(),
            disposition,
        )
    }
}

/// The count of descriptors and the descriptors, where there are any.
pub open spec fn rights_bytes(names: Seq<u32>, disposition: u8) -> Seq<u8> {
    if names.len() == 0 {
        seq![]
    } else {
        bytes::le32(names.len() as u32) + descriptors_bytes(names, disposition)
    }
}

/// What stands between the descriptors and the payload.
pub open spec fn envelope_bytes(nonce: Seq<u8>, kind: VnextRecordKind, payload_len: nat) -> Seq<
    u8,
> {
    VNEXT_MESSAGE_MAGIC@ + nonce + bytes::le32(kind.spec_code()) + bytes::le32(payload_len as u32)
}

/// Size of a record before it is rounded.
pub open spec fn unrounded_size(rights: nat, payload_len: nat) -> int {
    MACH_HEADER_BYTES + (if rights == 0 {
        0
    } else {
        MACH_BODY_BYTES + MACH_DESCRIPTOR_BYTES * rights
    }) + VNEXT_ENVELOPE_BYTES + payload_len
}

/// Everything of a record after its header.
pub open spec fn vnext_body(
    nonce: Seq<u8>,
    kind: VnextRecordKind,
    payload: Seq<u8>,
    rights: Seq<u32>,
    disposition: u8,
) -> Seq<u8> {
    let size = unrounded_size(rights.len(), payload.len());
    rights_bytes(rights, disposition) + envelope_bytes(nonce, kind, payload.len()) + payload
        + bytes::zeros((mach::rounded(size) - size) as nat)
}

/// The header of a record that is sent.
pub open spec fn sent_header(remote: u32, rights: nat, payload_len: nat) -> MachMsgHeader {
    MachMsgHeader {
        bits: if rights == 0 {
            SENT_BITS
        } else {
            SENT_COMPLEX_BITS
        },
        size: mach::rounded(unrounded_size(rights, payload_len)) as u32,
        remote_port: remote,
        local_port: MACH_PORT_NULL,
        voucher_port: MACH_PORT_NULL,
        id: VNEXT_MESSAGE_ID,
    }
}

/// Why a record is not sent, if it is not. A payload has to be there and to be bounded; rights go
/// with capability records and with no others, unless a mismatch is allowed.
pub open spec fn checked_record(
    kind: VnextRecordKind,
    payload: Seq<u8>,
    rights: Seq<u32>,
    allow_mismatch: bool,
) -> Result<(), SessionTransportError> {
    if payload.len() == 0 || payload.len() > MAX_VNEXT_RECORD_BYTES {
        Err(SessionTransportError::RecordTooLarge)
    } else if (!allow_mismatch && (kind == VnextRecordKind::Capabilities) != (rights.len() > 0))
        || rights.len() > MAX_VNEXT_CAPABILITIES || rights.contains(MACH_PORT_NULL) {
        Err(SessionTransportError::MalformedRecord)
    } else {
        Ok(())
    }
}

/// Whether a list of rights holds the null port.
fn holds_null(rights: &[u32]) -> (r: bool)
    ensures
        r == rights@.contains(MACH_PORT_NULL),
{
    let mut i: usize = 0;
    while i < rights.len()
        invariant
            i <= rights@.len(),
            forall|k: int| 0 <= k < i ==> rights@[k] != MACH_PORT_NULL,
        decreases rights@.len() - i,
    {
        if rights[i] == MACH_PORT_NULL {
            return true;
        }
        i += 1;
    }
    false
}

/// Encodes one record for the port `remote`, ready to be sent.
pub fn encode_vnext_message(
    remote: u32,
    nonce: &[u8; 32],
    kind: VnextRecordKind,
    payload: &[u8],
    rights: &[u32],
    allow_mismatch: bool,
) -> (r: Result<Vec<u8>, SessionTransportError>)
    ensures
        match (r, checked_record(kind, payload@, rights@, allow_mismatch)) {
            (Ok(message), Ok(())) => {
                &&& message@ == sent_header(remote, rights@.len(), payload@.len()).spec_bytes()
                    + vnext_body(nonce@, kind, payload@, rights@, MACH_MSG_TYPE_COPY_SEND)
                &&& message@.len() == mach::rounded(unrounded_size(rights@.len(), payload@.len()))
            },
            (Err(error), Err(expected)) => error == expected,
            _ => false,
        },
{
    if payload.len() == 0 || payload.len() > MAX_VNEXT_RECORD_BYTES {
        return Err(SessionTransportError::RecordTooLarge);
    }
    let capability_record = kind == VnextRecordKind::Capabilities;
    if (!allow_mismatch && capability_record != (rights.len() > 0)) || rights.len()
        > MAX_VNEXT_CAPABILITIES || holds_null(rights) {
        return Err(SessionTransportError::MalformedRecord);
    }
    let descriptor_part: usize = if rights.len() == 0 {
        0
    } else {
        MACH_BODY_BYTES + MACH_DESCRIPTOR_BYTES * rights.len()
    };
    let unrounded: usize = MACH_HEADER_BYTES + descriptor_part + VNEXT_ENVELOPE_BYTES
        + payload.len();
    assert(unrounded == unrounded_size(rights@.len(), payload@.len()));
    let size: usize = match round_mach_message(unrounded) {
        Some(size) => size,
        None => {
            return Err(SessionTransportError::RecordTooLarge);
        },
    };
    let bits: u32 = if rights.len() == 0 {
        SENT_BITS
    } else {
        SENT_COMPLEX_BITS
    };
    let header = MachMsgHeader {
        bits,
        size: size as u32,
        remote_port: remote,
        local_port: MACH_PORT_NULL,
        voucher_port: MACH_PORT_NULL,
        id: VNEXT_MESSAGE_ID,
    };
    let mut message: Vec<u8> = Vec::new();
    header.write(&mut message);
    assert(message@ =~= header.spec_bytes());
    let ghost head = message@;
    if rights.len() > 0 {
        put_u32(&mut message, rights.len() as u32);
        let ghost start = message@;
        assert(rights@.take(0) =~= seq![]);
        assert(message@ =~= start + descriptors_bytes(rights@.take(0), MACH_MSG_TYPE_COPY_SEND));
        let mut i: usize = 0;
        while i < rights.len()
            invariant
                i <= rights@.len(),
                message@ == start + descriptors_bytes(
                    rights@.take(i as int),
                    MACH_MSG_TYPE_COPY_SEND,
                ),
            decreases rights@.len() - i,
        {
            let ghost before = message@;
            put_u32(&mut message, rights[i]);
            put_u32(&mut message, 0);
            put_u16(&mut message, 0);
            message.push(MACH_MSG_TYPE_COPY_SEND);
            message.push(MACH_MSG_PORT_DESCRIPTOR);
            proof {
                assert(message@ =~= before + descriptor_bytes(
                    rights@[i as int],
                    MACH_MSG_TYPE_COPY_SEND,
                ));
                let next = rights@.take(i + 1);
                assert(next.drop_last() =~= rights@.take(i as int));
                assert(message@ =~= start + descriptors_bytes(next, MACH_MSG_TYPE_COPY_SEND));
            }
            i += 1;
        }
        assert(rights@.take(i as int) =~= rights@);
        assert(message@ =~= head + rights_bytes(rights@, MACH_MSG_TYPE_COPY_SEND));
    }
    assert(message@ =~= head + rights_bytes(rights@, MACH_MSG_TYPE_COPY_SEND));
    let ghost second = message@;
    put_bytes(&mut message, &VNEXT_MESSAGE_MAGIC);
    put_bytes(&mut message, nonce);
    put_u32(&mut message, kind.code());
    put_u32(&mut message, payload.len() as u32);
    assert(message@ =~= second + envelope_bytes(nonce@, kind, payload@.len()));
    put_bytes(&mut message, payload);
    put_zeros(&mut message, size - unrounded);
    proof {
        lemma_body_length(nonce@, kind, payload@, rights@, MACH_MSG_TYPE_COPY_SEND);
        mach::lemma_header_round_trip(header, seq![]);
        assert(message@ =~= head + vnext_body(
            nonce@,
            kind,
            payload@,
            rights@,
            MACH_MSG_TYPE_COPY_SEND,
        ));
    }
    Ok(message)
}

/// Lengths of the parts of a record.
proof fn lemma_body_length(
    nonce: Seq<u8>,
    kind: VnextRecordKind,
    payload: Seq<u8>,
    rights: Seq<u32>,
    disposition: u8,
)
    requires
        nonce.len() == 32,
    ensures
        rights_bytes(rights, disposition).len() == (if rights.len() == 0 {
            0
        } else {
            MACH_BODY_BYTES + MACH_DESCRIPTOR_BYTES * rights.len()
        }),
        envelope_bytes(nonce, kind, payload.len()).len() == VNEXT_ENVELOPE_BYTES,
        vnext_body(nonce, kind, payload, rights, disposition).len() == mach::rounded(
            unrounded_size(rights.len(), payload.len()),
        ) - MACH_HEADER_BYTES,
{
    bytes::lemma_le32(rights.len() as u32);
    bytes::lemma_le32(kind.spec_code());
    bytes::lemma_le32(payload.len() as u32);
    lemma_descriptors(rights, disposition);
    mach::law_rounding(unrounded_size(rights.len(), payload.len()), 0);
}

/// Every descriptor stands where it belongs.
pub proof fn lemma_descriptors(names: Seq<u32>, disposition: u8)
    ensures
        descriptors_bytes(names, disposition).len() == MACH_DESCRIPTOR_BYTES * names.len(),
        forall|i: int|
            0 <= i < names.len() ==> descriptors_bytes(names, disposition).subrange(
                12 * i,
                12 * i + 12,
            ) == descriptor_bytes(#[trigger] names[i], disposition),
    decreases names.len(),
{
    if names.len() > 0 {
        let before = descriptors_bytes(names.drop_last(), disposition);
        let all = descriptors_bytes(names, disposition);
        lemma_descriptors(names.drop_last(), disposition);
        bytes::lemma_le32(names.last());
        bytes::lemma_le32(0);
        bytes::lemma_le16(0);
        assert forall|i: int| 0 <= i < names.len() implies all.subrange(12 * i, 12 * i + 12)
            == descriptor_bytes(#[trigger] names[i], disposition) by {
            if i < names.len() - 1 {
                assert(names.drop_last()[i] == names[i]);
                assert(all.subrange(12 * i, 12 * i + 12) =~= before.subrange(12 * i, 12 * i + 12));
            } else {
                assert(all.subrange(12 * i, 12 * i + 12) =~= descriptor_bytes(
                    names[i],
                    disposition,
                ));
            }
        }
    }
}

/// A record that has arrived.
#[derive(Debug, PartialEq, Eq)]
pub struct ReceivedVnextRecord {
    pub kind: VnextRecordKind,
    pub bytes: Vec<u8>,
    pub rights: Vec<SendRight>,
    pub audit: AuditToken,
}

/// What a record says.
#[verifier::ext_equal]
pub struct VnextModel {
    pub kind: VnextRecordKind,
    pub payload: Seq<u8>,
    pub rights: Seq<u32>,
    pub audit: Seq<u32>,
}

/// The names of a list of rights.
pub open spec fn names(rights: Seq<SendRight>) -> Seq<u32> {
    rights.map_values(|right: SendRight| right.0)
}

impl View for ReceivedVnextRecord {
    type V = VnextModel;

    open spec fn view(&self) -> VnextModel {
        VnextModel {
            kind: self.kind,
            payload: self.bytes@,
            rights: names(self.rights@),
            audit: self.audit.values@,
        }
    }
}

/// Whether a message carries descriptors.
pub open spec fn complex(bytes: Seq<u8>) -> bool {
    MachMsgHeader::spec_at(bytes, 0).bits >= MACH_MSGH_BITS_COMPLEX
}

/// How many descriptors a message announces.
pub open spec fn descriptor_count(bytes: Seq<u8>) -> int {
    if complex(bytes) {
        bytes::le32_at(bytes, 24) as int
    } else {
        0
    }
}

/// Where the envelope of a message starts.
pub open spec fn envelope_at(bytes: Seq<u8>) -> int {
    if complex(bytes) {
        MACH_HEADER_BYTES + MACH_BODY_BYTES + MACH_DESCRIPTOR_BYTES * descriptor_count(bytes)
    } else {
        MACH_HEADER_BYTES as int
    }
}

/// Where the trailer of a message starts.
pub open spec fn trailer_at(bytes: Seq<u8>) -> int {
    mach::rounded(MachMsgHeader::spec_at(bytes, 0).size as int)
}

/// Whether a buffer has the shape of a record to `receive` under `nonce`: header, counts,
/// envelope and trailer are canonical.
pub open spec fn record_shaped(bytes: Seq<u8>, receive: u32, nonce: Seq<u8>) -> bool {
    let header = MachMsgHeader::spec_at(bytes, 0);
    let count = descriptor_count(bytes);
    let at = envelope_at(bytes);
    &&& bytes.len() >= MACH_HEADER_BYTES
    &&& complex(bytes) ==> bytes.len() >= MACH_HEADER_BYTES + MACH_BODY_BYTES
    &&& header.bits == (if complex(bytes) {
        RECEIVED_COMPLEX_BITS
    } else {
        RECEIVED_BITS
    })
    &&& header.remote_port == MACH_PORT_NULL
    &&& header.local_port == receive
    &&& header.voucher_port == MACH_PORT_NULL
    &&& header.id == VNEXT_MESSAGE_ID
    &&& count <= MAX_VNEXT_CAPABILITIES
    &&& complex(bytes) == (count != 0)
    &&& mach::trailer_stands_at(bytes, trailer_at(bytes))
    &&& at + VNEXT_ENVELOPE_BYTES <= bytes.len()
    &&& bytes.subrange(at, at + 8) == VNEXT_MESSAGE_MAGIC@
    &&& bytes.subrange(at + 8, at + 40) == nonce
}

/// Whether a descriptor stands at `at` that brings a send right.
pub open spec fn brings_right(bytes: Seq<u8>, at: int) -> bool {
    &&& bytes::le32_at(bytes, at) != MACH_PORT_NULL
    &&& bytes::le32_at(bytes, at + 4) == 0
    &&& bytes::le16_at(bytes, at + 8) == 0
    &&& bytes[at + 10] == RECEIVED_SEND
    &&& bytes[at + 11] == MACH_MSG_PORT_DESCRIPTOR
}

/// Whether the payload of a shaped record is canonical: of a known kind, bounded, exactly as long
/// as the message says, padded with zeros, and with a send right in every descriptor.
pub open spec fn contents_in_order(bytes: Seq<u8>, maximum: int) -> bool {
    let at = envelope_at(bytes);
    let kind = bytes::le32_at(bytes, at + 40);
    let length = bytes::le32_at(bytes, at + 44) as int;
    let end = at + VNEXT_ENVELOPE_BYTES + length;
    let size = MachMsgHeader::spec_at(bytes, 0).size as int;
    &&& kind == 1 || kind == 2
    &&& 0 < length <= maximum
    &&& length <= MAX_VNEXT_RECORD_BYTES
    &&& size == mach::rounded(end)
    &&& bytes::all_zero(bytes.subrange(end, size))
    &&& forall|i: int| 0 <= i < descriptor_count(bytes)
        ==> #[trigger] brings_right(bytes, 28 + 12 * i)
}

/// The words of the token of a message.
pub open spec fn sender_words(bytes: Seq<u8>) -> Seq<u32> {
    mach::token_words(mach::trailer_token(bytes, trailer_at(bytes)))
}

/// Whether a message comes from the expected process, and from the pinned execution of it.
pub open spec fn sender_expected(
    bytes: Seq<u8>,
    expected_pid: u32,
    pinned: Option<AuditToken>,
) -> bool {
    &&& sender_words(bytes)[5] == expected_pid
    &&& pinned matches Some(token) ==> sender_words(bytes) == token.values@
}

/// The record that a message holds.
pub open spec fn record_in(bytes: Seq<u8>) -> VnextModel {
    let at = envelope_at(bytes);
    let length = bytes::le32_at(bytes, at + 44) as int;
    VnextModel {
        kind: if bytes::le32_at(bytes, at + 40) == 1 {
            VnextRecordKind::ZeroRights
        } else {
            VnextRecordKind::Capabilities
        },
        payload: bytes.subrange(at + VNEXT_ENVELOPE_BYTES, at + VNEXT_ENVELOPE_BYTES + length),
        rights: Seq::new(
            descriptor_count(bytes) as nat,
            |i: int| bytes::le32_at(bytes, 28 + 12 * i),
        ),
        audit: sender_words(bytes),
    }
}

/// The record that a delivered message holds, or why it is refused: first its shape, then its
/// sender, then its contents.
pub open spec fn parsed_vnext(
    bytes: Seq<u8>,
    receive: u32,
    nonce: Seq<u8>,
    expected_pid: u32,
    pinned: Option<AuditToken>,
    maximum: int,
) -> Result<VnextModel, SessionTransportError> {
    if !record_shaped(bytes, receive, nonce) {
        Err(SessionTransportError::MalformedRecord)
    } else if !sender_expected(bytes, expected_pid, pinned) {
        Err(SessionTransportError::IdentityMismatch)
    } else if !contents_in_order(bytes, maximum) {
        Err(SessionTransportError::MalformedRecord)
    } else {
        Ok(record_in(bytes))
    }
}

/// Whether a delivered message carries descriptors, so that it has to be destroyed when refused.
pub fn carries_rights(bytes: &[u8]) -> (r: bool)
    ensures
        r == (bytes@.len() >= MACH_HEADER_BYTES && complex(bytes@)),
{
    match MachMsgHeader::read(bytes) {
        None => false,
        Some(header) => header.bits >= MACH_MSGH_BITS_COMPLEX,
    }
}

/// Reads one delivered message.
pub fn parse_vnext_message(
    bytes: &[u8],
    expected_receive: u32,
    nonce: &[u8; 32],
    expected_pid: u32,
    expected_audit: Option<AuditToken>,
    maximum: usize,
) -> (r: Result<ReceivedVnextRecord, SessionTransportError>)
    ensures
        match (
            r,
            parsed_vnext(
                bytes@,
                expected_receive,
                nonce@,
                expected_pid,
                expected_audit,
                maximum as int,
            ),
        ) {
            (Ok(record), Ok(model)) => record@ == model,
            (Err(error), Err(expected)) => error == expected,
            _ => false,
        },
{
    let header = match MachMsgHeader::read(bytes) {
        Some(header) => header,
        None => {
            return Err(SessionTransportError::MalformedRecord);
        },
    };
    let with_rights = header.bits >= MACH_MSGH_BITS_COMPLEX;
    let expected_bits: u32 = if with_rights {
        RECEIVED_COMPLEX_BITS
    } else {
        RECEIVED_BITS
    };
    if header.bits != expected_bits || header.remote_port != MACH_PORT_NULL || header.local_port
        != expected_receive || header.voucher_port != MACH_PORT_NULL || header.id
        != VNEXT_MESSAGE_ID {
        return Err(SessionTransportError::MalformedRecord);
    }
    let count: u32 = if with_rights {
        match u32_at(bytes, MACH_HEADER_BYTES) {
            Some(count) => count,
            None => {
                return Err(SessionTransportError::MalformedRecord);
            },
        }
    } else {
        0
    };
    if count as usize > MAX_VNEXT_CAPABILITIES || with_rights != (count != 0) {
        return Err(SessionTransportError::MalformedRecord);
    }
    let size: usize = header.size as usize;
    let total: usize = bytes.len();
    let trailer_offset: usize = match round_mach_message(size) {
        Some(offset) => offset,
        None => {
            proof {
                mach::law_rounding(size as int, 0);
                assert(trailer_at(bytes@) + AUDIT_TRAILER_BYTES > total);
            }
            return Err(SessionTransportError::MalformedRecord);
        },
    };
    let audit = match read_audit_trailer(bytes, trailer_offset) {
        Some(audit) => audit,
        None => {
            return Err(SessionTransportError::MalformedRecord);
        },
    };
    let at: usize = if with_rights {
        MACH_HEADER_BYTES + MACH_BODY_BYTES + MACH_DESCRIPTOR_BYTES * count as usize
    } else {
        MACH_HEADER_BYTES
    };
    if bytes.len() < VNEXT_ENVELOPE_BYTES || at > bytes.len() - VNEXT_ENVELOPE_BYTES {
        return Err(SessionTransportError::MalformedRecord);
    }
    if !same_bytes(vstd::slice::slice_subrange(bytes, at, at + 8), &VNEXT_MESSAGE_MAGIC)
        || !same_bytes(vstd::slice::slice_subrange(bytes, at + 8, at + 40), nonce) {
        return Err(SessionTransportError::MalformedRecord);
    }
    assert(record_shaped(bytes@, expected_receive, nonce@));
    assert(audit.values@ == sender_words(bytes@));
    if audit.values[5] != expected_pid {
        return Err(SessionTransportError::IdentityMismatch);
    }
    match expected_audit {
        None => {},
        Some(pinned) => {
            if !same_token(audit, pinned) {
                proof {
                    if audit.values@ == pinned.values@ {
                        assert(audit.values =~= pinned.values);
                    }
                }
                return Err(SessionTransportError::IdentityMismatch);
            }
        },
    }
    let (code, length) = match (u32_at(bytes, at + 40), u32_at(bytes, at + 44)) {
        (Some(code), Some(length)) => (code, length as usize),
        _ => {
            return Err(SessionTransportError::MalformedRecord);
        },
    };
    let kind = if code == 1 {
        VnextRecordKind::ZeroRights
    } else if code == 2 {
        VnextRecordKind::Capabilities
    } else {
        return Err(SessionTransportError::MalformedRecord);
    };
    if length == 0 || length > maximum || length > MAX_VNEXT_RECORD_BYTES {
        return Err(SessionTransportError::MalformedRecord);
    }
    let start: usize = at + VNEXT_ENVELOPE_BYTES;
    let end: usize = start + length;
    let canonical: usize = match round_mach_message(end) {
        Some(canonical) => canonical,
        None => {
            return Err(SessionTransportError::MalformedRecord);
        },
    };
    if size != canonical || !is_all_zero(vstd::slice::slice_subrange(bytes, end, size)) {
        return Err(SessionTransportError::MalformedRecord);
    }
    let mut rights: Vec<SendRight> = Vec::new();
    let mut i: u32 = 0;
    while i < count
        invariant
            i <= count <= MAX_VNEXT_CAPABILITIES,
            count == descriptor_count(bytes@),
            complex(bytes@) == (count != 0),
            at == envelope_at(bytes@),
            at + VNEXT_ENVELOPE_BYTES <= bytes@.len(),
            record_shaped(bytes@, expected_receive, nonce@),
            sender_expected(bytes@, expected_pid, expected_audit),
            rights@.len() == i,
            forall|k: int|
                0 <= k < i ==> (#[trigger] rights@[k]).0 == bytes::le32_at(bytes@, 28 + 12 * k),
            forall|k: int| 0 <= k < i ==> #[trigger] brings_right(bytes@, 28 + 12 * k),
        decreases count - i,
    {
        let offset: usize = MACH_HEADER_BYTES + MACH_BODY_BYTES + MACH_DESCRIPTOR_BYTES
            * i as usize;
        let (name, first, second) = match (
            u32_at(bytes, offset),
            u32_at(bytes, offset + 4),
            u16_at(bytes, offset + 8),
        ) {
            (Some(name), Some(first), Some(second)) => (name, first, second),
            _ => {
                return Err(SessionTransportError::MalformedRecord);
            },
        };
        if bytes[offset + 11] != MACH_MSG_PORT_DESCRIPTOR || bytes[offset + 10] != RECEIVED_SEND
            || name == MACH_PORT_NULL || first != 0 || second != 0 {
            assert(!brings_right(bytes@, 28 + 12 * i as int));
            return Err(SessionTransportError::MalformedRecord);
        }
        rights.push(SendRight(name));
        i += 1;
    }
    let payload = copy_bytes(vstd::slice::slice_subrange(bytes, start, end));
    let record = ReceivedVnextRecord { kind, bytes: payload, rights, audit };
    assert(record@ =~= record_in(bytes@));
    Ok(record)
}

/// A record as it arrives: the kernel has rewritten the header and the dispositions of the rights,
/// and has added the trailer that vouches for the sender.
pub open spec fn delivered(
    receive: u32,
    nonce: Seq<u8>,
    kind: VnextRecordKind,
    payload: Seq<u8>,
    rights: Seq<u32>,
    trailer: Seq<u8>,
) -> Seq<u8> {
    delivered_header(receive, rights.len(), payload.len()).spec_bytes() + vnext_body(
        nonce,
        kind,
        payload,
        rights,
        RECEIVED_SEND,
    ) + trailer
}

/// What a peer sends arrives: a record that could be sent is read as what was sent, with the words
/// of its trailer, provided that they name the expected process and the pinned execution. That
/// holds of a record whose rights do not match its kind, too.
pub proof fn law_sent_records_arrive(
    receive: u32,
    nonce: Seq<u8>,
    kind: VnextRecordKind,
    payload: Seq<u8>,
    rights: Seq<u32>,
    trailer: Seq<u8>,
    expected_pid: u32,
    pinned: Option<AuditToken>,
    maximum: int,
    allow_mismatch: bool,
)
    requires
        checked_record(kind, payload, rights, allow_mismatch) is Ok,
        nonce.len() == 32,
        payload.len() <= maximum,
        mach::trailer_stands_at(trailer, 0),
        mach::token_words(mach::trailer_token(trailer, 0))[5] == expected_pid,
        pinned matches Some(token)
            ==> mach::token_words(mach::trailer_token(trailer, 0)) == token.values@,
    ensures
        parsed_vnext(
            delivered(receive, nonce, kind, payload, rights, trailer),
            receive,
            nonce,
            expected_pid,
            pinned,
            maximum,
        ) == Ok::<VnextModel, SessionTransportError>(
            VnextModel {
                kind,
                payload,
                rights,
                audit: mach::token_words(mach::trailer_token(trailer, 0)),
            },
        ),
{
    let bytes = delivered(receive, nonce, kind, payload, rights, trailer);
    let size = mach::rounded(unrounded_size(rights.len(), payload.len()));
    let header = delivered_header(receive, rights.len(), payload.len());
    let carried = rights_bytes(rights, RECEIVED_SEND);
    let envelope = envelope_bytes(nonce, kind, payload.len());
    let padding = bytes::zeros((size - unrounded_size(rights.len(), payload.len())) as nat);
    let at = 24 + carried.len() as int;
    let end = at + 48 + payload.len() as int;
    lemma_body_length(nonce, kind, payload, rights, RECEIVED_SEND);
    mach::lemma_header_round_trip(header, seq![]);
    mach::law_rounding(unrounded_size(rights.len(), payload.len()), 0);
    mach::law_rounding(size, 0);
    lemma_six_parts(header.spec_bytes(), carried, envelope, payload, padding, trailer);
    assert(bytes =~= header.spec_bytes() + carried + envelope + payload + padding + trailer);
    assert(bytes.subrange(size, bytes.len() as int) == trailer);
    lemma_delivered_header(bytes, header);
    if rights.len() > 0 {
        lemma_delivered_count(bytes, rights);
    }
    lemma_delivered_envelope(bytes, at, nonce, kind, payload.len());
    lemma_delivered_trailer(bytes, size, trailer);
    assert(at == envelope_at(bytes));
    assert(record_shaped(bytes, receive, nonce));
    assert(sender_words(bytes) == mach::token_words(mach::trailer_token(trailer, 0)));
    assert(bytes::all_zero(bytes.subrange(end, size)));
    assert forall|i: int| 0 <= i < rights.len() implies #[trigger] brings_right(bytes, 28 + 12 * i)
        && bytes::le32_at(bytes, 28 + 12 * i) == rights[i] by {
        let list = descriptors_bytes(rights, RECEIVED_SEND);
        lemma_descriptors(rights, RECEIVED_SEND);
        bytes::lemma_le32(rights.len() as u32);
        assert(bytes.subrange(28, 28 + list.len() as int) =~= carried.subrange(
            4,
            carried.len() as int,
        )) by {
            assert(bytes.subrange(24, at) == carried);
        }
        assert(carried.subrange(4, carried.len() as int) =~= list);
        lemma_delivered_descriptor(bytes, rights, i, list);
    }
    assert(contents_in_order(bytes, maximum));
    assert forall|i: int| 0 <= i < rights.len() implies #[trigger] record_in(bytes).rights[i]
        == rights[i] by {
        assert(brings_right(bytes, 28 + 12 * i));
    }
    assert(record_in(bytes).rights =~= rights);
    assert(record_in(bytes).payload == payload);
}

/// The header of a record as it arrives.
pub open spec fn delivered_header(receive: u32, rights: nat, payload_len: nat) -> MachMsgHeader {
    MachMsgHeader {
        bits: if rights == 0 {
            RECEIVED_BITS
        } else {
            RECEIVED_COMPLEX_BITS
        },
        size: mach::rounded(unrounded_size(rights, payload_len)) as u32,
        remote_port: MACH_PORT_NULL,
        local_port: receive,
        voucher_port: MACH_PORT_NULL,
        id: VNEXT_MESSAGE_ID,
    }
}

/// Each of six parts is found where it was put.
pub proof fn lemma_six_parts(
    a: Seq<u8>,
    b: Seq<u8>,
    c: Seq<u8>,
    d: Seq<u8>,
    e: Seq<u8>,
    f: Seq<u8>,
)
    ensures
        ({
            let all = a + b + c + d + e + f;
            let ab = (a.len() + b.len()) as int;
            let abc = ab + c.len();
            let abcd = abc + d.len();
            let abcde = abcd + e.len();
            &&& all.len() == abcde + f.len()
            &&& all.subrange(0, a.len() as int) == a
            &&& all.subrange(a.len() as int, ab) == b
            &&& all.subrange(ab, abc) == c
            &&& all.subrange(abc, abcd) == d
            &&& all.subrange(abcd, abcde) == e
            &&& all.subrange(abcde, all.len() as int) == f
        }),
{
    let all = a + b + c + d + e + f;
    let ab = (a.len() + b.len()) as int;
    let abc = ab + c.len();
    let abcd = abc + d.len();
    let abcde = abcd + e.len();
    assert(all.subrange(0, a.len() as int) =~= a);
    assert(all.subrange(a.len() as int, ab) =~= b);
    assert(all.subrange(ab, abc) =~= c);
    assert(all.subrange(abc, abcd) =~= d);
    assert(all.subrange(abcd, abcde) =~= e);
    assert(all.subrange(abcde, all.len() as int) =~= f);
}

/// The header of a delivered record reads back.
pub proof fn lemma_delivered_header(bytes: Seq<u8>, header: MachMsgHeader)
    requires
        bytes.len() >= 24,
        bytes.subrange(0, 24) == header.spec_bytes(),
    ensures
        MachMsgHeader::spec_at(bytes, 0) == header,
{
    let rest = bytes.subrange(24, bytes.len() as int);
    mach::lemma_header_round_trip(header, rest);
    assert(bytes =~= header.spec_bytes() + rest);
}

/// The count of descriptors of a delivered record reads back.
pub proof fn lemma_delivered_count(bytes: Seq<u8>, rights: Seq<u32>)
    requires
        0 < rights.len() <= u32::MAX,
        bytes.len() >= 24 + rights_bytes(rights, RECEIVED_SEND).len(),
        bytes.subrange(24, 24 + rights_bytes(rights, RECEIVED_SEND).len() as int) == rights_bytes(
            rights,
            RECEIVED_SEND,
        ),
    ensures
        bytes::le32_at(bytes, 24) == rights.len(),
{
    let carried = rights_bytes(rights, RECEIVED_SEND);
    bytes::lemma_le32(rights.len() as u32);
    lemma_descriptors(rights, RECEIVED_SEND);
    assert(bytes.subrange(24, 28) =~= carried.subrange(0, 4));
    assert(carried.subrange(0, 4) =~= bytes::le32(rights.len() as u32));
    bytes::lemma_field(bytes, 24);
}

/// The envelope of a delivered record reads back.
proof fn lemma_delivered_envelope(
    bytes: Seq<u8>,
    at: int,
    nonce: Seq<u8>,
    kind: VnextRecordKind,
    payload_len: nat,
)
    requires
        0 <= at,
        at + 48 <= bytes.len(),
        nonce.len() == 32,
        payload_len <= u32::MAX,
        bytes.subrange(at, at + 48) == envelope_bytes(nonce, kind, payload_len),
    ensures
        bytes.subrange(at, at + 8) == VNEXT_MESSAGE_MAGIC@,
        bytes.subrange(at + 8, at + 40) == nonce,
        bytes::le32_at(bytes, at + 40) == kind.spec_code(),
        bytes::le32_at(bytes, at + 44) == payload_len,
{
    let envelope = envelope_bytes(nonce, kind, payload_len);
    bytes::lemma_le32(kind.spec_code());
    bytes::lemma_le32(payload_len as u32);
    assert(bytes.subrange(at, at + 8) =~= envelope.subrange(0, 8));
    assert(envelope.subrange(0, 8) =~= VNEXT_MESSAGE_MAGIC@);
    assert(bytes.subrange(at + 8, at + 40) =~= envelope.subrange(8, 40));
    assert(envelope.subrange(8, 40) =~= nonce);
    assert(bytes.subrange(at + 40, at + 44) =~= envelope.subrange(40, 44));
    assert(envelope.subrange(40, 44) =~= bytes::le32(kind.spec_code()));
    assert(bytes.subrange(at + 44, at + 48) =~= envelope.subrange(44, 48));
    assert(envelope.subrange(44, 48) =~= bytes::le32(payload_len as u32));
    bytes::lemma_field(bytes, at + 40);
    bytes::lemma_field(bytes, at + 44);
}

/// The trailer of a delivered record reads as it does by itself.
pub proof fn lemma_delivered_trailer(bytes: Seq<u8>, at: int, trailer: Seq<u8>)
    requires
        0 <= at <= bytes.len(),
        bytes.subrange(at, bytes.len() as int) == trailer,
        mach::trailer_stands_at(trailer, 0),
    ensures
        mach::trailer_stands_at(bytes, at),
        mach::trailer_token(bytes, at) == mach::trailer_token(trailer, 0),
{
    bytes::lemma_le_at_subrange(bytes, at, bytes.len() as int, 0);
    bytes::lemma_le_at_subrange(bytes, at, bytes.len() as int, 4);
    assert(mach::trailer_token(bytes, at) =~= mach::trailer_token(trailer, 0));
}

/// A descriptor that stands somewhere reads as the right it was written for.
proof fn lemma_standing_descriptor(bytes: Seq<u8>, at: int, name: u32)
    requires
        0 <= at,
        at + 12 <= bytes.len(),
        bytes.subrange(at, at + 12) == descriptor_bytes(name, RECEIVED_SEND),
        name != MACH_PORT_NULL,
    ensures
        brings_right(bytes, at),
        bytes::le32_at(bytes, at) == name,
{
    let one = descriptor_bytes(name, RECEIVED_SEND);
    bytes::lemma_le32(name);
    bytes::lemma_le32(0);
    bytes::lemma_le16(0);
    assert(bytes.subrange(at, at + 4) =~= one.subrange(0, 4));
    assert(one.subrange(0, 4) =~= bytes::le32(name));
    assert(bytes.subrange(at + 4, at + 8) =~= one.subrange(4, 8));
    assert(one.subrange(4, 8) =~= bytes::le32(0));
    assert(bytes.subrange(at + 8, at + 10) =~= one.subrange(8, 10));
    assert(one.subrange(8, 10) =~= bytes::le16(0));
    assert(bytes[at + 10] == bytes.subrange(at, at + 12)[10]);
    assert(bytes[at + 11] == bytes.subrange(at, at + 12)[11]);
    bytes::lemma_field(bytes, at);
    bytes::lemma_field(bytes, at + 4);
    bytes::lemma_field(bytes, at + 8);
}

/// A descriptor inside a delivered record reads as the right it was written for.
pub proof fn lemma_delivered_descriptor(bytes: Seq<u8>, rights: Seq<u32>, i: int, list: Seq<u8>)
    requires
        0 <= i < rights.len(),
        !rights.contains(MACH_PORT_NULL),
        list == descriptors_bytes(rights, RECEIVED_SEND),
        bytes.len() >= 28 + list.len(),
        bytes.subrange(28, 28 + list.len() as int) == list,
    ensures
        brings_right(bytes, 28 + 12 * i),
        bytes::le32_at(bytes, 28 + 12 * i) == rights[i],
{
    let at = 28 + 12 * i;
    assert(list.len() == 12 * rights.len() && list.subrange(12 * i, 12 * i + 12)
        == descriptor_bytes(rights[i], RECEIVED_SEND)) by {
        lemma_descriptors(rights, RECEIVED_SEND);
    }
    assert(bytes.subrange(at, at + 12) =~= list.subrange(12 * i, 12 * i + 12));
    assert(rights.contains(rights[i]));
    lemma_standing_descriptor(bytes, at, rights[i]);
}

/// Another execution is refused: once a token is pinned, a record with any other token is not
/// read, whatever it holds.
pub proof fn law_pinned_token_excludes_others(
    bytes: Seq<u8>,
    receive: u32,
    nonce: Seq<u8>,
    expected_pid: u32,
    pinned: AuditToken,
    maximum: int,
)
    requires
        sender_words(bytes) != pinned.values@,
    ensures
        parsed_vnext(bytes, receive, nonce, expected_pid, Some(pinned), maximum) is Err,
{
}

/// A record can be sent exactly where it has a payload of at most 65536 bytes and at most sixteen
/// rights, all of them names; and where its kind has to say whether it has rights, it says so.
pub proof fn law_sendable_records(
    kind: VnextRecordKind,
    payload: Seq<u8>,
    rights: Seq<u32>,
    allow_mismatch: bool,
)
    ensures
        ({
            let checked = checked_record(kind, payload, rights, allow_mismatch);
            let sized = 1 <= payload.len() <= 65536;
            &&& checked is Ok <==> {
                &&& sized && rights.len() <= 16
                &&& forall|i: int| 0 <= i < rights.len() ==> rights[i] != 0
                &&& !allow_mismatch ==> (kind == VnextRecordKind::Capabilities <==> rights.len()
                    != 0)
            }
            &&& !sized ==> checked == Err::<(), _>(SessionTransportError::RecordTooLarge)
            &&& sized && checked is Err ==> checked == Err::<(), _>(
                SessionTransportError::MalformedRecord,
            )
        }),
{
    if rights.contains(0) {
        let i = choose|i: int| 0 <= i < rights.len() && rights[i] == 0;
        assert(rights[i] == 0);
    }
}

/// A record goes to its receiver under the identifier of records, says whether it has rights, and
/// holds the rights, the mark of records, the nonce, the kind, the length and the payload in this
/// order.
pub proof fn law_sent_record_layout(
    remote: u32,
    nonce: Seq<u8>,
    kind: VnextRecordKind,
    payload: Seq<u8>,
    rights: Seq<u32>,
)
    requires
        nonce.len() == 32,
        payload.len() <= 65536,
        rights.len() <= 16,
    ensures
        ({
            let header = sent_header(remote, rights.len(), payload.len());
            let body = vnext_body(nonce, kind, payload, rights, 19);
            let at: int = if rights.len() == 0 {
                0
            } else {
                4 + 12 * rights.len() as int
            };
            let number: u32 = if kind == VnextRecordKind::Capabilities {
                2
            } else {
                1
            };
            &&& header.bits == if rights.len() == 0 {
                0x13u32
            } else {
                0x8000_0013u32
            }
            &&& header.remote_port == remote && header.local_port == 0 && header.voucher_port == 0
            &&& header.id == 0x4e49_5044 && header.size == 24 + body.len()
            &&& body.len() % 4 == 0 && at + 48 + payload.len() <= body.len() < at + 52
                + payload.len()
            &&& body.subrange(at, at + 8) == seq![0x4eu8, 0x49, 0x50, 0x43, 0x56, 0x4e, 0x58, 0x54]
            &&& body.subrange(at + 8, at + 40) == nonce
            &&& body.subrange(at + 40, at + 44) == bytes::le32(number)
            &&& body.subrange(at + 44, at + 48) == bytes::le32(payload.len() as u32)
            &&& body.subrange(at + 48, at + 48 + payload.len()) == payload
            &&& rights.len() > 0 ==> body.subrange(0, 4) == bytes::le32(rights.len() as u32)
            &&& forall|i: int|
                0 <= i < rights.len() ==> body.subrange(4 + 12 * i, 8 + 12 * i) == bytes::le32(
                    #[trigger] rights[i],
                )
        }),
{
    let size = unrounded_size(rights.len(), payload.len());
    let body = vnext_body(nonce, kind, payload, rights, 19);
    let carried = rights_bytes(rights, 19);
    let envelope = envelope_bytes(nonce, kind, payload.len());
    let at = carried.len() as int;
    lemma_body_length(nonce, kind, payload, rights, 19);
    lemma_descriptors(rights, 19);
    mach::law_rounding(size, 0);
    bytes::lemma_le32(kind.spec_code());
    bytes::lemma_le32(payload.len() as u32);
    bytes::lemma_le32(rights.len() as u32);
    assert(VNEXT_MESSAGE_MAGIC@ =~= seq![0x4eu8, 0x49, 0x50, 0x43, 0x56, 0x4e, 0x58, 0x54]);
    assert(body.subrange(at, at + 8) =~= VNEXT_MESSAGE_MAGIC@);
    assert(body.subrange(at + 8, at + 40) =~= nonce);
    assert(body.subrange(at + 40, at + 44) =~= bytes::le32(kind.spec_code()));
    assert(body.subrange(at + 44, at + 48) =~= bytes::le32(payload.len() as u32));
    assert(body.subrange(at + 48, at + 48 + payload.len()) =~= payload);
    if rights.len() > 0 {
        assert(body.subrange(0, 4) =~= bytes::le32(rights.len() as u32));
    }
    assert forall|i: int| 0 <= i < rights.len() implies body.subrange(4 + 12 * i, 8 + 12 * i)
        == bytes::le32(#[trigger] rights[i]) by {
        let list = descriptors_bytes(rights, 19);
        let one = descriptor_bytes(rights[i], 19);
        bytes::lemma_le32(rights[i]);
        assert(list.subrange(12 * i, 12 * i + 12) == one);
        assert(body.subrange(4 + 12 * i, 16 + 12 * i) =~= list.subrange(12 * i, 12 * i + 12));
        assert(body.subrange(4 + 12 * i, 8 + 12 * i) =~= body.subrange(
            4 + 12 * i,
            16 + 12 * i,
        ).subrange(0, 4));
        assert(one.subrange(0, 4) =~= bytes::le32(rights[i]));
    }
}

/// A record is read only from the sender that is expected: under its process number, and under its
/// own token once one is pinned. A record of somebody else is refused as that, and one that is not
/// for this receiver as malformed.
pub proof fn law_records_are_read_from_the_sender(
    bytes: Seq<u8>,
    receive: u32,
    nonce: Seq<u8>,
    expected_pid: u32,
    pinned: Option<AuditToken>,
    maximum: int,
)
    ensures
        ({
            let read = parsed_vnext(bytes, receive, nonce, expected_pid, pinned, maximum);
            let header = MachMsgHeader::spec_at(bytes, 0);
            &&& read matches Ok(record) ==> {
                &&& record.audit == sender_words(bytes) && record.audit[5] == expected_pid
                &&& pinned matches Some(token) ==> record.audit == token.values@
                &&& 1 <= record.payload.len() <= maximum && record.payload.len() <= 65536
                &&& record.rights.len() <= 16 && !record.rights.contains(0)
                &&& header.local_port == receive && header.remote_port == 0 && header.id
                    == 0x4e49_5044
                &&& mach::trailer_stands_at(bytes, mach::rounded(header.size as int))
            }
            &&& read is Err && record_shaped(bytes, receive, nonce) && (sender_words(bytes)[5]
                != expected_pid || (pinned matches Some(token) && sender_words(bytes)
                != token.values@)) ==> read == Err::<VnextModel, _>(
                SessionTransportError::IdentityMismatch,
            )
            &&& header.local_port != receive || header.id != 0x4e49_5044 ==> read == Err::<
                VnextModel,
                _,
            >(SessionTransportError::MalformedRecord)
        }),
{
    if let Ok(record) = parsed_vnext(bytes, receive, nonce, expected_pid, pinned, maximum) {
        let at = envelope_at(bytes);
        let end = at + 48 + bytes::le32_at(bytes, at + 44);
        mach::law_rounding(end, 0);
        mach::law_rounding(MachMsgHeader::spec_at(bytes, 0).size as int, 0);
        assert(end <= bytes.len());
        assert forall|i: int| 0 <= i < record.rights.len() implies record.rights[i] != 0 by {
            assert(brings_right(bytes, 28 + 12 * i));
        }
    }
}

/// What is read is what stands there: behind the rights the number of the kind, which is one of the
/// two, the length, and the payload of that length; and each right by its name.
pub proof fn law_records_are_read_where_they_stand(
    bytes: Seq<u8>,
    receive: u32,
    nonce: Seq<u8>,
    expected_pid: u32,
    pinned: Option<AuditToken>,
    maximum: int,
)
    ensures
        parsed_vnext(bytes, receive, nonce, expected_pid, pinned, maximum) matches Ok(record) ==> {
            let count: int = if MachMsgHeader::spec_at(bytes, 0).bits >= 0x8000_0000 {
                bytes::le32_at(bytes, 24) as int
            } else {
                0
            };
            let at: int = if count > 0 {
                28 + 12 * count
            } else {
                24
            };
            let number = bytes::le32_at(bytes, at + 40);
            let length = bytes::le32_at(bytes, at + 44);
            &&& number == 1 || number == 2
            &&& record.kind == VnextRecordKind::ZeroRights <==> number == 1
            &&& bytes.subrange(at + 8, at + 40) == nonce
            &&& record.payload == bytes.subrange(at + 48, at + 48 + length)
            &&& record.rights.len() == count
            &&& forall|i: int|
                0 <= i < count ==> #[trigger] record.rights[i] == bytes::le32_at(bytes, 28 + 12 * i)
        },
{
}

} // verus!
