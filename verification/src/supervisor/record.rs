//! The records of the supervisor protocol: a fixed header, then a payload.

use vstd::prelude::*;
use crate::bytes;
use crate::bytes::{
    array_at, put_bytes, put_u16, put_u32, put_u64, starts_with, u16_at, u32_at, u64_at,
};
use crate::supervisor::deadline::SupervisorWireError;

verus! {

/// `NIPCSUP1`
pub const MAGIC: [u8; 8] = [0x4e, 0x49, 0x50, 0x43, 0x53, 0x55, 0x50, 0x31];

/// The protocol version.
pub const VERSION: u16 = 1;

/// Bytes of a record header.
pub const HEADER_LEN: usize = 96;

/// Longest record, header included.
pub const MAX_SUPERVISOR_RECORD_BYTES: usize = 65536;

/// What a record is.
#[derive(Clone, Copy, Debug, PartialEq, Eq, Structural)]
pub enum RecordKind {
    ClientHello,
    ServiceHello,
    Spawn,
    SpawnResult,
}

impl RecordKind {
    /// The number that stands for the kind on the wire.
    pub open spec fn spec_code(self) -> u16 {
        match self {
            RecordKind::ClientHello => 1,
            RecordKind::ServiceHello => 2,
            RecordKind::Spawn => 3,
            RecordKind::SpawnResult => 4,
        }
    }

    /// The number that stands for the kind on the wire.
    pub fn code(self) -> (r: u16)
        ensures
            r == self.spec_code(),
    {
        match self {
            RecordKind::ClientHello => 1,
            RecordKind::ServiceHello => 2,
            RecordKind::Spawn => 3,
            RecordKind::SpawnResult => 4,
        }
    }

    /// The kind that a number stands for; any other number is malformed.
    pub fn decode(value: u16) -> (r: Result<RecordKind, SupervisorWireError>)
        ensures
            match r {
                Ok(kind) => kind.spec_code() == value,
                Err(error) => error == SupervisorWireError::Malformed && !(1 <= value <= 4),
            },
    {
        match value {
            1 => Ok(RecordKind::ClientHello),
            2 => Ok(RecordKind::ServiceHello),
            3 => Ok(RecordKind::Spawn),
            4 => Ok(RecordKind::SpawnResult),
            _ => Err(SupervisorWireError::Malformed),
        }
    }
}

/// What a header says.
#[verifier::ext_equal]
pub struct HeaderModel {
    pub kind: RecordKind,
    pub payload_len: nat,
    pub generation: u64,
    pub sequence: u64,
    pub client_nonce: Seq<u8>,
    pub service_nonce: Seq<u8>,
}

/// A record header.
#[derive(Clone, Copy, Debug, PartialEq, Eq)]
pub struct Header {
    pub kind: RecordKind,
    pub payload_len: usize,
    pub generation: u64,
    pub sequence: u64,
    pub client_nonce: [u8; 32],
    pub service_nonce: [u8; 32],
}

impl View for Header {
    type V = HeaderModel;

    open spec fn view(&self) -> HeaderModel {
        HeaderModel {
            kind: self.kind,
            payload_len: self.payload_len as nat,
            generation: self.generation,
            sequence: self.sequence,
            client_nonce: self.client_nonce@,
            service_nonce: self.service_nonce@,
        }
    }
}

/// The 96 bytes of a header.
pub open spec fn header_bytes(header: HeaderModel) -> Seq<u8> {
    MAGIC@ + bytes::le16(VERSION) + bytes::le16(header.kind.spec_code())
        + bytes::le32(header.payload_len as u32) + bytes::le64(header.generation)
        + bytes::le64(header.sequence) + header.client_nonce + header.service_nonce
}

/// The bytes of a record.
pub open spec fn record_bytes(header: HeaderModel, payload: Seq<u8>) -> Seq<u8> {
    header_bytes(header) + payload
}

/// Whether the first 96 bytes form the header of a record of exactly this length.
pub open spec fn frames_record(bytes: Seq<u8>) -> bool {
    &&& HEADER_LEN <= bytes.len() <= MAX_SUPERVISOR_RECORD_BYTES
    &&& bytes.subrange(0, 8) == MAGIC@
    &&& bytes::le16_at(bytes, 8) == VERSION
    &&& HEADER_LEN + bytes::le32_at(bytes, 12) == bytes.len()
    &&& 1 <= bytes::le16_at(bytes, 10) <= 4
}

/// The kind that a number stands for.
pub open spec fn kind_of(code: u16) -> RecordKind {
    if code == 1 {
        RecordKind::ClientHello
    } else if code == 2 {
        RecordKind::ServiceHello
    } else if code == 3 {
        RecordKind::Spawn
    } else {
        RecordKind::SpawnResult
    }
}

/// The header of a record; anything but one exact record is malformed.
pub open spec fn parsed_header(bytes: Seq<u8>) -> Result<HeaderModel, SupervisorWireError> {
    if frames_record(bytes) {
        Ok(
            HeaderModel {
                kind: kind_of(bytes::le16_at(bytes, 10)),
                payload_len: bytes::le32_at(bytes, 12) as nat,
                generation: bytes::le64_at(bytes, 16),
                sequence: bytes::le64_at(bytes, 24),
                client_nonce: bytes.subrange(32, 64),
                service_nonce: bytes.subrange(64, 96),
            },
        )
    } else {
        Err(SupervisorWireError::Malformed)
    }
}

/// What follows the header.
pub open spec fn payload_of(bytes: Seq<u8>) -> Seq<u8> {
    bytes.subrange(HEADER_LEN as int, bytes.len() as int)
}

/// Writes a record. One that is too long, or whose header gives another length, is refused.
pub fn encode_record(header: Header, payload: &[u8]) -> (r: Result<Vec<u8>, SupervisorWireError>)
    ensures
        match r {
            Ok(bytes) => {
                &&& header.payload_len == payload@.len()
                &&& HEADER_LEN + payload@.len() <= MAX_SUPERVISOR_RECORD_BYTES
                &&& bytes@ == record_bytes(header@, payload@)
            },
            Err(error) => {
                &&& error == SupervisorWireError::LimitExceeded
                &&& header.payload_len != payload@.len() || HEADER_LEN + payload@.len()
                    > MAX_SUPERVISOR_RECORD_BYTES
            },
        },
{
    if header.payload_len != payload.len() || payload.len() > MAX_SUPERVISOR_RECORD_BYTES
        - HEADER_LEN {
        return Err(SupervisorWireError::LimitExceeded);
    }
    let mut bytes: Vec<u8> = Vec::new();
    put_bytes(&mut bytes, &MAGIC);
    put_u16(&mut bytes, VERSION);
    put_u16(&mut bytes, header.kind.code());
    put_u32(&mut bytes, payload.len() as u32);
    put_u64(&mut bytes, header.generation);
    put_u64(&mut bytes, header.sequence);
    put_bytes(&mut bytes, &header.client_nonce);
    put_bytes(&mut bytes, &header.service_nonce);
    put_bytes(&mut bytes, payload);
    assert(bytes@ =~= record_bytes(header@, payload@));
    Ok(bytes)
}

/// Reads the header of one exact record.
pub fn decode_header(bytes: &[u8]) -> (r: Result<Header, SupervisorWireError>)
    ensures
        match (r, parsed_header(bytes@)) {
            (Ok(header), Ok(model)) => header@ == model,
            (Err(error), Err(expected)) => error == expected,
            _ => false,
        },
{
    if bytes.len() < HEADER_LEN || bytes.len() > MAX_SUPERVISOR_RECORD_BYTES {
        return Err(SupervisorWireError::Malformed);
    }
    if !starts_with(bytes, &MAGIC) {
        return Err(SupervisorWireError::Malformed);
    }
    let (version, code, length, generation, sequence) = match (
        u16_at(bytes, 8),
        u16_at(bytes, 10),
        u32_at(bytes, 12),
        u64_at(bytes, 16),
        u64_at(bytes, 24),
    ) {
        (Some(version), Some(code), Some(length), Some(generation), Some(sequence)) => (
            version,
            code,
            length,
            generation,
            sequence,
        ),
        _ => {
            return Err(SupervisorWireError::Malformed);
        },
    };
    if version != VERSION || length as usize != bytes.len() - HEADER_LEN {
        return Err(SupervisorWireError::Malformed);
    }
    let kind = match RecordKind::decode(code) {
        Ok(kind) => kind,
        Err(error) => {
            return Err(error);
        },
    };
    match (array_at(bytes, 32), array_at(bytes, 64)) {
        (Some(client_nonce), Some(service_nonce)) => Ok(
            Header {
                kind,
                payload_len: length as usize,
                generation,
                sequence,
                client_nonce,
                service_nonce,
            },
        ),
        _ => Err(SupervisorWireError::Malformed),
    }
}

/// A record reads back as what was written.
pub proof fn law_record_round_trip(header: HeaderModel, payload: Seq<u8>)
    requires
        header.payload_len == payload.len(),
        HEADER_LEN + payload.len() <= MAX_SUPERVISOR_RECORD_BYTES,
        header.client_nonce.len() == 32,
        header.service_nonce.len() == 32,
    ensures
        parsed_header(record_bytes(header, payload)) == Ok::<HeaderModel, SupervisorWireError>(
            header,
        ),
        payload_of(record_bytes(header, payload)) == payload,
{
    let bytes = record_bytes(header, payload);
    let code = header.kind.spec_code();
    let length = header.payload_len as u32;
    bytes::lemma_le16(VERSION);
    bytes::lemma_le16(code);
    bytes::lemma_le32(length);
    bytes::lemma_le64(header.generation);
    bytes::lemma_le64(header.sequence);
    assert(bytes.subrange(0, 8) =~= MAGIC@);
    assert(bytes.subrange(8, 10) =~= bytes::le16(VERSION));
    assert(bytes.subrange(10, 12) =~= bytes::le16(code));
    assert(bytes.subrange(12, 16) =~= bytes::le32(length));
    assert(bytes.subrange(16, 24) =~= bytes::le64(header.generation));
    assert(bytes.subrange(24, 32) =~= bytes::le64(header.sequence));
    assert(bytes.subrange(32, 64) =~= header.client_nonce);
    assert(bytes.subrange(64, 96) =~= header.service_nonce);
    bytes::lemma_field(bytes, 8);
    bytes::lemma_field(bytes, 10);
    bytes::lemma_field(bytes, 12);
    bytes::lemma_field(bytes, 16);
    bytes::lemma_field(bytes, 24);
    assert(payload_of(bytes) =~= payload);
}

/// Only what the writer produces is read: a record that is accepted is the one form of its header
/// and payload.
pub proof fn law_record_is_canonical(bytes: Seq<u8>)
    requires
        frames_record(bytes),
    ensures
        parsed_header(bytes) matches Ok(header) && bytes == record_bytes(header, payload_of(bytes)),
{
    bytes::lemma_le16_at(bytes, 8);
    bytes::lemma_le16_at(bytes, 10);
    bytes::lemma_le32_at(bytes, 12);
    bytes::lemma_le64_at(bytes, 16);
    bytes::lemma_le64_at(bytes, 24);
    let header = parsed_header(bytes)->Ok_0;
    let head = header_bytes(header);
    assert(head =~= bytes.subrange(0, 8) + bytes.subrange(8, 10) + bytes.subrange(10, 12)
        + bytes.subrange(12, 16) + bytes.subrange(16, 24) + bytes.subrange(24, 32)
        + bytes.subrange(32, 64) + bytes.subrange(64, 96));
    assert(head =~= bytes.subrange(0, 96));
    assert(bytes =~= record_bytes(header, payload_of(bytes)));
}

/// No proper prefix and no extension of a record is a record.
pub proof fn law_record_length_is_bound(bytes: Seq<u8>, other: Seq<u8>)
    requires
        frames_record(bytes),
        bytes.is_prefix_of(other) || other.is_prefix_of(bytes),
        bytes.len() != other.len(),
    ensures
        parsed_header(other) == Err::<HeaderModel, _>(SupervisorWireError::Malformed),
{
    if frames_record(other) {
        let n = if bytes.len() < other.len() {
            bytes.len()
        } else {
            other.len()
        } as int;
        assert(bytes.subrange(0, n) =~= other.subrange(0, n));
        crate::bytes::lemma_le_at_subrange(bytes, 0, n, 12);
        crate::bytes::lemma_le_at_subrange(other, 0, n, 12);
    }
}

/// Every part of a record stands at its own place, and a record is accepted for its form alone:
/// ninety-six bytes or more, with the magic, the version, a known kind and its own length.
pub proof fn law_record_layout(header: HeaderModel, payload: Seq<u8>, bytes: Seq<u8>)
    requires
        header.payload_len == payload.len(),
        HEADER_LEN + payload.len() <= MAX_SUPERVISOR_RECORD_BYTES,
        header.client_nonce.len() == 32,
        header.service_nonce.len() == 32,
    ensures
        ({
            let record = record_bytes(header, payload);
            &&& record.len() == 96 + payload.len()
            &&& record.subrange(0, 8) == seq![0x4eu8, 0x49, 0x50, 0x43, 0x53, 0x55, 0x50, 0x31]
            &&& record.subrange(8, 10) == bytes::le16(1)
            &&& record.subrange(10, 12) == bytes::le16(
                match header.kind {
                    RecordKind::ClientHello => 1u16,
                    RecordKind::ServiceHello => 2,
                    RecordKind::Spawn => 3,
                    RecordKind::SpawnResult => 4,
                },
            )
            &&& record.subrange(12, 16) == bytes::le32(payload.len() as u32)
            &&& record.subrange(16, 24) == bytes::le64(header.generation)
            &&& record.subrange(24, 32) == bytes::le64(header.sequence)
            &&& record.subrange(32, 64) == header.client_nonce
            &&& record.subrange(64, 96) == header.service_nonce
            &&& record.subrange(96, record.len() as int) == payload
        }),
        parsed_header(bytes) is Ok <==> {
            &&& 96 <= bytes.len() <= 65536
            &&& bytes.subrange(0, 8) == seq![0x4eu8, 0x49, 0x50, 0x43, 0x53, 0x55, 0x50, 0x31]
            &&& bytes::le16_at(bytes, 8) == 1
            &&& 1 <= bytes::le16_at(bytes, 10) <= 4
            &&& bytes::le32_at(bytes, 12) == bytes.len() - 96
        },
        parsed_header(bytes) is Err ==> parsed_header(bytes) == Err::<HeaderModel, _>(
            SupervisorWireError::Malformed,
        ),
{
    let record = record_bytes(header, payload);
    assert(MAGIC@ =~= seq![0x4eu8, 0x49, 0x50, 0x43, 0x53, 0x55, 0x50, 0x31]);
    bytes::lemma_le16(VERSION);
    bytes::lemma_le16(header.kind.spec_code());
    bytes::lemma_le32(header.payload_len as u32);
    bytes::lemma_le64(header.generation);
    bytes::lemma_le64(header.sequence);
    assert(record.subrange(0, 8) =~= MAGIC@);
    assert(record.subrange(8, 10) =~= bytes::le16(VERSION));
    assert(record.subrange(10, 12) =~= bytes::le16(header.kind.spec_code()));
    assert(record.subrange(12, 16) =~= bytes::le32(header.payload_len as u32));
    assert(record.subrange(16, 24) =~= bytes::le64(header.generation));
    assert(record.subrange(24, 32) =~= bytes::le64(header.sequence));
    assert(record.subrange(32, 64) =~= header.client_nonce);
    assert(record.subrange(64, 96) =~= header.service_nonce);
    assert(record.subrange(96, record.len() as int) =~= payload);
}

} // verus!
