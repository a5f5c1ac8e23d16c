//! The messages that move one port right each, with the transcript both sides agree on.

use vstd::prelude::*;
use crate::bytes;
use crate::bytes::{put_bytes, put_u16, put_u32, put_zeros, same_bytes, u16_at, u32_at};
use crate::mach;
use crate::mach::{
    read_audit_trailer, AuditToken, MachMsgHeader, AUDIT_TRAILER_BYTES, MACH_HEADER_BYTES,
    MACH_PORT_NULL,
};
use crate::bootstrap::error::BootstrapError;
use crate::bootstrap::vnext;
use crate::bootstrap::vnext::{
    SendRight, MACH_MSG_PORT_DESCRIPTOR, RECEIVED_COMPLEX_BITS, RECEIVED_SEND, SENT_COMPLEX_BITS,
};

verus! {

/// Identifier of every port message.
pub const MESSAGE_ID: u32 = 0x4e49_5043;

/// `NIPCMACH`
pub const MESSAGE_MAGIC: [u8; 8] = [0x4e, 0x49, 0x50, 0x43, 0x4d, 0x41, 0x43, 0x48];

/// Disposition by which a send right is made from a receive right.
pub const MACH_MSG_TYPE_MAKE_SEND: u8 = 20;

/// Where the transcript starts.
pub const TRANSCRIPT_AT: usize = 80;

/// Longest transcript.
pub const MAX_TRANSCRIPT_BYTES: usize = 65536;

/// Size of a message with a transcript of this length.
pub open spec fn port_message_size(transcript_len: nat) -> int {
    mach::rounded(TRANSCRIPT_AT + transcript_len)
}

/// The header of a message that is sent to `remote`.
pub open spec fn port_header(remote: u32, transcript_len: nat) -> MachMsgHeader {
    MachMsgHeader {
        bits: SENT_COMPLEX_BITS,
        size: port_message_size(transcript_len) as u32,
        remote_port: remote,
        local_port: MACH_PORT_NULL,
        voucher_port: MACH_PORT_NULL,
        id: MESSAGE_ID,
    }
}

/// Everything of a port message after its header.
pub open spec fn port_body(
    port: u32,
    disposition: u8,
    nonce: Seq<u8>,
    transcript: Seq<u8>,
) -> Seq<u8> {
    bytes::le32(1) + vnext::descriptor_bytes(port, disposition) + MESSAGE_MAGIC@ + nonce
        + transcript
        + bytes::zeros((port_message_size(transcript.len()) - (TRANSCRIPT_AT
        + transcript.len())) as nat)
}

/// Encodes the message that moves `port` to `remote`.
pub fn encode_port_message(
    remote: u32,
    port: u32,
    disposition: u8,
    nonce: &[u8; 32],
    transcript: &[u8],
) -> (r: Vec<u8>)
    requires
        transcript@.len() <= MAX_TRANSCRIPT_BYTES,
    ensures
        r@ == port_header(remote, transcript@.len()).spec_bytes() + port_body(
            port,
            disposition,
            nonce@,
            transcript@,
        ),
{
    let unrounded: usize = TRANSCRIPT_AT + transcript.len();
    let size: usize = (unrounded + 3) / 4 * 4;
    let header = MachMsgHeader {
        bits: SENT_COMPLEX_BITS,
        size: size as u32,
        remote_port: remote,
        local_port: MACH_PORT_NULL,
        voucher_port: MACH_PORT_NULL,
        id: MESSAGE_ID,
    };
    let mut message: Vec<u8> = Vec::new();
    header.write(&mut message);
    assert(message@ =~= header.spec_bytes());
    put_u32(&mut message, 1);
    let ghost before = message@;
    put_u32(&mut message, port);
    put_u32(&mut message, 0);
    put_u16(&mut message, 0);
    message.push(disposition);
    message.push(MACH_MSG_PORT_DESCRIPTOR);
    assert(message@ =~= before + vnext::descriptor_bytes(port, disposition));
    put_bytes(&mut message, &MESSAGE_MAGIC);
    put_bytes(&mut message, nonce);
    put_bytes(&mut message, transcript);
    put_zeros(&mut message, size - unrounded);
    assert(message@ =~= header.spec_bytes() + port_body(port, disposition, nonce@, transcript@));
    message
}

/// Whether a buffer holds one canonical port message to `receive` with this nonce and transcript.
pub open spec fn port_message_in_order(
    bytes: Seq<u8>,
    receive: u32,
    nonce: Seq<u8>,
    transcript: Seq<u8>,
) -> bool {
    let header = MachMsgHeader::spec_at(bytes, 0);
    let size = port_message_size(transcript.len());
    &&& size + AUDIT_TRAILER_BYTES <= bytes.len()
    &&& header.bits == RECEIVED_COMPLEX_BITS
    &&& header.size == size
    &&& header.remote_port == MACH_PORT_NULL
    &&& header.local_port == receive
    &&& header.voucher_port == MACH_PORT_NULL
    &&& header.id == MESSAGE_ID
    &&& bytes::le32_at(bytes, 24) == 1
    &&& vnext::brings_right(bytes, 28)
    &&& bytes.subrange(40, 48) == MESSAGE_MAGIC@
    &&& bytes.subrange(48, 80) == nonce
    &&& bytes.subrange(80, 80 + transcript.len() as int) == transcript
    &&& mach::trailer_stands_at(bytes, size)
}

/// The words of the token of a port message.
pub open spec fn port_sender(bytes: Seq<u8>, transcript_len: nat) -> Seq<u32> {
    mach::token_words(mach::trailer_token(bytes, port_message_size(transcript_len)))
}

/// Reads one delivered port message: it has to be canonical, and to come from the expected
/// process.
pub fn read_port_message(
    bytes: &[u8],
    receive: u32,
    nonce: &[u8; 32],
    expected_pid: u32,
    expected_transcript: &[u8],
) -> (r: Result<(SendRight, AuditToken), BootstrapError>)
    requires
        expected_transcript@.len() <= MAX_TRANSCRIPT_BYTES,
    ensures
        ({
            let sender = port_sender(bytes@, expected_transcript@.len());
            if !port_message_in_order(bytes@, receive, nonce@, expected_transcript@) {
                r == Err::<(SendRight, AuditToken), _>(BootstrapError::InvalidMessage)
            } else if sender[5] != expected_pid {
                r == Err::<(SendRight, AuditToken), _>(
                    BootstrapError::WrongPeer { expected: expected_pid, actual: sender[5] },
                )
            } else {
                r matches Ok((right, audit)) && right.0 == bytes::le32_at(bytes@, 28)
                    && audit.values@ == sender
            }
        }),
{
    let size: usize = (TRANSCRIPT_AT + expected_transcript.len() + 3) / 4 * 4;
    assert(size == port_message_size(expected_transcript@.len()));
    if bytes.len() < size + AUDIT_TRAILER_BYTES {
        return Err(BootstrapError::InvalidMessage);
    }
    let (header, count, name, first, second) = match (
        MachMsgHeader::read(bytes),
        u32_at(bytes, 24),
        u32_at(bytes, 28),
        u32_at(bytes, 32),
        u16_at(bytes, 36),
    ) {
        (Some(a), Some(b), Some(c), Some(d), Some(e)) => (a, b, c, d, e),
        _ => {
            return Err(BootstrapError::InvalidMessage);
        },
    };
    if header.bits != RECEIVED_COMPLEX_BITS || header.size as usize != size || header.remote_port
        != MACH_PORT_NULL || header.local_port != receive || header.voucher_port != MACH_PORT_NULL
        || header.id != MESSAGE_ID || count != 1 || bytes[39] != MACH_MSG_PORT_DESCRIPTOR
        || bytes[38] != RECEIVED_SEND || first != 0 || second != 0 || name == MACH_PORT_NULL {
        return Err(BootstrapError::InvalidMessage);
    }
    if !same_bytes(vstd::slice::slice_subrange(bytes, 40, 48), &MESSAGE_MAGIC) || !same_bytes(
        vstd::slice::slice_subrange(bytes, 48, 80),
        nonce,
    ) || !same_bytes(
        vstd::slice::slice_subrange(bytes, 80, 80 + expected_transcript.len()),
        expected_transcript,
    ) {
        return Err(BootstrapError::InvalidMessage);
    }
    let audit = match read_audit_trailer(bytes, size) {
        Some(audit) => audit,
        None => {
            return Err(BootstrapError::InvalidMessage);
        },
    };
    let actual: u32 = audit.values[5];
    assert(audit.values@ == port_sender(bytes@, expected_transcript@.len()));
    if actual != expected_pid {
        return Err(BootstrapError::WrongPeer { expected: expected_pid, actual });
    }
    Ok((SendRight(name), audit))
}

/// The message as the kernel delivers it to `receive`, with its trailer.
pub open spec fn delivered_port(
    receive: u32,
    port: u32,
    nonce: Seq<u8>,
    transcript: Seq<u8>,
    trailer: Seq<u8>,
) -> Seq<u8> {
    MachMsgHeader {
        bits: RECEIVED_COMPLEX_BITS,
        size: port_message_size(transcript.len()) as u32,
        remote_port: MACH_PORT_NULL,
        local_port: receive,
        voucher_port: MACH_PORT_NULL,
        id: MESSAGE_ID,
    }.spec_bytes() + port_body(port, RECEIVED_SEND, nonce, transcript) + trailer
}

/// What a peer sends arrives: a message with a right is taken as that right under the nonce and the
/// transcript it was sent with, and its sender is the one that its trailer names.
pub proof fn law_sent_rights_arrive(
    receive: u32,
    port: u32,
    nonce: Seq<u8>,
    transcript: Seq<u8>,
    trailer: Seq<u8>,
)
    requires
        nonce.len() == 32,
        transcript.len() <= MAX_TRANSCRIPT_BYTES,
        port != MACH_PORT_NULL,
        mach::trailer_stands_at(trailer, 0),
    ensures
        ({
            let bytes = delivered_port(receive, port, nonce, transcript, trailer);
            &&& port_message_in_order(bytes, receive, nonce, transcript)
            &&& bytes::le32_at(bytes, 28) == port
            &&& port_sender(bytes, transcript.len())
                == mach::token_words(mach::trailer_token(trailer, 0))
        }),
{
    let bytes = delivered_port(receive, port, nonce, transcript, trailer);
    let size = port_message_size(transcript.len());
    let header = MachMsgHeader {
        bits: RECEIVED_COMPLEX_BITS,
        size: size as u32,
        remote_port: MACH_PORT_NULL,
        local_port: receive,
        voucher_port: MACH_PORT_NULL,
        id: MESSAGE_ID,
    };
    let rights = seq![port];
    let list = vnext::descriptors_bytes(rights, RECEIVED_SEND);
    let carried = vnext::rights_bytes(rights, RECEIVED_SEND);
    let envelope = MESSAGE_MAGIC@ + nonce;
    let padding = bytes::zeros((size - (TRANSCRIPT_AT + transcript.len())) as nat);
    vnext::lemma_descriptors(rights, RECEIVED_SEND);
    bytes::lemma_le32(1);
    assert(list =~= vnext::descriptor_bytes(port, RECEIVED_SEND)) by {
        assert(rights.drop_last() =~= seq![]);
        assert(vnext::descriptors_bytes(rights.drop_last(), RECEIVED_SEND) =~= seq![]);
    }
    assert(carried =~= bytes::le32(1) + list);
    mach::lemma_header_round_trip(header, seq![]);
    mach::law_rounding(TRANSCRIPT_AT + transcript.len(), 0);
    vnext::lemma_six_parts(header.spec_bytes(), carried, envelope, transcript, padding, trailer);
    assert(bytes =~= header.spec_bytes() + carried + envelope + transcript + padding + trailer);
    vnext::lemma_delivered_header(bytes, header);
    vnext::lemma_delivered_count(bytes, rights);
    assert(bytes.subrange(28, 40) =~= carried.subrange(4, 16));
    assert(carried.subrange(4, 16) =~= list);
    vnext::lemma_delivered_descriptor(bytes, rights, 0, list);
    assert(bytes.subrange(40, 48) =~= envelope.subrange(0, 8));
    assert(envelope.subrange(0, 8) =~= MESSAGE_MAGIC@);
    assert(bytes.subrange(48, 80) =~= envelope.subrange(8, 40));
    assert(envelope.subrange(8, 40) =~= nonce);
    vnext::lemma_delivered_trailer(bytes, size, trailer);
}

/// A right goes to its receiver under the identifier of such messages, with the mark, the nonce and
/// the whole transcript behind it.
pub proof fn law_sent_port_layout(
    remote: u32,
    port: u32,
    disposition: u8,
    nonce: Seq<u8>,
    transcript: Seq<u8>,
)
    requires
        nonce.len() == 32,
        transcript.len() <= 65536,
    ensures
        ({
            let header = port_header(remote, transcript.len());
            let body = port_body(port, disposition, nonce, transcript);
            &&& header.bits == 0x8000_0013 && header.remote_port == remote
            &&& header.local_port == 0 && header.voucher_port == 0 && header.id == 0x4e49_5043
            &&& header.size == 24 + body.len() && body.len() % 4 == 0
            &&& 56 + transcript.len() <= body.len() < 60 + transcript.len()
            &&& body.subrange(0, 4) == bytes::le32(1)
            &&& body.subrange(4, 8) == bytes::le32(port)
            &&& body[14] == disposition && body[15] == 0
            &&& body.subrange(16, 24) == seq![0x4eu8, 0x49, 0x50, 0x43, 0x4d, 0x41, 0x43, 0x48]
            &&& body.subrange(24, 56) == nonce
            &&& body.subrange(56, 56 + transcript.len() as int) == transcript
            &&& forall|i: int| 56 + transcript.len() <= i < body.len() ==> body[i] == 0
        }),
{
    let body = port_body(port, disposition, nonce, transcript);
    mach::law_rounding(80 + transcript.len() as int, 0);
    bytes::lemma_le32(1);
    bytes::lemma_le32(0);
    bytes::lemma_le16(0);
    bytes::lemma_le32(port);
    assert(MESSAGE_MAGIC@ =~= seq![0x4eu8, 0x49, 0x50, 0x43, 0x4d, 0x41, 0x43, 0x48]);
    assert(body.subrange(0, 4) =~= bytes::le32(1));
    assert(body.subrange(4, 8) =~= bytes::le32(port));
    assert(body.subrange(16, 24) =~= MESSAGE_MAGIC@);
    assert(body.subrange(24, 56) =~= nonce);
    assert(body.subrange(56, 56 + transcript.len() as int) =~= transcript);
}

/// A right is taken only from a message for this receiver that holds this very nonce and
/// transcript.
pub proof fn law_foreign_ports_are_refused(
    bytes: Seq<u8>,
    receive: u32,
    nonce: Seq<u8>,
    transcript: Seq<u8>,
)
    requires
        port_message_in_order(bytes, receive, nonce, transcript),
    ensures
        bytes.subrange(48, 80) == nonce,
        bytes.subrange(80, 80 + transcript.len() as int) == transcript,
        MachMsgHeader::spec_at(bytes, 0).local_port == receive,
        MachMsgHeader::spec_at(bytes, 0).id == 0x4e49_5043,
        bytes::le32_at(bytes, 28) != 0,
        bytes[38] == 17,
        port_sender(bytes, transcript.len()) == mach::token_words(
            mach::trailer_token(bytes, mach::rounded(80 + transcript.len() as int)),
        ),
{
}

} // verus!
