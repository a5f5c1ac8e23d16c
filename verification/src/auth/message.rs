//! Supervisor records inside Mach messages: what is received, and the one reply.

use vstd::prelude::*;
use crate::bytes;
use crate::bytes::{copy_bytes, is_all_zero, put_bytes, put_u32, put_u64, u32_at, u64_at};
use crate::digest;
use crate::digest::{sha256, DIGEST_LIMIT};
use crate::mach;
use crate::mach::{
    encode_audit_token, read_audit_trailer, round_mach_message, AuditToken, MachMsgHeader,
    AUDIT_TRAILER_BYTES, MACH_HEADER_BYTES, MACH_MSGH_BITS_COMPLEX, MACH_MSG_TYPE_PORT_SEND_ONCE,
    MACH_PORT_NULL,
};
use crate::auth::worker_frame::AuthWorkerIdentity;
use crate::supervisor::deadline::{ClockSample, SupervisorDeadline, SupervisorWireError};
use crate::supervisor::payload::SPAWN_PREFIX_LEN;
use crate::supervisor::record;
use crate::supervisor::record::{
    decode_header, RecordKind, HEADER_LEN, MAX_SUPERVISOR_RECORD_BYTES,
};

verus! {

/// Identifier of every supervisor message.
pub const SUPERVISOR_MESSAGE_ID: u32 = 0x4e49_5355;

/// Bits of a received request: a send-once right to reply to, and the service's own send right.
pub const SUPERVISOR_RECEIVED_BITS: u32 = 0x1112;

/// `mach_msg` received a message or sent one.
pub const MACH_MSG_SUCCESS: i32 = 0;

/// The destination of a send is gone.
pub const MACH_SEND_INVALID_DEST: i32 = 0x1000_0003;

/// A send timed out.
pub const MACH_SEND_TIMED_OUT: i32 = 0x1000_0004;

/// A send was interrupted.
pub const MACH_SEND_INTERRUPTED: i32 = 0x1000_0007;

/// A receive timed out.
pub const MACH_RCV_TIMED_OUT: i32 = 0x1000_4003;

/// A message was too large and is gone.
pub const MACH_RCV_TOO_LARGE: i32 = 0x1000_4004;

/// A receive was interrupted.
pub const MACH_RCV_INTERRUPTED: i32 = 0x1000_4005;

/// `native-ipc-macos-supervisor-auth-frame-v1`
pub const FRAME_DIGEST_DOMAIN: [u8; 41] = [
    0x6e, 0x61, 0x74, 0x69, 0x76, 0x65, 0x2d, 0x69, 0x70, 0x63, 0x2d, 0x6d, 0x61, 0x63, 0x6f,
    0x73, 0x2d, 0x73, 0x75, 0x70, 0x65, 0x72, 0x76, 0x69, 0x73, 0x6f, 0x72, 0x2d, 0x61, 0x75,
    0x74, 0x68, 0x2d, 0x66, 0x72, 0x61, 0x6d, 0x65, 0x2d, 0x76, 0x31,
];

/// Failure while associating one raw Mach record with one disposable worker.
#[derive(Debug, PartialEq, Eq)]
pub enum AuthAdapterError<WorkerFailure> {
    /// The supplied port was not a receive right.
    InvalidReceiveRight,
    /// A delivered header, inline shape, padding or trailer was not canonical.
    MalformedMachMessage,
    /// The kernel destroyed an oversized message.
    RecordTooLarge,
    /// The receive operation failed with a native status.
    MachReceive(i32),
    /// No worker is immediately available; nothing is ever queued.
    Saturated,
    /// A per-user or service bound was exceeded.
    CapacityExceeded,
    /// A job identifier was zero or is in use.
    InvalidJobIdentity,
    /// A worker slot or generation did not match a live exact worker.
    UnknownWorker,
    /// A result did not echo the exact retained message binding.
    ResultMismatch,
    /// Worker cleanup made bounded progress but the worker is not yet reaped.
    WorkerRetirementPending(AuthWorkerIdentity),
    /// The worker was reaped but did not exit normally with status zero.
    WorkerExitedAbnormally,
    /// Validation did not produce a nonzero installed code identity.
    AuthenticationRejected,
    /// The deadline expired before authority could be minted.
    DeadlineExpired,
    /// A replacement came before retirement, or reused a slot.
    InvalidReplacement,
    /// Worker termination or reap failed; the same authority is retained.
    WorkerCleanupFailed(WorkerFailure),
    /// The clock or record contract rejected the input.
    Protocol(SupervisorWireError),
}

impl<WorkerFailure> AuthAdapterError<WorkerFailure> {
    /// Whether a delivered message that is refused so is still whole: no record was made of it, and
    /// what it carries is destroyed with it. Of any other the record has taken the reply right.
    pub open spec fn spec_leaves_message(self) -> bool {
        self is MalformedMachMessage || self is DeadlineExpired
    }

    /// Whether a delivered message that is refused so is still whole.
    pub fn leaves_message(&self) -> (r: bool)
        ensures
            r == self.spec_leaves_message(),
    {
        match self {
            AuthAdapterError::MalformedMachMessage => true,
            AuthAdapterError::DeadlineExpired => true,
            _ => false,
        }
    }
}

/// Linear send-once reply right delivered in one request header, by its name.
#[derive(Debug, PartialEq, Eq)]
pub struct MachSendOnceRight {
    pub name: u32,
}

/// One exact received record, with the identity facts of its own audit trailer.
#[derive(Debug, PartialEq, Eq)]
pub struct RawMachRecord {
    pub audit_identity: [u8; 32],
    pub effective_uid: u32,
    pub effective_gid: u32,
    pub bytes: Vec<u8>,
    pub reply: MachSendOnceRight,
}

/// What a record says.
#[verifier::ext_equal]
pub struct RecordModel {
    pub audit_identity: Seq<u8>,
    pub effective_uid: u32,
    pub effective_gid: u32,
    pub bytes: Seq<u8>,
    pub reply: u32,
}

impl View for RawMachRecord {
    type V = RecordModel;

    open spec fn view(&self) -> RecordModel {
        RecordModel {
            audit_identity: self.audit_identity@,
            effective_uid: self.effective_uid,
            effective_gid: self.effective_gid,
            bytes: self.bytes@,
            reply: self.reply.name,
        }
    }
}

/// Length of the record that a padded payload announces.
pub open spec fn logical_len(bytes: Seq<u8>) -> int {
    HEADER_LEN + bytes::le32_at(bytes, 12)
}

/// Whether a payload is a record followed by the zero bytes that alignment asks for, no more.
pub open spec fn exactly_padded(bytes: Seq<u8>) -> bool {
    &&& bytes.len() >= HEADER_LEN
    &&& logical_len(bytes) <= MAX_SUPERVISOR_RECORD_BYTES
    &&& mach::rounded(logical_len(bytes)) == bytes.len()
    &&& bytes::all_zero(bytes.subrange(logical_len(bytes), bytes.len() as int))
}

/// Removes the alignment bytes of an inline record; `None` where there are others.
pub fn exact_logical_supervisor_record<'a>(bytes: &'a [u8]) -> (r: Option<&'a [u8]>)
    ensures
        r is Some <==> exactly_padded(bytes@),
        r matches Some(logical) ==> logical@ == bytes@.subrange(0, logical_len(bytes@)),
{
    if bytes.len() < HEADER_LEN {
        return None;
    }
    let length: u32 = match u32_at(bytes, 12) {
        Some(length) => length,
        None => {
            return None;
        },
    };
    if length as usize > MAX_SUPERVISOR_RECORD_BYTES - HEADER_LEN {
        return None;
    }
    let logical: usize = HEADER_LEN + length as usize;
    match round_mach_message(logical) {
        None => None,
        Some(padded) => {
            if padded != bytes.len() || !is_all_zero(
                vstd::slice::slice_subrange(bytes, logical, bytes.len()),
            ) {
                return None;
            }
            Some(vstd::slice::slice_subrange(bytes, 0, logical))
        },
    }
}

/// Whether a buffer holds one canonical request to `receive_port`.
pub open spec fn canonical_request(bytes: Seq<u8>, receive_port: u32) -> bool {
    let header = MachMsgHeader::spec_at(bytes, 0);
    let size = header.size as int;
    &&& bytes.len() >= MACH_HEADER_BYTES
    &&& header.bits == SUPERVISOR_RECEIVED_BITS
    &&& header.remote_port != MACH_PORT_NULL
    &&& header.local_port == receive_port
    &&& header.voucher_port == MACH_PORT_NULL
    &&& header.id == SUPERVISOR_MESSAGE_ID
    &&& MACH_HEADER_BYTES < size <= MACH_HEADER_BYTES + MAX_SUPERVISOR_RECORD_BYTES
    &&& mach::trailer_stands_at(bytes, mach::rounded(size))
    &&& bytes::all_zero(bytes.subrange(size, mach::rounded(size)))
    &&& exactly_padded(bytes.subrange(MACH_HEADER_BYTES as int, size))
}

/// The record that a canonical request holds.
pub open spec fn request_in(bytes: Seq<u8>) -> RecordModel {
    let header = MachMsgHeader::spec_at(bytes, 0);
    let payload = bytes.subrange(MACH_HEADER_BYTES as int, header.size as int);
    let token = mach::trailer_token(bytes, mach::rounded(header.size as int));
    RecordModel {
        audit_identity: token,
        effective_uid: mach::token_words(token)[1],
        effective_gid: mach::token_words(token)[2],
        bytes: payload.subrange(0, logical_len(payload)),
        reply: header.remote_port,
    }
}

/// Reads one delivered message. A message with descriptors is malformed at once; one that came
/// too late has expired; anything else has to be canonical. Of a message that is refused the
/// caller destroys what it carries.
pub fn read_request<WorkerFailure>(
    bytes: &[u8],
    receive_port: u32,
    deadline: SupervisorDeadline,
    clock: ClockSample,
) -> (r: Result<RawMachRecord, AuthAdapterError<WorkerFailure>>)
    ensures
        match r {
            Ok(record) => {
                &&& deadline.local_instant(clock) is Ok
                &&& canonical_request(bytes@, receive_port)
                &&& record@ == request_in(bytes@)
            },
            Err(error) => if bytes@.len() >= MACH_HEADER_BYTES && MachMsgHeader::spec_at(
                bytes@,
                0,
            ).bits < MACH_MSGH_BITS_COMPLEX && deadline.local_instant(clock) is Err {
                error == AuthAdapterError::<WorkerFailure>::DeadlineExpired
            } else {
                &&& error == AuthAdapterError::<WorkerFailure>::MalformedMachMessage
                &&& !canonical_request(bytes@, receive_port)
            },
        },
{
    let header = match MachMsgHeader::read(bytes) {
        Some(header) => header,
        None => {
            return Err(AuthAdapterError::MalformedMachMessage);
        },
    };
    if header.bits >= MACH_MSGH_BITS_COMPLEX {
        return Err(AuthAdapterError::MalformedMachMessage);
    }
    if deadline.to_local_instant(clock).is_err() {
        return Err(AuthAdapterError::DeadlineExpired);
    }
    let size: usize = header.size as usize;
    if header.bits != SUPERVISOR_RECEIVED_BITS || header.remote_port == MACH_PORT_NULL
        || header.local_port != receive_port || header.voucher_port != MACH_PORT_NULL || header.id
        != SUPERVISOR_MESSAGE_ID || size <= MACH_HEADER_BYTES || size > MACH_HEADER_BYTES
        + MAX_SUPERVISOR_RECORD_BYTES {
        return Err(AuthAdapterError::MalformedMachMessage);
    }
    let trailer_offset: usize = match round_mach_message(size) {
        Some(offset) => offset,
        None => {
            return Err(AuthAdapterError::MalformedMachMessage);
        },
    };
    let audit = match read_audit_trailer(bytes, trailer_offset) {
        Some(audit) => audit,
        None => {
            return Err(AuthAdapterError::MalformedMachMessage);
        },
    };
    if !is_all_zero(vstd::slice::slice_subrange(bytes, size, trailer_offset)) {
        return Err(AuthAdapterError::MalformedMachMessage);
    }
    let payload = vstd::slice::slice_subrange(bytes, MACH_HEADER_BYTES, size);
    match exact_logical_supervisor_record(payload) {
        None => Err(AuthAdapterError::MalformedMachMessage),
        Some(logical) => {
            proof {
                mach::law_token_is_canonical(
                    mach::trailer_token(bytes@, trailer_offset as int),
                    audit,
                );
            }
            Ok(
                RawMachRecord {
                    audit_identity: encode_audit_token(audit),
                    effective_uid: audit.values[1],
                    effective_gid: audit.values[2],
                    bytes: copy_bytes(logical),
                    reply: MachSendOnceRight { name: header.remote_port },
                },
            )
        },
    }
}

/// What follows from the status of one receive operation.
#[derive(Debug, PartialEq, Eq)]
pub enum ReceiveStep<WorkerFailure> {
    /// A message was delivered.
    Read,
    /// The receive is to be repeated.
    Again,
    /// Nothing was delivered.
    Failed(AuthAdapterError<WorkerFailure>),
}

/// What follows from the status of one receive operation.
pub open spec fn request_received<WorkerFailure>(
    status: i32,
    deadline: SupervisorDeadline,
    clock: ClockSample,
) -> ReceiveStep<WorkerFailure> {
    if status == MACH_MSG_SUCCESS {
        ReceiveStep::<WorkerFailure>::Read
    } else if status == MACH_RCV_INTERRUPTED || (status == MACH_RCV_TIMED_OUT
        && deadline.local_instant(clock) is Ok) {
        ReceiveStep::Again
    } else if status == MACH_RCV_TIMED_OUT {
        ReceiveStep::Failed(AuthAdapterError::DeadlineExpired)
    } else if status == MACH_RCV_TOO_LARGE {
        ReceiveStep::Failed(AuthAdapterError::RecordTooLarge)
    } else {
        ReceiveStep::Failed(AuthAdapterError::MachReceive(status))
    }
}

/// Decides what follows from the status of one receive operation. A timeout before the deadline
/// and an interruption repeat it.
pub fn receive_step<WorkerFailure>(
    status: i32,
    deadline: SupervisorDeadline,
    clock: ClockSample,
) -> (r: ReceiveStep<WorkerFailure>)
    ensures
        r == request_received::<WorkerFailure>(status, deadline, clock),
{
    if status == MACH_MSG_SUCCESS {
        ReceiveStep::Read
    } else if status == MACH_RCV_INTERRUPTED {
        ReceiveStep::Again
    } else if status == MACH_RCV_TIMED_OUT {
        if deadline.to_local_instant(clock).is_ok() {
            ReceiveStep::Again
        } else {
            ReceiveStep::Failed(AuthAdapterError::DeadlineExpired)
        }
    } else if status == MACH_RCV_TOO_LARGE {
        ReceiveStep::Failed(AuthAdapterError::RecordTooLarge)
    } else {
        ReceiveStep::Failed(AuthAdapterError::MachReceive(status))
    }
}

/// Size of the receive buffer: the longest padded request and its trailer.
pub fn supervisor_receive_bytes() -> (r: Option<usize>)
    ensures
        r == Some(65612usize),
        r matches Some(size)
            && size == mach::rounded(MACH_HEADER_BYTES + MAX_SUPERVISOR_RECORD_BYTES)
            + AUDIT_TRAILER_BYTES,
{
    match round_mach_message(MACH_HEADER_BYTES + MAX_SUPERVISOR_RECORD_BYTES) {
        None => None,
        Some(size) => size.checked_add(AUDIT_TRAILER_BYTES),
    }
}

/// Checks the right that requests are received on, and gives the limit of one receive.
pub fn borrow_receive_right<WorkerFailure>(receive_port: u32) -> (r: Result<
    u32,
    AuthAdapterError<WorkerFailure>,
>)
    ensures
        r == (if receive_port == MACH_PORT_NULL {
            Err(AuthAdapterError::<WorkerFailure>::InvalidReceiveRight)
        } else {
            Ok(65612u32)
        }),
{
    if receive_port == MACH_PORT_NULL {
        return Err(AuthAdapterError::InvalidReceiveRight);
    }
    match supervisor_receive_bytes() {
        None => Err(AuthAdapterError::RecordTooLarge),
        Some(size) => Ok(size as u32),
    }
}

/// Milliseconds that a receive may wait, rounded up.
pub open spec fn receive_timeout(
    deadline: SupervisorDeadline,
    clock: ClockSample,
    now: u64,
) -> Result<u32, SupervisorWireError> {
    match deadline.local_instant(clock) {
        Err(error) => Err(error),
        Ok(local) => if local <= now {
            Err(SupervisorWireError::LimitExceeded)
        } else {
            let millis = (local - now + 999_999) / 1_000_000;
            Ok(
                if millis > u32::MAX {
                    u32::MAX
                } else {
                    millis as u32
                },
            )
        },
    }
}

/// Milliseconds that a receive may wait; `now` is a later reading of the local clock.
pub fn mach_receive_timeout(deadline: SupervisorDeadline, clock: ClockSample, now: u64) -> (r:
    Result<u32, SupervisorWireError>)
    ensures
        r == receive_timeout(deadline, clock, now),
{
    match deadline.to_local_instant(clock) {
        Err(error) => Err(error),
        Ok(local) => {
            if local <= now {
                return Err(SupervisorWireError::LimitExceeded);
            }
            let remaining: u64 = local - now;
            let whole: u64 = remaining / 1_000_000;
            let millis: u64 = if remaining % 1_000_000 == 0 {
                whole
            } else {
                whole + 1
            };
            assert(millis == (remaining + 999_999) / 1_000_000);
            if millis > u32::MAX as u64 {
                Ok(u32::MAX)
            } else {
                Ok(millis as u32)
            }
        },
    }
}

/// Failure to consume the send-once reply right of one request.
#[derive(Clone, Copy, Debug, PartialEq, Eq, Structural)]
pub enum MachReplyError {
    /// The reply was empty, oversized, or not aligned.
    InvalidReply,
    /// The send failed; the right is gone with it.
    MachSend(i32),
}

/// A reply right that was not spent, and why. Whoever gets it releases the right.
#[derive(Debug, PartialEq, Eq)]
pub struct RefusedReply<Error> {
    pub error: Error,
    pub reply: MachSendOnceRight,
}

/// Fully encoded one-shot send. It owns the reply right.
#[derive(Debug, PartialEq, Eq)]
pub struct PreparedMachSend {
    pub message: Vec<u8>,
}

/// Whether a payload can be a reply.
pub open spec fn sendable(payload: Seq<u8>) -> bool {
    0 < payload.len() <= MAX_SUPERVISOR_RECORD_BYTES && payload.len() % 4 == 0
}

/// The header of the reply to `name` with a payload of this length.
pub open spec fn reply_header(name: u32, payload_len: nat) -> MachMsgHeader {
    MachMsgHeader {
        bits: MACH_MSG_TYPE_PORT_SEND_ONCE,
        size: (MACH_HEADER_BYTES + payload_len) as u32,
        remote_port: name,
        local_port: MACH_PORT_NULL,
        voucher_port: MACH_PORT_NULL,
        id: SUPERVISOR_MESSAGE_ID,
    }
}

impl MachSendOnceRight {
    /// Takes the remote port of a received request; a null one is malformed.
    pub fn from_received<WorkerFailure>(name: u32) -> (r: Result<
        MachSendOnceRight,
        AuthAdapterError<WorkerFailure>,
    >)
        ensures
            r == (if name == MACH_PORT_NULL {
                Err(AuthAdapterError::<WorkerFailure>::MalformedMachMessage)
            } else {
                Ok(MachSendOnceRight { name })
            }),
    {
        if name == MACH_PORT_NULL {
            Err(AuthAdapterError::MalformedMachMessage)
        } else {
            Ok(MachSendOnceRight { name })
        }
    }

    /// Spends the right on one encoded reply; a right that cannot be spent is given back.
    pub fn prepare(self, payload: &[u8]) -> (r: Result<
        PreparedMachSend,
        RefusedReply<MachReplyError>,
    >)
        ensures
            match r {
                Ok(send) => {
                    &&& sendable(payload@)
                    &&& send.message@ == reply_header(self.name, payload@.len()).spec_bytes()
                        + payload@
                },
                Err(refused) => {
                    &&& !sendable(payload@)
                    &&& refused.error == MachReplyError::InvalidReply
                    &&& refused.reply == self
                },
            },
    {
        let length: usize = payload.len();
        if length == 0 || length > MAX_SUPERVISOR_RECORD_BYTES || length % 4 != 0 {
            return Err(RefusedReply { error: MachReplyError::InvalidReply, reply: self });
        }
        let mut message: Vec<u8> = Vec::new();
        let header = MachMsgHeader {
            bits: MACH_MSG_TYPE_PORT_SEND_ONCE,
            size: (MACH_HEADER_BYTES + length) as u32,
            remote_port: self.name,
            local_port: MACH_PORT_NULL,
            voucher_port: MACH_PORT_NULL,
            id: SUPERVISOR_MESSAGE_ID,
        };
        header.write(&mut message);
        put_bytes(&mut message, payload);
        assert(message@ =~= header.spec_bytes() + payload@);
        Ok(PreparedMachSend { message })
    }
}

/// What became of a send.
#[derive(Clone, Copy, Debug, PartialEq, Eq, Structural)]
pub enum SendOutcome {
    /// The message is gone and the right with it.
    Sent,
    /// The kernel gave the message back; what it carries has to be destroyed.
    Recoverable(MachReplyError),
    /// The kernel may have consumed part of it; it must not be touched again.
    Indeterminate(i32),
}

/// What became of a send with this status.
pub open spec fn reply_sent(status: i32) -> SendOutcome {
    if status == MACH_MSG_SUCCESS {
        SendOutcome::Sent
    } else if status == MACH_SEND_INVALID_DEST || status == MACH_SEND_TIMED_OUT || status
        == MACH_SEND_INTERRUPTED {
        SendOutcome::Recoverable(MachReplyError::MachSend(status))
    } else {
        SendOutcome::Indeterminate(status)
    }
}

/// Decides what became of a send from its status.
pub fn classify_send(status: i32) -> (r: SendOutcome)
    ensures
        r == reply_sent(status),
{
    if status == MACH_MSG_SUCCESS {
        SendOutcome::Sent
    } else if status == MACH_SEND_INVALID_DEST || status == MACH_SEND_TIMED_OUT || status
        == MACH_SEND_INTERRUPTED {
        SendOutcome::Recoverable(MachReplyError::MachSend(status))
    } else {
        SendOutcome::Indeterminate(status)
    }
}

/// The deadline under which a record is authenticated: a spawn request can only shorten the
/// service's own cap, and only by the deadline it carries. The cap is converted at `first`, the
/// chosen deadline at `second`.
pub open spec fn chosen_deadline(
    bytes: Seq<u8>,
    auth_cap: SupervisorDeadline,
    first: ClockSample,
    second: ClockSample,
) -> Result<SupervisorDeadline, SupervisorWireError> {
    match auth_cap.local_instant(first) {
        Err(error) => Err(error),
        Ok(_) => match record::parsed_header(bytes) {
            Err(error) => Err(error),
            Ok(header) => if header.kind == RecordKind::Spawn && header.payload_len
                < SPAWN_PREFIX_LEN {
                Err(SupervisorWireError::Malformed)
            } else {
                let deadline = if header.kind == RecordKind::Spawn {
                    SupervisorDeadline(bytes::le64_at(bytes, HEADER_LEN as int)).spec_earlier(
                        auth_cap,
                    )
                } else {
                    auth_cap
                };
                match deadline.local_instant(second) {
                    Err(error) => Err(error),
                    Ok(_) => Ok(deadline),
                }
            },
        },
    }
}

/// An authentication deadline never exceeds the service's cap, nor that of the spawn itself.
pub proof fn law_authentication_deadline_is_capped(
    bytes: Seq<u8>,
    auth_cap: SupervisorDeadline,
    first: ClockSample,
    second: ClockSample,
)
    ensures
        chosen_deadline(bytes, auth_cap, first, second) matches Ok(deadline) ==> {
            &&& deadline.0 <= auth_cap.0
            &&& record::parsed_header(bytes)->Ok_0.kind == RecordKind::Spawn
                ==> deadline.0 <= bytes::le64_at(
                bytes,
                HEADER_LEN as int,
            )
        },
{
}

/// The message whose digest stands for a record: the domain, the identity facts, the length and
/// the bytes.
pub open spec fn digest_message(record: RecordModel) -> Seq<u8> {
    FRAME_DIGEST_DOMAIN@ + record.audit_identity + bytes::le32(record.effective_uid)
        + bytes::le32(record.effective_gid) + bytes::le64(record.bytes.len() as u64) + record.bytes
}

impl RawMachRecord {
    /// Selects the deadline under which this record is authenticated.
    pub fn authentication_deadline(
        &self,
        auth_cap: SupervisorDeadline,
        first: ClockSample,
        second: ClockSample,
    ) -> (r: Result<SupervisorDeadline, SupervisorWireError>)
        ensures
            r == chosen_deadline(self@.bytes, auth_cap, first, second),
    {
        match auth_cap.to_local_instant(first) {
            Err(error) => {
                return Err(error);
            },
            Ok(_) => {},
        }
        let header = match decode_header(&self.bytes) {
            Ok(header) => header,
            Err(error) => {
                return Err(error);
            },
        };
        let deadline = if header.kind == RecordKind::Spawn {
            if header.payload_len < SPAWN_PREFIX_LEN {
                return Err(SupervisorWireError::Malformed);
            }
            match u64_at(&self.bytes, HEADER_LEN) {
                None => {
                    return Err(SupervisorWireError::Malformed);
                },
                Some(wire) => SupervisorDeadline::from_wire(wire).earlier(auth_cap),
            }
        } else {
            auth_cap
        };
        match deadline.to_local_instant(second) {
            Err(error) => Err(error),
            Ok(_) => Ok(deadline),
        }
    }

    /// The digest that binds a job to this record.
    pub fn frame_digest(&self) -> (r: [u8; 32])
        requires
            self@.bytes.len() <= MAX_SUPERVISOR_RECORD_BYTES,
        ensures
            r@ == digest::sha256_of(digest_message(self@)),
    {
        let mut message: Vec<u8> = Vec::new();
        put_bytes(&mut message, &FRAME_DIGEST_DOMAIN);
        put_bytes(&mut message, &self.audit_identity);
        put_u32(&mut message, self.effective_uid);
        put_u32(&mut message, self.effective_gid);
        put_u64(&mut message, self.bytes.len() as u64);
        put_bytes(&mut message, &self.bytes);
        assert(message@ =~= digest_message(self@));
        proof {
            bytes::lemma_le32(self.effective_uid);
            bytes::lemma_le32(self.effective_gid);
            bytes::lemma_le64(self.bytes@.len() as u64);
        }
        sha256(&message)
    }
}

/// Records with different identity facts or bytes have different messages under the digest.
pub proof fn law_digest_message_is_injective(a: RecordModel, b: RecordModel)
    requires
        a.audit_identity.len() == 32,
        b.audit_identity.len() == 32,
        a.bytes.len() <= u64::MAX,
        b.bytes.len() <= u64::MAX,
        digest_message(a) == digest_message(b),
    ensures
        a.audit_identity == b.audit_identity,
        a.effective_uid == b.effective_uid,
        a.effective_gid == b.effective_gid,
        a.bytes == b.bytes,
{
    let x = digest_message(a);
    let y = digest_message(b);
    bytes::lemma_le32(a.effective_uid);
    bytes::lemma_le32(b.effective_uid);
    bytes::lemma_le32(a.effective_gid);
    bytes::lemma_le32(b.effective_gid);
    bytes::lemma_le64(a.bytes.len() as u64);
    bytes::lemma_le64(b.bytes.len() as u64);
    let n = FRAME_DIGEST_DOMAIN@.len() as int;
    assert(x.subrange(n, n + 32) =~= a.audit_identity);
    assert(y.subrange(n, n + 32) =~= b.audit_identity);
    assert(x.subrange(n + 32, n + 36) =~= bytes::le32(a.effective_uid));
    assert(y.subrange(n + 32, n + 36) =~= bytes::le32(b.effective_uid));
    assert(x.subrange(n + 36, n + 40) =~= bytes::le32(a.effective_gid));
    assert(y.subrange(n + 36, n + 40) =~= bytes::le32(b.effective_gid));
    assert(x.subrange(n + 48, x.len() as int) =~= a.bytes);
    assert(y.subrange(n + 48, y.len() as int) =~= b.bytes);
}

/// A request as it arrives: the kernel has put the reply right and the service's own port into the
/// header, and a trailer behind the padded record.
pub open spec fn delivered_request(
    reply: u32,
    receive: u32,
    record: Seq<u8>,
    trailer: Seq<u8>,
) -> Seq<u8> {
    (MachMsgHeader {
        bits: 0x1112,
        size: (24 + mach::rounded(record.len() as int)) as u32,
        remote_port: reply,
        local_port: receive,
        voucher_port: 0,
        id: 0x4e49_5355,
    }).spec_bytes() + record + bytes::zeros(
        (mach::rounded(record.len() as int) - record.len()) as nat,
    ) + trailer
}

/// What a client sends arrives: every record that a client can send is read as it was sent, with
/// the reply right of its own message and the identity facts of its own trailer.
pub proof fn law_sent_requests_arrive(reply: u32, receive: u32, record: Seq<u8>, trailer: Seq<u8>)
    requires
        record::parsed_header(record) is Ok,
        reply != 0,
        mach::trailer_stands_at(trailer, 0),
    ensures
        ({
            let bytes = delivered_request(reply, receive, record, trailer);
            let token = trailer.subrange(20, 52);
            &&& canonical_request(bytes, receive)
            &&& request_in(bytes) == (RecordModel {
                audit_identity: token,
                effective_uid: mach::token_words(token)[1],
                effective_gid: mach::token_words(token)[2],
                bytes: record,
                reply,
            })
        }),
{
    let bytes = delivered_request(reply, receive, record, trailer);
    let n = record.len() as int;
    let padded = mach::rounded(n);
    let header = MachMsgHeader {
        bits: 0x1112,
        size: (24 + padded) as u32,
        remote_port: reply,
        local_port: receive,
        voucher_port: 0,
        id: 0x4e49_5355,
    };
    let padding = bytes::zeros((padded - n) as nat);
    let size = 24 + padded;
    mach::law_rounding(n, 0);
    mach::law_rounding(65536, 0);
    mach::law_rounding(n, 65536);
    mach::law_rounding(size, 0);
    assert(mach::rounded(65536) == 65536);
    mach::lemma_header_round_trip(header, record + padding + trailer);
    assert(bytes =~= header.spec_bytes() + (record + padding + trailer));
    let payload = bytes.subrange(24, size);
    assert(payload =~= record + padding);
    assert(payload.subrange(0, n) =~= record);
    bytes::lemma_le_at_subrange(payload, 0, n, 12);
    assert(logical_len(payload) == n);
    assert(bytes.subrange(size, bytes.len() as int) =~= trailer);
    bytes::lemma_le_at_subrange(bytes, size, bytes.len() as int, 0);
    bytes::lemma_le_at_subrange(bytes, size, bytes.len() as int, 4);
    assert(mach::trailer_token(bytes, size) =~= trailer.subrange(20, 52));
}

/// A receive waits until its deadline and no longer than a millisecond beyond: it waits exactly
/// where the deadline is ahead, and then as many milliseconds as begin before it.
pub proof fn law_receive_waits_for_its_deadline(
    deadline: SupervisorDeadline,
    clock: ClockSample,
    now: u64,
)
    ensures
        receive_timeout(deadline, clock, now) is Ok <==> (deadline.local_instant(
            clock,
        ) matches Ok(local) && now < local),
        receive_timeout(deadline, clock, now) matches Ok(millis) ==> {
            let left = deadline.local_instant(clock)->Ok_0 - now;
            &&& 0 < millis
            &&& millis < u32::MAX ==> left <= millis * 1_000_000
            &&& (millis - 1) * 1_000_000 < left
        },
        deadline.local_instant(clock) matches Ok(local) && local <= now ==> receive_timeout(
            deadline,
            clock,
            now,
        ) == Err::<u32, _>(SupervisorWireError::LimitExceeded),
{
}

/// A reply is any aligned payload of a record's length, and goes to the right it is for, to be
/// spent with it.
pub proof fn law_replies(payload: Seq<u8>, name: u32)
    ensures
        sendable(payload) <==> 1 <= payload.len() <= 65536 && payload.len() % 4 == 0,
        sendable(payload) ==> {
            let header = reply_header(name, payload.len());
            &&& header.bits == 0x12 && header.remote_port == name && header.local_port == 0
            &&& header.voucher_port == 0 && header.id == 0x4e49_5355
            &&& header.size == 24 + payload.len()
        },
{
}

/// The deadline of an authentication is the service's cap, and for a spawn the earlier of the cap
/// and what the spawn asks for; nothing else shortens it. There is one exactly where the cap was
/// ahead, the record is one, a spawn is long enough to carry a deadline, and the deadline is ahead.
pub proof fn law_authentication_deadline_is_exact(
    bytes: Seq<u8>,
    auth_cap: SupervisorDeadline,
    first: ClockSample,
    second: ClockSample,
)
    ensures
        ({
            let chosen = chosen_deadline(bytes, auth_cap, first, second);
            let asked = bytes::le64_at(bytes, 96);
            match record::parsed_header(bytes) {
                Err(error) => auth_cap.local_instant(first) is Ok ==> chosen == Err::<
                    SupervisorDeadline,
                    _,
                >(error),
                Ok(header) => {
                    let spawn = header.kind == RecordKind::Spawn;
                    let deadline = if spawn && asked < auth_cap.0 {
                        SupervisorDeadline(asked)
                    } else {
                        auth_cap
                    };
                    &&& chosen is Ok <==> auth_cap.local_instant(first) is Ok && (spawn
                        ==> header.payload_len >= 16) && deadline.local_instant(second) is Ok
                    &&& chosen is Ok ==> chosen == Ok::<_, SupervisorWireError>(deadline)
                },
            }
        }),
{
}

/// A payload is a record with its own padding exactly where padding a record gives it.
pub proof fn law_padding_is_exact(record: Seq<u8>, padding: Seq<u8>)
    requires
        record::parsed_header(record) is Ok,
    ensures
        exactly_padded(record + padding) <==> (record.len() + padding.len()) % 4 == 0
            && padding.len() < 4 && forall|i: int| 0 <= i < padding.len() ==> padding[i] == 0,
{
    let n = record.len() as int;
    let whole = record + padding;
    assert(whole.subrange(0, n) =~= record);
    bytes::lemma_le_at_subrange(whole, 0, n, 12);
    assert(logical_len(whole) == n);
    assert(whole.subrange(n, whole.len() as int) =~= padding);
    mach::law_rounding(n, 0);
}

/// A receive is read exactly where it succeeded, and repeated only after an interruption, or after
/// a timeout while the deadline is ahead; anything else is told.
pub proof fn law_receiving_is_patient<WorkerFailure>(
    status: i32,
    deadline: SupervisorDeadline,
    clock: ClockSample,
)
    ensures
        ({
            let step = request_received::<WorkerFailure>(status, deadline, clock);
            let ahead = deadline.local_instant(clock) is Ok;
            &&& step is Read <==> status == 0
            &&& step is Again <==> status == 0x1000_4005 || (status == 0x1000_4003 && ahead)
            &&& status == 0x1000_4003 && !ahead ==> step == ReceiveStep::<WorkerFailure>::Failed(
                AuthAdapterError::DeadlineExpired,
            )
            &&& status == 0x1000_4004 ==> step == ReceiveStep::<WorkerFailure>::Failed(
                AuthAdapterError::RecordTooLarge,
            )
            &&& status != 0 && status != 0x1000_4003 && status != 0x1000_4004 && status
                != 0x1000_4005 ==> step == ReceiveStep::<WorkerFailure>::Failed(
                AuthAdapterError::MachReceive(status),
            )
        }),
{
}

/// A reply was sent exactly where its send succeeded, and certainly was not where its receiver is
/// gone, it timed out or was interrupted; of anything else nothing is known. The status is told.
pub proof fn law_sends_are_classified(status: i32)
    ensures
        reply_sent(status) == SendOutcome::Sent <==> status == 0,
        reply_sent(status) is Recoverable <==> status == 0x1000_0003 || status == 0x1000_0004
            || status == 0x1000_0007,
        reply_sent(status) matches SendOutcome::Recoverable(error) ==> error
            == MachReplyError::MachSend(status),
        reply_sent(status) matches SendOutcome::Indeterminate(told) ==> told == status,
{
}

} // verus!
