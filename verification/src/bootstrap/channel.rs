//! The two ends of an authenticated channel, and the transfers that are under way on it.

use vstd::prelude::*;
use crate::bytes;
use crate::bytes::is_all_zero;
use crate::mach::{AuditToken, MACH_PORT_NULL};
use crate::bootstrap::environment;
use crate::bootstrap::environment::ChildEnvironment;
use crate::bootstrap::error;
use crate::bootstrap::error::{
    bootstrap_lifecycle_error, mach, BootstrapError, SessionTransportError,
};
use crate::bootstrap::port;
use crate::bootstrap::port::{encode_port_message, MACH_MSG_TYPE_MAKE_SEND, MAX_TRANSCRIPT_BYTES};
use crate::bootstrap::vnext;
use crate::bootstrap::vnext::{
    encode_vnext_message, parse_vnext_message, ReceivedVnextRecord, SendRight, VnextModel,
    VnextRecordKind, MACH_MSG_TYPE_COPY_SEND,
};

verus! {

/// Refuses a nonce of zeros.
pub fn checked_nonce(nonce: [u8; 32]) -> (r: Result<[u8; 32], BootstrapError>)
    ensures
        r == (if bytes::all_zero(nonce@) {
            Err(BootstrapError::InvalidEnvironment)
        } else {
            Ok(nonce)
        }),
{
    if is_all_zero(&nonce) {
        Err(BootstrapError::InvalidEnvironment)
    } else {
        Ok(nonce)
    }
}

/// A record that carries capabilities.
#[derive(Debug, PartialEq, Eq)]
pub struct VnextCapabilityRecord {
    pub bytes: Vec<u8>,
    pub rights: Vec<SendRight>,
}

/// Why a record was refused, and the rights that came with it and have to be released.
#[derive(Debug, PartialEq, Eq)]
pub struct RefusedRecord {
    pub error: SessionTransportError,
    pub rights: Vec<SendRight>,
}

/// Whether a record is one without rights.
pub open spec fn without_rights(record: VnextModel) -> bool {
    record.kind == VnextRecordKind::ZeroRights && record.rights.len() == 0
}

/// Whether a record is one with rights.
pub open spec fn with_rights(record: VnextModel) -> bool {
    record.kind == VnextRecordKind::Capabilities && record.rights.len() > 0
}

/// Accepts a record without rights.
fn accept_zero_rights(record: ReceivedVnextRecord) -> (r: Result<Vec<u8>, RefusedRecord>)
    ensures
        match r {
            Ok(payload) => without_rights(record@) && payload@ == record@.payload,
            Err(refused) => {
                &&& !without_rights(record@)
                &&& refused.error == SessionTransportError::MalformedRecord
                &&& vnext::names(refused.rights@) == record@.rights
            },
        },
{
    if record.kind != VnextRecordKind::ZeroRights || record.rights.len() != 0 {
        return Err(
            RefusedRecord { error: SessionTransportError::MalformedRecord, rights: record.rights },
        );
    }
    Ok(record.bytes)
}

/// Accepts a record with rights.
fn accept_capabilities(record: ReceivedVnextRecord) -> (r: Result<
    VnextCapabilityRecord,
    RefusedRecord,
>)
    ensures
        match r {
            Ok(accepted) => {
                &&& with_rights(record@)
                &&& accepted.bytes@ == record@.payload
                &&& vnext::names(accepted.rights@) == record@.rights
            },
            Err(refused) => {
                &&& !with_rights(record@)
                &&& refused.error == SessionTransportError::MalformedRecord
                &&& vnext::names(refused.rights@) == record@.rights
            },
        },
{
    if record.kind != VnextRecordKind::Capabilities || record.rights.len() == 0 {
        return Err(
            RefusedRecord { error: SessionTransportError::MalformedRecord, rights: record.rights },
        );
    }
    Ok(VnextCapabilityRecord { bytes: record.bytes, rights: record.rights })
}

/// The end of a channel: ports, nonce and peer, and the transfers since the last commit.
#[verifier::ext_equal]
pub struct ChannelModel {
    pub peer_send: u32,
    pub receive: u32,
    pub nonce: Seq<u8>,
    pub peer_pid: u32,
    pub peer_audit: Option<AuditToken>,
    pub pending: Seq<Seq<u8>>,
    pub channel_id: u64,
    pub next_transfer_id: u64,
    pub poisoned: bool,
}

impl ChannelModel {
    /// A channel on which nothing has been transferred.
    pub open spec fn fresh(
        peer_send: u32,
        receive: u32,
        nonce: Seq<u8>,
        peer_pid: u32,
        peer_audit: Option<AuditToken>,
        channel_id: u64,
    ) -> ChannelModel {
        ChannelModel {
            peer_send,
            receive,
            nonce,
            peer_pid,
            peer_audit,
            pending: seq![],
            channel_id,
            next_transfer_id: 1,
            poisoned: false,
        }
    }

    /// The record that a delivered message holds for this end.
    pub open spec fn reads(self, message: Seq<u8>, maximum: int) -> Result<
        VnextModel,
        SessionTransportError,
    > {
        vnext::parsed_vnext(
            message,
            self.receive,
            self.nonce,
            self.peer_pid,
            self.peer_audit,
            maximum,
        )
    }

    /// The channel after one transfer: the entry is pending, or the channel is poisoned.
    pub open spec fn after_transfer(
        self,
        entry: Seq<u8>,
        outcome: Result<(), BootstrapError>,
    ) -> ChannelModel {
        match outcome {
            Ok(()) => ChannelModel { pending: self.pending.push(entry), ..self },
            Err(_) => ChannelModel { poisoned: true, ..self },
        }
    }

    /// What a commit amounts to: a poisoned channel commits nothing, and transfer numbers do not
    /// wrap.
    pub open spec fn commit_result(self, outcome: Result<(), BootstrapError>) -> Result<
        (),
        BootstrapError,
    > {
        if self.poisoned {
            Err(BootstrapError::InvalidMessage)
        } else {
            match outcome {
                Err(error) => Err(error),
                Ok(()) => if self.next_transfer_id == u64::MAX {
                    Err(BootstrapError::InvalidMessage)
                } else {
                    Ok(())
                },
            }
        }
    }

    /// The channel after a commit: nothing is pending and the next transfer begins, or the channel
    /// is poisoned.
    pub open spec fn after_commit(self, outcome: Result<(), BootstrapError>) -> ChannelModel {
        if self.commit_result(outcome) is Ok {
            ChannelModel {
                pending: seq![],
                next_transfer_id: (self.next_transfer_id + 1) as u64,
                ..self
            }
        } else if outcome is Ok && !self.poisoned {
            ChannelModel { pending: seq![], poisoned: true, ..self }
        } else {
            ChannelModel { poisoned: true, ..self }
        }
    }
}

/// A poisoned channel never commits again, and stays poisoned whatever happens on it.
pub proof fn law_poison_is_final(
    channel: ChannelModel,
    entry: Seq<u8>,
    outcome: Result<(), BootstrapError>,
)
    requires
        channel.poisoned,
    ensures
        channel.commit_result(outcome) == Err::<(), _>(BootstrapError::InvalidMessage),
        channel.after_transfer(entry, outcome).poisoned,
        channel.after_commit(outcome).poisoned,
{
}

/// Each commit opens a transaction with a number of its own: the stamp of what was pending before
/// a commit never fits the transaction after it, and a failed transfer leaves no way to commit.
pub proof fn law_transactions_are_numbered(
    channel: ChannelModel,
    entry: Seq<u8>,
    outcome: Result<(), BootstrapError>,
    later: Result<(), BootstrapError>,
)
    ensures
        channel.commit_result(outcome) is Ok ==> {
            &&& channel.after_commit(outcome).next_transfer_id == channel.next_transfer_id + 1
            &&& channel.after_commit(outcome).pending.len() == 0
        },
        outcome is Err ==> channel.after_transfer(entry, outcome).commit_result(later) is Err,
{
}

/// Process that has to be terminated because its channel failed; zero for none.
pub struct ChannelFailure {
    pub error: BootstrapError,
    pub terminate: u32,
}

/// Parent side of an authenticated channel.
pub struct ParentChannel {
    peer_send: SendRight,
    receive: u32,
    nonce: [u8; 32],
    peer_pid: u32,
    peer_audit: Option<AuditToken>,
    reaped: bool,
    pending_entries: Vec<Vec<u8>>,
    channel_id: u64,
    next_transfer_id: u64,
    poisoned: bool,
}

impl View for ParentChannel {
    type V = ChannelModel;

    closed spec fn view(&self) -> ChannelModel {
        ChannelModel {
            peer_send: self.peer_send.0,
            receive: self.receive,
            nonce: self.nonce@,
            peer_pid: self.peer_pid,
            peer_audit: self.peer_audit,
            pending: bytes::strings(self.pending_entries@),
            channel_id: self.channel_id,
            next_transfer_id: self.next_transfer_id,
            poisoned: self.poisoned,
        }
    }
}

impl ParentChannel {
    /// Whether the helper needs no cleanup by this channel.
    pub closed spec fn spec_reaped(&self) -> bool {
        self.reaped
    }

    /// Kernel-authenticated process of the helper.
    pub fn peer_pid(&self) -> (r: u32)
        ensures
            r == self@.peer_pid,
    {
        self.peer_pid
    }

    /// Nonce of the channel.
    pub fn vnext_nonce(&self) -> (r: [u8; 32])
        ensures
            r@ == self@.nonce,
    {
        self.nonce
    }

    /// Encodes a record without rights.
    pub fn encode_zero_rights(&self, bytes: &[u8]) -> (r: Result<Vec<u8>, SessionTransportError>)
        ensures
            match (r, vnext::checked_record(VnextRecordKind::ZeroRights, bytes@, seq![], false)) {
                (Ok(message), Ok(())) => message@ == vnext::sent_header(
                    self@.peer_send,
                    0,
                    bytes@.len(),
                ).spec_bytes() + vnext::vnext_body(
                    self@.nonce,
                    VnextRecordKind::ZeroRights,
                    bytes@,
                    seq![],
                    MACH_MSG_TYPE_COPY_SEND,
                ),
                (Err(error), Err(expected)) => error == expected,
                _ => false,
            },
    {
        let none: [u32; 0] = [];
        assert(none@ =~= seq![]);
        encode_vnext_message(
            self.peer_send.0,
            &self.nonce,
            VnextRecordKind::ZeroRights,
            bytes,
            &none,
            false,
        )
    }

    /// Encodes a record with rights.
    pub fn encode_capabilities(&self, bytes: &[u8], rights: &[u32]) -> (r: Result<
        Vec<u8>,
        SessionTransportError,
    >)
        ensures
            match (
                r,
                vnext::checked_record(VnextRecordKind::Capabilities, bytes@, rights@, false),
            ) {
                (Ok(message), Ok(())) => message@ == vnext::sent_header(
                    self@.peer_send,
                    rights@.len(),
                    bytes@.len(),
                ).spec_bytes() + vnext::vnext_body(
                    self@.nonce,
                    VnextRecordKind::Capabilities,
                    bytes@,
                    rights@,
                    MACH_MSG_TYPE_COPY_SEND,
                ),
                (Err(error), Err(expected)) => error == expected,
                _ => false,
            },
    {
        encode_vnext_message(
            self.peer_send.0,
            &self.nonce,
            VnextRecordKind::Capabilities,
            bytes,
            rights,
            false,
        )
    }

    /// Reads a delivered record that has to be without rights.
    pub fn receive_zero_rights(&self, message: &[u8], maximum: usize) -> (r: Result<
        Vec<u8>,
        RefusedRecord,
    >)
        ensures
            match self@.reads(message@, maximum as int) {
                Err(expected) => r matches Err(refused) && refused.error == expected
                    && refused.rights@.len() == 0,
                Ok(record) => match r {
                    Ok(payload) => without_rights(record) && payload@ == record.payload,
                    Err(refused) => {
                        &&& !without_rights(record)
                        &&& refused.error == SessionTransportError::MalformedRecord
                        &&& vnext::names(refused.rights@) == record.rights
                    },
                },
            },
    {
        match parse_vnext_message(
            message,
            self.receive,
            &self.nonce,
            self.peer_pid,
            self.peer_audit,
            maximum,
        ) {
            Err(error) => Err(RefusedRecord { error, rights: Vec::new() }),
            Ok(record) => accept_zero_rights(record),
        }
    }

    /// Reads a delivered record that has to be with rights.
    pub fn receive_capabilities(&self, message: &[u8], maximum: usize) -> (r: Result<
        VnextCapabilityRecord,
        RefusedRecord,
    >)
        ensures
            match self@.reads(message@, maximum as int) {
                Err(expected) => r matches Err(refused) && refused.error == expected
                    && refused.rights@.len() == 0,
                Ok(record) => match r {
                    Ok(accepted) => {
                        &&& with_rights(record)
                        &&& accepted.bytes@ == record.payload
                        &&& vnext::names(accepted.rights@) == record.rights
                    },
                    Err(refused) => {
                        &&& !with_rights(record)
                        &&& refused.error == SessionTransportError::MalformedRecord
                        &&& vnext::names(refused.rights@) == record.rights
                    },
                },
            },
    {
        match parse_vnext_message(
            message,
            self.receive,
            &self.nonce,
            self.peer_pid,
            self.peer_audit,
            maximum,
        ) {
            Err(error) => Err(RefusedRecord { error, rights: Vec::new() }),
            Ok(record) => accept_capabilities(record),
        }
    }

    /// Encodes the message that moves one right to the helper under the agreed transcript.
    pub fn encode_transfer(&self, port: u32, transcript: &[u8]) -> (r: Vec<u8>)
        requires
            transcript@.len() <= MAX_TRANSCRIPT_BYTES,
        ensures
            r@ == port::port_header(self@.peer_send, transcript@.len()).spec_bytes()
                + port::port_body(port, MACH_MSG_TYPE_COPY_SEND, self@.nonce, transcript@),
    {
        encode_port_message(
            self.peer_send.0,
            port,
            MACH_MSG_TYPE_COPY_SEND,
            &self.nonce,
            transcript,
        )
    }

    /// Records one transfer. A failure poisons the channel, and gives the process to terminate.
    pub fn send(&mut self, entry: Vec<u8>, outcome: Result<(), BootstrapError>) -> (r: Result<
        (),
        ChannelFailure,
    >)
        ensures
            final(self)@ == old(self)@.after_transfer(entry@, outcome),
            match (r, outcome) {
                (Ok(()), Ok(())) => final(self).spec_reaped() == old(self).spec_reaped(),
                (Err(failure), Err(error)) => {
                    &&& failure.error == error
                    &&& failure.terminate == (if old(self).spec_reaped() {
                        0
                    } else {
                        old(self)@.peer_pid
                    })
                    &&& final(self).spec_reaped()
                },
                _ => false,
            },
    {
        match outcome {
            Ok(()) => {
                let ghost before = bytes::strings(self.pending_entries@);
                self.pending_entries.push(entry);
                assert(bytes::strings(self.pending_entries@) =~= before.push(entry@));
                Ok(())
            },
            Err(error) => {
                let terminate: u32 = self.poison();
                Err(ChannelFailure { error, terminate })
            },
        }
    }

    /// Whether the pending transfers may be committed.
    pub fn may_commit(&self) -> (r: Result<(), BootstrapError>)
        ensures
            r == (if self@.poisoned {
                Err(BootstrapError::InvalidMessage)
            } else {
                Ok(())
            }),
    {
        if self.poisoned {
            Err(BootstrapError::InvalidMessage)
        } else {
            Ok(())
        }
    }

    /// What the manifest of the pending transfers is made of: the nonce, the process of the helper,
    /// the number of the transaction, and the entries in the order of their transfers. A poisoned
    /// channel has none.
    pub fn batch_parts(&self) -> (r: Result<([u8; 32], u32, u64, &Vec<Vec<u8>>), BootstrapError>)
        ensures
            match r {
                Err(error) => self@.poisoned && error == BootstrapError::InvalidMessage,
                Ok((nonce, pid, transfer, entries)) => {
                    &&& !self@.poisoned
                    &&& nonce@ == self@.nonce
                    &&& pid == self@.peer_pid
                    &&& transfer == self@.next_transfer_id
                    &&& bytes::strings(entries@) == self@.pending
                },
            },
    {
        match self.may_commit() {
            Err(error) => Err(error),
            Ok(()) => Ok(
                (self.nonce, self.peer_pid, self.next_transfer_id, &self.pending_entries),
            ),
        }
    }

    /// Records the exchange of ready and commit. A failure poisons the channel, and gives the
    /// process to terminate.
    pub fn ready_and_commit(&mut self, outcome: Result<(), BootstrapError>) -> (r: Result<
        (),
        ChannelFailure,
    >)
        ensures
            final(self)@ == old(self)@.after_commit(outcome),
            match (r, old(self)@.commit_result(outcome)) {
                (Ok(()), Ok(())) => final(self).spec_reaped() == old(self).spec_reaped(),
                (Err(failure), Err(error)) => {
                    &&& failure.error == error
                    &&& failure.terminate == (if old(self).spec_reaped() {
                        0
                    } else {
                        old(self)@.peer_pid
                    })
                    &&& final(self).spec_reaped()
                },
                _ => false,
            },
    {
        match self.may_commit() {
            Err(error) => {
                let terminate: u32 = self.poison();
                return Err(ChannelFailure { error, terminate });
            },
            Ok(()) => {},
        }
        match outcome {
            Err(error) => {
                let terminate: u32 = self.poison();
                return Err(ChannelFailure { error, terminate });
            },
            Ok(()) => {},
        }
        self.pending_entries = Vec::new();
        assert(bytes::strings(self.pending_entries@) =~= seq![]);
        match self.next_transfer_id.checked_add(1) {
            None => {
                let terminate: u32 = self.poison();
                Err(ChannelFailure { error: BootstrapError::InvalidMessage, terminate })
            },
            Some(next) => {
                self.next_transfer_id = next;
                Ok(())
            },
        }
    }

    /// Records the wait for the helper's normal end.
    pub fn wait(&mut self, result: i64, status: i32) -> (r: Result<(), BootstrapError>)
        ensures
            final(self)@ == old(self)@,
            final(self).spec_reaped() == (result == old(self)@.peer_pid),
            r == (if result == old(self)@.peer_pid && status == 0 {
                Ok(())
            } else {
                Err(BootstrapError::Spawn(status))
            }),
    {
        self.reaped = result == self.peer_pid as i64;
        if self.reaped && status == 0 {
            Ok(())
        } else {
            Err(BootstrapError::Spawn(status))
        }
    }

    fn poison(&mut self) -> (r: u32)
        ensures
            final(self)@ == (ChannelModel { poisoned: true, ..old(self)@ }),
            final(self).spec_reaped(),
            r == (if old(self).spec_reaped() {
                0
            } else {
                old(self)@.peer_pid
            }),
    {
        self.poisoned = true;
        if self.reaped {
            0
        } else {
            self.reaped = true;
            self.peer_pid
        }
    }

    /// Poisons the open transaction, and gives the process to terminate; zero for none.
    pub fn poison_transaction(&mut self) -> (r: u32)
        ensures
            final(self)@ == (ChannelModel { poisoned: true, ..old(self)@ }),
            final(self).spec_reaped(),
            r == (if old(self).spec_reaped() {
                0
            } else {
                old(self)@.peer_pid
            }),
    {
        self.poison()
    }

    /// Whether the helper has to be terminated when the channel goes away.
    pub fn owes_cleanup(&self) -> (r: bool)
        ensures
            r == !self.spec_reaped(),
    {
        !self.reaped
    }

    /// Stamp that binds pending values to the open transaction of this channel.
    pub fn pending_provenance(&self) -> (r: (u64, u64))
        ensures
            r == (self@.channel_id, self@.next_transfer_id),
    {
        (self.channel_id, self.next_transfer_id)
    }
}

/// A spawned helper that has not been authenticated.
pub struct SpawnedHelper {
    pid: u32,
    nonce: [u8; 32],
    receive: Option<u32>,
    exact: bool,
}

/// What is known of a helper: its process, the nonce and port it was given, and whether an exact
/// lifecycle owns it.
#[verifier::ext_equal]
pub struct HelperModel {
    pub pid: u32,
    pub nonce: Seq<u8>,
    pub receive: Option<u32>,
    pub exact: bool,
}

impl View for SpawnedHelper {
    type V = HelperModel;

    closed spec fn view(&self) -> HelperModel {
        HelperModel {
            pid: self.pid,
            nonce: self.nonce@,
            receive: self.receive,
            exact: self.exact,
        }
    }
}

impl SpawnedHelper {
    /// Takes a helper that was just spawned.
    pub fn spawned(pid: u32, nonce: [u8; 32], receive: u32, exact: bool) -> (r: SpawnedHelper)
        ensures
            r@ == (HelperModel { pid, nonce: nonce@, receive: Some(receive), exact }),
    {
        SpawnedHelper { pid, nonce, receive: Some(receive), exact }
    }

    /// Process of the helper.
    pub fn pid(&self) -> (r: u32)
        ensures
            r == self@.pid,
    {
        self.pid
    }

    /// Takes the helper's control port, as its authenticated message brought it. A failure gives
    /// the process to terminate.
    pub fn authenticate(
        self,
        received: Result<(SendRight, AuditToken), BootstrapError>,
        channel_id: u64,
    ) -> (r: Result<ParentChannel, ChannelFailure>)
        ensures
            match (self@.receive, received, r) {
                (None, _, Err(failure)) => failure.error == BootstrapError::InvalidMessage
                    && failure.terminate == (if self@.exact {
                    0
                } else {
                    self@.pid
                }),
                (Some(_), Err(error), Err(failure)) => failure.error == error && failure.terminate
                    == self@.pid,
                (Some(receive), Ok((right, _)), Ok(channel)) => {
                    &&& channel@ == ChannelModel::fresh(
                        right.0,
                        receive,
                        self@.nonce,
                        self@.pid,
                        None,
                        channel_id,
                    )
                    &&& !channel.spec_reaped()
                },
                _ => false,
            },
    {
        let receive = match self.receive {
            None => {
                let terminate: u32 = if self.exact {
                    0
                } else {
                    self.pid
                };
                return Err(
                    ChannelFailure { error: BootstrapError::InvalidMessage, terminate },
                );
            },
            Some(receive) => receive,
        };
        match received {
            Err(error) => Err(ChannelFailure { error, terminate: self.pid }),
            Ok((peer_send, _)) => {
                let channel = ParentChannel {
                    peer_send,
                    receive,
                    nonce: self.nonce,
                    peer_pid: self.pid,
                    peer_audit: None,
                    reaped: false,
                    pending_entries: Vec::new(),
                    channel_id,
                    next_transfer_id: 1,
                    poisoned: false,
                };
                assert(bytes::strings(channel.pending_entries@) =~= seq![]);
                Ok(channel)
            },
        }
    }

    /// Takes the control port of a helper that an exact lifecycle owns, and pins the execution
    /// that sent it. `installed` is the lifecycle's own judgement of that execution. On failure
    /// the lifecycle cleans up.
    pub fn authenticate_vnext(
        self,
        received: Result<(SendRight, AuditToken), BootstrapError>,
        installed: Result<(), SessionTransportError>,
        channel_id: u64,
    ) -> (r: Result<ParentChannel, BootstrapError>)
        ensures
            match (self@.receive, received) {
                (Some(receive), Ok((right, audit))) => if !self@.exact {
                    r matches Err(error) && error == BootstrapError::InvalidMessage
                } else {
                    match installed {
                        Err(refused) => r matches Err(error)
                            && error == error::as_bootstrap(refused),
                        Ok(()) => r matches Ok(channel) && {
                            &&& channel@ == ChannelModel::fresh(
                                right.0,
                                receive,
                                self@.nonce,
                                self@.pid,
                                Some(audit),
                                channel_id,
                            )
                            &&& channel.spec_reaped()
                        },
                    }
                },
                (Some(_), Err(expected)) => r matches Err(error) && error == (if self@.exact {
                    expected
                } else {
                    BootstrapError::InvalidMessage
                }),
                (None, _) => r matches Err(error) && error == BootstrapError::InvalidMessage,
            },
    {
        let receive = match self.receive {
            None => {
                return Err(BootstrapError::InvalidMessage);
            },
            Some(receive) => receive,
        };
        if !self.exact {
            return Err(BootstrapError::InvalidMessage);
        }
        let (peer_send, audit) = match received {
            Err(error) => {
                return Err(error);
            },
            Ok(received) => received,
        };
        match installed {
            Err(error) => Err(bootstrap_lifecycle_error(error)),
            Ok(()) => {
                let channel = ParentChannel {
                    peer_send,
                    receive,
                    nonce: self.nonce,
                    peer_pid: self.pid,
                    peer_audit: Some(audit),
                    reaped: true,
                    pending_entries: Vec::new(),
                    channel_id,
                    next_transfer_id: 1,
                    poisoned: false,
                };
                assert(bytes::strings(channel.pending_entries@) =~= seq![]);
                Ok(channel)
            },
        }
    }

    /// Whether the helper has to be terminated when it goes away unauthenticated.
    pub fn owes_cleanup(&self) -> (r: bool)
        ensures
            r == (!self@.exact && self@.pid > 0),
    {
        !self.exact && self.pid > 0
    }
}

/// Child side of the channel.
pub struct ChildChannel {
    parent_send: SendRight,
    receive: u32,
    nonce: [u8; 32],
    parent_pid: u32,
    parent_audit: Option<AuditToken>,
    pending_entries: Vec<Vec<u8>>,
    channel_id: u64,
    next_transfer_id: u64,
    poisoned: bool,
}

impl View for ChildChannel {
    type V = ChannelModel;

    closed spec fn view(&self) -> ChannelModel {
        ChannelModel {
            peer_send: self.parent_send.0,
            receive: self.receive,
            nonce: self.nonce@,
            peer_pid: self.parent_pid,
            peer_audit: self.parent_audit,
            pending: bytes::strings(self.pending_entries@),
            channel_id: self.channel_id,
            next_transfer_id: self.next_transfer_id,
            poisoned: self.poisoned,
        }
    }
}

/// The parent's port, as the special port lookup gave it.
pub open spec fn parent_port(status: i32, port: u32) -> Result<u32, BootstrapError> {
    if status != 0 {
        Err(BootstrapError::Mach { operation: "task_get_special_port", code: status })
    } else if port == MACH_PORT_NULL {
        Err(BootstrapError::InvalidEnvironment)
    } else {
        Ok(port)
    }
}

impl ChildChannel {
    /// Connects to the parent that the environment names: the special port has to be there, and a
    /// receive right of this process. The result is the channel and the one message that brings
    /// the parent a right to it, under the transcript of a fresh channel.
    pub fn connect_from_environment(
        environment: &ChildEnvironment,
        special_status: i32,
        special_port: u32,
        receive: Result<u32, BootstrapError>,
        transcript: &[u8],
        channel_id: u64,
    ) -> (r: Result<(ChildChannel, Vec<u8>), BootstrapError>)
        requires
            transcript@.len() <= MAX_TRANSCRIPT_BYTES,
        ensures
            match (environment.says(), parent_port(special_status, special_port), receive) {
                (None, _, _) => r matches Err(error) && error
                    == BootstrapError::InvalidEnvironment,
                (Some(_), Err(expected), _) => r matches Err(error) && error == expected,
                (Some(_), Ok(_), Err(expected)) => r matches Err(error) && error == expected,
                (Some((nonce, pid)), Ok(port), Ok(own)) => r matches Ok((channel, message)) && {
                    &&& channel@ == ChannelModel::fresh(port, own, nonce, pid, None, channel_id)
                    &&& message@ == port::port_header(port, transcript@.len()).spec_bytes()
                        + port::port_body(own, MACH_MSG_TYPE_MAKE_SEND, nonce, transcript@)
                },
            },
    {
        let (nonce, parent_pid) = match environment.parse() {
            Ok(found) => found,
            Err(error) => {
                return Err(error);
            },
        };
        match mach("task_get_special_port", special_status) {
            Err(error) => {
                return Err(error);
            },
            Ok(()) => {},
        }
        if special_port == MACH_PORT_NULL {
            return Err(BootstrapError::InvalidEnvironment);
        }
        let receive = match receive {
            Ok(receive) => receive,
            Err(error) => {
                return Err(error);
            },
        };
        let message = encode_port_message(
            special_port,
            receive,
            MACH_MSG_TYPE_MAKE_SEND,
            &nonce,
            transcript,
        );
        let channel = ChildChannel {
            parent_send: SendRight(special_port),
            receive,
            nonce,
            parent_pid,
            parent_audit: None,
            pending_entries: Vec::new(),
            channel_id,
            next_transfer_id: 1,
            poisoned: false,
        };
        assert(bytes::strings(channel.pending_entries@) =~= seq![]);
        Ok((channel, message))
    }

    /// Nonce of the channel.
    pub fn vnext_nonce(&self) -> (r: [u8; 32])
        ensures
            r@ == self@.nonce,
    {
        self.nonce
    }

    /// Process of the parent.
    pub fn vnext_parent_pid(&self) -> (r: u32)
        ensures
            r == self@.peer_pid,
    {
        self.parent_pid
    }

    /// Encodes a record without rights.
    pub fn encode_zero_rights(&self, bytes: &[u8]) -> (r: Result<Vec<u8>, SessionTransportError>)
        ensures
            match (r, vnext::checked_record(VnextRecordKind::ZeroRights, bytes@, seq![], false)) {
                (Ok(message), Ok(())) => message@ == vnext::sent_header(
                    self@.peer_send,
                    0,
                    bytes@.len(),
                ).spec_bytes() + vnext::vnext_body(
                    self@.nonce,
                    VnextRecordKind::ZeroRights,
                    bytes@,
                    seq![],
                    MACH_MSG_TYPE_COPY_SEND,
                ),
                (Err(error), Err(expected)) => error == expected,
                _ => false,
            },
    {
        let none: [u32; 0] = [];
        assert(none@ =~= seq![]);
        encode_vnext_message(
            self.parent_send.0,
            &self.nonce,
            VnextRecordKind::ZeroRights,
            bytes,
            &none,
            false,
        )
    }

    /// Encodes a record with rights.
    pub fn encode_capabilities(&self, bytes: &[u8], rights: &[u32]) -> (r: Result<
        Vec<u8>,
        SessionTransportError,
    >)
        ensures
            match (
                r,
                vnext::checked_record(VnextRecordKind::Capabilities, bytes@, rights@, false),
            ) {
                (Ok(message), Ok(())) => message@ == vnext::sent_header(
                    self@.peer_send,
                    rights@.len(),
                    bytes@.len(),
                ).spec_bytes() + vnext::vnext_body(
                    self@.nonce,
                    VnextRecordKind::Capabilities,
                    bytes@,
                    rights@,
                    MACH_MSG_TYPE_COPY_SEND,
                ),
                (Err(error), Err(expected)) => error == expected,
                _ => false,
            },
    {
        encode_vnext_message(
            self.parent_send.0,
            &self.nonce,
            VnextRecordKind::Capabilities,
            bytes,
            rights,
            false,
        )
    }

    /// Reads a delivered record, and pins the execution of the parent that sent the first one.
    fn receive_record(&mut self, message: &[u8], maximum: usize) -> (r: Result<
        ReceivedVnextRecord,
        SessionTransportError,
    >)
        ensures
            final(self)@ == old(self)@.pinned_by(message@, maximum as int),
            match (r, old(self)@.reads(message@, maximum as int)) {
                (Ok(record), Ok(model)) => record@ == model,
                (Err(error), Err(expected)) => error == expected,
                _ => false,
            },
    {
        match parse_vnext_message(
            message,
            self.receive,
            &self.nonce,
            self.parent_pid,
            self.parent_audit,
            maximum,
        ) {
            Err(error) => Err(error),
            Ok(record) => {
                proof {
                    lemma_token_of_words(record.audit);
                }
                if self.parent_audit.is_none() {
                    self.parent_audit = Some(record.audit);
                }
                Ok(record)
            },
        }
    }

    /// Reads a delivered record that has to be without rights.
    pub fn receive_zero_rights(&mut self, message: &[u8], maximum: usize) -> (r: Result<
        Vec<u8>,
        RefusedRecord,
    >)
        ensures
            final(self)@ == old(self)@.pinned_by(message@, maximum as int),
            match old(self)@.reads(message@, maximum as int) {
                Err(expected) => r matches Err(refused) && refused.error == expected
                    && refused.rights@.len() == 0,
                Ok(record) => match r {
                    Ok(payload) => without_rights(record) && payload@ == record.payload,
                    Err(refused) => {
                        &&& !without_rights(record)
                        &&& refused.error == SessionTransportError::MalformedRecord
                        &&& vnext::names(refused.rights@) == record.rights
                    },
                },
            },
    {
        match self.receive_record(message, maximum) {
            Err(error) => Err(RefusedRecord { error, rights: Vec::new() }),
            Ok(record) => accept_zero_rights(record),
        }
    }

    /// Reads a delivered record that has to be with rights.
    pub fn receive_capabilities(&mut self, message: &[u8], maximum: usize) -> (r: Result<
        VnextCapabilityRecord,
        RefusedRecord,
    >)
        ensures
            final(self)@ == old(self)@.pinned_by(message@, maximum as int),
            match old(self)@.reads(message@, maximum as int) {
                Err(expected) => r matches Err(refused) && refused.error == expected
                    && refused.rights@.len() == 0,
                Ok(record) => match r {
                    Ok(accepted) => {
                        &&& with_rights(record)
                        &&& accepted.bytes@ == record.payload
                        &&& vnext::names(accepted.rights@) == record.rights
                    },
                    Err(refused) => {
                        &&& !with_rights(record)
                        &&& refused.error == SessionTransportError::MalformedRecord
                        &&& vnext::names(refused.rights@) == record.rights
                    },
                },
            },
    {
        match self.receive_record(message, maximum) {
            Err(error) => Err(RefusedRecord { error, rights: Vec::new() }),
            Ok(record) => accept_capabilities(record),
        }
    }

    /// Records one transfer from the parent. A failure poisons the channel.
    pub fn receive(&mut self, entry: Vec<u8>, outcome: Result<SendRight, BootstrapError>) -> (r:
        Result<SendRight, BootstrapError>)
        ensures
            r == outcome,
            final(self)@ == old(self)@.after_transfer(
                entry@,
                match outcome {
                    Ok(_) => Ok(()),
                    Err(error) => Err(error),
                },
            ),
    {
        match outcome {
            Ok(right) => {
                let ghost before = bytes::strings(self.pending_entries@);
                self.pending_entries.push(entry);
                assert(bytes::strings(self.pending_entries@) =~= before.push(entry@));
                Ok(right)
            },
            Err(error) => {
                self.poisoned = true;
                Err(error)
            },
        }
    }

    /// Whether the pending transfers may be committed.
    pub fn may_commit(&self) -> (r: Result<(), BootstrapError>)
        ensures
            r == (if self@.poisoned {
                Err(BootstrapError::InvalidMessage)
            } else {
                Ok(())
            }),
    {
        if self.poisoned {
            Err(BootstrapError::InvalidMessage)
        } else {
            Ok(())
        }
    }

    /// What the manifest of the pending transfers is made of: the nonce, the process of the parent,
    /// the number of the transaction, and the entries in the order of their transfers. A poisoned
    /// channel has none.
    pub fn batch_parts(&self) -> (r: Result<([u8; 32], u32, u64, &Vec<Vec<u8>>), BootstrapError>)
        ensures
            match r {
                Err(error) => self@.poisoned && error == BootstrapError::InvalidMessage,
                Ok((nonce, pid, transfer, entries)) => {
                    &&& !self@.poisoned
                    &&& nonce@ == self@.nonce
                    &&& pid == self@.peer_pid
                    &&& transfer == self@.next_transfer_id
                    &&& bytes::strings(entries@) == self@.pending
                },
            },
    {
        match self.may_commit() {
            Err(error) => Err(error),
            Ok(()) => Ok(
                (self.nonce, self.parent_pid, self.next_transfer_id, &self.pending_entries),
            ),
        }
    }

    /// Records the exchange of ready and commit. A failure poisons the channel.
    pub fn ready_and_wait_commit(&mut self, outcome: Result<(), BootstrapError>) -> (r: Result<
        (),
        BootstrapError,
    >)
        ensures
            final(self)@ == old(self)@.after_commit(outcome),
            r == old(self)@.commit_result(outcome),
    {
        if self.poisoned {
            return Err(BootstrapError::InvalidMessage);
        }
        match outcome {
            Err(error) => {
                self.poisoned = true;
                return Err(error);
            },
            Ok(()) => {},
        }
        self.pending_entries = Vec::new();
        assert(bytes::strings(self.pending_entries@) =~= seq![]);
        match self.next_transfer_id.checked_add(1) {
            None => {
                self.poisoned = true;
                Err(BootstrapError::InvalidMessage)
            },
            Some(next) => {
                self.next_transfer_id = next;
                Ok(())
            },
        }
    }

    /// Poisons the open transaction.
    pub fn poison_transaction(&mut self)
        ensures
            final(self)@ == (ChannelModel { poisoned: true, ..old(self)@ }),
    {
        self.poisoned = true;
    }

    /// Stamp that binds pending values to the open transaction of this channel.
    pub fn pending_provenance(&self) -> (r: (u64, u64))
        ensures
            r == (self@.channel_id, self@.next_transfer_id),
    {
        (self.channel_id, self.next_transfer_id)
    }
}

/// The token with these words.
pub open spec fn token_of(words: Seq<u32>) -> AuditToken {
    choose|token: AuditToken| token.values@ == words
}

/// There is one token for its words.
proof fn lemma_token_of_words(token: AuditToken)
    ensures
        token_of(token.values@) == token,
{
    let other = token_of(token.values@);
    assert(other.values@ == token.values@);
    assert(other.values =~= token.values);
}

impl ChannelModel {
    /// The channel after a delivered message: the first record that is read pins the execution of
    /// the peer, and nothing unpins it.
    pub open spec fn pinned_by(self, message: Seq<u8>, maximum: int) -> ChannelModel {
        match (self.peer_audit, self.reads(message, maximum)) {
            (None, Ok(record)) => ChannelModel {
                peer_audit: Some(token_of(record.audit)),
                ..self
            },
            _ => self,
        }
    }
}

/// One execution speaks on a channel: after a record has been read, every further one that is read
/// carries the same token.
pub proof fn law_channel_is_pinned(
    channel: ChannelModel,
    first: Seq<u8>,
    maximum: int,
    second: Seq<u8>,
    limit: int,
    token: AuditToken,
)
    requires
        channel.reads(first, maximum) is Ok,
        token.values@ == vnext::sender_words(first),
    ensures
        ({
            let pinned = channel.pinned_by(first, maximum);
            &&& pinned.peer_audit is Some
            &&& pinned.pinned_by(second, limit) == pinned
            &&& pinned.reads(second, limit) matches Ok(record)
                ==> record.audit == vnext::sender_words(
                first,
            ) && vnext::sender_words(second) == vnext::sender_words(first)
        }),
{
    lemma_token_of_words(token);
}

/// A record without rights is one that says so and has none, and one with rights says so and has
/// some.
pub proof fn law_records_say_what_they_have(record: VnextModel)
    ensures
        without_rights(record) <==> record.kind == VnextRecordKind::ZeroRights && record.rights
            == Seq::<u32>::empty(),
        with_rights(record) <==> record.kind == VnextRecordKind::Capabilities && record.rights
            != Seq::<u32>::empty(),
{
    assert(record.rights.len() == 0 ==> record.rights =~= Seq::<u32>::empty());
}

/// A transaction holds every entry that was transferred since the last commit, in their order; a
/// commit succeeds exactly where nothing failed and a number is left, and it changes nothing of
/// who the peer is.
pub proof fn law_transactions_are_complete(
    channel: ChannelModel,
    first: Seq<u8>,
    second: Seq<u8>,
    outcome: Result<(), BootstrapError>,
)
    ensures
        ({
            let sent = channel.after_transfer(first, Ok(())).after_transfer(second, Ok(()));
            &&& sent.pending == channel.pending + seq![first, second]
            &&& sent.poisoned == channel.poisoned
            &&& sent.next_transfer_id == channel.next_transfer_id
            &&& channel.commit_result(outcome) is Ok <==> !channel.poisoned && outcome is Ok
                && channel.next_transfer_id < u64::MAX
            &&& !channel.poisoned && outcome is Err ==> channel.commit_result(outcome) == outcome
            &&& channel.commit_result(outcome) is Ok ==> channel.after_commit(outcome).poisoned
                == false
            &&& channel.commit_result(outcome) is Err ==> channel.after_commit(outcome).poisoned
        }),
        ({
            let after = channel.after_commit(outcome);
            &&& after.peer_send == channel.peer_send && after.receive == channel.receive
            &&& after.nonce == channel.nonce && after.peer_pid == channel.peer_pid
            &&& after.peer_audit == channel.peer_audit && after.channel_id == channel.channel_id
        }),
        ({
            let after = channel.after_transfer(first, outcome);
            &&& after.peer_send == channel.peer_send && after.receive == channel.receive
            &&& after.nonce == channel.nonce && after.peer_pid == channel.peer_pid
            &&& after.peer_audit == channel.peer_audit && after.channel_id == channel.channel_id
            &&& outcome is Err ==> after.poisoned && after.pending == channel.pending
        }),
{
    let sent = channel.after_transfer(first, Ok(())).after_transfer(second, Ok(()));
    assert(sent.pending =~= channel.pending + seq![first, second]);
}

/// A new channel knows who its peer is, has nothing pending, and counts from one.
pub proof fn law_fresh_channels(
    peer_send: u32,
    receive: u32,
    nonce: Seq<u8>,
    peer_pid: u32,
    peer_audit: Option<AuditToken>,
    channel_id: u64,
)
    ensures
        ({
            let channel = ChannelModel::fresh(
                peer_send,
                receive,
                nonce,
                peer_pid,
                peer_audit,
                channel_id,
            );
            &&& channel.peer_send == peer_send && channel.receive == receive
            &&& channel.nonce == nonce && channel.peer_pid == peer_pid
            &&& channel.peer_audit == peer_audit && channel.channel_id == channel_id
            &&& channel.pending.len() == 0 && channel.next_transfer_id == 1 && !channel.poisoned
            &&& channel.commit_result(Ok(())) is Ok
        }),
{
}

/// The port of a parent is taken as it is found, wherever it is one.
pub proof fn law_parent_port_is_taken(status: i32, port: u32)
    ensures
        parent_port(status, port) is Ok <==> status == 0 && port != 0,
        parent_port(status, port) matches Ok(found) ==> found == port,
        status == 0 && port == 0 ==> parent_port(status, port) == Err::<u32, _>(
            BootstrapError::InvalidEnvironment,
        ),
        status != 0 ==> (parent_port(status, port) matches Err(BootstrapError::Mach { code, .. })
            && code == status),
{
}

} // verus!
