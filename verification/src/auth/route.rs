//! From an authenticated record to a connection, and from a spawn request to its one reply.
//!
//! Every step consumes the value before it, so that an outcome can never be combined with the
//! reply right of another request.

use vstd::prelude::*;
use crate::bytes;
use crate::bytes::{is_all_zero, same_bytes};
use crate::auth::message;
use crate::auth::message::{
    classify_send, MachReplyError, MachSendOnceRight, PreparedMachSend, RefusedReply, SendOutcome,
    MACH_MSG_SUCCESS, MACH_SEND_INTERRUPTED, MACH_SEND_INVALID_DEST, MACH_SEND_TIMED_OUT,
};
use crate::auth::pool::AuthenticatedMachRecord;
use crate::supervisor::broker_plan;
use crate::supervisor::broker_plan::{
    BrokerLaunchPlan, LauncherModel, PlanModel, MAX_BROKER_PLAN_BYTES,
};
use crate::supervisor::connection;
use crate::supervisor::connection::{
    encode_ready_spawn_result, ConnectionModel, ConnectionPhase, SupervisorConnection,
    VerifiedMessage,
};
use crate::supervisor::deadline::{ClockSample, SupervisorDeadline, SupervisorWireError};
use crate::supervisor::payload;
use crate::supervisor::peer::{
    ConnectionGeneration, ConnectionIdentity, FreshServiceNonce, VerifiedPeer,
};
use crate::supervisor::policy;
use crate::supervisor::policy::{
    AuthenticatedModel, AuthenticatedSpawnRequest, InstalledPolicyCatalog, SpawnModel,
    ValidatedSpawn,
};
use crate::supervisor::record;
use crate::supervisor::record::{decode_header, RecordKind};

verus! {

/// Header facts of an accepted spawn, retained with its reply right.
#[derive(Clone, Copy, PartialEq, Eq)]
pub struct SpawnReplyFreshness {
    pub connection: ConnectionIdentity,
    pub generation: u64,
    pub sequence: u64,
    pub client_nonce: [u8; 32],
    pub service_nonce: [u8; 32],
}

impl SpawnReplyFreshness {
    /// Whether the facts are those of the one spawn of a connection.
    pub open spec fn in_order(self) -> bool {
        &&& self.generation == self.connection.0
        &&& self.sequence == 1
        &&& !bytes::all_zero(self.client_nonce@)
        &&& !bytes::all_zero(self.service_nonce@)
        &&& self.client_nonce@ != self.service_nonce@
    }

    /// Whether the facts are those of the one spawn of a connection.
    pub fn check(&self) -> (r: bool)
        ensures
            r == self.in_order(),
    {
        self.generation == self.connection.get() && self.sequence == 1 && !is_all_zero(
            &self.client_nonce,
        ) && !is_all_zero(&self.service_nonce) && !same_bytes(
            &self.client_nonce,
            &self.service_nonce,
        )
    }
}

/// Opaque handle of one session.
#[derive(Clone, Copy, PartialEq, Eq)]
pub struct SessionHandle(pub [u8; 32]);

impl SessionHandle {
    /// The bytes of the handle.
    pub fn bytes(self) -> (r: [u8; 32])
        ensures
            r == self.0,
    {
        self.0
    }

    /// Whether two handles are the same.
    pub fn same_handle(self, other: SessionHandle) -> (r: bool)
        ensures
            r == (self == other),
    {
        let same = same_bytes(&self.0, &other.0);
        proof {
            if same {
                assert(self.0 =~= other.0);
            }
        }
        same
    }
}

/// Fresh nonzero identifier of one session.
pub struct FreshSessionId {
    value: [u8; 32],
}

impl FreshSessionId {
    /// The handle of the session.
    pub closed spec fn spec_handle(self) -> SessionHandle {
        SessionHandle(self.value)
    }

    #[verifier::type_invariant]
    spec fn nonzero(self) -> bool {
        !bytes::all_zero(self.value@)
    }

    /// Takes fresh random bytes; zero is refused.
    pub fn from_fresh_random(value: [u8; 32]) -> (r: Option<FreshSessionId>)
        ensures
            r is Some <==> !bytes::all_zero(value@),
            r matches Some(session) ==> session.spec_handle() == SessionHandle(value),
    {
        if is_all_zero(&value) {
            None
        } else {
            Some(FreshSessionId { value })
        }
    }

    /// The handle of the session, which is not zero.
    pub fn handle(&self) -> (r: SessionHandle)
        ensures
            r == self.spec_handle(),
            !bytes::all_zero(r.0@),
    {
        proof {
            use_type_invariant(self);
        }
        SessionHandle(self.value)
    }
}

/// Outcome of an operation, bound to the reply right of the request that asked for it.
pub struct AuthenticatedMachRequest<Output> {
    reply: MachSendOnceRight,
    output: Output,
}

impl<Output> AuthenticatedMachRequest<Output> {
    /// The reply right.
    pub closed spec fn spec_reply(self) -> MachSendOnceRight {
        self.reply
    }

    /// The outcome.
    pub closed spec fn spec_output(self) -> Output {
        self.output
    }

    fn bind_spawn(self, freshness: SpawnReplyFreshness) -> (r: PendingSpawnReply<Output>)
        ensures
            r.spec_reply() == self.spec_reply(),
            r.spec_freshness() == freshness,
            r.spec_bound_session() is None,
            r.spec_output() == self.spec_output(),
    {
        PendingSpawnReply {
            reply: self.reply,
            freshness,
            bound_session: None,
            output: self.output,
        }
    }

    /// Gives the parts away.
    pub fn into_parts(self) -> (r: (MachSendOnceRight, Output))
        ensures
            r == (self.spec_reply(), self.spec_output()),
    {
        (self.reply, self.output)
    }
}

impl AuthenticatedMachRequest<Vec<u8>> {
    /// Encodes the reply for this request's own right.
    pub fn prepare_reply(self) -> (r: Result<PreparedMachSend, RefusedReply<MachReplyError>>)
        ensures
            match r {
                Ok(send) => {
                    &&& message::sendable(self.spec_output()@)
                    &&& send.message@ == message::reply_header(
                        self.spec_reply().name,
                        self.spec_output()@.len(),
                    ).spec_bytes() + self.spec_output()@
                },
                Err(refused) => {
                    &&& !message::sendable(self.spec_output()@)
                    &&& refused.error == MachReplyError::InvalidReply
                    &&& refused.reply == self.spec_reply()
                },
            },
    {
        self.reply.prepare(&self.output)
    }
}

/// What an authenticated record is, for the service to route.
pub enum AuthenticatedMachRoute {
    /// A hello, which may create one connection.
    ClientHello(AuthenticatedClientHello),
    /// A spawn that names an existing connection.
    Spawn(AuthenticatedSpawn),
}

/// An authenticated hello.
pub struct AuthenticatedClientHello {
    record: AuthenticatedMachRecord,
}

impl AuthenticatedClientHello {
    /// The record.
    pub closed spec fn spec_record(self) -> AuthenticatedMachRecord {
        self.record
    }
}

/// An authenticated spawn.
pub struct AuthenticatedSpawn {
    record: AuthenticatedMachRecord,
    freshness: SpawnReplyFreshness,
}

impl AuthenticatedSpawn {
    /// The record.
    pub closed spec fn spec_record(self) -> AuthenticatedMachRecord {
        self.record
    }

    /// The header facts.
    pub closed spec fn spec_freshness(self) -> SpawnReplyFreshness {
        self.freshness
    }
}

/// Why a record cannot be routed, if it cannot.
pub open spec fn routed(bytes: Seq<u8>, deadline: SupervisorDeadline, clock: ClockSample) -> Result<
    RecordKind,
    SupervisorWireError,
> {
    match deadline.local_instant(clock) {
        Err(error) => Err(error),
        Ok(_) => match record::parsed_header(bytes) {
            Err(error) => Err(error),
            Ok(header) => if header.kind == RecordKind::ClientHello && header.generation == 0 {
                Ok(RecordKind::ClientHello)
            } else if header.kind == RecordKind::Spawn && header.generation != 0 {
                Ok(RecordKind::Spawn)
            } else {
                Err(SupervisorWireError::Malformed)
            },
        },
    }
}

/// Whether retained facts are those of the header of a record.
pub open spec fn facts_of(freshness: SpawnReplyFreshness, bytes: Seq<u8>) -> bool {
    record::parsed_header(bytes) matches Ok(header) && {
        &&& freshness.connection.0 == header.generation
        &&& freshness.generation == header.generation
        &&& freshness.sequence == header.sequence
        &&& freshness.client_nonce@ == header.client_nonce
        &&& freshness.service_nonce@ == header.service_nonce
    }
}

/// The peer that a record speaks for on a connection.
pub open spec fn peer_on(record: AuthenticatedMachRecord, connection: u64) -> VerifiedPeer {
    VerifiedPeer {
        connection_identity: ConnectionIdentity(connection),
        audit_identity: record.spec_raw().audit_identity,
        effective_uid: record.spec_raw().effective_uid,
        effective_gid: record.spec_raw().effective_gid,
        code_identity: record.spec_code_identity(),
    }
}

/// Why a record does not reach a connection, if it does not: its time is up, or its peer is
/// implausible.
pub open spec fn stopped(
    record: AuthenticatedMachRecord,
    connection: u64,
    clock: ClockSample,
) -> Option<SupervisorWireError> {
    match record.spec_deadline().local_instant(clock) {
        Err(error) => Some(error),
        Ok(_) => if peer_on(record, connection).plausible() {
            None
        } else {
            Some(SupervisorWireError::PeerMismatch)
        },
    }
}

impl AuthenticatedMachRecord {
    /// Gives back the reply right of a record that goes no further.
    fn refuse(self, error: SupervisorWireError) -> (r: RefusedReply<SupervisorWireError>)
        ensures
            r == (RefusedReply { error, reply: self.spec_raw().reply }),
    {
        let (raw, _code_identity, _deadline) = self.into_parts();
        RefusedReply { error, reply: raw.reply }
    }

    /// Routes a record by its envelope. One that cannot be routed leaves its reply right.
    pub fn route(self, clock: ClockSample) -> (r: Result<
        AuthenticatedMachRoute,
        RefusedReply<SupervisorWireError>,
    >)
        ensures
            match (r, routed(self.spec_raw()@.bytes, self.spec_deadline(), clock)) {
                (Ok(AuthenticatedMachRoute::ClientHello(hello)), Ok(RecordKind::ClientHello)) => {
                    hello.spec_record() == self
                },
                (Ok(AuthenticatedMachRoute::Spawn(spawn)), Ok(RecordKind::Spawn)) => {
                    &&& spawn.spec_record() == self
                    &&& facts_of(spawn.spec_freshness(), self.spec_raw()@.bytes)
                },
                (Err(refused), Err(expected)) => refused.error == expected && refused.reply
                    == self.spec_raw().reply,
                _ => false,
            },
    {
        match self.deadline().to_local_instant(clock) {
            Err(error) => {
                return Err(self.refuse(error));
            },
            Ok(_) => {},
        }
        let header = match decode_header(&self.raw().bytes) {
            Ok(header) => header,
            Err(error) => {
                return Err(self.refuse(error));
            },
        };
        if header.kind == RecordKind::ClientHello && header.generation == 0 {
            return Ok(
                AuthenticatedMachRoute::ClientHello(AuthenticatedClientHello { record: self }),
            );
        }
        if header.kind == RecordKind::Spawn && header.generation != 0 {
            let freshness = SpawnReplyFreshness {
                connection: ConnectionIdentity(header.generation),
                generation: header.generation,
                sequence: header.sequence,
                client_nonce: header.client_nonce,
                service_nonce: header.service_nonce,
            };
            return Ok(
                AuthenticatedMachRoute::Spawn(AuthenticatedSpawn { record: self, freshness }),
            );
        }
        Err(self.refuse(SupervisorWireError::Malformed))
    }
}

/// Hands the hello of a record to a connection.
fn receive_client_hello(
    record: AuthenticatedMachRecord,
    connection: &mut SupervisorConnection,
    clock: ClockSample,
) -> (r: Result<AuthenticatedMachRequest<Vec<u8>>, RefusedReply<SupervisorWireError>>)
    ensures
        match stopped(record, old(connection)@.identity, clock) {
            Some(expected) => {
                &&& r matches Err(refused) && refused.error == expected && refused.reply
                    == record.spec_raw().reply
                &&& final(connection)@ == old(connection)@
            },
            None => {
                let (phase, reply) = old(connection)@.after_hello(
                    peer_on(record, old(connection)@.identity),
                    record.spec_raw()@.bytes,
                );
                &&& final(connection)@ == old(connection)@.with_phase(phase)
                &&& match (r, reply) {
                    (Ok(request), Ok(bytes)) => request.spec_output()@ == bytes
                        && request.spec_reply() == record.spec_raw().reply,
                    (Err(refused), Err(expected)) => refused.error == expected && refused.reply
                        == record.spec_raw().reply,
                    _ => false,
                }
            },
        },
{
    let identity = connection.connection_identity();
    let (raw, code_identity, deadline) = record.into_parts();
    match deadline.to_local_instant(clock) {
        Err(error) => {
            return Err(RefusedReply { error, reply: raw.reply });
        },
        Ok(_) => {},
    }
    let peer = match VerifiedPeer::from_authenticated_message_audit_token(
        identity,
        raw.audit_identity,
        raw.effective_uid,
        raw.effective_gid,
        code_identity,
    ) {
        Ok(peer) => peer,
        Err(error) => {
            return Err(RefusedReply { error, reply: raw.reply });
        },
    };
    let message = VerifiedMessage::from_authenticated_message_audit_token(peer, &raw.bytes);
    match connection.receive_client_hello(message) {
        Err(error) => Err(RefusedReply { error, reply: raw.reply }),
        Ok(output) => Ok(AuthenticatedMachRequest { reply: raw.reply, output }),
    }
}

/// Hands the spawn of a record to a connection.
fn receive_spawn(
    record: AuthenticatedMachRecord,
    connection: &mut SupervisorConnection,
    clock: ClockSample,
    spawn_clock: ClockSample,
) -> (r: Result<
    AuthenticatedMachRequest<AuthenticatedSpawnRequest>,
    RefusedReply<SupervisorWireError>,
>)
    ensures
        match stopped(record, old(connection)@.identity, clock) {
            Some(expected) => {
                &&& r matches Err(refused) && refused.error == expected && refused.reply
                    == record.spec_raw().reply
                &&& final(connection)@ == old(connection)@
            },
            None => {
                let (phase, outcome) = old(connection)@.after_spawn(
                    peer_on(record, old(connection)@.identity),
                    record.spec_raw()@.bytes,
                    spawn_clock,
                );
                &&& final(connection)@ == old(connection)@.with_phase(phase)
                &&& match (r, outcome) {
                    (Ok(request), Ok(model)) => request.spec_output()@ == model
                        && request.spec_reply() == record.spec_raw().reply,
                    (Err(refused), Err(expected)) => refused.error == expected && refused.reply
                        == record.spec_raw().reply,
                    _ => false,
                }
            },
        },
{
    let identity = connection.connection_identity();
    let (raw, code_identity, deadline) = record.into_parts();
    match deadline.to_local_instant(clock) {
        Err(error) => {
            return Err(RefusedReply { error, reply: raw.reply });
        },
        Ok(_) => {},
    }
    let peer = match VerifiedPeer::from_authenticated_message_audit_token(
        identity,
        raw.audit_identity,
        raw.effective_uid,
        raw.effective_gid,
        code_identity,
    ) {
        Ok(peer) => peer,
        Err(error) => {
            return Err(RefusedReply { error, reply: raw.reply });
        },
    };
    let message = VerifiedMessage::from_authenticated_message_audit_token(peer, &raw.bytes);
    match connection.receive_spawn(message, spawn_clock) {
        Err(error) => Err(RefusedReply { error, reply: raw.reply }),
        Ok(output) => Ok(AuthenticatedMachRequest { reply: raw.reply, output }),
    }
}

impl AuthenticatedClientHello {
    /// Creates a connection, if the hello is canonical; a failure leaves none behind but the reply
    /// right.
    pub fn accept(
        self,
        generation: ConnectionGeneration,
        service_nonce: FreshServiceNonce,
        clock: ClockSample,
    ) -> (r: Result<
        (SupervisorConnection, AuthenticatedMachRequest<Vec<u8>>),
        RefusedReply<SupervisorWireError>,
    >)
        ensures
            ({
                let opened = ConnectionModel {
                    identity: generation@,
                    service_nonce: service_nonce@,
                    phase: ConnectionPhase::AwaitingHello,
                };
                let record = self.spec_record();
                let (phase, reply) = opened.after_hello(
                    peer_on(record, generation@),
                    record.spec_raw()@.bytes,
                );
                match (r, stopped(record, generation@, clock), reply) {
                    (Err(refused), Some(expected), _) => refused.error == expected
                        && refused.reply == record.spec_raw().reply,
                    (Err(refused), None, Err(expected)) => refused.error == expected
                        && refused.reply == record.spec_raw().reply,
                    (Ok((connection, request)), None, Ok(bytes)) => {
                        &&& connection@ == opened.with_phase(phase)
                        &&& request.spec_output()@ == bytes
                        &&& request.spec_reply() == record.spec_raw().reply
                    },
                    _ => false,
                }
            }),
    {
        let mut connection = SupervisorConnection::new(generation, service_nonce);
        match receive_client_hello(self.record, &mut connection, clock) {
            Err(error) => Err(error),
            Ok(reply) => Ok((connection, reply)),
        }
    }
}

impl AuthenticatedSpawn {
    /// The connection that the spawn names.
    pub fn generation(&self) -> (r: u64)
        ensures
            r == self.spec_freshness().generation,
    {
        self.freshness.generation
    }

    /// Applies the request to the connection that it names; any other is left alone. A request that
    /// is refused leaves its reply right.
    pub fn accept(
        self,
        connection: &mut SupervisorConnection,
        clock: ClockSample,
        spawn_clock: ClockSample,
    ) -> (r: Result<
        PendingSpawnReply<AuthenticatedSpawnRequest>,
        RefusedReply<SupervisorWireError>,
    >)
        ensures
            ({
                let record = self.spec_record();
                let identity = old(connection)@.identity;
                let (phase, outcome) = old(connection)@.after_spawn(
                    peer_on(record, identity),
                    record.spec_raw()@.bytes,
                    spawn_clock,
                );
                if identity != self.spec_freshness().connection.0 {
                    &&& r matches Err(refused) && refused.error
                        == SupervisorWireError::ReplayOrSubstitution && refused.reply
                        == record.spec_raw().reply
                    &&& final(connection)@ == old(connection)@
                } else {
                    match stopped(record, identity, clock) {
                        Some(expected) => {
                            &&& r matches Err(refused) && refused.error == expected
                                && refused.reply == record.spec_raw().reply
                            &&& final(connection)@ == old(connection)@
                        },
                        None => {
                            &&& final(connection)@ == old(connection)@.with_phase(phase)
                            &&& match (r, outcome) {
                                (Ok(pending), Ok(model)) => {
                                    &&& pending.spec_output()@ == model
                                    &&& pending.spec_reply() == record.spec_raw().reply
                                    &&& pending.spec_freshness() == self.spec_freshness()
                                    &&& pending.spec_bound_session() is None
                                },
                                (Err(refused), Err(expected)) => refused.error == expected
                                    && refused.reply == record.spec_raw().reply,
                                _ => false,
                            }
                        },
                    }
                }
            }),
    {
        if connection.connection_identity().get() != self.freshness.connection.get() {
            return Err(self.record.refuse(SupervisorWireError::ReplayOrSubstitution));
        }
        match receive_spawn(self.record, connection, clock, spawn_clock) {
            Err(error) => Err(error),
            Ok(request) => Ok(request.bind_spawn(self.freshness)),
        }
    }
}

/// Outcome of a spawn operation, bound to the reply right and header facts of its request.
pub struct PendingSpawnReply<Output> {
    pub reply: MachSendOnceRight,
    pub freshness: SpawnReplyFreshness,
    pub bound_session: Option<SessionHandle>,
    pub output: Output,
}

impl<Output> PendingSpawnReply<Output> {
    /// The reply right.
    pub open spec fn spec_reply(self) -> MachSendOnceRight {
        self.reply
    }

    /// The header facts.
    pub open spec fn spec_freshness(self) -> SpawnReplyFreshness {
        self.freshness
    }

    /// The session, once it is assigned.
    pub open spec fn spec_bound_session(self) -> Option<SessionHandle> {
        self.bound_session
    }

    /// The outcome.
    pub open spec fn spec_output(self) -> Output {
        self.output
    }

    /// Whether another value is bound to the same request and session.
    pub open spec fn bound_like<Next>(self, other: PendingSpawnReply<Next>) -> bool {
        &&& other.spec_reply() == self.spec_reply()
        &&& other.spec_freshness() == self.spec_freshness()
        &&& other.spec_bound_session() == self.spec_bound_session()
    }

    /// Replaces the outcome, and keeps what it is bound to.
    pub fn map_output<Next, Operation: FnOnce(Output) -> Next>(self, operation: Operation) -> (r:
        PendingSpawnReply<Next>)
        requires
            call_requires(operation, (self.spec_output(),)),
        ensures
            self.bound_like(r),
            call_ensures(operation, (self.spec_output(),), r.spec_output()),
    {
        PendingSpawnReply {
            reply: self.reply,
            freshness: self.freshness,
            bound_session: self.bound_session,
            output: operation(self.output),
        }
    }

    /// Replaces the outcome by that of a step that may fail; either way what it is bound to is
    /// kept.
    pub fn try_map_output<Next, Failure, Operation: FnOnce(Output) -> Result<Next, Failure>>(
        self,
        operation: Operation,
    ) -> (r: Result<PendingSpawnReply<Next>, PendingSpawnReply<Failure>>)
        requires
            call_requires(operation, (self.spec_output(),)),
        ensures
            match r {
                Ok(pending) => self.bound_like(pending) && call_ensures(
                    operation,
                    (self.spec_output(),),
                    Ok::<Next, Failure>(pending.spec_output()),
                ),
                Err(pending) => self.bound_like(pending) && call_ensures(
                    operation,
                    (self.spec_output(),),
                    Err::<Next, Failure>(pending.spec_output()),
                ),
            },
    {
        match operation(self.output) {
            Ok(output) => Ok(
                PendingSpawnReply {
                    reply: self.reply,
                    freshness: self.freshness,
                    bound_session: self.bound_session,
                    output,
                },
            ),
            Err(output) => Err(
                PendingSpawnReply {
                    reply: self.reply,
                    freshness: self.freshness,
                    bound_session: self.bound_session,
                    output,
                },
            ),
        }
    }

    /// The header facts.
    pub fn freshness(&self) -> (r: SpawnReplyFreshness)
        ensures
            r == self.spec_freshness(),
    {
        self.freshness
    }

    /// The outcome.
    pub fn output(&self) -> (r: &Output)
        ensures
            *r == self.spec_output(),
    {
        &self.output
    }

    /// Gives the parts away.
    pub fn into_parts(self) -> (r: (
        MachSendOnceRight,
        SpawnReplyFreshness,
        Option<SessionHandle>,
        Output,
    ))
        ensures
            r == (
                self.spec_reply(),
                self.spec_freshness(),
                self.spec_bound_session(),
                self.spec_output(),
            ),
    {
        (self.reply, self.freshness, self.bound_session, self.output)
    }

    /// Whether the reply is bound to this session on this connection.
    pub open spec fn binds(self, handle: SessionHandle, connection: ConnectionIdentity) -> bool {
        self.spec_bound_session() == Some(handle) && self.spec_freshness().connection == connection
    }

    /// Whether the reply is bound to this session on this connection.
    pub fn is_bound_to(&self, handle: SessionHandle, connection: ConnectionIdentity) -> (r: bool)
        ensures
            r == self.binds(handle, connection),
    {
        match self.bound_session {
            None => false,
            Some(bound) => bound.same_handle(handle) && self.freshness.connection.get()
                == connection.get(),
        }
    }
}

impl PendingSpawnReply<AuthenticatedSpawnRequest> {
    /// Takes the request through the installed catalog; either way what it is bound to is kept.
    pub fn validate(self, catalog: &InstalledPolicyCatalog) -> (r: Result<
        PendingSpawnReply<ValidatedSpawn>,
        PendingSpawnReply<SupervisorWireError>,
    >)
        ensures
            match (r, policy::resolved(catalog@, self.spec_output()@)) {
                (Ok(pending), Ok(model)) => self.bound_like(pending) && pending.spec_output()@
                    == model,
                (Err(pending), Err(expected)) => self.bound_like(pending)
                    && pending.spec_output() == expected,
                _ => false,
            },
    {
        match self.output.validate(catalog) {
            Ok(output) => Ok(
                PendingSpawnReply {
                    reply: self.reply,
                    freshness: self.freshness,
                    bound_session: self.bound_session,
                    output,
                },
            ),
            Err(output) => Err(
                PendingSpawnReply {
                    reply: self.reply,
                    freshness: self.freshness,
                    bound_session: self.bound_session,
                    output,
                },
            ),
        }
    }
}

/// Admitted request with the session that was assigned to it, before any child exists.
pub struct SessionAssignedSpawn {
    session: FreshSessionId,
    spawn: ValidatedSpawn,
}

impl SessionAssignedSpawn {
    /// The handle of the session.
    pub closed spec fn spec_session(self) -> SessionHandle {
        self.session.spec_handle()
    }

    /// What is to be started.
    pub closed spec fn spec_spawn(self) -> SpawnModel {
        self.spawn@
    }
}

impl PendingSpawnReply<ValidatedSpawn> {
    /// Assigns a fresh session.
    pub fn assign_session(self, session: FreshSessionId) -> (r: PendingSpawnReply<
        SessionAssignedSpawn,
    >)
        ensures
            r.spec_reply() == self.spec_reply(),
            r.spec_freshness() == self.spec_freshness(),
            r.spec_bound_session() == Some(session.spec_handle()),
            r.spec_output().spec_session() == session.spec_handle(),
            r.spec_output().spec_spawn() == self.spec_output()@,
    {
        let handle = session.handle();
        PendingSpawnReply {
            reply: self.reply,
            freshness: self.freshness,
            bound_session: Some(handle),
            output: SessionAssignedSpawn { session, spawn: self.output },
        }
    }
}

/// The plan of an admitted request under a session.
pub open spec fn plan_of(
    freshness: SpawnReplyFreshness,
    session: SessionHandle,
    spawn: SpawnModel,
) -> PlanModel {
    PlanModel {
        connection_generation: freshness.generation,
        sequence: freshness.sequence,
        session: session.0@,
        audit_identity: spawn.peer.audit_identity@,
        code_identity: spawn.peer.code_identity@,
        target_identity: spawn.target,
        client_nonce: freshness.client_nonce@,
        service_nonce: freshness.service_nonce@,
        policy_id: spawn.policy_id,
        launch: LauncherModel {
            deadline: spawn.wire_deadline,
            effective_uid: spawn.peer.effective_uid,
            effective_gid: spawn.peer.effective_gid,
            executable: spawn.executable,
            arguments: spawn.arguments,
            environment: spawn.environment,
        },
    }
}

/// Complete reply and session state with its staged frame.
pub struct StagedBrokerSpawn {
    pending: PendingSpawnReply<SessionAssignedSpawn>,
    frame: Vec<u8>,
}

impl StagedBrokerSpawn {
    /// The operation.
    pub closed spec fn spec_pending(self) -> PendingSpawnReply<SessionAssignedSpawn> {
        self.pending
    }

    /// The frame.
    pub closed spec fn spec_frame(self) -> Seq<u8> {
        self.frame@
    }

    /// The frame.
    pub fn frame(&self) -> (r: &[u8])
        ensures
            r@ == self.spec_frame(),
    {
        &self.frame
    }

    /// Gives the parts away.
    pub fn into_spawn_parts(self) -> (r: (PendingSpawnReply<SessionAssignedSpawn>, Vec<u8>))
        ensures
            r.0 == self.spec_pending(),
            r.1@ == self.spec_frame(),
    {
        (self.pending, self.frame)
    }
}

/// Staging failure that retains the complete operation.
pub struct BrokerPlanStageError {
    pending: PendingSpawnReply<SessionAssignedSpawn>,
    error: SupervisorWireError,
}

impl BrokerPlanStageError {
    /// The operation.
    pub closed spec fn spec_pending(self) -> PendingSpawnReply<SessionAssignedSpawn> {
        self.pending
    }

    /// The failure.
    pub closed spec fn spec_error(self) -> SupervisorWireError {
        self.error
    }

    /// Gives the parts away.
    pub fn into_parts(self) -> (r: (PendingSpawnReply<SessionAssignedSpawn>, SupervisorWireError))
        ensures
            r == (self.spec_pending(), self.spec_error()),
    {
        (self.pending, self.error)
    }
}

impl PendingSpawnReply<SessionAssignedSpawn> {
    /// Whether the operation hangs together: the header facts are those of one spawn, the spawn
    /// came on that connection, and the session is the assigned one.
    pub open spec fn coherent(self) -> bool {
        &&& self.spec_freshness().in_order()
        &&& self.spec_freshness().connection
            == self.spec_output().spec_spawn().peer.connection_identity
        &&& self.spec_bound_session() == Some(self.spec_output().spec_session())
    }

    /// The plan of the operation.
    pub open spec fn plan(self) -> PlanModel {
        plan_of(
            self.spec_freshness(),
            self.spec_output().spec_session(),
            self.spec_output().spec_spawn(),
        )
    }

    /// Writes the plan of the operation into its frame, before any broker child exists. Either
    /// way the operation is kept.
    pub fn stage_broker_plan(self) -> (r: Result<StagedBrokerSpawn, BrokerPlanStageError>)
        ensures
            match r {
                Ok(staged) => {
                    &&& self.coherent()
                    &&& broker_plan::checked_plan(self.plan()) is Ok
                    &&& broker_plan::plan_bytes(self.plan()).len() <= MAX_BROKER_PLAN_BYTES
                    &&& staged.spec_frame() == broker_plan::plan_bytes(self.plan())
                    &&& broker_plan::parsed_plan(staged.spec_frame()) == Ok::<
                        PlanModel,
                        SupervisorWireError,
                    >(self.plan())
                    &&& staged.spec_pending() == self
                },
                Err(failure) => {
                    &&& failure.spec_pending() == self
                    &&& if !self.coherent() {
                        failure.spec_error() == SupervisorWireError::ReplayOrSubstitution
                    } else {
                        match broker_plan::checked_plan(self.plan()) {
                            Err(error) => failure.spec_error() == error,
                            Ok(()) => {
                                &&& failure.spec_error() == SupervisorWireError::LimitExceeded
                                &&& broker_plan::plan_bytes(self.plan()).len()
                                    > MAX_BROKER_PLAN_BYTES
                            },
                        }
                    }
                },
            },
    {
        let freshness = self.freshness;
        let session = self.output.session.handle();
        let parts = self.output.spawn.launcher_parts_for_permit();
        if !freshness.check() || !self.is_bound_to(
            session,
            self.output.spawn.connection_identity(),
        ) {
            return Err(
                BrokerPlanStageError {
                    pending: self,
                    error: SupervisorWireError::ReplayOrSubstitution,
                },
            );
        }
        let plan = BrokerLaunchPlan {
            deadline: parts.deadline.wire(),
            connection_generation: freshness.generation,
            sequence: freshness.sequence,
            effective_uid: parts.peer.effective_uid,
            effective_gid: parts.peer.effective_gid,
            session: session.bytes(),
            audit_identity: parts.peer.audit_identity,
            code_identity: parts.peer.code_identity,
            target_identity: parts.target_identity,
            client_nonce: freshness.client_nonce,
            service_nonce: freshness.service_nonce,
            policy_id: parts.policy_id,
            installed_executable: parts.installed_executable,
            arguments: parts.arguments,
            environment: parts.environment,
        };
        assert(plan@ =~= self.plan());
        match plan.encode() {
            Ok(frame) => {
                proof {
                    broker_plan::law_plan_round_trip(self.plan());
                }
                Ok(StagedBrokerSpawn { pending: self, frame })
            },
            Err(error) => Err(BrokerPlanStageError { pending: self, error }),
        }
    }
}

/// Failure of the watchdog's own table.
#[derive(Clone, Copy, Debug, PartialEq, Eq, Structural)]
pub enum WatchdogStateError {
    /// There is no such session.
    UnknownSession,
    /// The session belongs to another connection.
    WrongConnection,
    /// The deadline of the session has passed.
    DeadlineExpired,
}

/// Why a session is ended.
#[derive(Clone, Copy, Debug, PartialEq, Eq, Structural)]
pub enum TerminationReason {
    /// The deadline of the session has passed.
    DeadlineExpired,
    /// The client could not be told that the session is ready.
    SpawnResultUndeliverable,
    /// What belongs together did not come together.
    ProtocolViolation,
}

/// Why a session goes no further, and why it is ended where this is the one to end it.
#[derive(Clone, Copy, Debug, PartialEq, Eq, Structural)]
pub struct SessionRefusal {
    pub error: WatchdogStateError,
    pub reason: Option<TerminationReason>,
}

/// A session that came with another reply or connection than its own.
pub open spec fn substituted() -> SessionRefusal {
    SessionRefusal {
        error: WatchdogStateError::WrongConnection,
        reason: Some(TerminationReason::ProtocolViolation),
    }
}

/// Failure to send one ready reply.
#[derive(Clone, Copy, Debug, PartialEq, Eq, Structural)]
pub enum ReadyNativeSendError {
    /// The reply is bound to another session or connection.
    Binding,
    /// The deadline has passed.
    DeadlineExpired,
    /// The send failed.
    Recoverable(MachReplyError),
    /// The kernel may have consumed part of the message.
    Indeterminate(i32),
}

impl ReadyNativeSendError {
    /// Why the session is ended after this failure.
    pub fn cleanup_reason(self) -> (r: TerminationReason)
        ensures
            r == (if self == ReadyNativeSendError::DeadlineExpired {
                TerminationReason::DeadlineExpired
            } else {
                TerminationReason::SpawnResultUndeliverable
            }),
    {
        match self {
            ReadyNativeSendError::DeadlineExpired => TerminationReason::DeadlineExpired,
            _ => TerminationReason::SpawnResultUndeliverable,
        }
    }
}

/// Failure of the ready reply as a whole.
#[derive(Clone, Copy, Debug, PartialEq, Eq, Structural)]
pub enum ReadyReplyError {
    Protocol(SupervisorWireError),
    Watchdog(WatchdogStateError),
    Mach(MachReplyError),
}

/// A ready reply that cannot be encoded, and why. The operation is kept, with its reply right.
pub struct RefusedReady<Output> {
    pub error: ReadyReplyError,
    pub pending: PendingSpawnReply<Output>,
}

/// A ready reply that is not sent, and why. Whoever gets it destroys the message, and the reply
/// right with it.
#[derive(Debug, PartialEq, Eq)]
pub struct RefusedReadySend {
    pub error: ReadyNativeSendError,
    pub message: PreparedMachSend,
}

/// Encoded ready reply, bound to its session and connection.
pub struct PreparedReadyMachSend {
    message: PreparedMachSend,
    expected_handle: SessionHandle,
    expected_connection: ConnectionIdentity,
}

impl PreparedReadyMachSend {
    /// The message.
    pub closed spec fn spec_message(self) -> PreparedMachSend {
        self.message
    }

    /// The session that the message speaks of.
    pub closed spec fn spec_handle(self) -> SessionHandle {
        self.expected_handle
    }

    /// The connection that the message goes to.
    pub closed spec fn spec_connection(self) -> ConnectionIdentity {
        self.expected_connection
    }

    /// Releases the message for the one send, if it is bound to this session and connection and
    /// the deadline is ahead; else it is given back to be destroyed.
    pub fn release(
        self,
        handle: SessionHandle,
        connection: ConnectionIdentity,
        now: u64,
        deadline: u64,
    ) -> (r: Result<PreparedMachSend, RefusedReadySend>)
        ensures
            r == (if handle != self.spec_handle() || connection != self.spec_connection() {
                Err(
                    RefusedReadySend {
                        error: ReadyNativeSendError::Binding,
                        message: self.spec_message(),
                    },
                )
            } else if now >= deadline {
                Err(
                    RefusedReadySend {
                        error: ReadyNativeSendError::DeadlineExpired,
                        message: self.spec_message(),
                    },
                )
            } else {
                Ok(self.spec_message())
            }),
    {
        if !handle.same_handle(self.expected_handle) || connection.get()
            != self.expected_connection.get() {
            return Err(
                RefusedReadySend { error: ReadyNativeSendError::Binding, message: self.message },
            );
        }
        if now >= deadline {
            return Err(
                RefusedReadySend {
                    error: ReadyNativeSendError::DeadlineExpired,
                    message: self.message,
                },
            );
        }
        Ok(self.message)
    }
}

/// What became of a ready reply whose send had this status.
pub open spec fn ready_sent(status: i32) -> Result<(), ReadyNativeSendError> {
    if status == MACH_MSG_SUCCESS {
        Ok(())
    } else if status == MACH_SEND_INVALID_DEST || status == MACH_SEND_TIMED_OUT || status
        == MACH_SEND_INTERRUPTED {
        Err(ReadyNativeSendError::Recoverable(MachReplyError::MachSend(status)))
    } else {
        Err(ReadyNativeSendError::Indeterminate(status))
    }
}

/// Decides what became of a ready reply from the status of its send.
pub fn ready_send_outcome(status: i32) -> (r: Result<(), ReadyNativeSendError>)
    ensures
        r == ready_sent(status),
{
    match classify_send(status) {
        SendOutcome::Sent => Ok(()),
        SendOutcome::Recoverable(error) => Err(ReadyNativeSendError::Recoverable(error)),
        SendOutcome::Indeterminate(status) => Err(ReadyNativeSendError::Indeterminate(status)),
    }
}

/// What the service does once the watchdog has tried to deliver a ready reply.
#[derive(Clone, Copy, Debug, PartialEq, Eq, Structural)]
pub enum ReadyOutcome {
    /// The client knows.
    Delivered,
    /// The session has been cleaned up, and this is why.
    Failed(ReadyReplyError),
    /// The session has been cleaned up, and the service has to stop.
    Abort,
}

/// What the service does once the watchdog has tried to deliver a ready reply.
pub open spec fn ready_judged(
    delivery: Result<Result<(), ReadyNativeSendError>, WatchdogStateError>,
) -> ReadyOutcome {
    match delivery {
        Ok(Ok(())) => ReadyOutcome::Delivered,
        Err(error) => ReadyOutcome::Failed(ReadyReplyError::Watchdog(error)),
        Ok(Err(ReadyNativeSendError::Binding)) => ReadyOutcome::Failed(
            ReadyReplyError::Watchdog(WatchdogStateError::WrongConnection),
        ),
        Ok(Err(ReadyNativeSendError::DeadlineExpired)) => ReadyOutcome::Failed(
            ReadyReplyError::Watchdog(WatchdogStateError::DeadlineExpired),
        ),
        Ok(Err(ReadyNativeSendError::Recoverable(error))) => ReadyOutcome::Failed(
            ReadyReplyError::Mach(error),
        ),
        Ok(Err(ReadyNativeSendError::Indeterminate(_))) => ReadyOutcome::Abort,
    }
}

/// Decides what the service does once the watchdog has tried to deliver a ready reply.
pub fn ready_outcome(
    delivery: Result<Result<(), ReadyNativeSendError>, WatchdogStateError>,
) -> (r: ReadyOutcome)
    ensures
        r == ready_judged(delivery),
{
    match delivery {
        Err(error) => ReadyOutcome::Failed(ReadyReplyError::Watchdog(error)),
        Ok(sent) => match sent {
            Ok(()) => ReadyOutcome::Delivered,
            Err(error) => match error {
                ReadyNativeSendError::Binding => ReadyOutcome::Failed(
                    ReadyReplyError::Watchdog(WatchdogStateError::WrongConnection),
                ),
                ReadyNativeSendError::DeadlineExpired => ReadyOutcome::Failed(
                    ReadyReplyError::Watchdog(WatchdogStateError::DeadlineExpired),
                ),
                ReadyNativeSendError::Recoverable(error) => ReadyOutcome::Failed(
                    ReadyReplyError::Mach(error),
                ),
                ReadyNativeSendError::Indeterminate(_) => ReadyOutcome::Abort,
            },
        },
    }
}

impl<Output> PendingSpawnReply<Output> {
    /// Whether a trace proof may be bound: the reply, the registered session and the proof have to
    /// agree on the session and the connection.
    pub fn accepts_trace(
        &self,
        handle: SessionHandle,
        connection: ConnectionIdentity,
        trace_handle: SessionHandle,
        trace_connection: ConnectionIdentity,
    ) -> (r: bool)
        ensures
            r == (self.binds(handle, connection) && trace_handle == handle && trace_connection
                == connection),
    {
        self.is_bound_to(handle, connection) && trace_handle.same_handle(handle)
            && trace_connection.get() == connection.get()
    }

    /// Whether the session may be declared ready: the reply is bound to it, and the header facts
    /// are those of one spawn.
    pub fn may_be_ready(&self, handle: SessionHandle, connection: ConnectionIdentity) -> (r: bool)
        ensures
            r == (self.binds(handle, connection) && self.spec_freshness().in_order()),
    {
        self.is_bound_to(handle, connection) && self.freshness.check()
    }

    /// Takes what the watchdog registered for this reply: a session other than the one assigned to
    /// it, or one of another connection, is ended at once.
    pub fn register_watchdog(
        &self,
        registered: Result<(SessionHandle, ConnectionIdentity), WatchdogStateError>,
    ) -> (r: Result<(), SessionRefusal>)
        ensures
            r == (match registered {
                Err(error) => Err(SessionRefusal { error, reason: None }),
                Ok((handle, connection)) => if self.binds(handle, connection) {
                    Ok(())
                } else {
                    Err(substituted())
                },
            }),
    {
        match registered {
            Err(error) => Err(SessionRefusal { error, reason: None }),
            Ok((handle, connection)) => {
                if self.is_bound_to(handle, connection) {
                    Ok(())
                } else {
                    Err(
                        SessionRefusal {
                            error: WatchdogStateError::WrongConnection,
                            reason: Some(TerminationReason::ProtocolViolation),
                        },
                    )
                }
            },
        }
    }

    /// Takes the trace proof of the registered session; anything but the proof of that session on
    /// that connection ends it. `bound` is whether the watchdog took the proof; it is asked only
    /// where the proof agrees.
    pub fn bind_trace(
        &self,
        handle: SessionHandle,
        connection: ConnectionIdentity,
        trace_handle: SessionHandle,
        trace_connection: ConnectionIdentity,
        bound: bool,
    ) -> (r: Result<(), TerminationReason>)
        ensures
            r == (if self.binds(handle, connection) && trace_handle == handle && trace_connection
                == connection && bound {
                Ok(())
            } else {
                Err(TerminationReason::ProtocolViolation)
            }),
    {
        if self.accepts_trace(handle, connection, trace_handle, trace_connection) && bound {
            Ok(())
        } else {
            Err(TerminationReason::ProtocolViolation)
        }
    }

    /// Declares the registered session ready for delivery. `traced` is what the watchdog says of
    /// its trace; it is asked only where the reply is the session's own and fresh.
    pub fn establish_ready(
        &self,
        handle: SessionHandle,
        connection: ConnectionIdentity,
        traced: Result<(), WatchdogStateError>,
    ) -> (r: Result<(), SessionRefusal>)
        ensures
            r == (if !self.binds(handle, connection) || !self.spec_freshness().in_order() {
                Err(substituted())
            } else {
                match traced {
                    Ok(()) => Ok(()),
                    Err(error) => Err(SessionRefusal { error, reason: None }),
                }
            }),
    {
        if !self.may_be_ready(handle, connection) {
            return Err(
                SessionRefusal {
                    error: WatchdogStateError::WrongConnection,
                    reason: Some(TerminationReason::ProtocolViolation),
                },
            );
        }
        match traced {
            Ok(()) => Ok(()),
            Err(error) => Err(SessionRefusal { error, reason: None }),
        }
    }

    /// Encodes the ready reply of the bound session, for the exact request that asked for it. Where
    /// that fails, the whole operation is given back.
    pub fn prepare_ready(self) -> (r: Result<
        (PreparedReadyMachSend, Output),
        RefusedReady<Output>,
    >)
        ensures
            match self.spec_bound_session() {
                None => r matches Err(refused) && refused.pending == self && refused.error
                    == ReadyReplyError::Watchdog(WatchdogStateError::UnknownSession),
                Some(handle) => {
                    let freshness = self.spec_freshness();
                    let payload = record::record_bytes(
                        connection::result_header(
                            freshness.generation,
                            freshness.client_nonce@,
                            freshness.service_nonce@,
                        ),
                        payload::result_bytes(Ok(handle.0@)),
                    );
                    if !connection::fresh(
                        freshness.generation,
                        freshness.client_nonce@,
                        freshness.service_nonce@,
                    ) {
                        r matches Err(refused) && refused.pending == self && refused.error
                            == ReadyReplyError::Protocol(SupervisorWireError::ReplayOrSubstitution)
                    } else if bytes::all_zero(handle.0@) {
                        r matches Err(refused) && refused.pending == self && refused.error
                            == ReadyReplyError::Protocol(SupervisorWireError::Malformed)
                    } else {
                        r matches Ok((send, output)) && {
                            &&& output == self.spec_output()
                            &&& send.spec_handle() == handle
                            &&& send.spec_connection() == freshness.connection
                            &&& send.spec_message().message@ == message::reply_header(
                                self.spec_reply().name,
                                payload.len(),
                            ).spec_bytes() + payload
                        }
                    }
                },
            },
    {
        let handle = match self.bound_session {
            None => {
                return Err(
                    RefusedReady {
                        error: ReadyReplyError::Watchdog(WatchdogStateError::UnknownSession),
                        pending: self,
                    },
                );
            },
            Some(handle) => handle,
        };
        let freshness = self.freshness;
        let payload = match encode_ready_spawn_result(
            handle.bytes(),
            freshness.generation,
            freshness.client_nonce,
            freshness.service_nonce,
        ) {
            Ok(payload) => payload,
            Err(error) => {
                return Err(
                    RefusedReady { error: ReadyReplyError::Protocol(error), pending: self },
                );
            },
        };
        proof {
            lemma_answer_length(freshness, handle);
        }
        match self.reply.prepare(&payload) {
            Err(refused) => Err(
                RefusedReady {
                    error: ReadyReplyError::Mach(refused.error),
                    pending: PendingSpawnReply {
                        reply: refused.reply,
                        freshness,
                        bound_session: self.bound_session,
                        output: self.output,
                    },
                },
            ),
            Ok(message) => Ok(
                (
                    PreparedReadyMachSend {
                        message,
                        expected_handle: handle,
                        expected_connection: freshness.connection,
                    },
                    self.output,
                ),
            ),
        }
    }
}

/// The answer to a spawn has 136 bytes.
proof fn lemma_answer_length(freshness: SpawnReplyFreshness, handle: SessionHandle)
    ensures
        record::record_bytes(
            connection::result_header(
                freshness.generation,
                freshness.client_nonce@,
                freshness.service_nonce@,
            ),
            payload::result_bytes(Ok(handle.0@)),
        ).len() == 136,
{
    let header = connection::result_header(
        freshness.generation,
        freshness.client_nonce@,
        freshness.service_nonce@,
    );
    bytes::lemma_le16(0);
    bytes::lemma_le16(1);
    bytes::lemma_le32(0);
    bytes::lemma_le16(crate::supervisor::record::VERSION);
    bytes::lemma_le16(header.kind.spec_code());
    bytes::lemma_le32(header.payload_len as u32);
    bytes::lemma_le64(header.generation);
    bytes::lemma_le64(header.sequence);
}

/// A record is routed exactly where it is in time and is a hello on no connection or a spawn on
/// one, and then as what it is.
pub proof fn law_routing_is_exact(bytes: Seq<u8>, deadline: SupervisorDeadline, clock: ClockSample)
    ensures
        ({
            let route = routed(bytes, deadline, clock);
            let in_time = deadline.local_instant(clock) is Ok;
            &&& deadline.local_instant(clock) matches Err(error) ==> route == Err::<RecordKind, _>(
                error,
            )
            &&& match record::parsed_header(bytes) {
                Err(error) => in_time ==> route == Err::<RecordKind, _>(error),
                Ok(header) => {
                    let hello = header.kind == RecordKind::ClientHello && header.generation == 0;
                    let spawn = header.kind == RecordKind::Spawn && header.generation > 0;
                    &&& route == Ok::<_, SupervisorWireError>(RecordKind::ClientHello) <==> in_time
                        && hello
                    &&& route == Ok::<_, SupervisorWireError>(RecordKind::Spawn) <==> in_time
                        && spawn
                    &&& in_time && !hello && !spawn ==> route == Err::<RecordKind, _>(
                        SupervisorWireError::Malformed,
                    )
                },
            }
        }),
{
}

/// The facts of a spawn are those of its header, and they are in order exactly for the first record
/// of a connection between two different sides.
pub proof fn law_freshness_is_exact(freshness: SpawnReplyFreshness, bytes: Seq<u8>)
    ensures
        facts_of(freshness, bytes) ==> (record::parsed_header(bytes) matches Ok(header)
            && header.generation == freshness.generation && header.generation
            == freshness.connection.0 && header.sequence == freshness.sequence
            && header.client_nonce == freshness.client_nonce@ && header.service_nonce
            == freshness.service_nonce@),
        freshness.in_order() <==> {
            &&& freshness.generation == freshness.connection.0 && freshness.sequence == 1
            &&& exists|i: int| 0 <= i < 32 && freshness.client_nonce@[i] != 0
            &&& exists|i: int| 0 <= i < 32 && freshness.service_nonce@[i] != 0
            &&& freshness.client_nonce@ != freshness.service_nonce@
        },
{
}

/// A record is stopped exactly where it is late or its sender is nobody: without an audit or a code
/// identity, or a user or group that is not an ordinary one. Otherwise the sender is known by the
/// facts of the record.
pub proof fn law_records_are_stopped_for_a_reason(
    record: AuthenticatedMachRecord,
    connection: u64,
    clock: ClockSample,
)
    ensures
        ({
            let raw = record.spec_raw();
            let somebody = {
                &&& exists|i: int| 0 <= i < 32 && raw.audit_identity@[i] != 0
                &&& exists|i: int| 0 <= i < 32 && record.spec_code_identity()@[i] != 0
                &&& raw.effective_uid != 0 && raw.effective_uid != 0xffff_ffff
                &&& raw.effective_gid != 0 && raw.effective_gid != 0xffff_ffff
            };
            let stop = stopped(record, connection, clock);
            let peer = peer_on(record, connection);
            &&& stop is None <==> record.spec_deadline().local_instant(clock) is Ok && somebody
            &&& record.spec_deadline().local_instant(clock) matches Err(error) ==> stop == Some(
                error,
            )
            &&& record.spec_deadline().local_instant(clock) is Ok && !somebody ==> stop == Some(
                SupervisorWireError::PeerMismatch,
            )
            &&& peer.connection_identity == ConnectionIdentity(connection)
            &&& peer.audit_identity == raw.audit_identity
            &&& peer.code_identity == record.spec_code_identity()
            &&& peer.effective_uid == raw.effective_uid && peer.effective_gid == raw.effective_gid
        }),
{
    assert(record.spec_raw().audit_identity@.len() == 32);
    assert(record.spec_code_identity()@.len() == 32);
}

/// The plan of a spawn is that spawn: its executable, arguments, environment, target, policy and
/// deadline, for its own sender, session and connection.
pub proof fn law_plan_is_the_spawn(
    freshness: SpawnReplyFreshness,
    session: SessionHandle,
    spawn: SpawnModel,
)
    ensures
        ({
            let plan = plan_of(freshness, session, spawn);
            &&& plan.launch.executable == spawn.executable
            &&& plan.launch.arguments == spawn.arguments
            &&& plan.launch.environment == spawn.environment
            &&& plan.launch.deadline == spawn.wire_deadline
            &&& plan.launch.effective_uid == spawn.peer.effective_uid
            &&& plan.launch.effective_gid == spawn.peer.effective_gid
            &&& plan.target_identity == spawn.target && plan.policy_id == spawn.policy_id
            &&& plan.audit_identity == spawn.peer.audit_identity@
            &&& plan.code_identity == spawn.peer.code_identity@
            &&& plan.session == session.0@
            &&& plan.connection_generation == freshness.generation
            &&& plan.sequence == freshness.sequence
            &&& plan.client_nonce == freshness.client_nonce@
            &&& plan.service_nonce == freshness.service_nonce@
        }),
{
}

/// A pending reply binds one session on one connection, and a reply that was carried over binds the
/// same and goes to the same right.
pub proof fn law_bindings_are_carried<Output, Next>(
    pending: PendingSpawnReply<Output>,
    next: PendingSpawnReply<Next>,
    handle: SessionHandle,
    connection: ConnectionIdentity,
)
    requires
        pending.bound_like(next),
    ensures
        pending.binds(handle, connection) <==> next.binds(handle, connection),
        pending.binds(handle, connection) ==> next.spec_bound_session() == Some(handle)
            && next.spec_freshness().connection == connection,
        next.spec_reply() == pending.spec_reply(),
        next.spec_freshness() == pending.spec_freshness(),
{
}

/// A ready reply was delivered exactly where its send succeeded; a send of which nothing is known
/// stops the service, and any other failure is told.
pub proof fn law_ready_delivery_is_exact(
    status: i32,
    watchdog: WatchdogStateError,
    delivery: Result<Result<(), ReadyNativeSendError>, WatchdogStateError>,
)
    ensures
        ready_sent(status) is Ok <==> status == 0,
        ready_sent(status) matches Err(error) ==> error == (if status == 0x1000_0003 || status
            == 0x1000_0004 || status == 0x1000_0007 {
            ReadyNativeSendError::Recoverable(MachReplyError::MachSend(status))
        } else {
            ReadyNativeSendError::Indeterminate(status)
        }),
        ready_judged(delivery) is Delivered <==> (delivery matches Ok(sent) && sent is Ok),
        ready_judged(delivery) is Abort <==> (delivery matches Ok(Err(error)) && error
            is Indeterminate),
        ready_judged(Err(watchdog)) == ReadyOutcome::Failed(ReadyReplyError::Watchdog(watchdog)),
        ready_judged(Ok(Err(ReadyNativeSendError::DeadlineExpired))) == ReadyOutcome::Failed(
            ReadyReplyError::Watchdog(WatchdogStateError::DeadlineExpired),
        ),
        ready_judged(Ok(Err(ReadyNativeSendError::Binding))) == ReadyOutcome::Failed(
            ReadyReplyError::Watchdog(WatchdogStateError::WrongConnection),
        ),
{
}

} // verus!
