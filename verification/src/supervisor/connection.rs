//! Authentication before effects: the handshake and the one spawn of a connection.

use vstd::prelude::*;
use crate::bytes;
use crate::bytes::{is_all_zero, same_bytes};
use crate::supervisor::deadline::{
    ClockSample, SupervisorDeadline, SupervisorDeadlineBinding, SupervisorWireError,
};
use crate::supervisor::payload;
use crate::supervisor::payload::{
    decode_result_payload, decode_spawn_payload, encode_result_payload, encode_spawn_payload,
    DecodedSpawnResult, SpawnFailure, SPAWN_RESULT_LEN,
};
use crate::supervisor::peer::{
    ConnectionGeneration, ConnectionIdentity, FreshServiceNonce, VerifiedPeer,
};
use crate::supervisor::policy::{AuthenticatedModel, AuthenticatedSpawnRequest};
use crate::supervisor::record;
use crate::supervisor::record::{
    decode_header, encode_record, Header, HeaderModel, RecordKind, HEADER_LEN,
    MAX_SUPERVISOR_RECORD_BYTES,
};
use crate::supervisor::target;
use crate::supervisor::target::{RequestModel, SpawnRequest};

verus! {

/// Bytes whose own audit trailer has passed authentication, and the peer it vouches for.
pub struct VerifiedMessage<'a> {
    pub peer: VerifiedPeer,
    pub bytes: &'a [u8],
}

impl<'a> VerifiedMessage<'a> {
    /// Binds a peer to the bytes of the message that it was derived from.
    pub fn from_authenticated_message_audit_token(peer: VerifiedPeer, bytes: &'a [u8]) -> (r:
        VerifiedMessage<'a>)
        ensures
            r.peer == peer,
            r.bytes@ == bytes@,
    {
        VerifiedMessage { peer, bytes }
    }
}

/// How far a connection has come.
#[verifier::ext_equal]
pub enum ConnectionPhase {
    /// Nothing has been accepted.
    AwaitingHello,
    /// The hello of `peer` has been accepted.
    Authenticated { client_nonce: Seq<u8>, peer: VerifiedPeer },
    /// The one spawn request has been accepted.
    SpawnConsumed,
    /// The connection is beyond use.
    Poisoned,
}

/// A connection: its number, its nonce, and how far it has come.
#[verifier::ext_equal]
pub struct ConnectionModel {
    pub identity: u64,
    pub service_nonce: Seq<u8>,
    pub phase: ConnectionPhase,
}

/// Whether a header is that of a hello which this connection can answer.
pub open spec fn opens(header: HeaderModel, service_nonce: Seq<u8>) -> bool {
    &&& header.kind == RecordKind::ClientHello
    &&& header.payload_len == 0
    &&& header.generation == 0
    &&& header.sequence == 0
    &&& !bytes::all_zero(header.client_nonce)
    &&& bytes::all_zero(header.service_nonce)
    &&& header.client_nonce != service_nonce
}

/// The header of the reply to a hello.
pub open spec fn service_hello(
    generation: u64,
    client_nonce: Seq<u8>,
    service_nonce: Seq<u8>,
) -> HeaderModel {
    HeaderModel {
        kind: RecordKind::ServiceHello,
        payload_len: 0,
        generation,
        sequence: 0,
        client_nonce,
        service_nonce,
    }
}

/// The header of a spawn request.
pub open spec fn spawn_header(
    payload_len: nat,
    generation: u64,
    client_nonce: Seq<u8>,
    service_nonce: Seq<u8>,
) -> HeaderModel {
    HeaderModel {
        kind: RecordKind::Spawn,
        payload_len,
        generation,
        sequence: 1,
        client_nonce,
        service_nonce,
    }
}

/// The header of a hello.
pub open spec fn client_hello(client_nonce: Seq<u8>) -> HeaderModel {
    HeaderModel {
        kind: RecordKind::ClientHello,
        payload_len: 0,
        generation: 0,
        sequence: 0,
        client_nonce,
        service_nonce: bytes::zeros(32),
    }
}

/// The header of the answer to a spawn request.
pub open spec fn result_header(
    generation: u64,
    client_nonce: Seq<u8>,
    service_nonce: Seq<u8>,
) -> HeaderModel {
    HeaderModel {
        kind: RecordKind::SpawnResult,
        payload_len: SPAWN_RESULT_LEN as nat,
        generation,
        sequence: 1,
        client_nonce,
        service_nonce,
    }
}

impl ConnectionModel {
    /// The phase after a hello, and the reply to it.
    pub open spec fn after_hello(self, peer: VerifiedPeer, bytes: Seq<u8>) -> (
        ConnectionPhase,
        Result<Seq<u8>, SupervisorWireError>,
    ) {
        if self.phase !is AwaitingHello {
            (ConnectionPhase::Poisoned, Err(SupervisorWireError::StateViolation))
        } else if peer.connection_identity.0 != self.identity {
            (ConnectionPhase::Poisoned, Err(SupervisorWireError::PeerMismatch))
        } else {
            match record::parsed_header(bytes) {
                Err(error) => (ConnectionPhase::Poisoned, Err(error)),
                Ok(header) => if opens(header, self.service_nonce) {
                    (
                        ConnectionPhase::Authenticated { client_nonce: header.client_nonce, peer },
                        Ok(
                            record::record_bytes(
                                service_hello(
                                    self.identity,
                                    header.client_nonce,
                                    self.service_nonce,
                                ),
                                seq![],
                            ),
                        ),
                    )
                } else {
                    (ConnectionPhase::Poisoned, Err(SupervisorWireError::AuthenticationRequired))
                },
            }
        }
    }

    /// Whether a header belongs to the spawn of this connection with `client_nonce`.
    pub open spec fn claims(self, header: HeaderModel, client_nonce: Seq<u8>) -> bool {
        &&& header.kind == RecordKind::Spawn
        &&& header.generation == self.identity
        &&& header.sequence == 1
        &&& header.client_nonce == client_nonce
        &&& header.service_nonce == self.service_nonce
    }

    /// The phase after a spawn request, and the authenticated request.
    pub open spec fn after_spawn(self, peer: VerifiedPeer, bytes: Seq<u8>, clock: ClockSample) -> (
        ConnectionPhase,
        Result<AuthenticatedModel, SupervisorWireError>,
    ) {
        match self.phase {
            ConnectionPhase::AwaitingHello => (
                ConnectionPhase::Poisoned,
                Err(SupervisorWireError::AuthenticationRequired),
            ),
            ConnectionPhase::SpawnConsumed | ConnectionPhase::Poisoned => (
                ConnectionPhase::Poisoned,
                Err(SupervisorWireError::StateViolation),
            ),
            ConnectionPhase::Authenticated { client_nonce, peer: pinned } => {
                if peer != pinned {
                    (self.phase, Err(SupervisorWireError::PeerMismatch))
                } else {
                    match record::parsed_header(bytes) {
                        Err(error) => (self.phase, Err(error)),
                        Ok(header) => if !self.claims(header, client_nonce) {
                            (self.phase, Err(SupervisorWireError::ReplayOrSubstitution))
                        } else {
                            match payload::parsed_spawn(record::payload_of(bytes)) {
                                Err(error) => (ConnectionPhase::Poisoned, Err(error)),
                                Ok(request) => match request.deadline.local_instant(clock) {
                                    Err(error) => (ConnectionPhase::Poisoned, Err(error)),
                                    Ok(local) => (
                                        ConnectionPhase::SpawnConsumed,
                                        Ok(
                                            AuthenticatedModel {
                                                peer,
                                                wire_deadline: request.deadline,
                                                local_deadline: local,
                                                request,
                                            },
                                        ),
                                    ),
                                },
                            }
                        },
                    }
                }
            },
        }
    }

    /// The same connection in another phase.
    pub open spec fn with_phase(self, phase: ConnectionPhase) -> ConnectionModel {
        ConnectionModel { phase, ..self }
    }
}

#[derive(Clone, Copy)]
enum ConnectionState {
    AwaitingHello,
    Authenticated { client_nonce: [u8; 32], peer: VerifiedPeer },
    SpawnConsumed,
    Poisoned,
}

spec fn phase_of(state: ConnectionState) -> ConnectionPhase {
    match state {
        ConnectionState::AwaitingHello => ConnectionPhase::AwaitingHello,
        ConnectionState::Authenticated { client_nonce, peer } => ConnectionPhase::Authenticated {
            client_nonce: client_nonce@,
            peer,
        },
        ConnectionState::SpawnConsumed => ConnectionPhase::SpawnConsumed,
        ConnectionState::Poisoned => ConnectionPhase::Poisoned,
    }
}

/// Authentication-before-effects state of one transport connection.
pub struct SupervisorConnection {
    connection_identity: ConnectionIdentity,
    service_nonce: FreshServiceNonce,
    state: ConnectionState,
}

impl View for SupervisorConnection {
    type V = ConnectionModel;

    closed spec fn view(&self) -> ConnectionModel {
        ConnectionModel {
            identity: self.connection_identity.0,
            service_nonce: self.service_nonce@,
            phase: phase_of(self.state),
        }
    }
}

impl SupervisorConnection {
    /// Opens a connection with a fresh generation and nonce.
    pub fn new(generation: ConnectionGeneration, service_nonce: FreshServiceNonce) -> (r:
        SupervisorConnection)
        ensures
            r@ == (ConnectionModel {
                identity: generation@,
                service_nonce: service_nonce@,
                phase: ConnectionPhase::AwaitingHello,
            }),
            r@.identity != 0,
    {
        SupervisorConnection {
            connection_identity: generation.into_identity(),
            service_nonce,
            state: ConnectionState::AwaitingHello,
        }
    }

    /// Identity of the connection.
    pub fn connection_identity(&self) -> (r: ConnectionIdentity)
        ensures
            r.0 == self@.identity,
    {
        self.connection_identity
    }

    /// Accepts the authentication-only hello and returns the nonce-bound reply. Whatever else
    /// arrives in its place poisons the connection.
    pub fn receive_client_hello(&mut self, message: VerifiedMessage<'_>) -> (r: Result<
        Vec<u8>,
        SupervisorWireError,
    >)
        ensures
            ({
                let (phase, reply) = old(self)@.after_hello(message.peer, message.bytes@);
                &&& final(self)@ == old(self)@.with_phase(phase)
                &&& match (r, reply) {
                    (Ok(bytes), Ok(expected)) => bytes@ == expected,
                    (Err(error), Err(expected)) => error == expected,
                    _ => false,
                }
            }),
    {
        match self.state {
            ConnectionState::AwaitingHello => {},
            _ => {
                self.state = ConnectionState::Poisoned;
                return Err(SupervisorWireError::StateViolation);
            },
        }
        self.state = ConnectionState::Poisoned;
        match self.verify_connection(message.peer) {
            Ok(()) => {},
            Err(error) => {
                return Err(error);
            },
        }
        let header = match decode_header(message.bytes) {
            Ok(header) => header,
            Err(error) => {
                return Err(error);
            },
        };
        let service_nonce = self.service_nonce.get();
        if header.kind != RecordKind::ClientHello || header.payload_len != 0 || header.generation
            != 0 || header.sequence != 0 || is_all_zero(&header.client_nonce) || !is_all_zero(
            &header.service_nonce,
        ) || same_bytes(&header.client_nonce, &service_nonce) {
            return Err(SupervisorWireError::AuthenticationRequired);
        }
        self.state = ConnectionState::Authenticated {
            client_nonce: header.client_nonce,
            peer: message.peer,
        };
        let empty: [u8; 0] = [];
        assert(empty@ =~= seq![]);
        encode_record(
            Header {
                kind: RecordKind::ServiceHello,
                payload_len: 0,
                generation: self.connection_identity.get(),
                sequence: 0,
                client_nonce: header.client_nonce,
                service_nonce,
            },
            &empty,
        )
    }

    /// Consumes the single effect-bearing request of the connection. Only the exact peer with
    /// both nonces moves the state; other traffic leaves it untouched.
    pub fn receive_spawn(&mut self, message: VerifiedMessage<'_>, clock: ClockSample) -> (r: Result<
        AuthenticatedSpawnRequest,
        SupervisorWireError,
    >)
        ensures
            ({
                let (phase, outcome) = old(self)@.after_spawn(message.peer, message.bytes@, clock);
                &&& final(self)@ == old(self)@.with_phase(phase)
                &&& match (r, outcome) {
                    (Ok(request), Ok(expected)) => request@ == expected,
                    (Err(error), Err(expected)) => error == expected,
                    _ => false,
                }
            }),
    {
        let (client_nonce, peer) = match self.state {
            ConnectionState::AwaitingHello => {
                self.state = ConnectionState::Poisoned;
                return Err(SupervisorWireError::AuthenticationRequired);
            },
            ConnectionState::Authenticated { client_nonce, peer } => (client_nonce, peer),
            ConnectionState::SpawnConsumed => {
                self.state = ConnectionState::Poisoned;
                return Err(SupervisorWireError::StateViolation);
            },
            ConnectionState::Poisoned => {
                return Err(SupervisorWireError::StateViolation);
            },
        };
        if !message.peer.same_peer(peer) {
            return Err(SupervisorWireError::PeerMismatch);
        }
        let header = match decode_header(message.bytes) {
            Ok(header) => header,
            Err(error) => {
                return Err(error);
            },
        };
        let service_nonce = self.service_nonce.get();
        if header.kind != RecordKind::Spawn || header.generation != self.connection_identity.get()
            || header.sequence != 1 || !same_bytes(&header.client_nonce, &client_nonce)
            || !same_bytes(&header.service_nonce, &service_nonce) {
            return Err(SupervisorWireError::ReplayOrSubstitution);
        }
        self.state = ConnectionState::Poisoned;
        let payload = vstd::slice::slice_subrange(message.bytes, HEADER_LEN, message.bytes.len());
        let request = match decode_spawn_payload(payload) {
            Ok(request) => request,
            Err(error) => {
                return Err(error);
            },
        };
        let deadline = match SupervisorDeadlineBinding::from_wire(request.deadline(), clock) {
            Ok(deadline) => deadline,
            Err(error) => {
                return Err(error);
            },
        };
        self.state = ConnectionState::SpawnConsumed;
        Ok(AuthenticatedSpawnRequest::bind(peer, deadline, request))
    }

    /// Whether the connection is beyond use.
    pub fn is_poisoned(&self) -> (r: bool)
        ensures
            r == (self@.phase is Poisoned),
    {
        match self.state {
            ConnectionState::Poisoned => true,
            _ => false,
        }
    }

    /// Refuses a peer that was routed to another connection.
    fn verify_connection(&self, peer: VerifiedPeer) -> (r: Result<(), SupervisorWireError>)
        ensures
            r == (if peer.connection_identity.0 == self@.identity {
                Ok(())
            } else {
                Err(SupervisorWireError::PeerMismatch)
            }),
    {
        if peer.connection_identity.0 == self.connection_identity.0 {
            Ok(())
        } else {
            Err(SupervisorWireError::PeerMismatch)
        }
    }
}

/// Writes the hello of a client; a zero nonce is refused.
pub fn encode_client_hello(client_nonce: [u8; 32]) -> (r: Result<Vec<u8>, SupervisorWireError>)
    ensures
        match r {
            Ok(bytes) => !bytes::all_zero(client_nonce@) && bytes@ == record::record_bytes(
                client_hello(client_nonce@),
                seq![],
            ),
            Err(error) => bytes::all_zero(client_nonce@) && error
                == SupervisorWireError::ReplayOrSubstitution,
        },
{
    if is_all_zero(&client_nonce) {
        return Err(SupervisorWireError::ReplayOrSubstitution);
    }
    let empty: [u8; 0] = [];
    let service_nonce: [u8; 32] = [0u8;32];
    assert(empty@ =~= seq![]);
    assert(service_nonce@ =~= bytes::zeros(32));
    encode_record(
        Header {
            kind: RecordKind::ClientHello,
            payload_len: 0,
            generation: 0,
            sequence: 0,
            client_nonce,
            service_nonce,
        },
        &empty,
    )
}

/// Freshness facts accepted from one service reply.
pub struct ServiceHelloFacts {
    pub generation: u64,
    pub service_nonce: [u8; 32],
}

impl ServiceHelloFacts {
    /// Number of the connection.
    pub fn generation(&self) -> (r: u64)
        ensures
            r == self.generation,
    {
        self.generation
    }

    /// Nonce of the connection.
    pub fn service_nonce(&self) -> (r: [u8; 32])
        ensures
            r == self.service_nonce,
    {
        self.service_nonce
    }
}

/// Whether a header is the reply to the hello with `client_nonce`.
pub open spec fn answers_hello(header: HeaderModel, client_nonce: Seq<u8>) -> bool {
    &&& header.kind == RecordKind::ServiceHello
    &&& header.payload_len == 0
    &&& header.generation != 0
    &&& header.sequence == 0
    &&& header.client_nonce == client_nonce
    &&& !bytes::all_zero(header.service_nonce)
    &&& header.service_nonce != client_nonce
}

/// The facts of a service reply, or why it is refused.
pub open spec fn parsed_service_hello(bytes: Seq<u8>, client_nonce: Seq<u8>) -> Result<
    (u64, Seq<u8>),
    SupervisorWireError,
> {
    if bytes::all_zero(client_nonce) {
        Err(SupervisorWireError::ReplayOrSubstitution)
    } else {
        match record::parsed_header(bytes) {
            Err(error) => Err(error),
            Ok(header) => if answers_hello(header, client_nonce) {
                Ok((header.generation, header.service_nonce))
            } else {
                Err(SupervisorWireError::ReplayOrSubstitution)
            },
        }
    }
}

/// Validates a service reply against the nonce of this exact client hello.
pub fn decode_service_hello(bytes: &[u8], expected_client_nonce: [u8; 32]) -> (r: Result<
    ServiceHelloFacts,
    SupervisorWireError,
>)
    ensures
        match (r, parsed_service_hello(bytes@, expected_client_nonce@)) {
            (Ok(facts), Ok((generation, service_nonce))) => {
                &&& facts.generation == generation
                &&& facts.service_nonce@ == service_nonce
            },
            (Err(error), Err(expected)) => error == expected,
            _ => false,
        },
{
    if is_all_zero(&expected_client_nonce) {
        return Err(SupervisorWireError::ReplayOrSubstitution);
    }
    let header = match decode_header(bytes) {
        Ok(header) => header,
        Err(error) => {
            return Err(error);
        },
    };
    if header.kind != RecordKind::ServiceHello || header.payload_len != 0 || header.generation == 0
        || header.sequence != 0 || !same_bytes(&header.client_nonce, &expected_client_nonce)
        || is_all_zero(&header.service_nonce) || same_bytes(
        &header.service_nonce,
        &expected_client_nonce,
    ) {
        return Err(SupervisorWireError::ReplayOrSubstitution);
    }
    Ok(ServiceHelloFacts { generation: header.generation, service_nonce: header.service_nonce })
}

/// Whether the freshness facts of a connection are in order.
pub open spec fn fresh(generation: u64, client_nonce: Seq<u8>, service_nonce: Seq<u8>) -> bool {
    generation != 0 && !bytes::all_zero(client_nonce) && !bytes::all_zero(service_nonce)
}

/// Writes a spawn request for an authenticated connection.
pub fn encode_spawn_request(
    request: &SpawnRequest,
    generation: u64,
    client_nonce: [u8; 32],
    service_nonce: [u8; 32],
) -> (r: Result<Vec<u8>, SupervisorWireError>)
    ensures
        match r {
            Ok(bytes) => {
                &&& fresh(generation, client_nonce@, service_nonce@)
                &&& payload::request_fits(request@)
                &&& HEADER_LEN + payload::spawn_bytes(request@).len() <= MAX_SUPERVISOR_RECORD_BYTES
                &&& bytes@ == record::record_bytes(
                    spawn_header(
                        payload::spawn_bytes(request@).len(),
                        generation,
                        client_nonce@,
                        service_nonce@,
                    ),
                    payload::spawn_bytes(request@),
                )
            },
            Err(error) => if fresh(generation, client_nonce@, service_nonce@) {
                &&& error == SupervisorWireError::LimitExceeded
                &&& !payload::request_fits(request@)
                    || HEADER_LEN + payload::spawn_bytes(request@).len()
                    > MAX_SUPERVISOR_RECORD_BYTES
            } else {
                error == SupervisorWireError::ReplayOrSubstitution
            },
        },
{
    if generation == 0 || is_all_zero(&client_nonce) || is_all_zero(&service_nonce) {
        return Err(SupervisorWireError::ReplayOrSubstitution);
    }
    let payload = match encode_spawn_payload(request) {
        Ok(payload) => payload,
        Err(error) => {
            return Err(error);
        },
    };
    encode_record(
        Header {
            kind: RecordKind::Spawn,
            payload_len: payload.len(),
            generation,
            sequence: 1,
            client_nonce,
            service_nonce,
        },
        &payload,
    )
}

/// Whether `bytes` are the answer `result` to the spawn of the connection with these facts.
pub open spec fn answers_spawn(
    bytes: Seq<u8>,
    generation: u64,
    client_nonce: Seq<u8>,
    service_nonce: Seq<u8>,
    result: Result<Seq<u8>, SpawnFailure>,
) -> bool {
    &&& record::parsed_header(bytes) == Ok::<HeaderModel, SupervisorWireError>(
        result_header(generation, client_nonce, service_nonce),
    )
    &&& payload::holds_result(record::payload_of(bytes), result)
}

/// Why an answer is refused that no result stands behind.
pub open spec fn spawn_answer_error(
    bytes: Seq<u8>,
    generation: u64,
    client_nonce: Seq<u8>,
    service_nonce: Seq<u8>,
) -> SupervisorWireError {
    if !fresh(generation, client_nonce, service_nonce) {
        SupervisorWireError::ReplayOrSubstitution
    } else {
        match record::parsed_header(bytes) {
            Err(error) => error,
            Ok(header) => if header != result_header(generation, client_nonce, service_nonce) {
                SupervisorWireError::ReplayOrSubstitution
            } else {
                SupervisorWireError::Malformed
            },
        }
    }
}

/// Validates the answer to the spawn request of this exact connection.
pub fn decode_spawn_result(
    bytes: &[u8],
    generation: u64,
    client_nonce: [u8; 32],
    service_nonce: [u8; 32],
) -> (r: Result<DecodedSpawnResult, SupervisorWireError>)
    ensures
        match r {
            Ok(result) => {
                &&& fresh(generation, client_nonce@, service_nonce@)
                &&& answers_spawn(
                    bytes@,
                    generation,
                    client_nonce@,
                    service_nonce@,
                    result.plain(),
                )
            },
            Err(error) => {
                &&& error == spawn_answer_error(
                    bytes@,
                    generation,
                    client_nonce@,
                    service_nonce@,
                )
                &&& fresh(generation, client_nonce@, service_nonce@) ==> forall|
                    result: Result<Seq<u8>, SpawnFailure>,
                |
                    !answers_spawn(bytes@, generation, client_nonce@, service_nonce@, result)
            },
        },
{
    if generation == 0 || is_all_zero(&client_nonce) || is_all_zero(&service_nonce) {
        return Err(SupervisorWireError::ReplayOrSubstitution);
    }
    let header = match decode_header(bytes) {
        Ok(header) => header,
        Err(error) => {
            return Err(error);
        },
    };
    if header.kind != RecordKind::SpawnResult || header.payload_len != SPAWN_RESULT_LEN
        || header.generation != generation || header.sequence != 1 || !same_bytes(
        &header.client_nonce,
        &client_nonce,
    ) || !same_bytes(&header.service_nonce, &service_nonce) {
        return Err(SupervisorWireError::ReplayOrSubstitution);
    }
    assert(header@ =~= result_header(generation, client_nonce@, service_nonce@));
    decode_result_payload(vstd::slice::slice_subrange(bytes, HEADER_LEN, bytes.len()))
}

/// Writes the answer to a spawn request.
pub fn encode_spawn_result(
    result: Result<[u8; 32], SpawnFailure>,
    generation: u64,
    client_nonce: [u8; 32],
    service_nonce: [u8; 32],
) -> (r: Result<Vec<u8>, SupervisorWireError>)
    ensures
        match r {
            Ok(bytes) => {
                &&& fresh(generation, client_nonce@, service_nonce@)
                &&& match result {
                    Ok(handle) => !bytes::all_zero(handle@) && bytes@ == record::record_bytes(
                        result_header(generation, client_nonce@, service_nonce@),
                        payload::result_bytes(Ok(handle@)),
                    ),
                    Err(failure) => bytes@ == record::record_bytes(
                        result_header(generation, client_nonce@, service_nonce@),
                        payload::result_bytes(Err(failure)),
                    ),
                }
            },
            Err(error) => if fresh(generation, client_nonce@, service_nonce@) {
                error == SupervisorWireError::Malformed
                    && (result matches Ok(handle) && bytes::all_zero(
                    handle@,
                ))
            } else {
                error == SupervisorWireError::ReplayOrSubstitution
            },
        },
{
    if generation == 0 || is_all_zero(&client_nonce) || is_all_zero(&service_nonce) {
        return Err(SupervisorWireError::ReplayOrSubstitution);
    }
    let payload = match encode_result_payload(result) {
        Ok(payload) => payload,
        Err(error) => {
            return Err(error);
        },
    };
    let header = Header {
        kind: RecordKind::SpawnResult,
        payload_len: payload.len(),
        generation,
        sequence: 1,
        client_nonce,
        service_nonce,
    };
    assert(header@ =~= result_header(generation, client_nonce@, service_nonce@));
    encode_record(header, &payload)
}

/// Writes the answer that a session has started.
pub fn encode_ready_spawn_result(
    handle: [u8; 32],
    generation: u64,
    client_nonce: [u8; 32],
    service_nonce: [u8; 32],
) -> (r: Result<Vec<u8>, SupervisorWireError>)
    ensures
        match r {
            Ok(bytes) => {
                &&& fresh(generation, client_nonce@, service_nonce@)
                &&& !bytes::all_zero(handle@)
                &&& bytes@ == record::record_bytes(
                    result_header(generation, client_nonce@, service_nonce@),
                    payload::result_bytes(Ok(handle@)),
                )
            },
            Err(error) => if fresh(generation, client_nonce@, service_nonce@) {
                error == SupervisorWireError::Malformed && bytes::all_zero(handle@)
            } else {
                error == SupervisorWireError::ReplayOrSubstitution
            },
        },
{
    encode_spawn_result(Ok(handle), generation, client_nonce, service_nonce)
}

/// No effect before authentication: a spawn that comes first yields nothing and poisons.
pub proof fn law_no_effect_before_hello(
    connection: ConnectionModel,
    peer: VerifiedPeer,
    bytes: Seq<u8>,
    clock: ClockSample,
)
    requires
        connection.phase is AwaitingHello,
    ensures
        connection.after_spawn(peer, bytes, clock) == (
            ConnectionPhase::Poisoned,
            Err::<AuthenticatedModel, _>(SupervisorWireError::AuthenticationRequired),
        ),
{
}

/// Whether a connection has spent its one spawn or is beyond use.
pub open spec fn spent(connection: ConnectionModel) -> bool {
    connection.phase is SpawnConsumed || connection.phase is Poisoned
}

/// One spawn per connection: an accepted one spends the connection, and a spent connection
/// accepts nothing and stays spent, whatever arrives.
pub proof fn law_one_spawn_per_connection(
    connection: ConnectionModel,
    peer: VerifiedPeer,
    bytes: Seq<u8>,
    clock: ClockSample,
)
    ensures
        connection.after_spawn(peer, bytes, clock).1 is Ok ==> spent(
            connection.with_phase(connection.after_spawn(peer, bytes, clock).0),
        ),
        spent(connection) ==> {
            &&& connection.after_spawn(peer, bytes, clock).1 == Err::<AuthenticatedModel, _>(
                SupervisorWireError::StateViolation,
            )
            &&& connection.after_hello(peer, bytes).1 == Err::<Seq<u8>, _>(
                SupervisorWireError::StateViolation,
            )
            &&& connection.after_spawn(peer, bytes, clock).0 is Poisoned
            &&& connection.after_hello(peer, bytes).0 is Poisoned
        },
{
}

/// Foreign traffic cannot spend a connection: unless a message comes from the pinned peer and
/// carries both nonces, it leaves the connection as it was.
pub proof fn law_foreign_traffic_changes_nothing(
    connection: ConnectionModel,
    peer: VerifiedPeer,
    bytes: Seq<u8>,
    clock: ClockSample,
)
    requires
        connection.phase is Authenticated,
        peer != connection.phase->peer || (record::parsed_header(bytes) matches Ok(header)
            ==> !connection.claims(header, connection.phase->client_nonce)),
    ensures
        connection.after_spawn(peer, bytes, clock).0 == connection.phase,
        connection.after_spawn(peer, bytes, clock).1 is Err,
{
}

/// The peer of an accepted request is the peer of the accepted hello, and what it asks for is
/// what it wrote.
pub proof fn law_spawn_is_bound_to_hello(
    connection: ConnectionModel,
    peer: VerifiedPeer,
    hello: Seq<u8>,
    sender: VerifiedPeer,
    bytes: Seq<u8>,
    clock: ClockSample,
)
    requires
        connection.phase is AwaitingHello,
        connection.after_hello(peer, hello).1 is Ok,
    ensures
        ({
            let authenticated = connection.with_phase(connection.after_hello(peer, hello).0);
            authenticated.after_spawn(sender, bytes, clock).1 matches Ok(request) ==> {
                &&& sender == peer
                &&& request.peer == peer
                &&& peer.connection_identity.0 == connection.identity
                &&& payload::parsed_spawn(record::payload_of(bytes))
                    == Ok::<RequestModel, SupervisorWireError>(
                    request.request,
                )
                &&& request.request.deadline.local_instant(clock) == Ok::<u64, SupervisorWireError>(
                    request.local_deadline,
                )
            }
        }),
{
}

/// The whole handshake: a fresh connection answers the hello of its peer, the client reads the
/// connection's number and nonce out of the reply, and the request it then writes arrives.
pub proof fn law_handshake(
    connection: ConnectionModel,
    peer: VerifiedPeer,
    client_nonce: Seq<u8>,
    request: RequestModel,
    clock: ClockSample,
)
    requires
        connection.phase is AwaitingHello,
        connection.identity != 0,
        connection.service_nonce.len() == 32,
        !bytes::all_zero(connection.service_nonce),
        peer.connection_identity.0 == connection.identity,
        client_nonce.len() == 32,
        !bytes::all_zero(client_nonce),
        client_nonce != connection.service_nonce,
        target::valid_request(request),
        HEADER_LEN + payload::spawn_bytes(request).len() <= MAX_SUPERVISOR_RECORD_BYTES,
        request.deadline.local_instant(clock) is Ok,
    ensures
        ({
            let hello = record::record_bytes(client_hello(client_nonce), seq![]);
            let (phase, reply) = connection.after_hello(peer, hello);
            let payload = payload::spawn_bytes(request);
            let spawn = record::record_bytes(
                spawn_header(
                    payload.len(),
                    connection.identity,
                    client_nonce,
                    connection.service_nonce,
                ),
                payload,
            );
            &&& reply matches Ok(answer) && parsed_service_hello(answer, client_nonce) == Ok::<
                (u64, Seq<u8>),
                SupervisorWireError,
            >((connection.identity, connection.service_nonce))
            &&& connection.with_phase(phase).after_spawn(peer, spawn, clock) == (
                ConnectionPhase::SpawnConsumed,
                Ok::<AuthenticatedModel, SupervisorWireError>(
                    AuthenticatedModel {
                        peer,
                        wire_deadline: request.deadline,
                        local_deadline: request.deadline.local_instant(clock)->Ok_0,
                        request,
                    },
                ),
            )
        }),
{
    let payload = payload::spawn_bytes(request);
    record::law_record_round_trip(client_hello(client_nonce), seq![]);
    record::law_record_round_trip(
        service_hello(connection.identity, client_nonce, connection.service_nonce),
        seq![],
    );
    record::law_record_round_trip(
        spawn_header(payload.len(), connection.identity, client_nonce, connection.service_nonce),
        payload,
    );
    payload::law_spawn_round_trip(request);
}

/// An answer reads back as the result that was written, for the same connection only.
pub proof fn law_answer_round_trip(
    result: Result<Seq<u8>, SpawnFailure>,
    generation: u64,
    client_nonce: Seq<u8>,
    service_nonce: Seq<u8>,
)
    requires
        client_nonce.len() == 32,
        service_nonce.len() == 32,
        result matches Ok(handle) ==> handle.len() == 32 && !bytes::all_zero(handle),
    ensures
        answers_spawn(
            record::record_bytes(
                result_header(generation, client_nonce, service_nonce),
                payload::result_bytes(result),
            ),
            generation,
            client_nonce,
            service_nonce,
            result,
        ),
        forall|
            other: u64,
            client: Seq<u8>,
            service: Seq<u8>,
            claimed: Result<Seq<u8>, SpawnFailure>,
        |
            answers_spawn(
                record::record_bytes(
                    result_header(generation, client_nonce, service_nonce),
                    payload::result_bytes(result),
                ),
                other,
                client,
                service,
                claimed,
            ) ==> other == generation && client == client_nonce && service == service_nonce,
{
    payload::law_result_round_trip(result, payload::result_bytes(result));
    record::law_record_round_trip(
        result_header(generation, client_nonce, service_nonce),
        payload::result_bytes(result),
    );
}

/// A hello opens a connection exactly where the connection awaits one, comes from its own peer, and
/// is a client hello without payload, generation, sequence and service nonce, under a client nonce
/// of its own. The peer and the nonce are then pinned; any other hello poisons the connection.
pub proof fn law_hello_is_exact(connection: ConnectionModel, peer: VerifiedPeer, hello: Seq<u8>)
    requires
        connection.service_nonce.len() == 32,
    ensures
        ({
            let (phase, reply) = connection.after_hello(peer, hello);
            &&& reply is Ok <==> {
                &&& connection.phase is AwaitingHello
                &&& peer.connection_identity.0 == connection.identity
                &&& record::parsed_header(hello) matches Ok(header) && {
                    &&& header.kind == RecordKind::ClientHello
                    &&& header.payload_len == 0 && header.generation == 0 && header.sequence == 0
                    &&& header.client_nonce != connection.service_nonce
                    &&& exists|i: int| 0 <= i < header.client_nonce.len() && header.client_nonce[i]
                        != 0
                    &&& forall|i: int|
                        0 <= i < header.service_nonce.len() ==> header.service_nonce[i] == 0
                }
            }
            &&& reply is Ok ==> phase == (ConnectionPhase::Authenticated {
                client_nonce: record::parsed_header(hello)->Ok_0.client_nonce,
                peer,
            })
            &&& reply is Err ==> phase is Poisoned
        }),
{
}

/// A spawn that claims the open transaction is consumed or poisons it: with a readable request
/// inside an open window it is the request that was sent, with an unreadable one or outside its
/// window the connection is poisoned, and the failure told.
pub proof fn law_claimed_spawn_is_settled(
    connection: ConnectionModel,
    bytes: Seq<u8>,
    clock: ClockSample,
)
    requires
        connection.phase is Authenticated,
        record::parsed_header(bytes) matches Ok(header) && header.kind == RecordKind::Spawn
            && header.generation == connection.identity && header.sequence == 1
            && header.client_nonce == connection.phase->client_nonce && header.service_nonce
            == connection.service_nonce,
    ensures
        ({
            let peer = connection.phase->peer;
            let (phase, outcome) = connection.after_spawn(peer, bytes, clock);
            match payload::parsed_spawn(bytes.subrange(96, bytes.len() as int)) {
                Err(error) => phase is Poisoned && outcome == Err::<AuthenticatedModel, _>(error),
                Ok(request) => match request.deadline.local_instant(clock) {
                    Err(error) => phase is Poisoned && outcome == Err::<AuthenticatedModel, _>(
                        error,
                    ),
                    Ok(local) => phase is SpawnConsumed && (outcome matches Ok(accepted)
                        && accepted.peer == peer && accepted.request == request
                        && accepted.wire_deadline == request.deadline && accepted.local_deadline
                        == local),
                },
            }
        }),
{
}

/// What does not belong to the transaction is refused for what it is: another peer as a mismatch,
/// another header as a replay, and no header as none.
pub proof fn law_foreign_spawn_is_named(
    connection: ConnectionModel,
    peer: VerifiedPeer,
    bytes: Seq<u8>,
    clock: ClockSample,
)
    requires
        connection.phase is Authenticated,
    ensures
        ({
            let outcome = connection.after_spawn(peer, bytes, clock).1;
            &&& peer != connection.phase->peer ==> outcome == Err::<AuthenticatedModel, _>(
                SupervisorWireError::PeerMismatch,
            )
            &&& peer == connection.phase->peer && record::parsed_header(bytes) is Err ==> outcome
                == Err::<AuthenticatedModel, _>(SupervisorWireError::Malformed)
            &&& peer == connection.phase->peer && (record::parsed_header(bytes) matches Ok(header)
                && (header.kind != RecordKind::Spawn || header.generation != connection.identity
                || header.sequence != 1 || header.client_nonce != connection.phase->client_nonce
                || header.service_nonce != connection.service_nonce)) ==> outcome == Err::<
                AuthenticatedModel,
                _,
            >(SupervisorWireError::ReplayOrSubstitution)
        }),
{
}

/// A client accepts the answer to its hello exactly where it echoes its nonce, names a connection
/// and brings another nonce; and an exchange is fresh where the connection and both nonces are not
/// zero.
pub proof fn law_service_hello_is_exact(
    bytes: Seq<u8>,
    client_nonce: Seq<u8>,
    generation: u64,
    service_nonce: Seq<u8>,
)
    ensures
        parsed_service_hello(bytes, client_nonce) is Ok <==> {
            &&& exists|i: int| 0 <= i < client_nonce.len() && client_nonce[i] != 0
            &&& record::parsed_header(bytes) matches Ok(header) && {
                &&& header.kind == RecordKind::ServiceHello
                &&& header.payload_len == 0 && header.sequence == 0 && header.generation > 0
                &&& header.client_nonce == client_nonce
                &&& header.service_nonce != client_nonce
                &&& exists|i: int| 0 <= i < header.service_nonce.len() && header.service_nonce[i]
                    != 0
            }
        },
        fresh(generation, client_nonce, service_nonce) <==> {
            &&& generation > 0
            &&& exists|i: int| 0 <= i < client_nonce.len() && client_nonce[i] != 0
            &&& exists|i: int| 0 <= i < service_nonce.len() && service_nonce[i] != 0
        },
{
}

/// A record that does not answer is told apart: what is no record as what it is, the record of
/// another exchange as a substitution, and a bad answer of this one as malformed. A hello that does
/// not answer is a substitution.
pub proof fn law_bad_answers_are_named(
    bytes: Seq<u8>,
    generation: u64,
    client_nonce: Seq<u8>,
    service_nonce: Seq<u8>,
)
    ensures
        ({
            let error = spawn_answer_error(bytes, generation, client_nonce, service_nonce);
            let hello = parsed_service_hello(bytes, client_nonce);
            let begun = generation > 0 && (exists|i: int|
                0 <= i < client_nonce.len() && client_nonce[i] != 0) && (exists|i: int|
                0 <= i < service_nonce.len() && service_nonce[i] != 0);
            &&& !begun ==> error == SupervisorWireError::ReplayOrSubstitution
            &&& match record::parsed_header(bytes) {
                Err(bad) => {
                    &&& begun ==> error == bad
                    &&& begun ==> hello == Err::<(u64, Seq<u8>), _>(bad)
                },
                Ok(header) => {
                    let ours = header.kind == RecordKind::SpawnResult && header.generation
                        == generation && header.sequence == 1 && header.client_nonce == client_nonce
                        && header.service_nonce == service_nonce && header.payload_len == 40;
                    &&& begun && ours ==> error == SupervisorWireError::Malformed
                    &&& begun && !ours ==> error == SupervisorWireError::ReplayOrSubstitution
                    &&& hello is Err ==> hello == Err::<(u64, Seq<u8>), _>(
                        SupervisorWireError::ReplayOrSubstitution,
                    )
                },
            }
        }),
{
}

} // verus!
