use native_ipc::bytes::{array_at, contains_byte, starts_with, u16_at, u32_at, u64_at};
use native_ipc::order::{find, sort_distinct, standing, Standing};
use native_ipc::supervisor::connection::{
    decode_service_hello, decode_spawn_result, encode_client_hello, encode_ready_spawn_result,
    encode_spawn_request, encode_spawn_result, SupervisorConnection, VerifiedMessage,
};
use native_ipc::supervisor::deadline::{
    monotonic_now_nanos, ClockSample, SupervisorDeadline, SupervisorDeadlineBinding,
    SupervisorWireError, MAX_SUPERVISOR_DEADLINE,
};
use native_ipc::supervisor::payload::{
    decode_result_payload, decode_spawn_payload, encode_result_payload, encode_spawn_payload,
    DecodedSpawnResult, PayloadCursor, SpawnFailure,
};
use native_ipc::supervisor::peer::{
    ConnectionGeneration, ConnectionIdentity, FreshServiceNonce, VerifiedPeer,
};
use native_ipc::supervisor::policy::{
    AuthenticatedSpawnRequest, InstalledPolicyCatalog, TargetPolicyDefinition,
};
use native_ipc::supervisor::record::{
    decode_header, encode_record, Header, RecordKind, HEADER_LEN, MAX_SUPERVISOR_RECORD_BYTES,
};
use native_ipc::supervisor::target::{
    validate_component, validate_environment_key, validate_installed_executable,
    validate_policy_id, SpawnRequest, TargetEnvironmentEntry, MAX_ARGUMENTS, MAX_COMPONENT_BYTES,
    MAX_ENVIRONMENT, MAX_POLICY_ID_BYTES,
};

const CLIENT_NONCE: [u8; 32] = [0x11; 32];
const SERVICE_NONCE: [u8; 32] = [0x22; 32];
const GENERATION: u64 = 7;
const POLICY: &[u8] = b"org.example.worker";

fn clock() -> ClockSample {
    ClockSample {
        local_now: 40_000_000_000,
        monotonic_now: Some(90_000_000_000),
    }
}

fn deadline() -> SupervisorDeadline {
    SupervisorDeadline::from_wire(95_000_000_000)
}

fn entry(key: &[u8], value: &[u8]) -> TargetEnvironmentEntry {
    TargetEnvironmentEntry::new(key.to_vec(), value.to_vec()).unwrap()
}

fn request() -> SpawnRequest {
    SpawnRequest::new(
        deadline(),
        POLICY.to_vec(),
        vec![b"--verbose".to_vec(), Vec::new()],
        vec![entry(b"LANG", b"C"), entry(b"TZ", b"")],
    )
    .unwrap()
}

fn peer() -> VerifiedPeer {
    VerifiedPeer::from_authenticated_message_audit_token(
        ConnectionIdentity(GENERATION),
        [5; 32],
        501,
        20,
        [6; 32],
    )
    .unwrap()
}

fn connection() -> SupervisorConnection {
    SupervisorConnection::new(
        ConnectionGeneration::from_unique_service_value(GENERATION).unwrap(),
        FreshServiceNonce::from_fresh_random(SERVICE_NONCE).unwrap(),
    )
}

fn message<'a>(peer: VerifiedPeer, bytes: &'a [u8]) -> VerifiedMessage<'a> {
    VerifiedMessage::from_authenticated_message_audit_token(peer, bytes)
}

fn definition(policy_id: &[u8], keys: &[&[u8]]) -> TargetPolicyDefinition {
    TargetPolicyDefinition::new(
        policy_id.to_vec(),
        [6; 32],
        [8; 32],
        b"/example/NativeIPC.app/Contents/Helpers/worker".to_vec(),
        b"worker".to_vec(),
        2,
        keys.iter().map(|key| key.to_vec()).collect(),
    )
    .unwrap()
}

fn catalog() -> InstalledPolicyCatalog {
    InstalledPolicyCatalog::from_verified_installation(vec![
        definition(b"org.example.other", &[]),
        definition(POLICY, &[b"TZ", b"LANG"]),
        definition(b"org.example.a", &[]),
    ])
    .ok()
    .unwrap()
}

#[test]
fn clock_answers_become_nanoseconds() {
    assert_eq!(monotonic_now_nanos(0, 3, 5), Ok(3_000_000_005));
    assert_eq!(monotonic_now_nanos(0, 0, 999_999_999), Ok(999_999_999));
    for (status, seconds, nanoseconds) in [
        (-1, 3, 5),
        (0, -1, 5),
        (0, 3, -1),
        (0, 3, 1_000_000_000),
        (0, i64::MAX, 0),
        (0, 18_446_744_073, 709_551_616),
    ] {
        assert_eq!(
            monotonic_now_nanos(status, seconds, nanoseconds),
            Err(SupervisorWireError::ClockUnavailable)
        );
    }
    assert_eq!(
        monotonic_now_nanos(0, 18_446_744_073, 709_551_615),
        Ok(u64::MAX)
    );
}

#[test]
fn deadlines_convert_between_the_clocks_and_never_grow() {
    let clock = clock();
    let wire = SupervisorDeadline::from_instant(45_000_000_000, clock).unwrap();
    assert_eq!(wire.wire_value(), 95_000_000_000);
    assert_eq!(wire.to_local_instant(clock), Ok(45_000_000_000));
    // A receiver that looks later finds less time left, and the same end.
    let later = ClockSample {
        local_now: 41_000_000_000,
        monotonic_now: Some(91_000_000_000),
    };
    assert_eq!(wire.to_local_instant(later), Ok(45_000_000_000));
    let longest = clock.local_now + MAX_SUPERVISOR_DEADLINE;
    assert!(SupervisorDeadline::from_instant(longest, clock).is_ok());
    for refused in [clock.local_now, clock.local_now - 1, longest + 1] {
        assert_eq!(
            SupervisorDeadline::from_instant(refused, clock),
            Err(SupervisorWireError::LimitExceeded)
        );
    }
    for refused in [90_000_000_000, 0, 120_000_000_001, u64::MAX] {
        let wire = SupervisorDeadline::from_wire(refused);
        assert_eq!(
            wire.to_local_instant(clock),
            Err(SupervisorWireError::LimitExceeded)
        );
        assert!(SupervisorDeadlineBinding::from_wire(wire, clock).is_err());
    }
    let stopped = ClockSample {
        monotonic_now: None,
        ..clock
    };
    assert_eq!(
        SupervisorDeadline::from_instant(45_000_000_000, stopped),
        Err(SupervisorWireError::ClockUnavailable)
    );
    assert_eq!(
        wire.to_local_instant(stopped),
        Err(SupervisorWireError::ClockUnavailable)
    );
    let binding = SupervisorDeadlineBinding::from_wire(wire, clock).unwrap();
    assert_eq!(binding.wire(), wire);
    assert_eq!(binding.local(), 45_000_000_000);
    let sooner = SupervisorDeadline::from_wire(94_000_000_000);
    assert_eq!(wire.earlier(sooner), sooner);
    assert_eq!(sooner.earlier(wire), sooner);
}

#[test]
fn policy_identifiers_paths_and_keys_are_canonical() {
    for id in [&b"a"[..], b"...", b"Org.example_1-x", &[b'x'; 128]] {
        assert_eq!(validate_policy_id(id), Ok(()));
    }
    for id in [
        &b""[..],
        b".",
        b"..",
        b"a/b",
        b"a b",
        b"a\0",
        b"\xc3\xa9",
        &[b'x'; MAX_POLICY_ID_BYTES + 1],
    ] {
        assert_eq!(
            validate_policy_id(id),
            Err(SupervisorWireError::InvalidPolicy)
        );
    }
    for path in [&b"/a"[..], b"/a/b", b"/...", b"/.a", b"/a../b."] {
        assert_eq!(validate_installed_executable(path), Ok(()));
    }
    for path in [
        &b""[..],
        b"a",
        b"/",
        b"//",
        b"/a/",
        b"/a//b",
        b"/.",
        b"/./a",
        b"/..",
        b"/a/../b",
        b"/a\0",
        &[b'/'; MAX_COMPONENT_BYTES + 1],
    ] {
        assert_eq!(
            validate_installed_executable(path),
            Err(SupervisorWireError::InvalidPolicy)
        );
    }
    for key in [&b"A"[..], b"_", b"1", b"LANG", b"LDX", b"DYLD", b"XPC"] {
        assert_eq!(validate_environment_key(key), Ok(()));
    }
    for key in [
        &b""[..],
        b"lang",
        b"A=B",
        b"A\0",
        b"DYLD_INSERT_LIBRARIES",
        b"LD_PRELOAD",
        b"__XPC_X",
        b"XPC_SERVICE_NAME",
        b"NATIVE_IPC_NONCE",
        &[b'A'; MAX_COMPONENT_BYTES + 1],
    ] {
        assert_eq!(
            validate_environment_key(key),
            Err(SupervisorWireError::InvalidTargetInput)
        );
    }
    assert_eq!(validate_component(&[1; MAX_COMPONENT_BYTES]), Ok(()));
    for component in [&[1; MAX_COMPONENT_BYTES + 1][..], b"a\0b"] {
        assert_eq!(
            validate_component(component),
            Err(SupervisorWireError::InvalidTargetInput)
        );
        assert_eq!(
            TargetEnvironmentEntry::new(b"A".to_vec(), component.to_vec()).err(),
            Some(SupervisorWireError::InvalidTargetInput)
        );
    }
    assert_eq!(entry(b"A", b"b=c").key(), b"A");
    assert_eq!(entry(b"A", b"b=c").value(), b"b=c");
}

#[test]
fn requests_are_refused_in_order() {
    let build = |policy: &[u8], arguments, environment| {
        SpawnRequest::new(deadline(), policy.to_vec(), arguments, environment).err()
    };
    let many = |count| vec![vec![b'x']; count];
    let entries = |count| vec![entry(b"A", b""); count];
    assert_eq!(build(POLICY, many(63), entries(64)), None);
    assert_eq!(
        build(b".", many(64), entries(65)),
        Some(SupervisorWireError::InvalidPolicy)
    );
    assert_eq!(
        build(POLICY, many(MAX_ARGUMENTS), vec![]),
        Some(SupervisorWireError::LimitExceeded)
    );
    assert_eq!(
        build(POLICY, vec![], entries(MAX_ENVIRONMENT + 1)),
        Some(SupervisorWireError::LimitExceeded)
    );
    assert_eq!(
        build(POLICY, vec![vec![0]], vec![]),
        Some(SupervisorWireError::InvalidTargetInput)
    );
    let (wire, policy, arguments, environment) = request().into_parts();
    assert_eq!(wire, deadline());
    assert_eq!(policy, POLICY);
    assert_eq!(arguments.len(), 2);
    assert_eq!(environment.len(), 2);
}

fn header() -> Header {
    Header {
        kind: RecordKind::Spawn,
        payload_len: 3,
        generation: 0x0102_0304_0506_0708,
        sequence: 9,
        client_nonce: CLIENT_NONCE,
        service_nonce: SERVICE_NONCE,
    }
}

#[test]
fn records_round_trip_at_fixed_offsets() {
    let bytes = encode_record(header(), b"abc").unwrap();
    assert_eq!(bytes.len(), HEADER_LEN + 3);
    assert_eq!(&bytes[..8], b"NIPCSUP1");
    assert_eq!(bytes[8..16], [1, 0, 3, 0, 3, 0, 0, 0]);
    assert_eq!(bytes[16..24], [8, 7, 6, 5, 4, 3, 2, 1]);
    assert_eq!(bytes[24..32], [9, 0, 0, 0, 0, 0, 0, 0]);
    assert_eq!(bytes[32..64], CLIENT_NONCE);
    assert_eq!(bytes[64..96], SERVICE_NONCE);
    assert_eq!(&bytes[96..], b"abc");
    assert_eq!(decode_header(&bytes), Ok(header()));
    for length in 0..bytes.len() {
        assert_eq!(
            decode_header(&bytes[..length]),
            Err(SupervisorWireError::Malformed)
        );
    }
    for (offset, value) in [(0, 0), (8, 2), (10, 0), (10, 5), (12, 4), (15, 1)] {
        let mut mutated = bytes.clone();
        mutated[offset] = value;
        assert_eq!(
            decode_header(&mutated),
            Err(SupervisorWireError::Malformed)
        );
    }
    for (kind, code) in [
        (RecordKind::ClientHello, 1),
        (RecordKind::ServiceHello, 2),
        (RecordKind::Spawn, 3),
        (RecordKind::SpawnResult, 4),
    ] {
        assert_eq!(kind.code(), code);
        assert_eq!(RecordKind::decode(code), Ok(kind));
    }
    assert!(RecordKind::decode(0).is_err());
}

#[test]
fn records_are_bounded() {
    let longest = MAX_SUPERVISOR_RECORD_BYTES - HEADER_LEN;
    let of = |payload_len| Header {
        payload_len,
        ..header()
    };
    assert!(encode_record(of(longest), &vec![0; longest]).is_ok());
    assert_eq!(
        encode_record(of(longest + 1), &vec![0; longest + 1]),
        Err(SupervisorWireError::LimitExceeded)
    );
    assert_eq!(
        encode_record(of(4), b"abc"),
        Err(SupervisorWireError::LimitExceeded)
    );
}

#[test]
fn spawn_payload_round_trips_canonically() {
    let payload = encode_spawn_payload(&request()).unwrap();
    let mut expected = 95_000_000_000_u64.to_le_bytes().to_vec();
    expected.extend_from_slice(&[18, 0, 2, 0, 2, 0, 0, 0]);
    expected.extend_from_slice(POLICY);
    expected.extend_from_slice(b"\x09\0--verbose\0\0");
    expected.extend_from_slice(b"\x04\0LANG\x01\0C\x02\0TZ\0\0");
    assert_eq!(payload, expected);
    assert_eq!(decode_spawn_payload(&payload).unwrap(), request());
    for length in 0..payload.len() {
        assert_eq!(
            decode_spawn_payload(&payload[..length]).err(),
            Some(SupervisorWireError::Malformed)
        );
    }
    let mut extended = payload.clone();
    extended.push(0);
    assert_eq!(
        decode_spawn_payload(&extended).err(),
        Some(SupervisorWireError::Malformed)
    );
}

#[test]
fn spawn_payload_mutations_are_refused() {
    let payload = encode_spawn_payload(&request()).unwrap();
    for (offset, value, error) in [
        (8, 129, SupervisorWireError::LimitExceeded),
        (10, 65, SupervisorWireError::LimitExceeded),
        (12, 65, SupervisorWireError::LimitExceeded),
        (14, 1, SupervisorWireError::LimitExceeded),
        (16, b'/', SupervisorWireError::InvalidPolicy),
        (35, 0x20, SupervisorWireError::LimitExceeded),
        (36, 0, SupervisorWireError::InvalidTargetInput),
        (49, b'l', SupervisorWireError::InvalidTargetInput),
    ] {
        let mut mutated = payload.clone();
        mutated[offset] = value;
        assert_eq!(decode_spawn_payload(&mutated).err(), Some(error), "{offset}");
    }
    let mut cursor = PayloadCursor::new(b"\x02\0ab\x01");
    assert_eq!(cursor.component(), Ok(&b"ab"[..]));
    assert!(!cursor.is_empty());
    assert_eq!(cursor.take(2), Err(SupervisorWireError::Malformed));
    assert_eq!(cursor.take(1), Ok(&b"\x01"[..]));
    assert!(cursor.is_empty());
}

#[test]
fn oversized_requests_do_not_fit_a_record() {
    let long = SpawnRequest::new(
        deadline(),
        POLICY.to_vec(),
        vec![vec![b'x'; MAX_COMPONENT_BYTES]; 16],
        vec![],
    )
    .unwrap();
    assert_eq!(
        encode_spawn_request(&long, GENERATION, CLIENT_NONCE, SERVICE_NONCE),
        Err(SupervisorWireError::LimitExceeded)
    );
}

#[test]
fn results_round_trip() {
    let ready = encode_result_payload(Ok([9; 32])).unwrap();
    assert_eq!(ready[..8], [1, 0, 0, 0, 0, 0, 0, 0]);
    assert_eq!(ready[8..], [9; 32]);
    assert!(matches!(
        decode_result_payload(&ready),
        Ok(DecodedSpawnResult::Ready(handle)) if handle.bytes() == [9; 32]
    ));
    for (failure, code) in [
        (SpawnFailure::Denied, 1),
        (SpawnFailure::Busy, 2),
        (SpawnFailure::DeadlineExpired, 3),
        (SpawnFailure::LaunchFailed, 4),
    ] {
        let rejected = encode_result_payload(Err(failure)).unwrap();
        assert_eq!(rejected[..8], [2, 0, code, 0, 0, 0, 0, 0]);
        assert_eq!(rejected[8..], [0; 32]);
        assert!(matches!(
            decode_result_payload(&rejected),
            Ok(DecodedSpawnResult::Rejected(found)) if found == failure
        ));
        // A failure carries no handle.
        let mut mutated = rejected;
        mutated[39] = 1;
        assert!(decode_result_payload(&mutated).is_err());
    }
    assert_eq!(
        encode_result_payload(Ok([0; 32])),
        Err(SupervisorWireError::Malformed)
    );
    for (offset, value) in [(0, 0), (0, 2), (0, 3), (2, 1), (4, 1)] {
        let mut mutated = ready.clone();
        mutated[offset] = value;
        assert!(decode_result_payload(&mutated).is_err());
    }
}

#[test]
fn client_and_service_agree_on_one_spawn() {
    let mut service = connection();
    assert_eq!(service.connection_identity().get(), GENERATION);
    let hello = encode_client_hello(CLIENT_NONCE).unwrap();
    let reply = service.receive_client_hello(message(peer(), &hello)).unwrap();
    let facts = decode_service_hello(&reply, CLIENT_NONCE).unwrap();
    assert_eq!(facts.generation(), GENERATION);
    assert_eq!(facts.service_nonce(), SERVICE_NONCE);
    let bytes = encode_spawn_request(
        &request(),
        facts.generation(),
        CLIENT_NONCE,
        facts.service_nonce(),
    )
    .unwrap();
    let authenticated = service
        .receive_spawn(message(peer(), &bytes), clock())
        .unwrap();
    assert_eq!(authenticated.peer(), peer());
    assert_eq!(*authenticated.request(), request());
    let spawn = authenticated.validate(&catalog()).unwrap();
    assert_eq!(spawn.deadline(), 45_000_000_000);
    assert_eq!(spawn.wire_deadline(), deadline());
    assert_eq!(spawn.target_identity(), [8; 32]);
    assert_eq!(spawn.policy_id(), POLICY);
    assert_eq!(
        *spawn.arguments(),
        [b"worker".to_vec(), b"--verbose".to_vec(), Vec::new()]
    );
    let parts = spawn.launcher_parts_for_permit();
    assert_eq!(
        parts.installed_executable,
        b"/example/NativeIPC.app/Contents/Helpers/worker"
    );
    assert_eq!(parts.environment, *spawn.environment());
    assert_eq!(parts.arguments, *spawn.arguments());
    // The connection is spent.
    assert_eq!(
        service
            .receive_spawn(message(peer(), &bytes), clock())
            .err(),
        Some(SupervisorWireError::StateViolation)
    );
    assert!(service.is_poisoned());
}

#[test]
fn answers_are_bound_to_their_connection() {
    let ready = encode_ready_spawn_result([9; 32], GENERATION, CLIENT_NONCE, SERVICE_NONCE);
    assert_eq!(
        ready,
        encode_spawn_result(Ok([9; 32]), GENERATION, CLIENT_NONCE, SERVICE_NONCE)
    );
    let ready = ready.unwrap();
    assert!(matches!(
        decode_spawn_result(&ready, GENERATION, CLIENT_NONCE, SERVICE_NONCE),
        Ok(DecodedSpawnResult::Ready(handle)) if handle.bytes() == [9; 32]
    ));
    for (generation, client_nonce, service_nonce) in [
        (GENERATION + 1, CLIENT_NONCE, SERVICE_NONCE),
        (GENERATION, [3; 32], SERVICE_NONCE),
        (GENERATION, CLIENT_NONCE, [3; 32]),
        (0, CLIENT_NONCE, SERVICE_NONCE),
        (GENERATION, [0; 32], SERVICE_NONCE),
        (GENERATION, CLIENT_NONCE, [0; 32]),
    ] {
        assert_eq!(
            decode_spawn_result(&ready, generation, client_nonce, service_nonce).err(),
            Some(SupervisorWireError::ReplayOrSubstitution)
        );
    }
    assert_eq!(
        decode_spawn_result(&ready[1..], GENERATION, CLIENT_NONCE, SERVICE_NONCE).err(),
        Some(SupervisorWireError::Malformed)
    );
    assert_eq!(
        encode_spawn_result(Err(SpawnFailure::Busy), 0, CLIENT_NONCE, SERVICE_NONCE),
        Err(SupervisorWireError::ReplayOrSubstitution)
    );
    assert_eq!(
        encode_ready_spawn_result([0; 32], GENERATION, CLIENT_NONCE, SERVICE_NONCE),
        Err(SupervisorWireError::Malformed)
    );
}

#[test]
fn nothing_happens_before_the_hello() {
    let bytes =
        encode_spawn_request(&request(), GENERATION, CLIENT_NONCE, SERVICE_NONCE).unwrap();
    let mut service = connection();
    assert_eq!(
        service
            .receive_spawn(message(peer(), &bytes), clock())
            .err(),
        Some(SupervisorWireError::AuthenticationRequired)
    );
    let hello = encode_client_hello(CLIENT_NONCE).unwrap();
    assert_eq!(
        service.receive_client_hello(message(peer(), &hello)),
        Err(SupervisorWireError::StateViolation)
    );
    assert_eq!(
        encode_client_hello([0; 32]),
        Err(SupervisorWireError::ReplayOrSubstitution)
    );
    // A hello that belongs elsewhere, or that echoes the service.
    let mut stranger = peer();
    stranger.connection_identity = ConnectionIdentity(GENERATION + 1);
    let mut service = connection();
    assert_eq!(
        service.receive_client_hello(message(stranger, &hello)),
        Err(SupervisorWireError::PeerMismatch)
    );
    let mut service = connection();
    assert_eq!(
        service.receive_client_hello(message(peer(), &hello[1..])),
        Err(SupervisorWireError::Malformed)
    );
    let echo = encode_client_hello(SERVICE_NONCE).unwrap();
    let mut service = connection();
    assert_eq!(
        service.receive_client_hello(message(peer(), &echo)),
        Err(SupervisorWireError::AuthenticationRequired)
    );
    assert!(service.is_poisoned());
}

#[test]
fn foreign_traffic_does_not_spend_an_authenticated_connection() {
    let mut service = connection();
    let hello = encode_client_hello(CLIENT_NONCE).unwrap();
    service.receive_client_hello(message(peer(), &hello)).unwrap();
    let bytes =
        encode_spawn_request(&request(), GENERATION, CLIENT_NONCE, SERVICE_NONCE).unwrap();
    let mut stranger = peer();
    stranger.audit_identity = [9; 32];
    assert_eq!(
        service
            .receive_spawn(message(stranger, &bytes), clock())
            .err(),
        Some(SupervisorWireError::PeerMismatch)
    );
    assert_eq!(
        service
            .receive_spawn(message(peer(), &bytes[1..]), clock())
            .err(),
        Some(SupervisorWireError::Malformed)
    );
    let replayed = encode_spawn_request(&request(), GENERATION, [3; 32], SERVICE_NONCE).unwrap();
    assert_eq!(
        service
            .receive_spawn(message(peer(), &replayed), clock())
            .err(),
        Some(SupervisorWireError::ReplayOrSubstitution)
    );
    assert!(!service.is_poisoned());
    assert!(service
        .receive_spawn(message(peer(), &bytes), clock())
        .is_ok());
}

#[test]
fn expired_request_poisons_its_connection() {
    let mut service = connection();
    let hello = encode_client_hello(CLIENT_NONCE).unwrap();
    service.receive_client_hello(message(peer(), &hello)).unwrap();
    let bytes =
        encode_spawn_request(&request(), GENERATION, CLIENT_NONCE, SERVICE_NONCE).unwrap();
    let late = ClockSample {
        local_now: 45_000_000_000,
        monotonic_now: Some(95_000_000_000),
    };
    assert_eq!(
        service.receive_spawn(message(peer(), &bytes), late).err(),
        Some(SupervisorWireError::LimitExceeded)
    );
    assert!(service.is_poisoned());
}

#[test]
fn service_hello_answers_one_client() {
    let mut service = connection();
    let hello = encode_client_hello(CLIENT_NONCE).unwrap();
    let reply = service.receive_client_hello(message(peer(), &hello)).unwrap();
    assert_eq!(
        decode_service_hello(&reply, [3; 32]).err(),
        Some(SupervisorWireError::ReplayOrSubstitution)
    );
    assert_eq!(
        decode_service_hello(&reply, [0; 32]).err(),
        Some(SupervisorWireError::ReplayOrSubstitution)
    );
    assert_eq!(
        decode_service_hello(&hello, CLIENT_NONCE).err(),
        Some(SupervisorWireError::ReplayOrSubstitution)
    );
    assert_eq!(
        decode_service_hello(&reply[1..], CLIENT_NONCE).err(),
        Some(SupervisorWireError::Malformed)
    );
}

#[test]
fn peers_and_freshness_are_nonzero() {
    assert_eq!(
        ConnectionGeneration::from_unique_service_value(0).err(),
        Some(SupervisorWireError::ReplayOrSubstitution)
    );
    assert_eq!(
        FreshServiceNonce::from_fresh_random([0; 32]).err(),
        Some(SupervisorWireError::ReplayOrSubstitution)
    );
    for (audit, uid, gid, code) in [
        ([0; 32], 501, 20, [6; 32]),
        ([5; 32], 0, 20, [6; 32]),
        ([5; 32], u32::MAX, 20, [6; 32]),
        ([5; 32], 501, 0, [6; 32]),
        ([5; 32], 501, u32::MAX, [6; 32]),
        ([5; 32], 501, 20, [0; 32]),
    ] {
        assert_eq!(
            VerifiedPeer::from_authenticated_message_audit_token(
                ConnectionIdentity(GENERATION),
                audit,
                uid,
                gid,
                code
            ),
            Err(SupervisorWireError::PeerMismatch)
        );
    }
    assert!(peer().same_peer(peer()));
    let mut other = peer();
    other.code_identity = [7; 32];
    assert!(!peer().same_peer(other));
    assert_eq!(peer().effective_uid(), 501);
    assert_eq!(peer().effective_gid(), 20);
    assert_eq!(peer().connection_generation(), GENERATION);
}

fn authenticated(request: &SpawnRequest) -> AuthenticatedSpawnRequest {
    let mut service = connection();
    let hello = encode_client_hello(CLIENT_NONCE).unwrap();
    service.receive_client_hello(message(peer(), &hello)).unwrap();
    let bytes = encode_spawn_request(request, GENERATION, CLIENT_NONCE, SERVICE_NONCE).unwrap();
    service
        .receive_spawn(message(peer(), &bytes), clock())
        .ok()
        .unwrap()
}

#[test]
fn policies_admit_only_what_they_name() {
    let refused = |policy: &[u8], arguments: usize, environment: Vec<TargetEnvironmentEntry>| {
        let request = SpawnRequest::new(
            deadline(),
            policy.to_vec(),
            vec![b"x".to_vec(); arguments],
            environment,
        )
        .unwrap();
        authenticated(&request).validate(&catalog()).err()
    };
    assert_eq!(refused(POLICY, 2, vec![entry(b"TZ", b"")]), None);
    assert_eq!(
        refused(b"org.example.absent", 0, vec![]),
        Some(SupervisorWireError::InvalidPolicy)
    );
    assert_eq!(
        refused(POLICY, 3, vec![]),
        Some(SupervisorWireError::InvalidTargetInput)
    );
    assert_eq!(
        refused(POLICY, 0, vec![entry(b"PATH", b"")]),
        Some(SupervisorWireError::InvalidTargetInput)
    );
    assert_eq!(
        refused(POLICY, 0, vec![entry(b"TZ", b"a"), entry(b"TZ", b"b")]),
        Some(SupervisorWireError::InvalidTargetInput)
    );
    assert!(catalog().resolve(POLICY).is_some());
    assert!(catalog().resolve(b"org.example").is_none());
    let foreign = TargetPolicyDefinition::new(
        POLICY.to_vec(),
        [7; 32],
        [8; 32],
        b"/worker".to_vec(),
        b"worker".to_vec(),
        2,
        vec![b"LANG".to_vec(), b"TZ".to_vec()],
    )
    .unwrap();
    let catalog = InstalledPolicyCatalog::from_verified_installation(vec![foreign])
        .ok()
        .unwrap();
    assert_eq!(
        authenticated(&request()).validate(&catalog).err(),
        Some(SupervisorWireError::PeerMismatch)
    );
}

#[test]
fn catalogs_name_each_policy_once() {
    assert!(InstalledPolicyCatalog::from_verified_installation(vec![]).is_err());
    assert_eq!(
        InstalledPolicyCatalog::from_verified_installation(vec![
            definition(POLICY, &[]),
            definition(b"org.example.other", &[]),
            definition(POLICY, &[b"TZ"]),
        ])
        .err(),
        Some(SupervisorWireError::InvalidPolicy)
    );
    // The order of the keys does not matter.
    assert_eq!(
        definition(POLICY, &[b"TZ", b"LANG"]),
        definition(POLICY, &[b"LANG", b"TZ"])
    );
    let define = |policy: &[u8],
                  client,
                  target,
                  path: &[u8],
                  name: &[u8],
                  most,
                  keys: Vec<Vec<u8>>| {
        TargetPolicyDefinition::new(
            policy.to_vec(),
            client,
            target,
            path.to_vec(),
            name.to_vec(),
            most,
            keys,
        )
        .err()
    };
    let id = [6; 32];
    let invalid = Some(SupervisorWireError::InvalidPolicy);
    assert_eq!(define(POLICY, id, id, b"/w", b"w", 63, vec![]), None);
    assert_eq!(define(b"..", id, id, b"/w", b"w", 0, vec![]), invalid);
    assert_eq!(define(POLICY, [0; 32], id, b"/w", b"w", 0, vec![]), invalid);
    assert_eq!(define(POLICY, id, [0; 32], b"/w", b"w", 0, vec![]), invalid);
    assert_eq!(define(POLICY, id, id, b"w", b"w", 0, vec![]), invalid);
    assert_eq!(define(POLICY, id, id, b"/w", b"", 0, vec![]), invalid);
    assert_eq!(define(POLICY, id, id, b"/w", b"w", 64, vec![]), invalid);
    assert_eq!(
        define(POLICY, id, id, b"/w", b"w", 0, vec![b"A".to_vec(); 65]),
        invalid
    );
    assert_eq!(
        define(POLICY, id, id, b"/w", b"w", 0, vec![b"A".to_vec(); 2]),
        invalid
    );
    let input = Some(SupervisorWireError::InvalidTargetInput);
    assert_eq!(define(POLICY, id, id, b"/w", b"w\0", 0, vec![]), input);
    assert_eq!(
        define(POLICY, id, id, b"/w", b"w", 0, vec![b"a".to_vec()]),
        input
    );
}

#[test]
fn strings_are_ordered_as_bytes() {
    assert_eq!(standing(b"a", b"a"), Standing::Same);
    assert_eq!(standing(b"a", b"ab"), Standing::Less);
    assert_eq!(standing(b"b", b"ab"), Standing::Greater);
    assert_eq!(standing(b"", b"\0"), Standing::Less);
    let list = |items: &[&[u8]]| -> Vec<Vec<u8>> { items.iter().map(|i| i.to_vec()).collect() };
    let sorted = sort_distinct(list(&[b"b", b"", b"ab", b"a"])).unwrap();
    assert_eq!(sorted, list(&[b"", b"a", b"ab", b"b"]));
    assert!(sort_distinct(list(&[b"b", b"a", b"b"])).is_none());
    assert_eq!(find(&sorted, b"ab"), Ok(2));
    assert_eq!(find(&sorted, b"aa"), Err(2));
    assert_eq!(find(&sorted, b"c"), Err(4));
}

#[test]
fn words_are_little_endian() {
    let bytes = [1, 2, 3, 4, 5, 6, 7, 8, 9];
    assert_eq!(u16_at(&bytes, 1), Some(0x0302));
    assert_eq!(u32_at(&bytes, 5), Some(0x0908_0706));
    assert_eq!(u64_at(&bytes, 1), Some(0x0908_0706_0504_0302));
    assert_eq!(u16_at(&bytes, 8), None);
    assert_eq!(u32_at(&bytes, usize::MAX), None);
    assert_eq!(u64_at(&bytes, 2), None);
    assert_eq!(array_at(&[7; 33], 1), Some([7; 32]));
    assert_eq!(array_at(&[7; 33], 2), None);
    assert!(starts_with(&bytes, &[1, 2]));
    assert!(!starts_with(&bytes, &[2]));
    assert!(contains_byte(&bytes, 9));
    assert!(!contains_byte(&bytes, 0));
}
