use native_ipc::bootstrap::channel::{checked_nonce, ChildChannel, ParentChannel, SpawnedHelper};
use native_ipc::bootstrap::environment::{
    decimal, helper_arguments, helper_environment, hex, inherited_environment, parse_nonce,
    parse_pid, ChildEnvironment,
};
use native_ipc::bootstrap::error::{
    bootstrap_lifecycle_error, bootstrap_lifecycle_transport_error, bootstrap_native_error,
    port_peer_state, BootstrapError, PeerState, SessionTransportError, MACH_PORT_TYPE_DEAD_NAME,
    MACH_PORT_TYPE_SEND,
};
use native_ipc::bootstrap::handshake::{
    marker, BrokerAction, BrokerEvent, LauncherAction, LauncherEvent, TracedLauncherStart,
    TracedTargetExec, NO_DESCENDANTS_LIMIT,
};
use native_ipc::bootstrap::lifecycle::{
    mac_child_cleanup_facts, native_outcome, signal_outcome, terminate_and_reap,
    unowned_cleanup_facts, wait_for_traced_stop, ChildExitStatus, DescendantCleanupStatus,
    MacChildLifecycleState, MacChildReaper, ReaperAction, StatusStep, TracedStopStep, WaitAnswer,
    WNOHANG, WNOHANG_WUNTRACED, WUNTRACED,
};
use native_ipc::bootstrap::port::{encode_port_message, read_port_message, MESSAGE_MAGIC};
use native_ipc::bootstrap::spawn::{
    HelperSpawn, SpawnAction, SpawnEvent, SpawnFailure, FRESH_SESSION_FLAGS,
};
use native_ipc::bootstrap::timing::{
    bootstrap_timeout, deadline_timeout, port_receive_step, port_send_step, vnext_receive_bytes,
    vnext_receive_step, vnext_send_step, MachStep,
};
use native_ipc::bootstrap::vnext::{
    carries_rights, encode_vnext_message, parse_vnext_message, SendRight, VnextRecordKind,
    MAX_VNEXT_RECORD_BYTES, VNEXT_MESSAGE_ID, VNEXT_MESSAGE_MAGIC,
};
use native_ipc::mach::{encode_audit_token, round_mach_message, AuditToken};
use native_ipc::wait_status::{EINTR, ESRCH, SIGSTOP, SIGTRAP};

const NONCE: [u8; 32] = [7_u8; 32];
const RECEIVE_PORT: u32 = 0x1234;
const PID: u32 = 43_210;
const SENDER: AuditToken = AuditToken {
    values: [1, 501, 20, 501, 20, PID, 9, 4],
};

fn put(bytes: &mut Vec<u8>, words: &[u32]) {
    for word in words {
        bytes.extend_from_slice(&word.to_le_bytes());
    }
}

fn trailer(audit: AuditToken) -> Vec<u8> {
    let mut bytes = Vec::new();
    put(&mut bytes, &[0, 52, 0, 0, 0]);
    bytes.extend_from_slice(&encode_audit_token(audit));
    bytes
}

fn canonical_zero_rights_record(
    nonce: &[u8; 32],
    receive_port: u32,
    audit: AuditToken,
    payload: &[u8],
) -> Vec<u8> {
    let message_size = round_mach_message(24 + 48 + payload.len()).unwrap();
    let mut bytes = Vec::new();
    put(
        &mut bytes,
        &[
            17 << 8,
            message_size as u32,
            0,
            receive_port,
            0,
            VNEXT_MESSAGE_ID,
        ],
    );
    bytes.extend_from_slice(&VNEXT_MESSAGE_MAGIC);
    bytes.extend_from_slice(nonce);
    put(&mut bytes, &[1, payload.len() as u32]);
    bytes.extend_from_slice(payload);
    bytes.resize(message_size, 0);
    bytes.extend_from_slice(&trailer(audit));
    bytes
}

#[test]
fn parse_vnext_message_enforces_pinned_audit_token_continuity() {
    let nonce = [7_u8; 32];
    let receive_port: u32 = 0x1234;
    let pid = 43_210_u32;
    let sender = AuditToken {
        values: [1, 501, 20, 501, 20, pid, 9, 4],
    };

    // A record whose kernel trailer matches the pinned token parses.
    let storage = canonical_zero_rights_record(&nonce, receive_port, sender, b"hello");
    let record =
        parse_vnext_message(&storage, receive_port, &nonce, pid, Some(sender), 64).unwrap();
    assert_eq!(record.bytes, b"hello");
    assert!(record.audit == sender);

    // A changed PID version (helper exec) keeps the PID but must reject.
    let mut execed = sender;
    execed.values[7] += 1;
    let storage = canonical_zero_rights_record(&nonce, receive_port, execed, b"hello");
    assert!(matches!(
        parse_vnext_message(&storage, receive_port, &nonce, pid, Some(sender), 64),
        Err(SessionTransportError::IdentityMismatch)
    ));

    // Any other credential change in the token must also reject.
    let mut setuid = sender;
    setuid.values[1] = 0;
    let storage = canonical_zero_rights_record(&nonce, receive_port, setuid, b"hello");
    assert!(matches!(
        parse_vnext_message(&storage, receive_port, &nonce, pid, Some(sender), 64),
        Err(SessionTransportError::IdentityMismatch)
    ));

    // Without a pinned token the exact audit PID check still applies.
    let storage = canonical_zero_rights_record(&nonce, receive_port, sender, b"hello");
    assert!(parse_vnext_message(&storage, receive_port, &nonce, pid, None, 64).is_ok());
    let storage = canonical_zero_rights_record(&nonce, receive_port, sender, b"hello");
    assert!(matches!(
        parse_vnext_message(&storage, receive_port, &nonce, pid + 1, None, 64),
        Err(SessionTransportError::IdentityMismatch)
    ));
}

/// What the kernel makes of a sent message on its way to the receiver.
fn deliver(sent: &[u8], receive_port: u32, audit: AuditToken) -> Vec<u8> {
    let complex = sent[3] & 0x80 != 0;
    let mut bytes = Vec::new();
    put(
        &mut bytes,
        &[
            if complex { 0x8000_1100 } else { 0x1100 },
            u32::from_le_bytes(sent[4..8].try_into().unwrap()),
            0,
            receive_port,
            0,
        ],
    );
    bytes.extend_from_slice(&sent[20..]);
    if complex {
        let count = u32::from_le_bytes(bytes[24..28].try_into().unwrap()) as usize;
        for index in 0..count {
            bytes[28 + 12 * index + 10] = 17;
        }
    }
    bytes.extend_from_slice(&trailer(audit));
    bytes
}

#[test]
fn sent_records_arrive_as_they_were_sent() {
    let sent = encode_vnext_message(
        0x55,
        &NONCE,
        VnextRecordKind::Capabilities,
        b"three",
        &[0x101, 0x102, 0x103],
        false,
    )
    .unwrap();
    assert!(carries_rights(&sent));
    let record = parse_vnext_message(
        &deliver(&sent, RECEIVE_PORT, SENDER),
        RECEIVE_PORT,
        &NONCE,
        PID,
        None,
        64,
    )
    .unwrap();
    assert!(record.kind == VnextRecordKind::Capabilities);
    assert_eq!(record.bytes, b"three");
    assert_eq!(
        record.rights.iter().map(SendRight::name).collect::<Vec<_>>(),
        [0x101, 0x102, 0x103]
    );
    assert!(record.audit == SENDER);

    // Every changed byte of the fixed part is refused.
    let whole = deliver(&sent, RECEIVE_PORT, SENDER);
    for at in 0..whole.len() - 52 {
        let mut changed = whole.clone();
        changed[at] ^= 0x40;
        let parsed = parse_vnext_message(&changed, RECEIVE_PORT, &NONCE, PID, None, 64);
        let name_or_payload = (28..64).contains(&at) && (at - 28) % 12 < 4
            || (112..117).contains(&at);
        assert_eq!(parsed.is_ok(), name_or_payload, "offset {at}");
    }
    assert!(matches!(
        parse_vnext_message(&whole, RECEIVE_PORT, &NONCE, PID, None, 4),
        Err(SessionTransportError::RecordTooLarge | SessionTransportError::MalformedRecord)
    ));
}

#[test]
fn record_kinds_and_limits_are_checked_before_sending() {
    let encode = |kind, payload: &[u8], rights: &[u32], mismatched| {
        encode_vnext_message(1, &NONCE, kind, payload, rights, mismatched)
    };
    assert_eq!(
        encode(VnextRecordKind::Capabilities, b"x", &[], false),
        Err(SessionTransportError::MalformedRecord)
    );
    assert_eq!(
        encode(VnextRecordKind::ZeroRights, b"x", &[5], false),
        Err(SessionTransportError::MalformedRecord)
    );
    assert!(encode(VnextRecordKind::ZeroRights, b"x", &[5], true).is_ok());
    assert_eq!(
        encode(VnextRecordKind::Capabilities, b"x", &[5, 0], false),
        Err(SessionTransportError::MalformedRecord)
    );
    assert_eq!(
        encode(VnextRecordKind::Capabilities, b"x", &[5; 17], false),
        Err(SessionTransportError::MalformedRecord)
    );
    assert!(encode(VnextRecordKind::Capabilities, b"x", &[5; 16], false).is_ok());
    for payload in [vec![], vec![0; MAX_VNEXT_RECORD_BYTES + 1]] {
        assert_eq!(
            encode(VnextRecordKind::ZeroRights, &payload, &[], false),
            Err(SessionTransportError::RecordTooLarge)
        );
    }
    assert!(encode(
        VnextRecordKind::ZeroRights,
        &vec![0; MAX_VNEXT_RECORD_BYTES],
        &[],
        false
    )
    .is_ok());
}

#[test]
fn port_messages_arrive_only_under_their_nonce_and_transcript() {
    let sent = encode_port_message(0x55, 0x201, 20, &NONCE, b"transcript");
    let arrived = deliver(&sent, RECEIVE_PORT, SENDER);
    assert_eq!(&arrived[40..48], &MESSAGE_MAGIC);
    let (right, audit) =
        read_port_message(&arrived, RECEIVE_PORT, &NONCE, PID, b"transcript").unwrap();
    assert_eq!(right.name(), 0x201);
    assert!(audit == SENDER);
    assert_eq!(
        read_port_message(&arrived, RECEIVE_PORT, &NONCE, PID + 1, b"transcript").err(),
        Some(BootstrapError::WrongPeer {
            expected: PID + 1,
            actual: PID,
        })
    );
    for (nonce, transcript, receive) in [
        ([8; 32], b"transcript", RECEIVE_PORT),
        (NONCE, b"transcribe", RECEIVE_PORT),
        (NONCE, b"transcript", RECEIVE_PORT + 1),
    ] {
        assert_eq!(
            read_port_message(&arrived, receive, &nonce, PID, transcript).err(),
            Some(BootstrapError::InvalidMessage)
        );
    }
    assert_eq!(
        read_port_message(&arrived[..100], RECEIVE_PORT, &NONCE, PID, b"transcript").err(),
        Some(BootstrapError::InvalidMessage)
    );
}

#[test]
fn environment_round_trips_the_nonce_and_the_parent() {
    let nonce: [u8; 32] = core::array::from_fn(|index| (index * 7 + 3) as u8);
    let encoded = hex(&nonce);
    assert_eq!(encoded.len(), 64);
    assert_eq!(&encoded[..4], b"030a");
    assert_eq!(parse_nonce(&encoded), Ok(nonce));
    assert_eq!(decimal(4_294_967_295), b"4294967295");
    assert_eq!(decimal(0), b"0");
    assert_eq!(parse_pid(b"4294967295"), Some(u32::MAX));
    assert_eq!(parse_pid(b"+7"), Some(7));
    for text in [&b""[..], b"4294967296", b"-1", b"12a", b" 1", b"+"] {
        assert_eq!(parse_pid(text), None);
    }
    for text in [&encoded[..62], b"", &[b'g'; 64]] {
        assert_eq!(parse_nonce(text), Err(BootstrapError::InvalidEnvironment));
    }

    let environment = helper_environment(vec![b"A=1".to_vec()], &nonce, 99);
    assert_eq!(environment.len(), 3);
    assert_eq!(environment[0], b"A=1");
    assert!(environment[1].ends_with(&encoded));
    assert!(environment[2].ends_with(b"=99"));
    let value = |entry: &Vec<u8>| {
        let at = entry.iter().position(|byte| *byte == b'=').unwrap();
        Some(entry[at + 1..].to_vec())
    };
    let child = ChildEnvironment {
        nonce: value(&environment[1]),
        parent_pid: value(&environment[2]),
    };
    assert_eq!(child.parse(), Ok((nonce, 99)));
    let missing = ChildEnvironment {
        nonce: value(&environment[1]),
        parent_pid: None,
    };
    assert_eq!(missing.parse(), Err(BootstrapError::InvalidEnvironment));

    let key = |entry: &Vec<u8>| {
        let at = entry.iter().position(|byte| *byte == b'=').unwrap();
        entry[..at].to_vec()
    };
    let inherited = inherited_environment(&vec![
        (b"PATH".to_vec(), b"/bin".to_vec()),
        (key(&environment[1]), b"stale".to_vec()),
        (key(&environment[2]), b"1".to_vec()),
        (b"BAD".to_vec(), b"a\0b".to_vec()),
    ]);
    assert_eq!(inherited, [b"PATH=/bin".to_vec()]);
    assert_eq!(
        helper_arguments(b"/helper", &vec![b"-x".to_vec()], false),
        [b"/helper".to_vec(), b"-x".to_vec()]
    );
    assert_eq!(
        helper_arguments(b"/helper", &vec![b"name".to_vec()], true),
        [b"name".to_vec()]
    );
}

#[test]
fn timeouts_cover_their_deadline() {
    assert_eq!(deadline_timeout(0), Err(SessionTransportError::DeadlineExpired));
    assert_eq!(deadline_timeout(1), Ok(1));
    assert_eq!(deadline_timeout(1_000_000), Ok(1));
    assert_eq!(deadline_timeout(1_000_001), Ok(2));
    assert_eq!(deadline_timeout(u128::MAX), Ok(u32::MAX));
    assert_eq!(bootstrap_timeout(None), Ok(10_000));
    assert_eq!(bootstrap_timeout(Some(0)), Err(BootstrapError::DeadlineExpired));
    assert_eq!(bootstrap_timeout(Some(2_500_000)), Ok(3));
    assert!(vnext_receive_bytes(MAX_VNEXT_RECORD_BYTES).is_ok());
    assert_eq!(
        vnext_receive_bytes(MAX_VNEXT_RECORD_BYTES + 1),
        Err(SessionTransportError::RecordTooLarge)
    );
}

#[test]
fn mach_statuses_are_repeated_only_before_the_deadline() {
    const SEND_TIMED_OUT: i32 = 0x1000_0004;
    const SEND_INTERRUPTED: i32 = 0x1000_0007;
    const RECEIVE_TIMED_OUT: i32 = 0x1000_4003;
    const RECEIVE_TOO_LARGE: i32 = 0x1000_4004;
    const RECEIVE_INTERRUPTED: i32 = 0x1000_4005;
    assert!(matches!(vnext_send_step(0, false), MachStep::Done));
    assert!(matches!(vnext_receive_step(0, false), MachStep::Done));
    assert!(matches!(port_send_step(0, None), MachStep::Done));
    assert!(matches!(port_receive_step(0, Some(false)), MachStep::Done));
    // A send that came through at the deadline leaves the peer's state open.
    assert!(matches!(
        vnext_send_step(0, true),
        MachStep::Failed(SessionTransportError::Ambiguous)
    ));
    assert!(matches!(
        port_send_step(0, Some(true)),
        MachStep::Failed(BootstrapError::Ambiguous)
    ));
    assert!(matches!(
        vnext_receive_step(0, true),
        MachStep::Failed(SessionTransportError::DeadlineExpired)
    ));
    assert!(matches!(
        port_receive_step(0, Some(true)),
        MachStep::Failed(BootstrapError::DeadlineExpired)
    ));
    assert!(matches!(vnext_send_step(SEND_INTERRUPTED, true), MachStep::Again));
    assert!(matches!(vnext_send_step(SEND_TIMED_OUT, false), MachStep::Again));
    assert!(matches!(
        vnext_send_step(SEND_TIMED_OUT, true),
        MachStep::Failed(SessionTransportError::DeadlineExpired)
    ));
    assert!(matches!(
        vnext_send_step(0x1000_0003, false),
        MachStep::Failed(SessionTransportError::Native(Some(0x1000_0003)))
    ));
    assert!(matches!(
        vnext_receive_step(RECEIVE_INTERRUPTED, true),
        MachStep::Again
    ));
    assert!(matches!(
        vnext_receive_step(RECEIVE_TIMED_OUT, true),
        MachStep::Failed(SessionTransportError::DeadlineExpired)
    ));
    assert!(matches!(
        vnext_receive_step(RECEIVE_TOO_LARGE, false),
        MachStep::Failed(SessionTransportError::RecordTooLarge)
    ));
    // Without a deadline nothing is repeated.
    assert!(matches!(
        port_receive_step(RECEIVE_TIMED_OUT, None),
        MachStep::Failed(BootstrapError::DeadlineExpired)
    ));
    assert!(matches!(
        port_receive_step(RECEIVE_INTERRUPTED, None),
        MachStep::Failed(BootstrapError::Mach {
            operation: "mach_msg(receive)",
            code: RECEIVE_INTERRUPTED,
        })
    ));
    assert!(matches!(
        port_send_step(SEND_INTERRUPTED, None),
        MachStep::Failed(BootstrapError::Mach {
            operation: "mach_msg(send)",
            code: SEND_INTERRUPTED,
        })
    ));
    assert!(matches!(
        port_send_step(SEND_INTERRUPTED, Some(true)),
        MachStep::Again
    ));
}

#[test]
fn failures_are_told_apart() {
    assert_eq!(
        bootstrap_lifecycle_error(SessionTransportError::Native(Some(5))),
        BootstrapError::Spawn(5)
    );
    assert_eq!(
        bootstrap_lifecycle_error(SessionTransportError::Native(None)),
        BootstrapError::InvalidMessage
    );
    assert_eq!(
        bootstrap_lifecycle_error(SessionTransportError::DeadlineExpired),
        BootstrapError::DeadlineExpired
    );
    assert_eq!(
        bootstrap_lifecycle_transport_error(BootstrapError::WrongPeer {
            expected: 1,
            actual: 2
        }),
        SessionTransportError::IdentityMismatch
    );
    assert_eq!(
        bootstrap_lifecycle_transport_error(BootstrapError::InvalidEnvironment),
        SessionTransportError::MalformedRecord
    );
    assert_eq!(
        bootstrap_native_error(&BootstrapError::Mach {
            operation: "x",
            code: 4
        }),
        Some(4)
    );
    assert_eq!(bootstrap_native_error(&BootstrapError::Ambiguous), None);
    assert_eq!(
        port_peer_state(0, MACH_PORT_TYPE_DEAD_NAME | MACH_PORT_TYPE_SEND),
        Ok(PeerState::ExitedUnknown)
    );
    assert_eq!(port_peer_state(0, MACH_PORT_TYPE_SEND), Ok(PeerState::Running));
    assert_eq!(
        port_peer_state(0, 0),
        Err(SessionTransportError::Native(None))
    );
    assert_eq!(
        port_peer_state(15, MACH_PORT_TYPE_SEND),
        Err(SessionTransportError::Native(Some(15)))
    );
    assert_eq!(checked_nonce([0; 32]), Err(BootstrapError::InvalidEnvironment));
    assert_eq!(checked_nonce(NONCE), Ok(NONCE));
}

fn spawned(fresh: bool) -> HelperSpawn {
    let mut spawn = HelperSpawn::begin(NONCE, fresh).ok().unwrap();
    let mut actions = Vec::new();
    while spawn.action() != SpawnAction::Done {
        let action = spawn.action();
        actions.push(action);
        let event = match action {
            SpawnAction::AllocateReceive => SpawnEvent::Allocated(0, RECEIVE_PORT),
            SpawnAction::MakeSend
            | SpawnAction::InitAttributes
            | SpawnAction::SetSpecialPort
            | SpawnAction::SetFlags => SpawnEvent::Status(0),
            SpawnAction::PrepareLifecycle => SpawnEvent::Prepared(Ok(())),
            SpawnAction::Spawn => SpawnEvent::Spawned(0, PID),
            SpawnAction::Capture => SpawnEvent::Captured(Ok(SENDER)),
            SpawnAction::Resume => SpawnEvent::Resumed(Ok(())),
            SpawnAction::Done => unreachable!(),
        };
        spawn.advance(event).unwrap();
    }
    if fresh {
        assert_eq!(
            actions[4..],
            [
                SpawnAction::SetFlags,
                SpawnAction::PrepareLifecycle,
                SpawnAction::Spawn,
                SpawnAction::Capture,
                SpawnAction::Resume,
            ]
        );
    } else {
        assert_eq!(actions[4..], [SpawnAction::Spawn]);
    }
    spawn
}

#[test]
fn spawned_helper_uses_private_port_and_audit_pid() {
    let plan = SpawnedHelper::spawn(
        b"/helper",
        &vec![b"-v".to_vec()],
        &vec![(b"A".to_vec(), b"1".to_vec())],
        NONCE,
        77,
    )
    .ok()
    .unwrap();
    assert_eq!(plan.arguments, [b"/helper".to_vec(), b"-v".to_vec()]);
    assert_eq!(plan.environment.len(), 3);
    assert_eq!(plan.launch.action(), SpawnAction::AllocateReceive);
    let helper = spawned(false).finish().unwrap();
    let expected_pid = helper.pid();
    assert!(helper.owes_cleanup());
    let channel = helper
        .authenticate(Ok((SendRight(0x31), SENDER)), 5)
        .ok()
        .unwrap();
    assert_eq!(channel.peer_pid(), expected_pid);
    assert!(channel.owes_cleanup());
}

#[test]
fn suspended_spawn_captures_exact_task_identity_before_bootstrap() {
    assert_eq!(FRESH_SESSION_FLAGS, 0x4480);
    let helper = spawned(true).finish().unwrap();
    assert!(!helper.owes_cleanup());
    let mut lifecycle = MacChildLifecycleState::prepare();
    lifecycle.install_task_identity(0x41, SENDER);
    let installed = lifecycle.install_authenticated_audit_token(Ok(SENDER), SENDER);
    let channel = helper
        .authenticate_vnext(Ok((SendRight(0x31), SENDER)), installed, 6)
        .ok()
        .unwrap();
    assert_eq!(channel.peer_pid(), PID);
    assert!(!channel.owes_cleanup());

    let mut execed = SENDER;
    execed.values[7] += 1;
    let refused = lifecycle.install_authenticated_audit_token(Ok(execed), SENDER);
    assert_eq!(refused, Err(SessionTransportError::IdentityMismatch));
    let helper = spawned(true).finish().unwrap();
    assert_eq!(
        helper
            .authenticate_vnext(Ok((SendRight(0x31), SENDER)), refused, 6)
            .err(),
        Some(BootstrapError::InvalidMessage)
    );
}

#[test]
fn every_failed_spawn_step_names_its_error() {
    for (event_at, event, expected) in [
        (
            SpawnAction::AllocateReceive,
            SpawnEvent::Allocated(6, 0),
            BootstrapError::Mach {
                operation: "mach_port_allocate",
                code: 6,
            },
        ),
        (
            SpawnAction::AllocateReceive,
            SpawnEvent::Allocated(0, 0),
            BootstrapError::InvalidMessage,
        ),
        (
            SpawnAction::MakeSend,
            SpawnEvent::Status(7),
            BootstrapError::Mach {
                operation: "mach_port_insert_right",
                code: 7,
            },
        ),
        (
            SpawnAction::SetFlags,
            SpawnEvent::Status(22),
            BootstrapError::Spawn(22),
        ),
        (
            SpawnAction::PrepareLifecycle,
            SpawnEvent::Prepared(Err(SessionTransportError::Native(Some(35)))),
            BootstrapError::Spawn(35),
        ),
        (
            SpawnAction::Spawn,
            SpawnEvent::Spawned(2, 0),
            BootstrapError::Spawn(2),
        ),
        (
            SpawnAction::Capture,
            SpawnEvent::Captured(Err(BootstrapError::Mach {
                operation: "task_name_for_pid",
                code: 5,
            })),
            BootstrapError::ExactAuthorityUnavailable {
                native_error: Some(5),
            },
        ),
        (
            SpawnAction::Resume,
            SpawnEvent::Resumed(Err(3)),
            BootstrapError::Spawn(3),
        ),
    ] {
        let mut spawn = HelperSpawn::begin(NONCE, true).ok().unwrap();
        let failure: SpawnFailure = loop {
            let action = spawn.action();
            if action == event_at {
                break spawn.advance(event).unwrap_err();
            }
            let good = match action {
                SpawnAction::AllocateReceive => SpawnEvent::Allocated(0, RECEIVE_PORT),
                SpawnAction::PrepareLifecycle => SpawnEvent::Prepared(Ok(())),
                SpawnAction::Spawn => SpawnEvent::Spawned(0, PID),
                SpawnAction::Capture => SpawnEvent::Captured(Ok(SENDER)),
                _ => SpawnEvent::Status(0),
            };
            spawn.advance(good).unwrap();
        };
        assert_eq!(failure.error, expected);
        assert_eq!(
            failure.request_termination,
            matches!(event_at, SpawnAction::Capture | SpawnAction::Resume)
        );
        assert!(spawn.finish().is_none());
    }
    assert_eq!(
        HelperSpawn::begin([0; 32], true).err(),
        Some(BootstrapError::InvalidEnvironment)
    );
}

fn parent(channel_id: u64) -> ParentChannel {
    SpawnedHelper::spawned(PID, NONCE, RECEIVE_PORT, false)
        .authenticate(Ok((SendRight(0x31), SENDER)), channel_id)
        .ok()
        .unwrap()
}

#[test]
fn foreign_pending_values_fail_closed_before_commit() {
    let mut first = parent(1);
    let mut second = parent(2);
    first.send(b"first".to_vec(), Ok(())).ok().unwrap();
    second.send(b"second".to_vec(), Ok(())).ok().unwrap();
    assert_ne!(first.pending_provenance(), second.pending_provenance());
    // The mismatched transaction is poisoned, and the helper is ended once.
    assert_eq!(second.poison_transaction(), PID);
    assert_eq!(second.poison_transaction(), 0);
    let failure = second.ready_and_commit(Ok(())).err().unwrap();
    assert_eq!(failure.error, BootstrapError::InvalidMessage);
    assert_eq!(failure.terminate, 0);
    // The other channel goes on.
    let before = first.pending_provenance();
    first.ready_and_commit(Ok(())).ok().unwrap();
    assert_eq!(first.pending_provenance(), (before.0, before.1 + 1));
}

#[test]
fn batches_name_exactly_the_pending_transfers() {
    let mut sender = parent(6);
    assert_eq!(sender.batch_parts(), Ok((NONCE, PID, 1, &Vec::new())));
    sender.send(b"first".to_vec(), Ok(())).ok().unwrap();
    sender.send(b"second".to_vec(), Ok(())).ok().unwrap();
    let entries = vec![b"first".to_vec(), b"second".to_vec()];
    assert_eq!(sender.batch_parts(), Ok((NONCE, PID, 1, &entries)));
    sender.ready_and_commit(Ok(())).ok().unwrap();
    assert_eq!(sender.batch_parts(), Ok((NONCE, PID, 2, &Vec::new())));
    sender.poison_transaction();
    assert_eq!(sender.batch_parts(), Err(BootstrapError::InvalidMessage));

    let mut receiver = child();
    receiver
        .receive(b"first".to_vec(), Ok(SendRight(0x41)))
        .ok()
        .unwrap();
    assert_eq!(
        receiver.batch_parts(),
        Ok((NONCE, PID, 1, &vec![b"first".to_vec()]))
    );
    receiver.ready_and_wait_commit(Ok(())).unwrap();
    assert_eq!(receiver.batch_parts(), Ok((NONCE, PID, 2, &Vec::new())));
    receiver.poison_transaction();
    assert_eq!(receiver.batch_parts(), Err(BootstrapError::InvalidMessage));
}

#[test]
fn failed_transfers_poison_the_channel() {
    let mut channel = parent(3);
    let failure = channel
        .send(b"x".to_vec(), Err(BootstrapError::Ambiguous))
        .err()
        .unwrap();
    assert_eq!(failure.error, BootstrapError::Ambiguous);
    assert_eq!(failure.terminate, PID);
    assert_eq!(channel.may_commit(), Err(BootstrapError::InvalidMessage));
    let mut waited = parent(4);
    assert_eq!(waited.wait(i64::from(PID), 9), Err(BootstrapError::Spawn(9)));
    assert_eq!(waited.wait(i64::from(PID), 0), Ok(()));
    assert!(!waited.owes_cleanup());
    let failed = SpawnedHelper::spawned(PID, NONCE, RECEIVE_PORT, false)
        .authenticate(Err(BootstrapError::InvalidMessage), 5)
        .err()
        .unwrap();
    assert_eq!(failed.terminate, PID);
}

fn child() -> ChildChannel {
    let environment = ChildEnvironment {
        nonce: Some(hex(&NONCE)),
        parent_pid: Some(decimal(PID)),
    };
    let (channel, hello) =
        ChildChannel::connect_from_environment(&environment, 0, 0x61, Ok(RECEIVE_PORT), &[0; 64], 9)
            .ok()
            .unwrap();
    assert_eq!(hello.len(), 80 + 64);
    assert_eq!(&hello[8..12], &0x61_u32.to_le_bytes());
    assert_eq!(&hello[28..32], &RECEIVE_PORT.to_le_bytes());
    channel
}

#[test]
fn child_connects_only_to_the_parent_it_is_told_of() {
    let good = ChildEnvironment {
        nonce: Some(hex(&NONCE)),
        parent_pid: Some(decimal(PID)),
    };
    let bad = ChildEnvironment {
        nonce: None,
        parent_pid: Some(decimal(PID)),
    };
    let connect = |environment: &ChildEnvironment, status, port, receive| {
        ChildChannel::connect_from_environment(environment, status, port, receive, &[0; 64], 9)
            .err()
    };
    assert_eq!(
        connect(&bad, 0, 5, Ok(6)),
        Some(BootstrapError::InvalidEnvironment)
    );
    assert_eq!(
        connect(&good, 4, 5, Ok(6)),
        Some(BootstrapError::Mach {
            operation: "task_get_special_port",
            code: 4
        })
    );
    assert_eq!(
        connect(&good, 0, 0, Ok(6)),
        Some(BootstrapError::InvalidEnvironment)
    );
    assert_eq!(
        connect(&good, 0, 5, Err(BootstrapError::InvalidMessage)),
        Some(BootstrapError::InvalidMessage)
    );
    assert_eq!(connect(&good, 0, 5, Ok(6)), None);
    let channel = child();
    assert_eq!(channel.vnext_nonce(), NONCE);
    assert_eq!(channel.vnext_parent_pid(), PID);
    assert_eq!(channel.pending_provenance(), (9, 1));
}

#[test]
fn child_pins_the_execution_of_its_first_record() {
    let mut channel = child();
    let record = canonical_zero_rights_record(&NONCE, RECEIVE_PORT, SENDER, b"one");
    assert_eq!(channel.receive_zero_rights(&record, 64).unwrap(), b"one");
    let mut execed = SENDER;
    execed.values[7] += 1;
    let other = canonical_zero_rights_record(&NONCE, RECEIVE_PORT, execed, b"two");
    assert_eq!(
        channel.receive_zero_rights(&other, 64).err().unwrap().error,
        SessionTransportError::IdentityMismatch
    );
    assert_eq!(channel.receive_zero_rights(&record, 64).unwrap(), b"one");

    // A record of the other kind is refused, and its rights come back for release.
    let sent = encode_vnext_message(
        1,
        &NONCE,
        VnextRecordKind::Capabilities,
        b"cap",
        &[0x301],
        false,
    )
    .unwrap();
    let refused = channel
        .receive_zero_rights(&deliver(&sent, RECEIVE_PORT, SENDER), 64)
        .err()
        .unwrap();
    assert_eq!(refused.error, SessionTransportError::MalformedRecord);
    assert_eq!(refused.rights.len(), 1);
    let accepted = channel
        .receive_capabilities(&deliver(&sent, RECEIVE_PORT, SENDER), 64)
        .unwrap();
    assert_eq!(accepted.bytes, b"cap");
    assert_eq!(accepted.rights[0].name(), 0x301);

    let mut transfers = child();
    assert!(transfers.receive(b"entry".to_vec(), Ok(SendRight(4))).is_ok());
    assert_eq!(transfers.ready_and_wait_commit(Ok(())), Ok(()));
    assert_eq!(transfers.pending_provenance(), (9, 2));
    transfers.poison_transaction();
    assert_eq!(
        transfers.ready_and_wait_commit(Ok(())),
        Err(BootstrapError::InvalidMessage)
    );
}

fn stop(signal: i32) -> i32 {
    (signal << 8) | 0x7f
}

#[test]
fn traced_launcher_handshake_precedes_rlimit_and_target_exec() {
    assert_eq!(NO_DESCENDANTS_LIMIT, 1);
    let mut broker = TracedLauncherStart::start_traced_launcher(PID, PID).unwrap();
    broker.advance(BrokerEvent::Captured(Ok(SENDER))).unwrap();
    broker.advance(BrokerEvent::Bootstrap(0, 0x71)).unwrap();
    let (record, port) = broker.announcement().unwrap();
    broker.advance(BrokerEvent::Sent(Ok(()))).unwrap();
    assert_eq!(broker.action, BrokerAction::AwaitTraced);

    let mut channel = child();
    let sent =
        encode_vnext_message(1, &NONCE, VnextRecordKind::Capabilities, &record, &[port], false)
            .unwrap();
    let received = channel.receive_capabilities(&deliver(&sent, RECEIVE_PORT, SENDER), 32);
    let mut launcher = TracedTargetExec::prepare_traced_target_exec(PID);
    launcher.receive_broker(received).unwrap();
    assert_eq!(launcher.launchd_port, 0x71);
    launcher.advance(LauncherEvent::Status(0)).unwrap();
    launcher
        .advance(LauncherEvent::Captured(Ok(SENDER)))
        .unwrap();
    launcher.advance(LauncherEvent::Parent(PID)).unwrap();
    launcher.advance(LauncherEvent::Native(Ok(()))).unwrap();
    launcher
        .advance(LauncherEvent::Captured(Ok(SENDER)))
        .unwrap();
    launcher.advance(LauncherEvent::Parent(PID)).unwrap();
    let traced = launcher.outgoing().unwrap();
    broker
        .advance(BrokerEvent::Received(Ok(marker(&[traced]))))
        .unwrap();
    launcher.advance(LauncherEvent::Sent(Ok(()))).unwrap();
    assert_eq!(launcher.action, LauncherAction::RaiseStop);
    broker
        .advance(BrokerEvent::Stopped(Ok(stop(SIGSTOP))))
        .unwrap();
    assert_eq!(broker.action, BrokerAction::ContinueStopped);
    broker.advance(BrokerEvent::Continued(Ok(()))).unwrap();
    launcher.advance(LauncherEvent::Native(Ok(()))).unwrap();
    launcher
        .advance(LauncherEvent::Captured(Ok(SENDER)))
        .unwrap();
    assert_eq!(launcher.action, LauncherAction::LimitProcesses);
    launcher.advance(LauncherEvent::Native(Ok(()))).unwrap();
    let limited = launcher.outgoing().unwrap();
    broker
        .advance(BrokerEvent::Received(Ok(marker(&[limited]))))
        .unwrap();
    launcher.advance(LauncherEvent::Sent(Ok(()))).unwrap();
    assert_eq!(launcher.action, LauncherAction::ExecTarget);
    broker
        .advance(BrokerEvent::Stopped(Ok(stop(SIGTRAP))))
        .unwrap();
    broker.advance(BrokerEvent::Continued(Ok(()))).unwrap();
    assert_eq!(broker.action, BrokerAction::Done);
}

#[test]
fn handshake_refuses_substituted_parties_and_stops() {
    assert_eq!(
        TracedLauncherStart::start_traced_launcher(PID, PID + 1).err(),
        Some(SessionTransportError::IdentityMismatch)
    );
    let mut broker = TracedLauncherStart::start_traced_launcher(PID, PID).unwrap();
    assert_eq!(
        broker.advance(BrokerEvent::Captured(Err(BootstrapError::Spawn(4)))),
        Err(SessionTransportError::Native(Some(4)))
    );
    broker.advance(BrokerEvent::Captured(Ok(SENDER))).unwrap();
    assert_eq!(
        broker.advance(BrokerEvent::Bootstrap(0, 0)),
        Err(SessionTransportError::Native(Some(0)))
    );
    broker.advance(BrokerEvent::Bootstrap(0, 5)).unwrap();
    broker.advance(BrokerEvent::Sent(Ok(()))).unwrap();
    for received in [Some(2), None, Some(0)] {
        assert_eq!(
            broker.advance(BrokerEvent::Received(Ok(received))),
            Err(SessionTransportError::MalformedRecord)
        );
    }
    broker.advance(BrokerEvent::Received(Ok(Some(1)))).unwrap();
    for status in [stop(SIGTRAP), 0, 9] {
        assert_eq!(
            broker.advance(BrokerEvent::Stopped(Ok(status))),
            Err(SessionTransportError::IdentityMismatch)
        );
    }
    assert_eq!(marker(&[1, 1]), None);
    assert_eq!(marker(&[]), None);

    let mut launcher = TracedTargetExec::prepare_traced_target_exec(PID);
    launcher.broker = Some(SENDER);
    launcher.action = LauncherAction::CaptureParent;
    let mut other = SENDER;
    other.values[7] ^= 1;
    assert_eq!(
        launcher.advance(LauncherEvent::Captured(Ok(other))),
        Err(SessionTransportError::IdentityMismatch)
    );
    launcher
        .advance(LauncherEvent::Captured(Ok(SENDER)))
        .unwrap();
    assert_eq!(
        launcher.advance(LauncherEvent::Parent(1)),
        Err(SessionTransportError::IdentityMismatch)
    );
    launcher.advance(LauncherEvent::Parent(PID)).unwrap();
    assert_eq!(
        launcher.advance(LauncherEvent::Native(Err(Some(1)))),
        Err(SessionTransportError::Native(Some(1)))
    );
}

#[test]
fn silent_prebootstrap_child_is_terminated_from_captured_audit_identity() {
    let mut state = MacChildLifecycleState::prepare();
    let mut reaper = MacChildReaper::new();
    assert_eq!(reaper.look(0, false, false, &state), ReaperAction::Sleep);
    assert_eq!(reaper.look(0, true, false, &state), ReaperAction::Return);
    state.install_task_identity(0x41, SENDER);
    assert_eq!(
        reaper.look(77, true, false, &state),
        ReaperAction::KillExact(SENDER)
    );
    assert_eq!(reaper.look(77, true, false, &state), ReaperAction::Wait);
    reaper.killed(Ok(()));
    assert_eq!(reaper.wait_options(false), WNOHANG);
    let running = WaitAnswer {
        result: 0,
        status: 0,
        errno: None,
    };
    assert_eq!(
        reaper.take_wait(&mut state, 77, running),
        ReaperAction::Sleep
    );
    assert_eq!(state.try_poll(), Ok(PeerState::Running));
    let ended = WaitAnswer {
        result: 77,
        status: 9,
        errno: None,
    };
    assert_eq!(reaper.take_wait(&mut state, 77, ended), ReaperAction::Return);
    let StatusStep::Ready(result) = state.wait_for_status(false) else {
        unreachable!()
    };
    let cleanup = mac_child_cleanup_facts(result);
    assert_eq!(
        cleanup.exit,
        Some(ChildExitStatus::Signaled {
            signal: 9,
            dumped_core: false
        })
    );
    assert_eq!(cleanup.native_error, None);
    assert_eq!(
        cleanup.descendants,
        DescendantCleanupStatus::FreshGroupUnverified
    );
}

#[test]
fn traced_launcher_lifecycle_uses_exact_ptrace_termination() {
    let mut state = MacChildLifecycleState::prepare();
    state.install_task_identity(0x41, SENDER);
    let mut reaper = MacChildReaper::new();
    assert_eq!(reaper.look(77, true, true, &state), ReaperAction::StopTraced);
    reaper.stopped(Err(Some(ESRCH)));
    assert_eq!(reaper.pending_signal_error, None);
    assert_eq!(reaper.wait_options(true), WNOHANG | WUNTRACED);
    assert_eq!(WNOHANG_WUNTRACED, WNOHANG | WUNTRACED);
    let stopped = WaitAnswer {
        result: 77,
        status: stop(SIGSTOP),
        errno: None,
    };
    assert_eq!(
        reaper.take_wait(&mut state, 77, stopped),
        ReaperAction::KillStopped
    );
    reaper.trace_killed(Ok(()));
    assert_eq!(state.try_poll(), Ok(PeerState::Running));
    let interrupted = WaitAnswer {
        result: -1,
        status: 0,
        errno: Some(EINTR),
    };
    assert_eq!(
        reaper.take_wait(&mut state, 77, interrupted),
        ReaperAction::Again
    );
    let ended = WaitAnswer {
        result: 77,
        status: 9,
        errno: None,
    };
    assert_eq!(reaper.take_wait(&mut state, 77, ended), ReaperAction::Return);
    assert_eq!(state.try_poll(), Ok(PeerState::ExitedUnknown));
    assert!(!state.exited_successfully());
}

#[test]
fn failed_exact_signal_is_reported_and_never_retried_by_number() {
    let mut state = MacChildLifecycleState::prepare();
    state.install_task_identity(0x41, SENDER);
    let mut reaper = MacChildReaper::new();
    assert_eq!(
        reaper.look(77, true, false, &state),
        ReaperAction::KillExact(SENDER)
    );
    reaper.killed(signal_outcome(-1, Some(ESRCH)));
    let running = WaitAnswer {
        result: 0,
        status: 0,
        errno: None,
    };
    assert_eq!(
        reaper.take_wait(&mut state, 77, running),
        ReaperAction::Sleep
    );
    assert_eq!(
        state.try_poll(),
        Err(SessionTransportError::Native(Some(ESRCH)))
    );
    // The child may still end by itself: a vanished execution is waited for.
    assert_eq!(state.wait_for_status(false), StatusStep::Wait);
    assert_eq!(
        state.wait_for_status(true),
        StatusStep::Ready(Err(SessionTransportError::Native(Some(ESRCH))))
    );
    assert_eq!(reaper.look(77, true, false, &state), ReaperAction::Wait);
    let lost = WaitAnswer {
        result: -1,
        status: 0,
        errno: Some(10),
    };
    assert_eq!(reaper.take_wait(&mut state, 77, lost), ReaperAction::Return);
    assert_eq!(
        state.wait_for_status(false),
        StatusStep::Ready(Err(SessionTransportError::Native(Some(10))))
    );
    assert_eq!(
        MacChildLifecycleState::prepare().wait_for_status(true),
        StatusStep::Ready(Err(SessionTransportError::DeadlineExpired))
    );
}

#[test]
fn cleanup_facts_tell_how_a_child_ended() {
    assert_eq!(
        mac_child_cleanup_facts(Ok(3 << 8)).exit,
        Some(ChildExitStatus::Exited(3))
    );
    assert_eq!(
        mac_child_cleanup_facts(Ok(11 | 0x80)).exit,
        Some(ChildExitStatus::Signaled {
            signal: 11,
            dumped_core: true
        })
    );
    assert_eq!(mac_child_cleanup_facts(Ok(stop(17))).exit, None);
    assert_eq!(
        mac_child_cleanup_facts(Err(SessionTransportError::Native(Some(5)))).native_error,
        Some(5)
    );
    assert_eq!(
        mac_child_cleanup_facts(Err(SessionTransportError::PeerExited)),
        unowned_cleanup_facts()
    );
    assert_eq!(terminate_and_reap(0), None);
    assert_eq!(terminate_and_reap(-5), None);
    assert_eq!(terminate_and_reap(5), Some(5));
    assert_eq!(native_outcome(0, Some(4)), Ok(()));
    assert_eq!(
        native_outcome(-1, Some(4)),
        Err(SessionTransportError::Native(Some(4)))
    );
    assert_eq!(signal_outcome(-7, None), Err(-7));
}

#[test]
fn traced_stop_is_awaited_until_the_deadline() {
    let answer = |result, status, errno| WaitAnswer {
        result,
        status,
        errno,
    };
    assert_eq!(
        wait_for_traced_stop(7, answer(7, stop(SIGSTOP), None), true),
        TracedStopStep::Stopped(stop(SIGSTOP))
    );
    assert_eq!(
        wait_for_traced_stop(7, answer(7, 0, None), false),
        TracedStopStep::Failed(SessionTransportError::PeerExited)
    );
    assert_eq!(
        wait_for_traced_stop(7, answer(-1, 0, Some(EINTR)), true),
        TracedStopStep::Again
    );
    assert_eq!(
        wait_for_traced_stop(7, answer(-1, 0, Some(10)), false),
        TracedStopStep::Failed(SessionTransportError::Native(Some(10)))
    );
    assert_eq!(
        wait_for_traced_stop(7, answer(0, 0, None), true),
        TracedStopStep::Failed(SessionTransportError::DeadlineExpired)
    );
    assert_eq!(
        wait_for_traced_stop(7, answer(0, 0, None), false),
        TracedStopStep::Sleep
    );
}
