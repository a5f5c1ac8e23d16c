use native_ipc::supervisor::broker_plan::{
    ack_of_digest, broker_plan_ack, broker_plan_digest, parse_broker_plan_prefix,
    parse_launcher_plan_prefix, trace_report_binding_from_frame, BrokerLaunchPlan,
    LauncherExecPlan, ReceivedBrokerLaunchPlan, ReceivedLauncherExecPlan, ACK_DOMAIN, ACK_MAGIC,
    BROKER_PLAN_PREFIX_BYTES, LAUNCHER_PLAN_PREFIX_BYTES,
};
use native_ipc::supervisor::deadline::{ClockSample, SupervisorDeadline, SupervisorWireError};
use native_ipc::supervisor::target::{
    TargetEnvironmentEntry, MAX_ARGUMENTS, MAX_COMPONENT_BYTES, MAX_ENVIRONMENT,
    MAX_POLICY_ID_BYTES,
};
use sha2::Digest;

fn clock() -> ClockSample {
    ClockSample {
        local_now: 40_000_000_000,
        monotonic_now: Some(90_000_000_000),
    }
}

fn put_u16(bytes: &mut [u8], offset: usize, value: u16) {
    bytes[offset..offset + 2].copy_from_slice(&value.to_le_bytes());
}

fn put_u32(bytes: &mut [u8], offset: usize, value: u32) {
    bytes[offset..offset + 4].copy_from_slice(&value.to_le_bytes());
}

fn put_u64(bytes: &mut [u8], offset: usize, value: u64) {
    bytes[offset..offset + 8].copy_from_slice(&value.to_le_bytes());
}

fn plan() -> BrokerLaunchPlan {
    let clock = clock();
    BrokerLaunchPlan {
        deadline: SupervisorDeadline::from_instant(clock.local_now + 5_000_000_000, clock)
            .unwrap(),
        connection_generation: 7,
        sequence: 1,
        effective_uid: 501,
        effective_gid: 20,
        session: [1; 32],
        audit_identity: [2; 32],
        code_identity: [3; 32],
        target_identity: [4; 32],
        client_nonce: [5; 32],
        service_nonce: [6; 32],
        policy_id: b"org.example.private-policy".to_vec(),
        installed_executable: b"/example/NativeIPC.app/Contents/Helpers/receiver".to_vec(),
        arguments: vec![b"receiver".to_vec(), b"--mode=test".to_vec()],
        environment: vec![TargetEnvironmentEntry::new(b"LANG".to_vec(), b"C".to_vec()).unwrap()],
    }
}

#[test]
fn exact_plan_round_trips_canonically() {
    let plan = plan();
    let encoded = plan.encode().unwrap();
    let received = ReceivedBrokerLaunchPlan::decode(&encoded, clock()).unwrap();
    assert_eq!(received.deadline().wire(), plan.deadline);
    let acknowledged = received.acknowledge_exact_parent();
    let bound = acknowledged.activate();
    assert_eq!(bound.deadline().wire(), plan.deadline);
    assert_eq!(bound.into_plan(), plan);
}

#[test]
fn exact_parent_alone_mints_canonical_authority_free_launcher_data() {
    let original = plan();
    let encoded = original.encode().unwrap();
    let received = ReceivedBrokerLaunchPlan::decode(&encoded, clock()).unwrap();
    let exact = received.acknowledge_exact_parent().activate();
    let deadline = exact.deadline();
    let launcher_frame = exact.launcher_frame().unwrap();
    assert_ne!(launcher_frame, encoded);
    for secret in [
        &[1; 32][..],
        &[2; 32][..],
        &[3; 32][..],
        &[4; 32][..],
        &[5; 32][..],
        &[6; 32][..],
        b"org.example.private-policy",
    ] {
        assert!(!launcher_frame
            .windows(secret.len())
            .any(|value| value == secret));
    }
    let prefix: &[u8; LAUNCHER_PLAN_PREFIX_BYTES] = launcher_frame[..LAUNCHER_PLAN_PREFIX_BYTES]
        .try_into()
        .unwrap();
    let parsed = parse_launcher_plan_prefix(prefix, launcher_frame.len(), clock()).unwrap();
    assert_eq!(parsed.deadline.wire(), deadline.wire());
    let parts = ReceivedLauncherExecPlan::decode_with_deadline(&launcher_frame, parsed.deadline)
        .unwrap()
        .into_parts();
    assert_eq!(parts.deadline.wire(), original.deadline);
    assert_eq!(parts.effective_uid, original.effective_uid);
    assert_eq!(parts.effective_gid, original.effective_gid);
    assert_eq!(parts.installed_executable, original.installed_executable);
    assert_eq!(parts.arguments, original.arguments);
    assert_eq!(parts.environment, original.environment);
}

#[test]
fn launcher_data_rejects_every_truncation_extension_and_deadline_substitution() {
    let broker = plan();
    let encoded = LauncherExecPlan::from_broker(&broker).encode().unwrap();
    let prefix: &[u8; LAUNCHER_PLAN_PREFIX_BYTES] =
        encoded[..LAUNCHER_PLAN_PREFIX_BYTES].try_into().unwrap();
    let parsed = parse_launcher_plan_prefix(prefix, encoded.len(), clock()).unwrap();
    for length in 0..encoded.len() {
        assert!(
            ReceivedLauncherExecPlan::decode_with_deadline(&encoded[..length], parsed.deadline)
                .is_err()
        );
    }
    let mut extended = encoded.clone();
    extended.push(0);
    assert!(ReceivedLauncherExecPlan::decode_with_deadline(&extended, parsed.deadline).is_err());

    let mut substituted = encoded;
    put_u64(
        &mut substituted,
        16,
        broker.deadline.wire_value().checked_add(1).unwrap(),
    );
    assert_eq!(
        ReceivedLauncherExecPlan::decode_with_deadline(&substituted, parsed.deadline).err(),
        Some(SupervisorWireError::ReplayOrSubstitution)
    );
}

#[test]
fn every_truncation_and_extension_is_rejected() {
    let encoded = plan().encode().unwrap();
    for length in 0..encoded.len() {
        assert!(ReceivedBrokerLaunchPlan::decode(&encoded[..length], clock()).is_err());
    }
    let mut extended = encoded;
    extended.push(0);
    assert!(ReceivedBrokerLaunchPlan::decode(&extended, clock()).is_err());
}

#[test]
fn header_identity_and_reserved_mutations_fail_closed() {
    let encoded = plan().encode().unwrap();
    for offset in [0, 8, 10, 12, 32, 252] {
        let mut mutated = encoded.clone();
        mutated[offset] ^= 0xff;
        assert!(
            ReceivedBrokerLaunchPlan::decode(&mutated, clock()).is_err(),
            "offset {offset}"
        );
    }
    let received = ReceivedBrokerLaunchPlan::decode(&encoded, clock()).unwrap();
    let exact = received.plan();
    for offset in [24, 40, 44, 48, 80, 112, 144, 176, 208] {
        let mut mutated = encoded.clone();
        mutated[offset] ^= 0xff;
        assert_ne!(
            ReceivedBrokerLaunchPlan::decode(&mutated, clock())
                .unwrap()
                .plan(),
            exact
        );
    }
    for range in [48..80, 80..112, 112..144, 144..176, 176..208, 208..240] {
        let mut zeroed = encoded.clone();
        zeroed[range].fill(0);
        assert!(ReceivedBrokerLaunchPlan::decode(&zeroed, clock()).is_err());
    }
}

#[test]
fn duplicate_environment_and_oversized_plan_reject() {
    let mut duplicate = plan();
    duplicate
        .environment
        .push(TargetEnvironmentEntry::new(b"LANG".to_vec(), b"C".to_vec()).unwrap());
    assert_eq!(
        duplicate.encode(),
        Err(SupervisorWireError::InvalidTargetInput)
    );

    let mut oversized = plan();
    oversized.arguments = (0..(MAX_ARGUMENTS - 1)).map(|_| vec![b'x'; 4096]).collect();
    assert_eq!(oversized.encode(), Err(SupervisorWireError::LimitExceeded));
}

#[test]
fn exact_policy_expanded_limits_round_trip_and_hostile_counts_reject_before_allocation() {
    let mut exact_arguments = plan();
    exact_arguments.arguments = (0..MAX_ARGUMENTS).map(|_| vec![b'x']).collect();
    let encoded = exact_arguments.encode().unwrap();
    assert_eq!(
        ReceivedBrokerLaunchPlan::decode(&encoded, clock())
            .unwrap()
            .plan(),
        &exact_arguments
    );

    for (offset, value) in [
        (240, u32::try_from(MAX_POLICY_ID_BYTES + 1).unwrap()),
        (244, u32::try_from(MAX_COMPONENT_BYTES + 1).unwrap()),
    ] {
        let mut hostile = plan().encode().unwrap();
        put_u32(&mut hostile, offset, value);
        assert_eq!(
            ReceivedBrokerLaunchPlan::decode(&hostile, clock()).err(),
            Some(SupervisorWireError::LimitExceeded)
        );
    }
    for (offset, value) in [
        (248, u16::try_from(MAX_ARGUMENTS + 1).unwrap()),
        (250, u16::try_from(MAX_ENVIRONMENT + 1).unwrap()),
    ] {
        let mut hostile = plan().encode().unwrap();
        put_u16(&mut hostile, offset, value);
        assert_eq!(
            ReceivedBrokerLaunchPlan::decode(&hostile, clock()).err(),
            Some(SupervisorWireError::LimitExceeded)
        );
    }
    let mut zero_arguments = plan().encode().unwrap();
    put_u16(&mut zero_arguments, 248, 0);
    assert_eq!(
        ReceivedBrokerLaunchPlan::decode(&zero_arguments, clock()).err(),
        Some(SupervisorWireError::LimitExceeded)
    );
}

#[test]
fn receive_rejects_expired_and_extended_deadline_authority() {
    let mut expired = plan();
    expired.deadline = SupervisorDeadline::from_wire(1);
    assert_eq!(
        ReceivedBrokerLaunchPlan::decode(&expired.encode().unwrap(), clock()).err(),
        Some(SupervisorWireError::LimitExceeded)
    );

    let mut extended = plan();
    extended.deadline = SupervisorDeadline::from_wire(u64::MAX);
    assert_eq!(
        ReceivedBrokerLaunchPlan::decode(&extended.encode().unwrap(), clock()).err(),
        Some(SupervisorWireError::LimitExceeded)
    );
}

#[test]
fn fixed_prefix_binds_outer_length_and_deadline_before_payload_read() {
    let exact = plan();
    let encoded = exact.encode().unwrap();
    let prefix: &[u8; BROKER_PLAN_PREFIX_BYTES] =
        encoded[..BROKER_PLAN_PREFIX_BYTES].try_into().unwrap();
    let parsed = parse_broker_plan_prefix(prefix, encoded.len(), clock()).unwrap();
    assert_eq!(parsed.frame_len, encoded.len());
    assert_eq!(
        parsed.deadline.wire().wire_value(),
        exact.deadline.wire_value()
    );
    assert!(parse_broker_plan_prefix(prefix, encoded.len() + 1, clock()).is_err());

    let mut expired = *prefix;
    put_u64(&mut expired, 16, 1);
    assert_eq!(
        parse_broker_plan_prefix(&expired, encoded.len(), clock()).err(),
        Some(SupervisorWireError::LimitExceeded)
    );
}

#[test]
fn acknowledgement_carries_the_domain_separated_digest() {
    // SHA-256 of the acknowledgement domain followed by "abc".
    let digest = broker_plan_digest(b"abc");
    assert_ne!(&digest[..3], b"abc");
    let mut hashed = ACK_DOMAIN.to_vec();
    hashed.extend_from_slice(b"abc");
    assert_eq!(digest[..], sha256_reference(&hashed)[..]);
    let ack = broker_plan_ack(b"abc");
    assert_eq!(ack, ack_of_digest(digest));
    assert_eq!(&ack[..8], b"NIPCBPA1");
    assert_eq!(&ack[..8], &ACK_MAGIC[..]);
    assert_eq!(&ack[8..], &digest[..]);
    assert_ne!(broker_plan_ack(b"abd"), ack);
}

#[test]
fn sha256_reference_matches_published_vectors() {
    assert_eq!(
        sha256_reference(b"abc")[..8],
        [0xba, 0x78, 0x16, 0xbf, 0x8f, 0x01, 0xcf, 0xea]
    );
    assert_eq!(
        sha256_reference(b"")[..8],
        [0xe3, 0xb0, 0xc4, 0x42, 0x98, 0xfc, 0x1c, 0x14]
    );
}

fn sha256_reference(message: &[u8]) -> [u8; 32] {
    let mut hasher = sha2::Sha256::new();
    hasher.update(message);
    hasher.finalize().into()
}

#[test]
fn trace_report_is_bound_to_the_frame() {
    let plan = plan();
    let frame = plan.encode().unwrap();
    let binding = trace_report_binding_from_frame(&frame).unwrap();
    assert_eq!(binding.session, [1; 32]);
    assert_eq!(binding.client_nonce, [5; 32]);
    assert_eq!(binding.service_nonce, [6; 32]);
    assert_eq!(binding.target_identity, [4; 32]);
    assert_eq!(binding.connection_generation, 7);
    assert_eq!(binding.sequence, 1);
    assert_eq!(binding.plan_digest, broker_plan_digest(&frame));
    assert_eq!(
        trace_report_binding_from_frame(&frame[..255]).err(),
        Some(SupervisorWireError::Malformed)
    );
}

#[test]
fn different_plans_have_different_frames() {
    let first = plan();
    let mut second = plan();
    second.arguments = vec![b"receiver--mode=test".to_vec()];
    assert_ne!(first.encode().unwrap(), second.encode().unwrap());
    let mut third = plan();
    third.effective_gid = 21;
    assert_ne!(first.encode().unwrap(), third.encode().unwrap());
    // The launcher's frame does not depend on what only the broker may know.
    let mut fourth = plan();
    fourth.session = [9; 32];
    fourth.policy_id = b"org.example.other".to_vec();
    assert_eq!(
        LauncherExecPlan::from_broker(&first).encode().unwrap(),
        LauncherExecPlan::from_broker(&fourth).encode().unwrap()
    );
}

#[test]
fn frame_written_by_hand_is_the_canonical_one() {
    const TARGET: &[u8] = b"/usr/bin/true";
    const ARGUMENT: &[u8] = b"true";
    const POLICY: &[u8] = b"test.production-caller";
    let deadline = 90_000_000_000 + 20_000_000_000;
    let mut bytes = vec![0_u8; 256];
    bytes[..8].copy_from_slice(b"NIPCBP01");
    put_u16(&mut bytes, 8, 1);
    put_u64(&mut bytes, 16, deadline);
    put_u64(&mut bytes, 24, 1);
    put_u64(&mut bytes, 32, 1);
    put_u32(&mut bytes, 40, 501);
    put_u32(&mut bytes, 44, 20);
    for (range, value) in [
        (48..80, 1),
        (80..112, 2),
        (112..144, 3),
        (144..176, 4),
        (176..208, 5),
        (208..240, 6),
    ] {
        bytes[range].fill(value);
    }
    put_u32(&mut bytes, 240, u32::try_from(POLICY.len()).unwrap());
    put_u32(&mut bytes, 244, u32::try_from(TARGET.len()).unwrap());
    put_u16(&mut bytes, 248, 1);
    bytes.extend_from_slice(POLICY);
    bytes.extend_from_slice(TARGET);
    bytes.extend_from_slice(&u32::try_from(ARGUMENT.len()).unwrap().to_le_bytes());
    bytes.extend_from_slice(ARGUMENT);
    let frame_len = u32::try_from(bytes.len()).unwrap();
    put_u32(&mut bytes, 12, frame_len);

    let received = ReceivedBrokerLaunchPlan::decode(&bytes, clock()).unwrap();
    let plan = received.plan();
    assert_eq!(plan.deadline.wire_value(), deadline);
    assert_eq!(plan.connection_generation, 1);
    assert_eq!(plan.sequence, 1);
    assert_eq!(plan.effective_uid, 501);
    assert_eq!(plan.effective_gid, 20);
    assert_eq!(plan.session, [1; 32]);
    assert_eq!(plan.audit_identity, [2; 32]);
    assert_eq!(plan.code_identity, [3; 32]);
    assert_eq!(plan.target_identity, [4; 32]);
    assert_eq!(plan.client_nonce, [5; 32]);
    assert_eq!(plan.service_nonce, [6; 32]);
    assert_eq!(plan.policy_id, POLICY);
    assert_eq!(plan.installed_executable, TARGET);
    assert_eq!(plan.arguments, [ARGUMENT.to_vec()]);
    assert!(plan.environment.is_empty());
    assert_eq!(plan.encode().unwrap(), bytes);
}
