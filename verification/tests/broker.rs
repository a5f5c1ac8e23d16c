use native_ipc::bootstrap::identity::TaskAuditIdentity;
use native_ipc::broker::entry::{
    adopt_fixed_control, adopt_fixed_gate, configured, exit_status, resume_commit,
    validate_fixed_arguments, BrokerEnd, StreamFacts, BROKER_RESUME_BYTE,
    INSTALLED_BROKER_MODE, INSTALLED_CONTROL_ARGUMENT, INSTALLED_GATE_ARGUMENT,
    INSTALLED_TRACE_ARGUMENT,
};
use native_ipc::broker::gate::{
    ensure_deadline_live, final_resume_gate_probe, finish_trace_report_before_authority,
    nonblocking_flags, poll_control_and_gate, poll_gate_until, poll_timeout, probe_dormant_gate,
    read_polled_gate, wait_for_activation, wait_for_service_death, Activation, ActivationStep,
    BrokerEntryError, BrokerGateExit, GateRead, GateStep, PollAnswer, PollStep, POLLIN, START_BYTE,
};
use native_ipc::broker::image::{
    may_spawn_launcher, FixedLauncherIdentity, InstalledLauncherImage, LauncherSpawnFailure,
    ProcessCredentials, INSTALLED_LAUNCHER_DEATH_ARGUMENT, INSTALLED_LAUNCHER_MODE,
    INSTALLED_LAUNCHER_PLAN_ARGUMENT,
};
use native_ipc::broker::launcher::{
    delivery_failed, drain, poll_gate_slice, signal_settled, CleanupAction, CleanupStep,
    DeliveryStep, ExactLauncher, ExactPhase, LauncherWait, LauncherWaitError, PlanDelivery,
    TraceAction, TraceEvent, TraceStep,
};
use native_ipc::broker::report::{CommitAction, ReportPhase, ResumeCommit, TraceReport};
use native_ipc::broker::stage::{
    activate_staged, control_failed, ControlFailure, ControlStep, PlanStaging, StagingPhase,
};
use native_ipc::mach::{encode_audit_token, AuditToken};
use native_ipc::supervisor::broker_plan::{
    broker_plan_ack, broker_plan_digest, BrokerLaunchPlan, ExactParentBrokerLaunchPlan,
    ReceivedBrokerLaunchPlan, MAX_BROKER_PLAN_BYTES,
};
use native_ipc::supervisor::deadline::{ClockSample, SupervisorDeadline, SupervisorWireError};
use native_ipc::supervisor::target::TargetEnvironmentEntry;
use native_ipc::wait_status::{
    ExactTargetExit, EAGAIN, ECHILD, EINTR, ESRCH, SIGKILL, SIGSTOP, SIGTRAP,
};

const DEPLOYER_BROKER_PATH: &[u8] = b"/example/NativeIPC.app/Contents/Helpers/native-ipc-broker";
const DEPLOYER_LAUNCHER_PATH: &[u8] =
    b"/example/NativeIPC.app/Contents/Helpers/native-ipc-launcher";
const TARGET: &[u8] = b"/example/NativeIPC.app/Contents/Helpers/receiver";
const PID: i32 = 4242;
const NOW: u64 = 40_000_000_000;
const DEADLINE: u64 = NOW + 5_000_000_000;
const SILENT: GateRead = GateRead::Failed(EAGAIN);

fn clock() -> ClockSample {
    ClockSample {
        local_now: NOW,
        monotonic_now: Some(90_000_000_000),
    }
}

fn late() -> ClockSample {
    ClockSample {
        local_now: DEADLINE,
        monotonic_now: Some(95_000_000_000),
    }
}

fn plan() -> BrokerLaunchPlan {
    BrokerLaunchPlan {
        deadline: SupervisorDeadline::from_instant(DEADLINE, clock()).unwrap(),
        connection_generation: 7,
        sequence: 1,
        effective_uid: 501,
        effective_gid: 20,
        session: [1; 32],
        audit_identity: [2; 32],
        code_identity: [3; 32],
        target_identity: [4; 32],
        client_nonce: [5; 32],
        service_nonce: [6; 32],
        policy_id: b"org.example.private-policy".to_vec(),
        installed_executable: TARGET.to_vec(),
        arguments: vec![b"receiver".to_vec(), b"--mode=test".to_vec()],
        environment: vec![TargetEnvironmentEntry::new(b"LANG".to_vec(), b"C".to_vec()).unwrap()],
    }
}

fn exact_plan() -> ExactParentBrokerLaunchPlan {
    ReceivedBrokerLaunchPlan::decode(&plan().encode().unwrap(), clock())
        .unwrap()
        .acknowledge_exact_parent()
        .activate()
}

#[test]
fn post_report_gate_eof_wins_before_reported_authority() {
    assert_eq!(
        finish_trace_report_before_authority(GateRead::End),
        GateStep::Exit(BrokerGateExit::ServiceGone)
    );
    assert_eq!(finish_trace_report_before_authority(SILENT), GateStep::Live);
}

#[test]
fn post_resume_eof_gate_eof_wins_before_resumed_authority() {
    assert_eq!(
        final_resume_gate_probe(GateRead::End),
        GateStep::Exit(BrokerGateExit::ServiceGone)
    );
    assert_eq!(
        final_resume_gate_probe(GateRead::Byte(1)),
        GateStep::Failed(BrokerEntryError::InvalidActivation)
    );
    assert_eq!(
        final_resume_gate_probe(GateRead::Failed(EINTR)),
        GateStep::Again
    );
    assert_eq!(
        final_resume_gate_probe(GateRead::Failed(9)),
        GateStep::Failed(BrokerEntryError::Read(9))
    );
}

#[test]
fn fixed_arguments_accept_only_the_installed_vector() {
    let validate = |path: &[u8], arguments: &[&[u8]]| {
        validate_fixed_arguments(
            path,
            &arguments.iter().map(|argument| argument.to_vec()).collect(),
        )
    };
    let mode: &[u8] = &INSTALLED_BROKER_MODE;
    let gate: &[u8] = &INSTALLED_GATE_ARGUMENT;
    let control: &[u8] = &INSTALLED_CONTROL_ARGUMENT;
    let trace: &[u8] = &INSTALLED_TRACE_ARGUMENT;
    assert_eq!(
        validate(
            DEPLOYER_BROKER_PATH,
            &[DEPLOYER_BROKER_PATH, mode, gate, control, trace]
        ),
        Ok(())
    );
    let mutations: [&[&[u8]]; 5] = [
        &[b"relative-broker", mode, gate, control, trace],
        &[DEPLOYER_BROKER_PATH, b"--other-mode", gate, control, trace],
        &[DEPLOYER_BROKER_PATH, mode, b"--gate-fd=4", control, trace],
        &[DEPLOYER_BROKER_PATH, mode, gate, control],
        &[DEPLOYER_BROKER_PATH, mode, gate, control, trace, b"extra"],
    ];
    for mutation in mutations {
        assert_eq!(
            validate(DEPLOYER_BROKER_PATH, mutation),
            Err(BrokerEntryError::InvalidArguments)
        );
    }
    assert_eq!(
        validate(
            DEPLOYER_BROKER_PATH,
            &[
                b"/other/NativeIPC.app/Contents/Helpers/native-ipc-broker",
                mode,
                gate,
                control,
                trace
            ]
        ),
        Err(BrokerEntryError::InvalidArguments)
    );
    assert_eq!(
        validate(
            b"relative-broker",
            &[b"relative-broker", mode, gate, control, trace]
        ),
        Err(BrokerEntryError::InvalidArguments)
    );
}

/// Plays what the pipe gives to the start of a broker, to its end.
fn start(reads: &[GateRead]) -> Result<Result<Activation, BrokerGateExit>, BrokerEntryError> {
    let mut stage = Activation::AwaitingStart;
    for read in reads {
        match wait_for_activation(stage, *read, true) {
            ActivationStep::Read(next) => stage = next,
            ActivationStep::Poll => unreachable!(),
            ActivationStep::Exit(exit) => return Ok(Err(exit)),
            ActivationStep::Failed(error) => return Err(error),
        }
    }
    Ok(Ok(stage))
}

#[test]
fn eof_before_start_performs_no_activation() {
    assert_eq!(
        start(&[GateRead::End]),
        Ok(Err(BrokerGateExit::ServiceGoneBeforeActivation))
    );
    assert_eq!(
        start(&[GateRead::Failed(EINTR), GateRead::End]),
        Ok(Err(BrokerGateExit::ServiceGoneBeforeActivation))
    );
}

#[test]
fn wrong_and_multiple_activation_bytes_fail_closed() {
    for bytes in [vec![0xff], vec![1, 1]] {
        let reads: Vec<GateRead> = bytes.into_iter().map(GateRead::Byte).collect();
        assert_eq!(start(&reads), Err(BrokerEntryError::InvalidActivation));
    }
}

#[test]
fn start_then_immediate_service_death_never_returns_active_authority() {
    assert_eq!(
        start(&[GateRead::Byte(START_BYTE), GateRead::End]),
        Ok(Err(BrokerGateExit::ServiceGone))
    );
}

#[test]
fn exact_start_activates_once_and_retains_service_death_reader() {
    assert_eq!(
        start(&[GateRead::Byte(START_BYTE)]),
        Ok(Ok(Activation::Confirming))
    );
    assert_eq!(
        start(&[GateRead::Byte(START_BYTE), SILENT]),
        Ok(Ok(Activation::Active))
    );
    assert_eq!(
        wait_for_service_death(GateRead::End),
        GateStep::Exit(BrokerGateExit::ServiceGone)
    );
    // Only a pipe that does not block is waited for.
    assert_eq!(
        wait_for_activation(Activation::AwaitingStart, SILENT, false),
        ActivationStep::Poll
    );
    assert_eq!(
        wait_for_activation(Activation::AwaitingStart, SILENT, true),
        ActivationStep::Failed(BrokerEntryError::Read(EAGAIN))
    );
}

#[test]
fn regular_file_cannot_substitute_for_the_gate_pipe() {
    assert_eq!(
        adopt_fixed_gate(0, Ok(0), Ok(false)),
        Err(BrokerEntryError::InvalidGate)
    );
    assert_eq!(adopt_fixed_gate(0, Ok(0), Ok(true)), Ok(()));
    assert_eq!(
        adopt_fixed_gate(0, Ok(1), Ok(true)),
        Err(BrokerEntryError::InvalidGate)
    );
    assert_eq!(
        adopt_fixed_gate(0, Err(9), Ok(true)),
        Err(BrokerEntryError::Descriptor(9))
    );
    assert_eq!(
        adopt_fixed_gate(0, Ok(0), Err(5)),
        Err(BrokerEntryError::Descriptor(5))
    );
}

#[test]
fn service_data_after_activation_is_terminal_protocol_failure() {
    assert_eq!(
        wait_for_service_death(GateRead::Byte(2)),
        GateStep::Failed(BrokerEntryError::InvalidActivation)
    );
    assert_eq!(
        wait_for_service_death(SILENT),
        GateStep::Failed(BrokerEntryError::Read(EAGAIN))
    );
    assert_eq!(
        wait_for_service_death(GateRead::Failed(EINTR)),
        GateStep::Again
    );
}

#[test]
fn closed_descriptor_is_rejected_without_ownership_construction() {
    assert_eq!(
        adopt_fixed_gate(-1, Ok(0), Ok(true)),
        Err(BrokerEntryError::InvalidGate)
    );
}

#[test]
fn control_stream_is_an_open_bidirectional_stream() {
    let exact = StreamFacts {
        getfd: 0,
        flags: 2,
        option_status: 0,
        type_bytes: 4,
        socket_type: 1,
        socket: Ok(true),
    };
    assert_eq!(adopt_fixed_control(exact), Ok(()));
    for wrong in [
        StreamFacts { getfd: -1, ..exact },
        StreamFacts { flags: -1, ..exact },
        StreamFacts { flags: 0, ..exact },
        StreamFacts {
            option_status: -1,
            ..exact
        },
        StreamFacts {
            type_bytes: 8,
            ..exact
        },
        StreamFacts {
            socket_type: 2,
            ..exact
        },
        StreamFacts {
            socket: Ok(false),
            ..exact
        },
    ] {
        assert_eq!(
            adopt_fixed_control(wrong),
            Err(BrokerEntryError::InvalidControl)
        );
    }
    assert_eq!(
        adopt_fixed_control(StreamFacts {
            socket: Err(9),
            ..exact
        }),
        Err(BrokerEntryError::Descriptor(9))
    );
    assert_eq!(configured(Ok(())), Ok(()));
    assert_eq!(configured(Err(9)), Err(BrokerEntryError::Descriptor(9)));
    assert_eq!(nonblocking_flags(2, true), 6);
    assert_eq!(nonblocking_flags(6, false), 2);
}

#[test]
fn broker_exits_with_the_status_of_its_end() {
    for (end, status) in [
        (
            BrokerEnd::NotAdopted(BrokerEntryError::InvalidArguments),
            64,
        ),
        (
            BrokerEnd::Dormant(BrokerGateExit::ServiceGoneBeforeActivation),
            0,
        ),
        (BrokerEnd::Broken(BrokerEntryError::InvalidActivation), 65),
        (BrokerEnd::Active(BrokerGateExit::ServiceGone), 0),
        (
            BrokerEnd::Active(BrokerGateExit::ServiceGoneBeforeActivation),
            66,
        ),
        (BrokerEnd::TargetRejected, 67),
    ] {
        assert_eq!(exit_status(end), status);
    }
}

#[test]
fn waits_end_at_the_deadline_and_read_the_pipe_first() {
    let expired = BrokerEntryError::Plan(SupervisorWireError::LimitExceeded);
    assert_eq!(ensure_deadline_live(None, u64::MAX), Ok(()));
    assert_eq!(ensure_deadline_live(Some(5), 4), Ok(()));
    assert_eq!(ensure_deadline_live(Some(5), 5), Err(expired));
    assert_eq!(poll_timeout(None, 9), Ok(-1));
    assert_eq!(poll_timeout(Some(7_999_999), 0), Ok(7));
    assert_eq!(poll_timeout(Some(u64::MAX), 0), Ok(i32::MAX));
    assert_eq!(poll_timeout(Some(1), 2), Err(expired));
    assert_eq!(poll_gate_until(1, 0, 5, 9), PollStep::Ready);
    assert_eq!(poll_gate_until(0, 0, 5, 4), PollStep::Again);
    assert_eq!(poll_gate_until(0, 0, 5, 5), PollStep::Failed(expired));
    assert_eq!(poll_gate_until(-1, EINTR, 5, 9), PollStep::Again);
    assert_eq!(
        poll_gate_until(-1, 9, 5, 4),
        PollStep::Failed(BrokerEntryError::Read(9))
    );
    let answer = |result, errno, gate, control| PollAnswer {
        result,
        errno,
        gate,
        control,
    };
    let poll = |answer| poll_control_and_gate(answer, POLLIN, Some(5), 4);
    assert_eq!(poll(answer(2, 0, 1, 1)), PollStep::ReadGate);
    assert_eq!(poll(answer(1, 0, 0, 1)), PollStep::Ready);
    assert_eq!(
        poll(answer(1, 0, 0, 0x10)),
        PollStep::Failed(BrokerEntryError::Control(0))
    );
    assert_eq!(poll(answer(1, 0, 0, 4)), PollStep::Again);
    assert_eq!(poll(answer(0, 0, 0, 0)), PollStep::Again);
    assert_eq!(poll(answer(-1, EINTR, 0, 0)), PollStep::Again);
    assert_eq!(
        poll(answer(-1, 9, 0, 0)),
        PollStep::Failed(BrokerEntryError::Control(9))
    );
    assert_eq!(
        poll_control_and_gate(answer(0, 0, 0, 0), POLLIN, Some(5), 5),
        PollStep::Failed(expired)
    );
    assert_eq!(
        read_polled_gate(GateRead::End),
        GateStep::Exit(BrokerGateExit::ServiceGoneBeforeActivation)
    );
    assert_eq!(read_polled_gate(GateRead::Failed(EINTR)), GateStep::Live);
    assert_eq!(
        probe_dormant_gate(GateRead::Byte(1)),
        GateStep::Failed(BrokerEntryError::InvalidActivation)
    );
}

fn stage(pieces: &[&[u8]], clock: ClockSample) -> Result<PlanStaging, BrokerEntryError> {
    let mut staging = PlanStaging::begin();
    for piece in pieces {
        let mut rest = *piece;
        while !rest.is_empty() {
            let count = rest.len().min(staging.wanted());
            staging = staging.read(&rest[..count], clock)?;
            rest = &rest[count..];
        }
    }
    Ok(staging)
}

fn control_stream() -> Vec<u8> {
    let frame = plan().encode().unwrap();
    let mut stream = u32::try_from(frame.len()).unwrap().to_le_bytes().to_vec();
    stream.extend_from_slice(&frame);
    stream
}

#[test]
fn plan_is_staged_however_the_stream_is_cut() {
    let frame = plan().encode().unwrap();
    let stream = control_stream();
    for size in [1, 3, 5, 24, 28, 100, stream.len()] {
        let pieces: Vec<&[u8]> = stream.chunks(size).collect();
        let mut staging = stage(&pieces, clock()).unwrap();
        assert_eq!(staging.phase(), StagingPhase::End);
        assert_eq!(staging.deadline(), Some(DEADLINE));
        assert_eq!(staging.may_continue(SILENT, NOW), GateStep::Live);
        staging = staging.read(&[], clock()).unwrap();
        assert_eq!(staging.phase(), StagingPhase::Acknowledge);
        let ack = broker_plan_ack(&frame);
        assert_eq!(staging.unwritten(), ack);
        staging = staging.wrote(7, NOW).unwrap();
        assert_eq!(staging.unwritten(), &ack[7..]);
        staging = staging.wrote(33, NOW).unwrap();
        assert_eq!(staging.phase(), StagingPhase::Staged);
        let staged = staging.finish().unwrap();
        let active = activate_staged(staged, Activation::Active, NOW)
            .unwrap()
            .unwrap();
        assert_eq!(active.into_plan(), plan());
    }
}

#[test]
fn staging_refuses_what_is_no_single_canonical_frame_in_time() {
    let stream = control_stream();
    let oversized = u32::try_from(MAX_BROKER_PLAN_BYTES + 1).unwrap();
    for length in [0_u32, 255, oversized, u32::MAX] {
        assert_eq!(
            stage(&[&length.to_le_bytes()], clock()).err(),
            Some(BrokerEntryError::Plan(SupervisorWireError::LimitExceeded))
        );
    }
    // A stream that ends within the frame.
    for length in [0, 2, 4, 20, 28, stream.len() - 1] {
        let staging = stage(&[&stream[..length]], clock()).unwrap();
        assert_eq!(
            staging.read(&[], clock()).err(),
            Some(BrokerEntryError::Control(0))
        );
    }
    // A stream that goes on after the frame.
    let staging = stage(&[&stream], clock()).unwrap();
    assert_eq!(staging.wanted(), 1);
    assert_eq!(
        staging.read(&[0], clock()).err(),
        Some(BrokerEntryError::Plan(SupervisorWireError::Malformed))
    );
    // A prefix whose deadline has come, and a frame that ends at the deadline.
    assert_eq!(
        stage(&[&stream[..28]], late()).err(),
        Some(BrokerEntryError::Plan(SupervisorWireError::LimitExceeded))
    );
    let staging = stage(&[&stream], clock()).unwrap();
    assert_eq!(
        staging.may_continue(SILENT, DEADLINE),
        GateStep::Failed(BrokerEntryError::Plan(SupervisorWireError::LimitExceeded))
    );
    assert_eq!(
        staging.may_continue(GateRead::End, NOW),
        GateStep::Exit(BrokerGateExit::ServiceGoneBeforeActivation)
    );
    assert_eq!(
        staging.read(&[], late()).err(),
        Some(BrokerEntryError::Plan(SupervisorWireError::LimitExceeded))
    );
    // An acknowledgement that cannot be written, or not in time.
    let acknowledging = || stage(&[&stream], clock()).unwrap().read(&[], clock()).unwrap();
    assert_eq!(
        acknowledging().wrote(0, NOW).err(),
        Some(BrokerEntryError::Control(0))
    );
    assert_eq!(
        acknowledging().wrote(40, DEADLINE).err(),
        Some(BrokerEntryError::Plan(SupervisorWireError::LimitExceeded))
    );
    assert!(acknowledging().finish().is_none());
    // A frame with a deadline other than that of its prefix is not canonical elsewhere either.
    let mut malformed = stream.clone();
    malformed[4 + 252] ^= 0xff;
    assert!(matches!(
        stage(&[&malformed], clock()).unwrap().read(&[], clock()).err(),
        Some(BrokerEntryError::Plan(_))
    ));
}

#[test]
fn staged_plan_needs_an_active_broker_in_time() {
    let stream = control_stream();
    let staged = || {
        stage(&[&stream], clock())
            .unwrap()
            .read(&[], clock())
            .unwrap()
            .wrote(40, NOW)
            .unwrap()
            .finish()
            .unwrap()
    };
    assert!(activate_staged(staged(), Activation::AwaitingStart, NOW).is_none());
    assert!(activate_staged(staged(), Activation::Confirming, NOW).is_none());
    assert_eq!(
        activate_staged(staged(), Activation::Active, DEADLINE)
            .unwrap()
            .err(),
        Some(BrokerEntryError::Plan(SupervisorWireError::LimitExceeded))
    );
    assert_eq!(
        control_failed(ControlFailure::Interrupted),
        ControlStep::Again
    );
    assert_eq!(
        control_failed(ControlFailure::WouldBlock),
        ControlStep::Poll
    );
    assert_eq!(
        control_failed(ControlFailure::Error(54)),
        ControlStep::Failed(BrokerEntryError::Control(54))
    );
}

fn credentials() -> ProcessCredentials {
    ProcessCredentials {
        real_uid: 501,
        effective_uid: 501,
        real_gid: 20,
        effective_gid: 20,
    }
}

fn launcher_identity() -> FixedLauncherIdentity {
    InstalledLauncherImage::from_verified_installation(DEPLOYER_LAUNCHER_PATH, credentials())
        .ok()
        .unwrap()
        .fixed_identity()
}

#[test]
fn installed_launcher_vectors_and_same_user_identity_are_fixed() {
    let own = ProcessCredentials {
        real_uid: 501,
        effective_uid: 502,
        real_gid: 20,
        effective_gid: 21,
    };
    let image = InstalledLauncherImage::from_verified_installation(DEPLOYER_LAUNCHER_PATH, own)
        .ok()
        .unwrap();
    assert_eq!(
        image.argv(),
        [
            DEPLOYER_LAUNCHER_PATH,
            &INSTALLED_LAUNCHER_MODE,
            &INSTALLED_LAUNCHER_DEATH_ARGUMENT,
            &INSTALLED_LAUNCHER_PLAN_ARGUMENT,
        ]
    );
    assert_eq!(
        image.environment(),
        [&b"PATH=/usr/bin:/bin"[..], &b"LANG=C"[..], &b"LC_ALL=C"[..],]
    );
    let identity = image.fixed_identity();
    assert_eq!(identity.real_uid, 501);
    assert_eq!(identity.effective_uid, 502);
    assert_eq!(identity.real_gid, 20);
    assert_eq!(identity.effective_gid, 21);
    assert_eq!(identity.executable, DEPLOYER_LAUNCHER_PATH);
    assert!(matches!(
        InstalledLauncherImage::from_verified_installation(b"relative-launcher", own),
        Err(LauncherSpawnFailure::InvalidFixedImage)
    ));
}

#[test]
fn launcher_identity_never_expects_or_requires_root() {
    let identity = launcher_identity();
    assert_ne!(identity.real_uid, 0);
    assert_ne!(identity.effective_uid, 0);
}

#[test]
fn service_death_preempts_the_fixed_launcher_spawn() {
    assert_eq!(
        may_spawn_launcher(GateRead::End, DEADLINE, NOW),
        Some(Err(LauncherSpawnFailure::ServiceGone))
    );
    assert_eq!(
        may_spawn_launcher(GateRead::End, DEADLINE, DEADLINE),
        Some(Err(LauncherSpawnFailure::ServiceGone))
    );
}

#[test]
fn expired_deadline_preempts_the_fixed_launcher_spawn() {
    assert_eq!(
        may_spawn_launcher(SILENT, DEADLINE, DEADLINE),
        Some(Err(LauncherSpawnFailure::DeadlineExpired))
    );
    assert_eq!(may_spawn_launcher(SILENT, DEADLINE, NOW), Some(Ok(())));
}

#[test]
fn a_gate_byte_preempts_the_fixed_launcher_spawn() {
    assert_eq!(
        may_spawn_launcher(GateRead::Byte(1), DEADLINE, NOW),
        Some(Err(LauncherSpawnFailure::InvalidGate))
    );
    assert_eq!(
        may_spawn_launcher(GateRead::Failed(9), DEADLINE, NOW),
        Some(Err(LauncherSpawnFailure::Native(9)))
    );
    assert_eq!(
        may_spawn_launcher(GateRead::Failed(EINTR), DEADLINE, NOW),
        None
    );
}

fn identity(version: u32, executable: &[u8]) -> TaskAuditIdentity {
    TaskAuditIdentity {
        audit: AuditToken {
            values: [501, 501, 20, 501, 20, PID.try_into().unwrap(), 0, version],
        },
        executable: executable.to_vec(),
    }
}

fn stopped(signal: i32) -> TraceEvent {
    waited(PID, (signal << 8) | 0x7f, 0)
}

fn waited(result: i32, status: i32, errno: i32) -> TraceEvent {
    TraceEvent::Waited(LauncherWait {
        result,
        status,
        errno,
    })
}

fn spawned() -> ExactLauncher {
    ExactLauncher::from_positive_spawn(PID, exact_plan(), launcher_identity())
        .ok()
        .unwrap()
}

/// Goes on as long as nothing but the pipe, the clock and plain operations are asked for.
fn settle(mut launcher: ExactLauncher) -> ExactLauncher {
    loop {
        let event = match launcher.action() {
            TraceAction::OpenGate | TraceAction::ContinueLauncher | TraceAction::ResumeTarget => {
                TraceEvent::Outcome(Ok(()))
            }
            TraceAction::WaitInitial
            | TraceAction::WaitExec
            | TraceAction::WaitRunning
            | TraceAction::CaptureLauncher
            | TraceAction::CaptureTarget
            | TraceAction::VerifySignature
            | TraceAction::Report
            | TraceAction::Ended
            | TraceAction::CleanUp => return launcher,
            _ => TraceEvent::Checked(SILENT, NOW),
        };
        let (next, step) = launcher.advance(event);
        assert_eq!(step, TraceStep::Next);
        launcher = next;
    }
}

/// Goes on to an action that `settle` would pass.
fn up_to(mut launcher: ExactLauncher, action: TraceAction) -> ExactLauncher {
    while launcher.action() != action {
        let event = match launcher.action() {
            TraceAction::OpenGate | TraceAction::ContinueLauncher | TraceAction::ResumeTarget => {
                TraceEvent::Outcome(Ok(()))
            }
            _ => TraceEvent::Checked(SILENT, NOW),
        };
        let (next, step) = launcher.advance(event);
        assert_eq!(step, TraceStep::Next);
        launcher = next;
    }
    launcher
}

fn stepped(launcher: ExactLauncher, event: TraceEvent) -> ExactLauncher {
    let (next, step) = launcher.advance(event);
    assert_eq!(step, TraceStep::Next);
    settle(next)
}

fn identified(launcher: ExactLauncher, found: TaskAuditIdentity) -> ExactLauncher {
    let (next, step) = launcher.take_identity(Some(found));
    assert_eq!(step, TraceStep::Next);
    settle(next)
}

/// A launcher that stopped for the first time and was proven to be the installed one.
fn continued() -> ExactLauncher {
    let launcher = stepped(settle(spawned()), stopped(SIGSTOP));
    assert_eq!(launcher.action(), TraceAction::CaptureLauncher);
    identified(launcher, identity(7, DEPLOYER_LAUNCHER_PATH))
}

fn trapped() -> ExactLauncher {
    let launcher = stepped(continued(), stopped(SIGTRAP));
    assert_eq!(launcher.action(), TraceAction::CaptureTarget);
    launcher
}

fn held_unverified() -> ExactLauncher {
    let launcher = identified(trapped(), identity(8, TARGET));
    assert_eq!(launcher.action(), TraceAction::VerifySignature);
    launcher
}

fn held() -> ExactLauncher {
    let (launcher, accepted) = held_unverified().take_signature(&[4; 32]);
    assert!(accepted);
    assert_eq!(launcher.action(), TraceAction::Report);
    launcher
}

fn committed() -> ExactLauncher {
    let (launcher, outcome) = held().take_commit(BROKER_RESUME_BYTE, 0);
    assert_eq!(outcome, Ok(()));
    launcher
}

fn resumed() -> ExactLauncher {
    let launcher = settle(committed());
    assert_eq!(launcher.action(), TraceAction::WaitRunning);
    assert_eq!(launcher.phase(), ExactPhase::RunningTarget);
    launcher
}

fn failed(step: (ExactLauncher, TraceStep)) -> (ExactLauncher, LauncherWaitError) {
    match step {
        (launcher, TraceStep::Failed(error)) => {
            assert_eq!(launcher.action(), TraceAction::CleanUp);
            (launcher, error)
        }
        _ => panic!("the launcher was not given up"),
    }
}

#[test]
fn real_exec_changes_audit_pid_version_at_exact_trap() {
    let launcher = held();
    assert_eq!(launcher.pid(), PID);
    assert_eq!(launcher.phase(), ExactPhase::ExecTrapHeld);
    assert_eq!(launcher.deadline(), DEADLINE);
    assert_eq!(launcher.cleanup(), CleanupAction::TraceKill);
    let binding = launcher.report_trace_stops().unwrap();
    assert_eq!(binding.target_identity, [4; 32]);
    assert_eq!(
        binding.plan_digest,
        broker_plan_digest(&plan().encode().unwrap())
    );
    assert!(trapped().report_trace_stops().is_none());
    assert!(matches!(
        ExactLauncher::from_positive_spawn(0, exact_plan(), launcher_identity()),
        Err(LauncherWaitError::InvalidPid)
    ));
}

#[test]
fn exec_trap_signature_gate_accepts_the_installed_target_identity() {
    let launcher = held_unverified();
    let expected_audit_identity = encode_audit_token(identity(8, TARGET).audit);
    assert_eq!(launcher.signature_subject(), Some(expected_audit_identity));
    assert_ne!(
        launcher.signature_subject(),
        Some(encode_audit_token(identity(7, TARGET).audit))
    );
    let (launcher, accepted) = launcher.take_signature(&[4; 32]);
    assert!(accepted);
    assert_eq!(launcher.pid(), PID);
    assert_eq!(launcher.signature_subject(), None);
    assert_eq!(trapped().signature_subject(), None);
    // Before the exec is proven there is nothing to accept.
    let (launcher, accepted) = trapped().take_signature(&[4; 32]);
    assert!(!accepted);
    assert_eq!(launcher.action(), TraceAction::CaptureTarget);
}

#[test]
fn exec_trap_signature_gate_rejects_zero_or_substituted_identity_and_exact_cleans() {
    for code_identity in [[0; 32], [9; 32]] {
        let launcher = held_unverified();
        assert_eq!(
            launcher.signature_subject(),
            Some(encode_audit_token(identity(8, TARGET).audit))
        );
        let (launcher, accepted) = launcher.take_signature(&code_identity);
        assert!(!accepted);
        assert_eq!(launcher.signature_subject(), None);
        assert_eq!(launcher.action(), TraceAction::CleanUp);
        assert_eq!(launcher.cleanup(), CleanupAction::TraceKill);
    }
}

#[test]
fn production_broker_caller_rejects_substituted_worker_identity_before_report_or_resume() {
    assert!(held_unverified().report_trace_stops().is_none());
    let (launcher, accepted) = held_unverified().take_signature(&[9; 32]);
    assert!(!accepted);
    assert!(
        launcher.report_trace_stops().is_none(),
        "rejected target emitted trace authority"
    );
    assert_eq!(exit_status(BrokerEnd::TargetRejected), 67);
}

#[test]
fn same_image_sigtrap_cannot_counterfeit_exec_transition() {
    let (launcher, error) =
        failed(trapped().take_identity(Some(identity(7, DEPLOYER_LAUNCHER_PATH))));
    assert_eq!(error, LauncherWaitError::IdentityTransition);
    assert_eq!(launcher.cleanup(), CleanupAction::TraceKill);
    // Nor can the image alone.
    let (_, error) = failed(trapped().take_identity(Some(identity(7, TARGET))));
    assert_eq!(error, LauncherWaitError::IdentityTransition);
    let (_, error) = failed(trapped().take_identity(None));
    assert_eq!(error, LauncherWaitError::IdentityTransition);
}

#[test]
fn unexpected_second_stop_is_rejected_and_exact_cleaned() {
    let (launcher, error) = failed(continued().advance(stopped(SIGSTOP)));
    assert_eq!(error, LauncherWaitError::UnexpectedStatus);
    assert_eq!(launcher.phase(), ExactPhase::ObservedTracedStop);
    assert_eq!(launcher.cleanup(), CleanupAction::TraceKill);
    let (launcher, error) = failed(continued().advance(waited(PID, 0, 0)));
    assert_eq!(error, LauncherWaitError::UnexpectedStatus);
    assert_eq!(launcher.cleanup(), CleanupAction::Nothing);
}

#[test]
fn service_death_preempts_initial_stop_authority() {
    for action in [TraceAction::CheckInitial, TraceAction::WaitInitial] {
        let launcher = up_to(spawned(), action);
        let launcher = if action == TraceAction::WaitInitial {
            launcher.advance(stopped(SIGSTOP)).0
        } else {
            launcher
        };
        let (launcher, error) =
            failed(launcher.advance(TraceEvent::Checked(GateRead::End, DEADLINE)));
        assert_eq!(error, LauncherWaitError::ServiceGone);
        assert_eq!(launcher.cleanup(), CleanupAction::Signal(SIGKILL));
    }
}

#[test]
fn expired_deadline_preempts_initial_stop_authority() {
    let launcher = up_to(spawned(), TraceAction::CheckInitial);
    let (_, error) = failed(launcher.advance(TraceEvent::Checked(SILENT, DEADLINE)));
    assert_eq!(error, LauncherWaitError::DeadlineExpired);
    let launcher = up_to(spawned(), TraceAction::CheckInitial);
    let (_, error) = failed(launcher.advance(TraceEvent::Checked(GateRead::Byte(1), NOW)));
    assert_eq!(error, LauncherWaitError::InvalidGate);
}

#[test]
fn untraced_initial_sigstop_cannot_mint_ptrace_authority() {
    let launcher = stepped(settle(spawned()), stopped(SIGSTOP));
    let (launcher, _) = launcher.take_identity(Some(identity(7, DEPLOYER_LAUNCHER_PATH)));
    let launcher = up_to(launcher, TraceAction::ContinueLauncher);
    let (launcher, error) = failed(launcher.advance(TraceEvent::Outcome(Err(ESRCH))));
    assert_eq!(error, LauncherWaitError::Native(ESRCH));
    assert_eq!(launcher.cleanup(), CleanupAction::Signal(SIGKILL));
}

#[test]
fn wrong_initial_launcher_image_never_reaches_ptrace_continue() {
    let launcher = stepped(settle(spawned()), stopped(SIGSTOP));
    let (_, error) = failed(launcher.take_identity(Some(identity(7, b"/usr/bin/false"))));
    assert_eq!(error, LauncherWaitError::IdentityTransition);
}

#[test]
fn wrong_initial_launcher_credentials_never_reach_ptrace_continue() {
    for word in 1..6 {
        let launcher = stepped(settle(spawned()), stopped(SIGSTOP));
        let mut wrong = identity(7, DEPLOYER_LAUNCHER_PATH);
        wrong.audit.values[word] += 1;
        let (_, error) = failed(launcher.take_identity(Some(wrong)));
        assert_eq!(error, LauncherWaitError::IdentityTransition);
    }
}

#[test]
fn different_exec_image_cannot_mint_bound_identity() {
    let (_, error) = failed(trapped().take_identity(Some(identity(8, b"/usr/bin/true"))));
    assert_eq!(error, LauncherWaitError::IdentityTransition);
}

#[test]
fn held_exec_reports_waits_for_ready_and_resumes_exactly_once() {
    let launcher = resumed();
    assert_eq!(launcher.pid(), PID);
    assert_eq!(launcher.cleanup(), CleanupAction::Signal(SIGSTOP));
    assert!(launcher.report_trace_stops().is_none());
    // An event of another action changes nothing.
    let (launcher, step) = launcher.advance(TraceEvent::Outcome(Ok(())));
    assert_eq!(step, TraceStep::Next);
    assert_eq!(launcher.action(), TraceAction::WaitRunning);
}

#[test]
fn service_death_before_report_exactly_cleans_held_target() {
    assert_eq!(
        finish_trace_report_before_authority(GateRead::End),
        GateStep::Exit(BrokerGateExit::ServiceGone)
    );
    assert_eq!(held().cleanup(), CleanupAction::TraceKill);
    let (launcher, _) = trapped().take_identity(Some(identity(8, TARGET)));
    assert_eq!(launcher.action(), TraceAction::CheckProven);
    let (launcher, error) = failed(launcher.advance(TraceEvent::Checked(GateRead::End, NOW)));
    assert_eq!(error, LauncherWaitError::ServiceGone);
    assert_eq!(launcher.cleanup(), CleanupAction::TraceKill);
}

#[test]
fn malformed_or_extended_resume_exactly_cleans_reported_target() {
    for resume in [[9_u8].as_slice(), [1_u8, 2].as_slice()] {
        let (launcher, outcome) = held().take_commit(resume[0], resume.len() - 1);
        assert_eq!(
            outcome,
            Err(BrokerEntryError::Plan(SupervisorWireError::Malformed))
        );
        assert_eq!(launcher.action(), TraceAction::CleanUp);
        assert_eq!(launcher.cleanup(), CleanupAction::TraceKill);
    }
    assert_eq!(resume_commit(1), Ok(()));
}

#[test]
fn service_death_after_commit_preempts_delayed_resume() {
    let (_, error) = failed(committed().advance(TraceEvent::Checked(GateRead::End, NOW)));
    assert_eq!(error, LauncherWaitError::ServiceGone);
}

#[test]
fn ready_resume_commit_has_no_broker_side_deadline_veto() {
    let (launcher, step) = committed().advance(TraceEvent::Checked(SILENT, DEADLINE + 1));
    assert_eq!(step, TraceStep::Next);
    assert_eq!(launcher.action(), TraceAction::ResumeTarget);
}

#[test]
fn deliver_plan_writes_the_exact_frame_on_fd4_then_closes_for_eof() {
    let frame: Vec<u8> = (0..131_072_u32).map(|index| (index % 251) as u8).collect();
    let mut delivery = PlanDelivery {
        frame: frame.clone(),
        written: 0,
    };
    let mut received = Vec::new();
    loop {
        assert_eq!(delivery.may_write(SILENT, DEADLINE, NOW), Some(Ok(())));
        let count = delivery.rest().len().min(65_536);
        received.extend_from_slice(&delivery.rest()[..count]);
        if delivery.wrote(count) {
            break;
        }
    }
    assert_eq!(received.len(), frame.len(), "delivered length must match");
    assert_eq!(received, frame, "delivered bytes must match exactly");
    assert!(delivery.rest().is_empty());
}

#[test]
fn deliver_plan_is_preempted_by_service_death() {
    let delivery = PlanDelivery {
        frame: vec![0x5a; 64],
        written: 0,
    };
    assert_eq!(
        delivery.may_write(GateRead::End, DEADLINE, NOW),
        Some(Err(LauncherWaitError::ServiceGone))
    );
    assert_eq!(
        delivery.may_write(SILENT, DEADLINE, DEADLINE),
        Some(Err(LauncherWaitError::DeadlineExpired))
    );
    assert_eq!(
        delivery.may_write(GateRead::Failed(EINTR), DEADLINE, NOW),
        None
    );
    assert_eq!(delivery_failed(EINTR), DeliveryStep::Again);
    assert_eq!(delivery_failed(EAGAIN), DeliveryStep::Poll);
    assert_eq!(
        delivery_failed(32),
        DeliveryStep::Failed(LauncherWaitError::Native(32))
    );
}

fn wait(result: i32, status: i32, errno: i32) -> LauncherWait {
    LauncherWait {
        result,
        status,
        errno,
    }
}

#[test]
fn dropping_an_exact_launcher_drains_it_leaving_no_zombie() {
    assert_eq!(held().cleanup(), CleanupAction::TraceKill);
    // The end is told twice, to the tracer and to the parent; then no child is left.
    let (ended, step) = drain(PID, false, wait(PID, SIGKILL, 0));
    assert!(ended);
    assert_eq!(step, CleanupStep::Wait);
    assert_eq!(
        drain(PID, ended, wait(PID, SIGKILL, 0)),
        (true, CleanupStep::Wait)
    );
    assert_eq!(
        drain(PID, ended, wait(-1, 0, ECHILD)),
        (true, CleanupStep::Done)
    );
    // A stopped child is killed by its tracer, and the waits go on.
    assert_eq!(
        drain(PID, false, wait(PID, (SIGSTOP << 8) | 0x7f, 0)),
        (false, CleanupStep::KillStopped)
    );
    assert_eq!(
        drain(PID, false, wait(-1, 0, EINTR)),
        (false, CleanupStep::Wait)
    );
    // A child that is gone without an end that was seen stops the broker.
    assert_eq!(
        drain(PID, false, wait(-1, 0, ECHILD)),
        (false, CleanupStep::Abort)
    );
    assert!(signal_settled(0, 0));
    assert!(signal_settled(-1, ESRCH));
    assert!(!signal_settled(-1, 1));
}

#[test]
fn resumed_target_natural_exit_is_exactly_reaped() {
    let launcher = stepped(resumed(), waited(PID, 101 << 8, 0));
    assert_eq!(launcher.action(), TraceAction::Ended);
    assert_eq!(launcher.phase(), ExactPhase::Reaped);
    assert_eq!(launcher.wait_for_exit(), Some(ExactTargetExit::Exited(101)));
    assert_eq!(launcher.cleanup(), CleanupAction::Nothing);
    let launcher = stepped(resumed(), waited(PID, SIGKILL, 0));
    assert_eq!(
        launcher.wait_for_exit(),
        Some(ExactTargetExit::Signaled(SIGKILL))
    );
}

/// What becomes of a target once it stopped or ended with `status`, with this last look.
fn concluded(status: i32, read: GateRead) -> (ExactLauncher, LauncherWaitError) {
    let (launcher, step) = resumed().advance(waited(PID, status, 0));
    assert_eq!(step, TraceStep::Next);
    assert_eq!(launcher.action(), TraceAction::ProbeEnded);
    let (launcher, error) = failed(launcher.advance(TraceEvent::Checked(read, NOW)));
    assert!(launcher.wait_for_exit().is_none());
    (launcher, error)
}

#[test]
fn post_ready_sigkill_is_a_terminal_traced_stop_and_exactly_cleaned() {
    let (launcher, error) = concluded((SIGKILL << 8) | 0x7f, SILENT);
    assert_eq!(error, LauncherWaitError::UnexpectedStatus);
    assert_eq!(launcher.cleanup(), CleanupAction::TraceKill);
}

#[test]
fn service_death_after_terminal_wait_wins_classification() {
    let (launcher, error) = concluded(101 << 8, GateRead::End);
    assert_eq!(error, LauncherWaitError::ServiceGone);
    assert_eq!(launcher.cleanup(), CleanupAction::Nothing);
}

#[test]
fn service_death_after_stop_wait_wins_and_exactly_cleans() {
    let (launcher, error) = concluded((SIGSTOP << 8) | 0x7f, GateRead::End);
    assert_eq!(error, LauncherWaitError::ServiceGone);
    assert_eq!(launcher.cleanup(), CleanupAction::TraceKill);
}

#[test]
fn service_death_while_target_runs_preempts_exit_and_exactly_cleans() {
    let launcher = up_to(committed(), TraceAction::ProbeRunning);
    let (launcher, error) = failed(launcher.advance(TraceEvent::Checked(GateRead::End, NOW)));
    assert_eq!(error, LauncherWaitError::ServiceGone);
    assert_eq!(launcher.cleanup(), CleanupAction::Signal(SIGSTOP));
}

#[test]
fn service_death_after_waiting_begins_still_wins_and_exactly_cleans() {
    let (launcher, step) = resumed().advance(waited(0, 0, 0));
    assert_eq!(step, TraceStep::Next);
    assert_eq!(launcher.action(), TraceAction::PollRunning);
    let (launcher, _) = launcher.advance(TraceEvent::Outcome(Ok(())));
    let (launcher, error) = failed(launcher.advance(TraceEvent::Checked(GateRead::End, NOW)));
    assert_eq!(error, LauncherWaitError::ServiceGone);
    assert_eq!(launcher.cleanup(), CleanupAction::Signal(SIGSTOP));
}

#[test]
fn post_ready_target_stop_is_terminal_and_exactly_cleaned() {
    let (launcher, error) = concluded((SIGSTOP << 8) | 0x7f, SILENT);
    assert_eq!(error, LauncherWaitError::UnexpectedStatus);
    assert_eq!(launcher.phase(), ExactPhase::ObservedTracedStop);
    assert_eq!(launcher.cleanup(), CleanupAction::TraceKill);
}

#[test]
fn waits_that_fail_give_the_launcher_up_or_stop_the_broker() {
    let (launcher, step) = resumed().advance(waited(-1, 0, EINTR));
    assert_eq!(step, TraceStep::Next);
    assert_eq!(launcher.action(), TraceAction::ProbeRunning);
    let (_, step) = resumed().advance(waited(-1, 0, ECHILD));
    assert_eq!(step, TraceStep::Abort);
    let (_, error) = failed(resumed().advance(waited(-1, 0, 22)));
    assert_eq!(error, LauncherWaitError::Native(22));
    assert_eq!(poll_gate_slice(0, 0), Ok(()));
    assert_eq!(poll_gate_slice(-1, EINTR), Ok(()));
    assert_eq!(poll_gate_slice(-1, 9), Err(LauncherWaitError::Native(9)));
}

#[test]
fn report_is_written_whole_and_ended_before_it_counts() {
    let report = vec![7, 8, 9];
    let expired = BrokerEntryError::Plan(SupervisorWireError::LimitExceeded);
    assert_eq!(
        TraceReport::begin(report.clone(), DEADLINE, DEADLINE).err(),
        Some(expired)
    );
    let report = TraceReport::begin(report, DEADLINE, NOW).ok().unwrap();
    assert_eq!(report.phase(), ReportPhase::Writing);
    assert_eq!(
        report.may_write(GateRead::Failed(EAGAIN), NOW),
        GateStep::Live
    );
    assert_eq!(
        report.may_write(GateRead::Failed(EAGAIN), DEADLINE),
        GateStep::Failed(expired)
    );
    assert_eq!(
        report.may_write(GateRead::End, DEADLINE),
        GateStep::Exit(BrokerGateExit::ServiceGone)
    );
    let report = report.wrote(2).ok().unwrap();
    assert_eq!(report.rest(), [9]);
    assert_eq!(report.phase(), ReportPhase::Writing);
    let mut report = report.wrote(1).ok().unwrap();
    assert_eq!(report.phase(), ReportPhase::Ending);
    assert_eq!(report.ended(Err(32)), Err(BrokerEntryError::Control(32)));
    assert_eq!(report.ended(Ok(())), Ok(()));
    assert_eq!(report.looked(GateRead::Failed(EINTR)), GateStep::Again);
    assert_eq!(report.phase(), ReportPhase::Looking);
    assert_eq!(
        report.looked(GateRead::End),
        GateStep::Exit(BrokerGateExit::ServiceGone)
    );
    assert_eq!(report.phase(), ReportPhase::Looking);
    assert_eq!(report.looked(GateRead::Failed(EAGAIN)), GateStep::Live);
    assert_eq!(report.phase(), ReportPhase::Reported);
    let stuck = TraceReport::begin(vec![1], DEADLINE, NOW).ok().unwrap();
    assert_eq!(stuck.wrote(0).err(), Some(BrokerEntryError::Control(0)));
}

#[test]
fn commit_is_one_byte_and_the_end_of_the_stream() {
    let begun = ResumeCommit::begin();
    assert_eq!(begun.read(0, 0), Err(BrokerEntryError::Control(0)));
    assert_eq!(
        begun.may_read(GateRead::End),
        GateStep::Exit(BrokerGateExit::ServiceGone)
    );
    let once = begun.read(1, BROKER_RESUME_BYTE).unwrap();
    assert_eq!(once.action, CommitAction::ReadEnd);
    let commit = once.read(0, 0).unwrap();
    assert_eq!(commit.action, CommitAction::Judge);
    assert!(held().take_commit(commit.byte, commit.trailing).1.is_ok());
    let longer = once.read(1, 2).unwrap();
    assert!(held().take_commit(longer.byte, longer.trailing).1.is_err());
    let wrong = begun.read(1, 9).unwrap();
    assert_eq!(wrong.action, CommitAction::Judge);
    assert!(held().take_commit(wrong.byte, wrong.trailing).1.is_err());
}
