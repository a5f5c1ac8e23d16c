use std::sync::{Arc, Mutex};

use native_ipc::auth::message::{
    borrow_receive_right, classify_send, exact_logical_supervisor_record, mach_receive_timeout,
    receive_step, supervisor_receive_bytes, AuthAdapterError, MachReplyError, MachSendOnceRight,
    RawMachRecord, ReceiveStep, RefusedReply, SendOutcome, MACH_RCV_INTERRUPTED,
    MACH_RCV_TIMED_OUT, MACH_RCV_TOO_LARGE, MACH_SEND_INTERRUPTED, MACH_SEND_INVALID_DEST,
    MACH_SEND_TIMED_OUT, SUPERVISOR_MESSAGE_ID,
};
use native_ipc::auth::pool::{
    AuthWorkerEndpoint, AuthWorkerPipeError, AuthWorkerPool, AuthWorkerReplyReceipt,
    AuthWorkerResultPoll, AuthenticatedMachRecord, FreshAuthJobId, FreshAuthWorkerGeneration,
    PipeRead, ReceiveClocks, ReceivedAuthWorkerResult, Released,
};
use native_ipc::auth::route::{
    ready_outcome, ready_send_outcome, AuthenticatedMachRequest, AuthenticatedMachRoute,
    FreshSessionId, PendingSpawnReply, ReadyNativeSendError, ReadyOutcome, ReadyReplyError,
    SessionHandle, SessionRefusal, SpawnReplyFreshness, TerminationReason, WatchdogStateError,
};
use native_ipc::auth::worker::{
    emergency_advance, emergency_step, terminate_step, validate_disposition, wait_domain_step,
    ChildWaitDomainError, DarwinSigaction, DirectChildAuthWorkerAuthority,
    DirectChildAuthWorkerError, DirectChildState, EmergencyStep, ExactAuthWorker,
    ExactAuthWorkerAuthority, ReapedAuthWorker, TerminateAction, TerminateEvent, WaitDomainAnswer,
    WaitDomainStep, WaitOutcome, SA_NOCLDWAIT,
};
use native_ipc::auth::worker_frame::{
    AuthWorkerIdentity, AuthWorkerJob, AuthWorkerResult, AuthWorkerWireError,
    AUTH_WORKER_JOB_BYTES, AUTH_WORKER_JOB_MAGIC, AUTH_WORKER_REJECTED, AUTH_WORKER_RESULT_BYTES,
    MAX_AUTH_WORKERS, RESULT_CODE_IDENTITY_OFFSET, RESULT_JOB_OFFSET,
};
use native_ipc::mach::{round_mach_message, MACH_MSGH_BITS_COMPLEX};
use native_ipc::supervisor::broker_plan::BrokerLaunchPlan;
use native_ipc::supervisor::connection::{
    decode_service_hello, decode_spawn_result, encode_client_hello, encode_spawn_request,
    SupervisorConnection,
};
use native_ipc::supervisor::deadline::{ClockSample, SupervisorDeadline, SupervisorWireError};
use native_ipc::supervisor::payload::DecodedSpawnResult;
use native_ipc::supervisor::peer::{ConnectionGeneration, ConnectionIdentity, FreshServiceNonce};
use native_ipc::supervisor::policy::{
    AuthenticatedSpawnRequest, InstalledPolicyCatalog, TargetPolicyDefinition,
};
use native_ipc::supervisor::record::{HEADER_LEN, MAX_SUPERVISOR_RECORD_BYTES};
use native_ipc::supervisor::target::{SpawnRequest, TargetEnvironmentEntry};
use native_ipc::wait_status::{ECHILD, EINTR, ESRCH, SIGKILL};

const AUDIT_IDENTITY: [u8; 32] = [0x11; 32];
const CLIENT_CODE_IDENTITY: [u8; 32] = [0x22; 32];
const CLIENT_NONCE: [u8; 32] = [0x33; 32];
const SERVICE_NONCE: [u8; 32] = [0x44; 32];
const TARGET_CODE_IDENTITY: [u8; 32] = [0x77; 32];

const SECOND: u64 = 1_000_000_000;
const MILLI: u64 = 1_000_000;
const SERVICE_PORT: u32 = 0x1203;

#[derive(Clone, Copy, Debug, Eq, PartialEq)]
enum FakeFailure {
    LostWaitAuthority,
}

type Failure = AuthAdapterError<FakeFailure>;

#[derive(Default)]
struct FakeState {
    result_reaps: usize,
    terminations: usize,
    emergency_cleanups: usize,
    fail_next: bool,
    reap_pending_once: bool,
    termination_pending_once: bool,
    result_wait_status: i32,
}

struct FakeAuthority {
    state: Arc<Mutex<FakeState>>,
}

impl ExactAuthWorkerAuthority for FakeAuthority {
    type Failure = FakeFailure;

    fn try_reap_after_result(&mut self) -> Result<Option<ReapedAuthWorker>, FakeFailure> {
        let mut state = self.state.lock().unwrap();
        if std::mem::take(&mut state.fail_next) {
            return Err(FakeFailure::LostWaitAuthority);
        }
        if std::mem::take(&mut state.reap_pending_once) {
            return Ok(None);
        }
        state.result_reaps += 1;
        Ok(Some(ReapedAuthWorker::from_exact_wait_status(
            state.result_wait_status,
        )))
    }

    fn try_terminate_and_reap(&mut self) -> Result<Option<ReapedAuthWorker>, FakeFailure> {
        let mut state = self.state.lock().unwrap();
        if std::mem::take(&mut state.fail_next) {
            return Err(FakeFailure::LostWaitAuthority);
        }
        if std::mem::take(&mut state.termination_pending_once) {
            return Ok(None);
        }
        state.terminations += 1;
        Ok(Some(ReapedAuthWorker::from_exact_wait_status(SIGKILL)))
    }

    fn emergency_terminate_and_reap(&mut self) -> ReapedAuthWorker {
        self.state.lock().unwrap().emergency_cleanups += 1;
        ReapedAuthWorker::from_exact_wait_status(SIGKILL)
    }
}

fn clock() -> ClockSample {
    ClockSample {
        local_now: 40 * SECOND,
        monotonic_now: Some(90 * SECOND),
    }
}

fn clock_after(nanos: u64) -> ClockSample {
    ClockSample {
        local_now: 40 * SECOND + nanos,
        monotonic_now: Some(90 * SECOND + nanos),
    }
}

fn deadline_after(nanos: u64) -> SupervisorDeadline {
    SupervisorDeadline::from_instant(clock().local_now + nanos, clock()).unwrap()
}

fn worker(
    generation: u64,
) -> (
    FreshAuthWorkerGeneration,
    ExactAuthWorker<FakeAuthority>,
    Arc<Mutex<FakeState>>,
) {
    let state = Arc::new(Mutex::new(FakeState::default()));
    let generation =
        FreshAuthWorkerGeneration::from_unique_service_value::<FakeFailure>(generation).unwrap();
    let exact = ExactAuthWorker::from_unreaped_direct_child(FakeAuthority {
        state: Arc::clone(&state),
    });
    (generation, exact, state)
}

fn test_worker_endpoint() -> AuthWorkerEndpoint {
    AuthWorkerEndpoint {
        request: 11,
        result: 12,
    }
}

fn pool(generations: &[u64]) -> (AuthWorkerPool<FakeAuthority>, Vec<Arc<Mutex<FakeState>>>) {
    let mut states = Vec::new();
    let workers = generations
        .iter()
        .copied()
        .map(|generation| {
            let (generation, worker, state) = worker(generation);
            states.push(state);
            (generation, worker, test_worker_endpoint())
        })
        .collect();
    let Ok(pool) = AuthWorkerPool::from_precreated_workers(workers) else {
        panic!("the workers do not make a pool")
    };
    (pool, states)
}

fn connection(generation: u64) -> SupervisorConnection {
    let nonce = FreshServiceNonce::from_fresh_random(service_nonce(generation)).unwrap();
    let generation = ConnectionGeneration::from_unique_service_value(generation)
        .ok()
        .unwrap();
    SupervisorConnection::new(generation, nonce)
}

fn service_nonce(generation: u64) -> [u8; 32] {
    let mut nonce = SERVICE_NONCE;
    nonce[..8].copy_from_slice(&generation.to_le_bytes());
    nonce
}

fn raw(audit_identity: [u8; 32], effective_uid: u32, bytes: Vec<u8>) -> RawMachRecord {
    RawMachRecord {
        audit_identity,
        effective_uid,
        effective_gid: 20,
        bytes,
        reply: MachSendOnceRight { name: 0x707 },
    }
}

/// The refusal of a record of `raw`, which leaves its reply right.
fn refused(error: SupervisorWireError) -> RefusedReply<SupervisorWireError> {
    RefusedReply {
        error,
        reply: MachSendOnceRight { name: 0x707 },
    }
}

fn hello_bytes() -> Vec<u8> {
    encode_client_hello(CLIENT_NONCE).unwrap()
}

fn accept_client_hello(
    authenticated: AuthenticatedMachRecord,
    generation: u64,
) -> (SupervisorConnection, AuthenticatedMachRequest<Vec<u8>>) {
    let nonce = FreshServiceNonce::from_fresh_random(service_nonce(generation)).unwrap();
    let generation = ConnectionGeneration::from_unique_service_value(generation)
        .ok()
        .unwrap();
    let Ok(AuthenticatedMachRoute::ClientHello(hello)) = authenticated.route(clock()) else {
        panic!("authenticated record was not a client hello")
    };
    hello.accept(generation, nonce, clock()).ok().unwrap()
}

fn dispatch(
    pool: &mut AuthWorkerPool<FakeAuthority>,
    record: RawMachRecord,
    job: FreshAuthJobId,
    deadline: SupervisorDeadline,
) -> Result<(AuthWorkerJob, AuthWorkerReplyReceipt), Failure> {
    pool.dispatch(record, job, deadline, clock())
        .map(|dispatched| dispatched.into_parts())
}

fn complete(
    pool: &mut AuthWorkerPool<FakeAuthority>,
    received: ReceivedAuthWorkerResult,
) -> Result<AuthenticatedMachRecord, Failure> {
    pool.complete(received, clock(), clock())
}

fn spawn_request(deadline: SupervisorDeadline) -> SpawnRequest {
    SpawnRequest::new(
        deadline,
        b"com.example.receiver".to_vec(),
        vec![b"--mode=test".to_vec()],
        vec![TargetEnvironmentEntry::new(b"LANG".to_vec(), b"C".to_vec()).unwrap()],
    )
    .unwrap()
}

fn accepted_spawn_reply(
    generation: u64,
) -> (
    PendingSpawnReply<AuthenticatedSpawnRequest>,
    ConnectionIdentity,
) {
    let (mut pool, _states) = pool(&[generation + 10, generation + 11]);
    let (hello_job, hello_receipt) = dispatch(
        &mut pool,
        raw(AUDIT_IDENTITY, 501, hello_bytes()),
        job_id(0xa1),
        deadline_after(5 * SECOND),
    )
    .unwrap();
    let authenticated = complete(
        &mut pool,
        received_result(hello_receipt, validated_result(hello_job)),
    )
    .ok()
    .unwrap();
    let (mut connection, _hello_reply) = accept_client_hello(authenticated, generation);
    let owner = connection.connection_identity();
    let bytes = encode_spawn_request(
        &spawn_request(deadline_after(5 * SECOND)),
        owner.get(),
        CLIENT_NONCE,
        service_nonce(generation),
    )
    .unwrap();
    let (spawn_job, spawn_receipt) = dispatch(
        &mut pool,
        raw(AUDIT_IDENTITY, 501, bytes),
        job_id(0xa2),
        deadline_after(5 * SECOND),
    )
    .unwrap();
    let authenticated = complete(
        &mut pool,
        received_result(spawn_receipt, validated_result(spawn_job)),
    )
    .ok()
    .unwrap();
    let Ok(AuthenticatedMachRoute::Spawn(spawn)) = authenticated.route(clock()) else {
        panic!("authenticated record was not a spawn")
    };
    let pending = spawn
        .accept(&mut connection, clock(), clock())
        .ok()
        .unwrap();
    (pending, owner)
}

fn installed_catalog() -> InstalledPolicyCatalog {
    let definition = TargetPolicyDefinition::new(
        b"com.example.receiver".to_vec(),
        CLIENT_CODE_IDENTITY,
        TARGET_CODE_IDENTITY,
        b"/Library/PrivilegedHelperTools/com.example.receiver".to_vec(),
        b"receiver".to_vec(),
        4,
        vec![b"LANG".to_vec()],
    )
    .ok()
    .unwrap();
    InstalledPolicyCatalog::from_verified_installation(vec![definition])
        .ok()
        .unwrap()
}

fn job_id(value: u8) -> FreshAuthJobId {
    let mut bytes = [value; 32];
    bytes[0] = value.max(1);
    FreshAuthJobId::from_fresh_random::<FakeFailure>(bytes)
        .ok()
        .unwrap()
}

fn validated_result(job: AuthWorkerJob) -> AuthWorkerResult {
    AuthWorkerResult::from_security_validation(job, CLIENT_CODE_IDENTITY)
}

fn received_result(
    receipt: AuthWorkerReplyReceipt,
    result: AuthWorkerResult,
) -> ReceivedAuthWorkerResult {
    let bytes = result.encode_pipe_frame().unwrap();
    ReceivedAuthWorkerResult::from_private_pipe(receipt, &bytes)
        .ok()
        .unwrap()
}

fn trailer(token: [u8; 32]) -> Vec<u8> {
    let mut bytes = Vec::new();
    bytes.extend_from_slice(&0_u32.to_le_bytes());
    bytes.extend_from_slice(&52_u32.to_le_bytes());
    bytes.extend_from_slice(&7_u32.to_le_bytes());
    bytes.extend_from_slice(&[0x5a; 8]);
    bytes.extend_from_slice(&token);
    bytes
}

fn token(uid: u32, gid: u32) -> [u8; 32] {
    let words = [9_u32, uid, gid, uid, gid, 4321, 6, 7];
    let mut bytes = [0_u8; 32];
    for (destination, word) in bytes.chunks_exact_mut(4).zip(words) {
        destination.copy_from_slice(&word.to_le_bytes());
    }
    bytes
}

fn delivered(bits: u32, reply: u32, message_id: u32, payload: &[u8], token: [u8; 32]) -> Vec<u8> {
    let mut padded = payload.to_vec();
    padded.resize(round_mach_message(payload.len()).unwrap(), 0);
    let mut bytes = Vec::new();
    for word in [
        bits,
        u32::try_from(24 + padded.len()).unwrap(),
        reply,
        SERVICE_PORT,
        0,
        message_id,
    ] {
        bytes.extend_from_slice(&word.to_le_bytes());
    }
    bytes.extend_from_slice(&padded);
    bytes.extend_from_slice(&trailer(token));
    bytes
}

fn supervisor_request(reply: u32, payload: &[u8]) -> Vec<u8> {
    delivered(
        0x1112,
        reply,
        SUPERVISOR_MESSAGE_ID,
        payload,
        token(501, 20),
    )
}

fn clocks() -> ReceiveClocks {
    ReceiveClocks {
        received: clock(),
        capped: clock(),
        chosen: clock(),
        dispatched: clock(),
    }
}

#[test]
fn authentication_deadline_is_the_earlier_wire_deadline_or_service_cap() {
    let connection = connection(0x4141);
    let wire_deadline = deadline_after(2 * SECOND);
    let later_cap = deadline_after(5 * SECOND);
    let spawn = raw(
        AUDIT_IDENTITY,
        501,
        encode_spawn_request(
            &spawn_request(wire_deadline),
            connection.connection_identity().get(),
            CLIENT_NONCE,
            service_nonce(0x4141),
        )
        .unwrap(),
    );
    assert_eq!(
        spawn
            .authentication_deadline(later_cap, clock(), clock())
            .unwrap(),
        wire_deadline
    );

    let earlier_cap = deadline_after(250 * MILLI);
    assert_eq!(
        spawn
            .authentication_deadline(earlier_cap, clock(), clock())
            .unwrap(),
        earlier_cap
    );

    let hello = raw(AUDIT_IDENTITY, 501, hello_bytes());
    assert_eq!(
        hello
            .authentication_deadline(earlier_cap, clock(), clock())
            .unwrap(),
        earlier_cap
    );
}

#[test]
fn expired_or_short_spawn_deadline_rejects_before_authentication_dispatch() {
    let connection = connection(0x4242);
    let request = spawn_request(deadline_after(2 * SECOND));
    let mut bytes = encode_spawn_request(
        &request,
        connection.connection_identity().get(),
        CLIENT_NONCE,
        service_nonce(0x4242),
    )
    .unwrap();
    bytes[HEADER_LEN..HEADER_LEN + size_of::<u64>()].copy_from_slice(&0_u64.to_le_bytes());
    assert_eq!(
        raw(AUDIT_IDENTITY, 501, bytes).authentication_deadline(
            deadline_after(5 * SECOND),
            clock(),
            clock()
        ),
        Err(SupervisorWireError::LimitExceeded)
    );

    let mut short = encode_spawn_request(
        &request,
        connection.connection_identity().get(),
        CLIENT_NONCE,
        service_nonce(0x4242),
    )
    .unwrap();
    short.truncate(HEADER_LEN + size_of::<u64>());
    short[12..16].copy_from_slice(&(size_of::<u64>() as u32).to_le_bytes());
    assert_eq!(
        raw(AUDIT_IDENTITY, 501, short).authentication_deadline(
            deadline_after(5 * SECOND),
            clock(),
            clock()
        ),
        Err(SupervisorWireError::Malformed)
    );
}

#[test]
fn darwin_alignment_normalization_accepts_only_exact_zero_padding() {
    let connection = connection(0x4343);
    let logical = encode_spawn_request(
        &spawn_request(deadline_after(2 * SECOND)),
        connection.connection_identity().get(),
        CLIENT_NONCE,
        service_nonce(0x4343),
    )
    .unwrap();
    assert_ne!(logical.len() % size_of::<u32>(), 0);
    let mut padded = logical.clone();
    padded.resize(round_mach_message(logical.len()).unwrap(), 0);
    assert_eq!(
        exact_logical_supervisor_record(&padded),
        Some(logical.as_slice())
    );

    *padded.last_mut().unwrap() = 1;
    assert_eq!(exact_logical_supervisor_record(&padded), None);
    *padded.last_mut().unwrap() = 0;
    padded[12..16].copy_from_slice(&u32::MAX.to_le_bytes());
    assert_eq!(exact_logical_supervisor_record(&padded), None);
}

#[test]
fn raw_mach_receive_fuses_exact_kernel_audit_and_linear_reply_right() {
    let (mut pool, states) = pool(&[80]);
    let message = supervisor_request(0x909, &hello_bytes());
    let (job, receipt) = pool
        .receive_and_dispatch_capped(
            &message,
            SERVICE_PORT,
            job_id(80),
            deadline_after(5 * SECOND),
            deadline_after(4 * SECOND),
            clocks(),
        )
        .ok()
        .unwrap()
        .into_parts();
    assert_eq!(job.audit_identity(), token(501, 20));
    assert_ne!(job.frame_digest(), [0; 32]);
    assert_eq!(job.effective_uid(), 501);
    assert_eq!(job.effective_gid(), 20);
    let authenticated = complete(&mut pool, received_result(receipt, validated_result(job)))
        .ok()
        .unwrap();
    assert_eq!(states[0].lock().unwrap().result_reaps, 1);
    let (_connection, request) = accept_client_hello(authenticated, 79);
    let send = request.prepare_reply().ok().unwrap();
    assert_eq!(&send.message[8..12], &0x909_u32.to_le_bytes());
    assert_eq!(
        &send.message[20..24],
        &SUPERVISOR_MESSAGE_ID.to_le_bytes()
    );
    assert!(!send.message[24..].is_empty());
}

#[test]
fn native_spawn_receive_dispatches_only_under_minimum_deadline_and_drops_rejections() {
    for (wire_duration, cap_duration, expected_wire) in
        [(500 * MILLI, 2 * SECOND, true), (2 * SECOND, 500 * MILLI, false)]
    {
        let wire_deadline = deadline_after(wire_duration);
        let auth_cap = deadline_after(cap_duration);
        let bytes = encode_spawn_request(
            &spawn_request(wire_deadline),
            0x5151,
            CLIENT_NONCE,
            service_nonce(0x5151),
        )
        .unwrap();
        let (mut pool, states) = pool(&[0x5151]);
        let dispatched = pool
            .receive_and_dispatch_capped(
                &supervisor_request(0x909, &bytes),
                SERVICE_PORT,
                job_id(if expected_wire { 0x51 } else { 0x52 }),
                deadline_after(2 * SECOND),
                auth_cap,
                clocks(),
            )
            .ok()
            .unwrap();
        let worker = dispatched.worker();
        let (job, receipt) = dispatched.into_parts();
        assert_eq!(
            job.deadline(),
            if expected_wire {
                wire_deadline.wire_value()
            } else {
                auth_cap.wire_value()
            }
        );
        drop(receipt);
        assert_eq!(pool.take_released(), Released::none());
        pool.cancel(worker).unwrap();
        assert_eq!(states[0].lock().unwrap().terminations, 1);
        assert_eq!(pool.take_released().rights, [MachSendOnceRight { name: 0x909 }]);
        assert_eq!(pool.take_released(), Released::none());
    }

    let request = SpawnRequest::new(
        deadline_after(2 * SECOND),
        b"com.example.receiver".to_vec(),
        Vec::new(),
        Vec::new(),
    )
    .unwrap();
    let mut bytes =
        encode_spawn_request(&request, 0x5252, CLIENT_NONCE, service_nonce(0x5252)).unwrap();
    bytes[HEADER_LEN..HEADER_LEN + size_of::<u64>()].copy_from_slice(&0_u64.to_le_bytes());
    let (mut pool, states) = pool(&[0x5252]);
    assert!(matches!(
        pool.receive_and_dispatch_capped(
            &supervisor_request(0x909, &bytes),
            SERVICE_PORT,
            job_id(0x53),
            deadline_after(2 * SECOND),
            deadline_after(2 * SECOND),
            clocks(),
        ),
        Err(AuthAdapterError::Protocol(
            SupervisorWireError::LimitExceeded
        ))
    ));
    assert!(pool.slots[0].as_ref().unwrap().pending.is_none());
    assert_eq!(states[0].lock().unwrap().terminations, 0);
    assert_eq!(pool.take_released().rights, [MachSendOnceRight { name: 0x909 }]);
}

#[test]
fn raw_mach_receive_destroys_malformed_reply_and_preserves_queue_progress() {
    let (mut pool, _states) = pool(&[85]);
    let malformed = delivered(
        0x1112,
        0x909,
        SUPERVISOR_MESSAGE_ID + 1,
        &hello_bytes(),
        token(501, 20),
    );
    let refused = pool
        .receive_and_dispatch_capped(
            &malformed,
            SERVICE_PORT,
            job_id(85),
            deadline_after(5 * SECOND),
            deadline_after(5 * SECOND),
            clocks(),
        )
        .err()
        .unwrap();
    assert_eq!(refused, AuthAdapterError::MalformedMachMessage);
    assert!(refused.leaves_message());
    assert_eq!(pool.take_released(), Released::none());

    let (job, receipt) = pool
        .receive_and_dispatch_capped(
            &supervisor_request(0x90b, &hello_bytes()),
            SERVICE_PORT,
            job_id(86),
            deadline_after(5 * SECOND),
            deadline_after(5 * SECOND),
            clocks(),
        )
        .ok()
        .unwrap()
        .into_parts();
    let authenticated = complete(&mut pool, received_result(receipt, validated_result(job)))
        .ok()
        .unwrap();
    let (_connection, request) = accept_client_hello(authenticated, 84);
    let (reply_right, response) = request.into_parts();
    assert!(!response.is_empty());
    assert_eq!(reply_right.name, 0x90b);
}

#[test]
fn raw_mach_receive_immediately_destroys_complex_transferred_rights() {
    let (mut pool, _states) = pool(&[87]);
    let message = delivered(
        MACH_MSGH_BITS_COMPLEX | 0x1112,
        0x909,
        SUPERVISOR_MESSAGE_ID,
        &hello_bytes(),
        token(501, 20),
    );
    assert!(matches!(
        pool.receive_and_dispatch_capped(
            &message,
            SERVICE_PORT,
            job_id(87),
            deadline_after(5 * SECOND),
            deadline_after(5 * SECOND),
            clocks(),
        ),
        Err(AuthAdapterError::MalformedMachMessage)
    ));
    assert!(pool.slots[0].as_ref().unwrap().pending.is_none());
}

#[test]
fn oversized_mach_record_is_destroyed_without_blocking_following_request() {
    assert!(matches!(
        receive_step::<FakeFailure>(MACH_RCV_TOO_LARGE, deadline_after(5 * SECOND), clock()),
        ReceiveStep::Failed(AuthAdapterError::RecordTooLarge)
    ));
    assert!(supervisor_receive_bytes().unwrap() < 24 + MAX_SUPERVISOR_RECORD_BYTES + 52 + 4);

    let (mut pool, _states) = pool(&[88]);
    let (job, receipt) = pool
        .receive_and_dispatch_capped(
            &supervisor_request(0x90b, &hello_bytes()),
            SERVICE_PORT,
            job_id(89),
            deadline_after(5 * SECOND),
            deadline_after(5 * SECOND),
            clocks(),
        )
        .ok()
        .unwrap()
        .into_parts();
    let authenticated = complete(&mut pool, received_result(receipt, validated_result(job)))
        .ok()
        .unwrap();
    let (_connection, request) = accept_client_hello(authenticated, 89);
    let (_reply_right, response) = request.into_parts();
    assert!(!response.is_empty());
}

#[test]
fn raw_mach_receive_obeys_original_empty_queue_deadline() {
    let deadline = deadline_after(50 * MILLI);
    assert_eq!(mach_receive_timeout(deadline, clock(), clock().local_now), Ok(50));
    assert!(matches!(
        receive_step::<FakeFailure>(MACH_RCV_TIMED_OUT, deadline, clock()),
        ReceiveStep::Again
    ));
    assert!(matches!(
        receive_step::<FakeFailure>(MACH_RCV_TIMED_OUT, deadline, clock_after(50 * MILLI)),
        ReceiveStep::Failed(AuthAdapterError::DeadlineExpired)
    ));
    assert!(matches!(
        receive_step::<FakeFailure>(MACH_RCV_INTERRUPTED, deadline, clock_after(SECOND)),
        ReceiveStep::Again
    ));
    assert!(matches!(
        receive_step::<FakeFailure>(0, deadline, clock()),
        ReceiveStep::Read
    ));
    assert!(matches!(
        receive_step::<FakeFailure>(0x1000_4008, deadline, clock()),
        ReceiveStep::Failed(AuthAdapterError::MachReceive(0x1000_4008))
    ));

    let (mut pool, _states) = pool(&[90]);
    let mut late = clocks();
    late.received = clock_after(50 * MILLI);
    assert!(matches!(
        pool.receive_and_dispatch_capped(
            &supervisor_request(0x909, &hello_bytes()),
            SERVICE_PORT,
            job_id(90),
            deadline,
            deadline_after(5 * SECOND),
            late,
        ),
        Err(AuthAdapterError::DeadlineExpired)
    ));
}

#[test]
fn authenticated_reply_send_handles_dead_and_invalid_destinations() {
    assert!(matches!(classify_send(0), SendOutcome::Sent));
    assert!(matches!(
        classify_send(MACH_SEND_INVALID_DEST),
        SendOutcome::Recoverable(_)
    ));
    assert!(matches!(
        classify_send(MACH_SEND_TIMED_OUT),
        SendOutcome::Recoverable(_)
    ));
    assert!(matches!(
        classify_send(MACH_SEND_INTERRUPTED),
        SendOutcome::Recoverable(_)
    ));
    assert!(!matches!(
        classify_send(0x1000_0010),
        SendOutcome::Sent | SendOutcome::Recoverable(_)
    ));
    for payload in [&[][..], &[1, 2, 3]] {
        assert_eq!(
            MachSendOnceRight { name: 5 }.prepare(payload),
            Err(RefusedReply {
                error: MachReplyError::InvalidReply,
                reply: MachSendOnceRight { name: 5 },
            })
        );
    }
    assert!(MachSendOnceRight { name: 5 }.prepare(&[1, 2, 3, 4]).is_ok());
    assert_eq!(
        MachSendOnceRight::from_received::<FakeFailure>(0),
        Err(AuthAdapterError::MalformedMachMessage)
    );
    assert_eq!(
        borrow_receive_right::<FakeFailure>(0),
        Err(AuthAdapterError::InvalidReceiveRight)
    );
}

#[test]
fn private_pipe_frames_are_fixed_canonical_and_round_trip_exactly() {
    let (mut pool, _states) = pool(&[81]);
    let (job, _receipt) = dispatch(
        &mut pool,
        raw(AUDIT_IDENTITY, 501, hello_bytes()),
        job_id(83),
        deadline_after(5 * SECOND),
    )
    .unwrap();

    let encoded_job = job.encode_pipe_frame();
    assert_eq!(encoded_job.len(), AUTH_WORKER_JOB_BYTES);
    assert_eq!(AuthWorkerJob::decode_pipe_frame(&encoded_job), Ok(job));
    assert_eq!(
        &encoded_job[..8],
        &AUTH_WORKER_JOB_MAGIC,
        "job wire identity must not depend on signing or packaging"
    );

    let validated = validated_result(job);
    let encoded_result = validated.encode_pipe_frame().unwrap();
    assert_eq!(encoded_result.len(), AUTH_WORKER_RESULT_BYTES);
    let decoded_result = AuthWorkerResult::decode_pipe_frame(&encoded_result).unwrap();
    assert_eq!(decoded_result.job, job);
    assert_eq!(decoded_result.code_identity, CLIENT_CODE_IDENTITY);

    let rejected = AuthWorkerResult::from_security_validation(job, [0; 32]);
    let rejected =
        AuthWorkerResult::decode_pipe_frame(&rejected.encode_pipe_frame().unwrap()).unwrap();
    assert_eq!(rejected.job, job);
    assert_eq!(rejected.code_identity, [0; 32]);
}

#[test]
fn private_pipe_frames_reject_truncation_extension_reserved_and_identity_errors() {
    let (mut pool, _states) = pool(&[91]);
    let (job, _receipt) = dispatch(
        &mut pool,
        raw(AUDIT_IDENTITY, 501, hello_bytes()),
        job_id(93),
        deadline_after(5 * SECOND),
    )
    .unwrap();
    let encoded_job = job.encode_pipe_frame();
    for length in 0..AUTH_WORKER_JOB_BYTES {
        assert!(AuthWorkerJob::decode_pipe_frame(&encoded_job[..length]).is_err());
    }
    let mut extended_job = encoded_job.to_vec();
    extended_job.push(0);
    assert_eq!(
        AuthWorkerJob::decode_pipe_frame(&extended_job),
        Err(AuthWorkerWireError::Malformed)
    );

    // Magic, version, reserved word, length, reserved slot bytes and reserved route.
    for offset in [0, 8, 10, 12, 17, 64] {
        let mut malformed = encoded_job.clone();
        malformed[offset] ^= 1;
        assert_eq!(
            AuthWorkerJob::decode_pipe_frame(&malformed),
            Err(AuthWorkerWireError::Malformed)
        );
    }

    let mut invalid_slot = encoded_job.clone();
    invalid_slot[16] = MAX_AUTH_WORKERS as u8;
    assert_eq!(
        AuthWorkerJob::decode_pipe_frame(&invalid_slot),
        Err(AuthWorkerWireError::InvalidIdentity)
    );
    // Generation, job, audit identity, user, group, digest and deadline.
    for (offset, length) in [
        (24, 8),
        (32, 32),
        (72, 32),
        (104, 4),
        (108, 4),
        (112, 32),
        (144, 8),
    ] {
        let mut invalid = encoded_job.clone();
        invalid[offset..offset + length].fill(0);
        assert_eq!(
            AuthWorkerJob::decode_pipe_frame(&invalid),
            Err(AuthWorkerWireError::InvalidIdentity)
        );
    }

    let encoded_result = validated_result(job).encode_pipe_frame().unwrap();
    for length in 0..AUTH_WORKER_RESULT_BYTES {
        assert!(AuthWorkerResult::decode_pipe_frame(&encoded_result[..length]).is_err());
    }
    let mut extended_result = encoded_result.to_vec();
    extended_result.push(0);
    assert_eq!(
        AuthWorkerResult::decode_pipe_frame(&extended_result).err(),
        Some(AuthWorkerWireError::Malformed)
    );
    for offset in [0, 8, 12] {
        let mut malformed = encoded_result.clone();
        malformed[offset] ^= 1;
        assert_eq!(
            AuthWorkerResult::decode_pipe_frame(&malformed).err(),
            Some(AuthWorkerWireError::Malformed)
        );
    }
    let mut unknown_decision = encoded_result.clone();
    unknown_decision[10..12].copy_from_slice(&u16::MAX.to_le_bytes());
    assert_eq!(
        AuthWorkerResult::decode_pipe_frame(&unknown_decision).err(),
        Some(AuthWorkerWireError::Malformed)
    );
    let mut validated_without_identity = encoded_result.clone();
    validated_without_identity[RESULT_CODE_IDENTITY_OFFSET..].fill(0);
    assert_eq!(
        AuthWorkerResult::decode_pipe_frame(&validated_without_identity).err(),
        Some(AuthWorkerWireError::InvalidDecision)
    );
    let mut rejected_with_identity = encoded_result;
    rejected_with_identity[10..12].copy_from_slice(&AUTH_WORKER_REJECTED.to_le_bytes());
    assert_eq!(
        AuthWorkerResult::decode_pipe_frame(&rejected_with_identity).err(),
        Some(AuthWorkerWireError::InvalidDecision)
    );
}

#[test]
fn private_pipe_endpoint_submits_once_and_requires_exact_result_eof() {
    let (mut pool, states) = pool(&[97]);
    let dispatched = pool
        .dispatch(
            raw(AUDIT_IDENTITY, 501, hello_bytes()),
            job_id(98),
            deadline_after(5 * SECOND),
            clock(),
        )
        .ok()
        .unwrap();
    assert_eq!(dispatched.request(), 11);
    let request = dispatched.frame(clock()).ok().unwrap();
    let job = AuthWorkerJob::decode_pipe_frame(&request).unwrap();
    let receipt = dispatched
        .submit(i64::try_from(request.len()).unwrap(), 0)
        .ok()
        .unwrap();
    assert_eq!(request, job.encode_pipe_frame());
    assert_eq!(receipt.descriptor(), 12);

    let Ok(AuthWorkerResultPoll::Pending(receipt)) = receipt.poll(PipeRead::Error(35)) else {
        unreachable!()
    };
    let encoded = validated_result(job).encode_pipe_frame().unwrap();
    assert_eq!(
        receipt.next_read(clock()).ok(),
        Some(AUTH_WORKER_RESULT_BYTES)
    );
    let Ok(AuthWorkerResultPoll::Continue(receipt)) =
        receipt.poll(PipeRead::Bytes(encoded[..100].to_vec()))
    else {
        unreachable!()
    };
    let Ok(AuthWorkerResultPoll::Continue(receipt)) =
        receipt.poll(PipeRead::Bytes(encoded[100..].to_vec()))
    else {
        unreachable!()
    };
    let Ok(AuthWorkerResultPoll::Pending(receipt)) = receipt.poll(PipeRead::Error(35)) else {
        unreachable!()
    };
    let Ok(AuthWorkerResultPoll::Complete(received)) = receipt.poll(PipeRead::End) else {
        unreachable!()
    };
    let worker = received.worker();
    states[0].lock().unwrap().reap_pending_once = true;
    assert_eq!(
        complete(&mut pool, received).err(),
        Some(AuthAdapterError::WorkerRetirementPending(worker))
    );
    assert!(pool.poll_completed(worker, clock()).is_ok());
    assert_eq!(states[0].lock().unwrap().result_reaps, 1);
}

#[test]
fn private_pipe_endpoint_rejects_premature_eof_and_extra_result_bytes() {
    for extra in [false, true] {
        let (mut pool, _states) = pool(&[if extra { 100 } else { 99 }]);
        let dispatched = pool
            .dispatch(
                raw(AUDIT_IDENTITY, 501, hello_bytes()),
                job_id(if extra { 100 } else { 99 }),
                deadline_after(5 * SECOND),
                clock(),
            )
            .ok()
            .unwrap();
        let request = dispatched.frame(clock()).ok().unwrap();
        let job = AuthWorkerJob::decode_pipe_frame(&request).unwrap();
        let receipt = dispatched
            .submit(i64::try_from(request.len()).unwrap(), 0)
            .ok()
            .unwrap();
        let (first, last) = if extra {
            (
                validated_result(job).encode_pipe_frame().unwrap(),
                PipeRead::Bytes(vec![0]),
            )
        } else {
            (vec![0; 17], PipeRead::End)
        };
        let Ok(AuthWorkerResultPoll::Continue(receipt)) = receipt.poll(PipeRead::Bytes(first))
        else {
            unreachable!()
        };
        let Err(failure) = receipt.poll(last) else {
            unreachable!()
        };
        assert_eq!(failure.worker(), job.worker());
        assert_eq!(
            failure.error(),
            if extra {
                AuthWorkerPipeError::ExtraResultBytes
            } else {
                AuthWorkerPipeError::PrematureEof
            }
        );
        pool.cancel(failure.worker()).unwrap();
    }
}

#[test]
fn private_pipe_submit_failure_returns_exact_worker_for_cleanup() {
    const EPIPE: i32 = 32;
    let (mut pool, states) = pool(&[103]);
    let dispatched = pool
        .dispatch(
            raw(AUDIT_IDENTITY, 501, hello_bytes()),
            job_id(103),
            deadline_after(5 * SECOND),
            clock(),
        )
        .ok()
        .unwrap();
    let worker = dispatched.worker();
    let Err(failure) = dispatched.submit(-1, EPIPE) else {
        unreachable!()
    };
    assert_eq!(failure.worker(), worker);
    assert_eq!(failure.error(), AuthWorkerPipeError::Native(EPIPE));
    pool.cancel(worker).unwrap();
    assert_eq!(states[0].lock().unwrap().terminations, 1);
}

#[test]
fn short_write_and_late_submission_fail_for_the_exact_worker() {
    let (mut pool, _states) = pool(&[104, 105]);
    let dispatched = pool
        .dispatch(
            raw(AUDIT_IDENTITY, 501, hello_bytes()),
            job_id(104),
            deadline_after(5 * SECOND),
            clock(),
        )
        .ok()
        .unwrap();
    assert_eq!(
        dispatched.frame(clock_after(5 * SECOND)).err().unwrap().error(),
        AuthWorkerPipeError::DeadlineExpired
    );
    let failure = dispatched.submit(7, 0).err().unwrap();
    assert_eq!(failure.error(), AuthWorkerPipeError::ShortWrite);
    assert_eq!(failure.worker(), AuthWorkerIdentity { slot: 0, generation: 104 });

    let (job, receipt) = dispatch(
        &mut pool,
        raw(AUDIT_IDENTITY, 501, hello_bytes()),
        job_id(105),
        deadline_after(5 * SECOND),
    )
    .unwrap();
    let mut bytes = validated_result(job).encode_pipe_frame().unwrap();
    bytes[0] ^= 1;
    let Ok(AuthWorkerResultPoll::Continue(receipt)) = receipt.poll(PipeRead::Bytes(bytes)) else {
        unreachable!()
    };
    let Err(failure) = receipt.poll(PipeRead::End) else {
        unreachable!()
    };
    assert_eq!(
        failure.error(),
        AuthWorkerPipeError::InvalidResult(AuthWorkerWireError::Malformed)
    );
}

#[test]
fn decoded_pipe_result_still_requires_exact_parent_binding_and_reap() {
    let (mut pool, states) = pool(&[94]);
    let (job, receipt) = dispatch(
        &mut pool,
        raw(AUDIT_IDENTITY, 501, hello_bytes()),
        job_id(96),
        deadline_after(5 * SECOND),
    )
    .unwrap();
    let mut result = validated_result(job).encode_pipe_frame().unwrap();
    result[RESULT_JOB_OFFSET + 72] ^= 1;
    let decoded = ReceivedAuthWorkerResult::from_private_pipe(receipt, &result)
        .ok()
        .unwrap();
    assert_eq!(
        complete(&mut pool, decoded).err(),
        Some(AuthAdapterError::ResultMismatch)
    );
    assert_eq!(states[0].lock().unwrap().terminations, 1);
}

#[test]
fn exact_result_mints_a_message_only_after_exact_worker_reap() {
    let (mut pool, states) = pool(&[101]);
    let (job, receipt) = dispatch(
        &mut pool,
        raw(AUDIT_IDENTITY, 501, hello_bytes()),
        job_id(1),
        deadline_after(5 * SECOND),
    )
    .unwrap();
    let authenticated = complete(&mut pool, received_result(receipt, validated_result(job)))
        .ok()
        .unwrap();
    let state = states[0].lock().unwrap();
    assert_eq!(state.result_reaps, 1);
    assert_eq!(state.terminations, 0);
    drop(state);
    let (_connection, reply) = accept_client_hello(authenticated, 201);
    let (_reply_right, reply) = reply.into_parts();
    assert!(!reply.is_empty());
    let facts = decode_service_hello(&reply, CLIENT_NONCE).ok().unwrap();
    assert_eq!(facts.generation(), 201);
    assert_eq!(facts.service_nonce(), service_nonce(201));
}

#[test]
fn result_cannot_mint_until_nonblocking_exact_reap_completes() {
    let (mut pool, states) = pool(&[211]);
    let (job, receipt) = dispatch(
        &mut pool,
        raw(AUDIT_IDENTITY, 501, hello_bytes()),
        job_id(2),
        deadline_after(5 * SECOND),
    )
    .unwrap();
    states[0].lock().unwrap().reap_pending_once = true;
    assert_eq!(
        complete(&mut pool, received_result(receipt, validated_result(job)))
            .err()
            .unwrap(),
        AuthAdapterError::WorkerRetirementPending(job.worker())
    );
    assert_eq!(states[0].lock().unwrap().result_reaps, 0);
    assert!(pool.poll_completed(job.worker(), clock()).is_ok());
    assert_eq!(states[0].lock().unwrap().result_reaps, 1);
}

#[test]
fn abnormal_worker_exit_retires_slot_without_minting_authentication() {
    let (mut pool, states) = pool(&[212]);
    let (job, receipt) = dispatch(
        &mut pool,
        raw(AUDIT_IDENTITY, 501, hello_bytes()),
        job_id(3),
        deadline_after(5 * SECOND),
    )
    .unwrap();
    states[0].lock().unwrap().result_wait_status = 7 << 8;
    assert_eq!(
        complete(&mut pool, received_result(receipt, validated_result(job))).err(),
        Some(AuthAdapterError::WorkerExitedAbnormally)
    );
    assert_eq!(states[0].lock().unwrap().result_reaps, 1);
    assert_eq!(
        pool.poll_completed(job.worker(), clock()).err(),
        Some(AuthAdapterError::UnknownWorker)
    );
}

#[test]
fn dedicated_child_wait_domain_validates_public_darwin_signal_abi() {
    assert_eq!(size_of::<DarwinSigaction>(), 16);
    assert_eq!(std::mem::align_of::<DarwinSigaction>(), 8);

    let canonical = DarwinSigaction {
        handler: 0,
        mask: 0,
        flags: 0,
    };
    assert_eq!(validate_disposition(canonical), Ok(()));
    assert_eq!(
        validate_disposition(DarwinSigaction {
            handler: 1,
            ..canonical
        }),
        Err(ChildWaitDomainError::NonDefaultSigchld)
    );
    assert_eq!(
        validate_disposition(DarwinSigaction {
            handler: 0x1234,
            ..canonical
        }),
        Err(ChildWaitDomainError::NonDefaultSigchld)
    );
    assert_eq!(
        validate_disposition(DarwinSigaction {
            flags: SA_NOCLDWAIT,
            ..canonical
        }),
        Err(ChildWaitDomainError::AutoReapEnabled)
    );
}

#[test]
fn wait_domain_is_established_once_and_rechecked_without_effect() {
    let canonical = DarwinSigaction {
        handler: 0,
        mask: 0,
        flags: 0,
    };
    let answers = [
        (WaitDomainStep::AskMainThread, WaitDomainAnswer::Status(1)),
        (WaitDomainStep::AskThreaded, WaitDomainAnswer::Status(0)),
        (
            WaitDomainStep::QueryDisposition,
            WaitDomainAnswer::Disposition(Ok(canonical)),
        ),
        (WaitDomainStep::Claim, WaitDomainAnswer::Claimed(true)),
        (WaitDomainStep::Install, WaitDomainAnswer::Outcome(Ok(()))),
        (WaitDomainStep::BuildSet, WaitDomainAnswer::Outcome(Ok(()))),
        (WaitDomainStep::Block, WaitDomainAnswer::Status(0)),
        (
            WaitDomainStep::QueryInstalled,
            WaitDomainAnswer::Disposition(Ok(canonical)),
        ),
        (WaitDomainStep::ReadMask, WaitDomainAnswer::Status(0)),
        (WaitDomainStep::AskBlocked, WaitDomainAnswer::Status(1)),
    ];
    let mut step = WaitDomainStep::AskMainThread;
    for (expected, answer) in answers {
        assert_eq!(step, expected);
        step = wait_domain_step(false, step, answer).unwrap();
    }
    assert_eq!(step, WaitDomainStep::Established);

    let mut step = WaitDomainStep::AskMainThread;
    let mut taken = Vec::new();
    while step != WaitDomainStep::Established {
        taken.push(step);
        let answer = answers.iter().find(|(asked, _)| *asked == step).unwrap().1;
        step = wait_domain_step(true, step, answer).unwrap();
    }
    assert_eq!(
        taken,
        [
            WaitDomainStep::AskMainThread,
            WaitDomainStep::AskThreaded,
            WaitDomainStep::QueryDisposition,
            WaitDomainStep::ReadMask,
            WaitDomainStep::AskBlocked,
        ]
    );
    for (step, answer, error) in [
        (
            WaitDomainStep::AskMainThread,
            WaitDomainAnswer::Status(0),
            ChildWaitDomainError::NotMainThread,
        ),
        (
            WaitDomainStep::AskThreaded,
            WaitDomainAnswer::Status(1),
            ChildWaitDomainError::ProcessAlreadyThreaded,
        ),
        (
            WaitDomainStep::QueryDisposition,
            WaitDomainAnswer::Disposition(Err(22)),
            ChildWaitDomainError::Sigaction(22),
        ),
        (
            WaitDomainStep::Claim,
            WaitDomainAnswer::Claimed(false),
            ChildWaitDomainError::AlreadyClaimed,
        ),
        (
            WaitDomainStep::Install,
            WaitDomainAnswer::Outcome(Err(1)),
            ChildWaitDomainError::InstallSigaction(1),
        ),
        (
            WaitDomainStep::BuildSet,
            WaitDomainAnswer::Outcome(Err(2)),
            ChildWaitDomainError::SignalSet(2),
        ),
        (
            WaitDomainStep::Block,
            WaitDomainAnswer::Status(3),
            ChildWaitDomainError::SignalMask(3),
        ),
        (
            WaitDomainStep::QueryInstalled,
            WaitDomainAnswer::Disposition(Ok(DarwinSigaction {
                mask: 1,
                ..canonical
            })),
            ChildWaitDomainError::NonCanonicalSigchld,
        ),
        (
            WaitDomainStep::AskBlocked,
            WaitDomainAnswer::Status(0),
            ChildWaitDomainError::SigchldNotBlocked,
        ),
    ] {
        assert_eq!(wait_domain_step(false, step, answer), Err(error));
    }
}

#[test]
fn pending_spawn_reply_preserves_exact_freshness_through_both_map_branches() {
    let freshness = SpawnReplyFreshness {
        connection: ConnectionIdentity(77),
        generation: 77,
        sequence: 1,
        client_nonce: [0x31; 32],
        service_nonce: [0x42; 32],
    };
    let pending = PendingSpawnReply {
        reply: MachSendOnceRight { name: 0 },
        freshness,
        bound_session: None,
        output: 5_u8,
    };
    let (_reply, mapped_freshness, bound_session, output) =
        pending.map_output(u16::from).into_parts();
    assert!(mapped_freshness == freshness);
    assert!(bound_session.is_none());
    assert_eq!(output, 5_u16);

    let pending = PendingSpawnReply {
        reply: MachSendOnceRight { name: 0 },
        freshness,
        bound_session: None,
        output: 6_u8,
    };
    let retained_error = pending
        .try_map_output(|value| Err::<u16, _>(u16::from(value)))
        .err()
        .unwrap();
    let (_reply, error_freshness, bound_session, error) = retained_error.into_parts();
    assert!(error_freshness == freshness);
    assert!(bound_session.is_none());
    assert_eq!(error, 6_u16);
}

fn session(first: u8, generation: u64) -> FreshSessionId {
    let mut id = [first; 32];
    id[..8].copy_from_slice(&generation.to_le_bytes());
    FreshSessionId::from_fresh_random(id).unwrap()
}

#[test]
fn exact_spawn_reply_registers_binds_trace_and_arms_cleanup_without_substitution() {
    let (pending, owner) = accepted_spawn_reply(1301);
    let Ok(pending) = pending.validate(&installed_catalog()) else {
        panic!("installed policy rejected exact authenticated spawn")
    };
    let session = session(0x91, 1301);
    let handle = session.handle();
    let pending = pending.assign_session(session);
    assert_eq!(pending.register_watchdog(Ok((handle, owner))), Ok(()));
    assert_eq!(
        pending.bind_trace(handle, owner, handle, owner, true),
        Ok(())
    );
    assert_eq!(pending.establish_ready(handle, owner, Ok(())), Ok(()));
    assert_eq!(
        ReadyNativeSendError::Recoverable(MachReplyError::InvalidReply).cleanup_reason(),
        TerminationReason::SpawnResultUndeliverable
    );
    assert_eq!(
        ReadyNativeSendError::DeadlineExpired.cleanup_reason(),
        TerminationReason::DeadlineExpired
    );
    assert_eq!(
        pending.register_watchdog(Err(WatchdogStateError::UnknownSession)),
        Err(SessionRefusal {
            error: WatchdogStateError::UnknownSession,
            reason: None,
        })
    );
}

#[test]
fn substituted_atomic_session_is_rejected_and_exactly_cleaned() {
    let (pending, owner) = accepted_spawn_reply(1303);
    let Ok(pending) = pending.validate(&installed_catalog()) else {
        panic!("installed policy rejected exact authenticated spawn")
    };
    let assigned = session(0x93, 1303);
    let substituted = session(0x94, 2303);
    let pending = pending.assign_session(assigned);
    let refusal = pending
        .register_watchdog(Ok((substituted.handle(), owner)))
        .unwrap_err();
    assert_eq!(refusal.error, WatchdogStateError::WrongConnection);
    assert_eq!(refusal.reason, Some(TerminationReason::ProtocolViolation));
}

#[test]
fn trace_binding_mismatch_exactly_cleans_registered_broker() {
    let (pending, owner) = accepted_spawn_reply(1304);
    let Ok(pending) = pending.validate(&installed_catalog()) else {
        panic!("installed policy rejected exact authenticated spawn")
    };
    let session = session(0x95, 1304);
    let handle = session.handle();
    let pending = pending.assign_session(session);
    assert_eq!(pending.register_watchdog(Ok((handle, owner))), Ok(()));
    let wrong_owner = connection(9304).connection_identity();
    assert_eq!(
        pending.bind_trace(handle, owner, handle, wrong_owner, true),
        Err(TerminationReason::ProtocolViolation)
    );
    assert_eq!(
        pending.bind_trace(handle, owner, handle, owner, false),
        Err(TerminationReason::ProtocolViolation)
    );
    assert_eq!(
        pending.bind_trace(handle, owner, SessionHandle([7; 32]), owner, true),
        Err(TerminationReason::ProtocolViolation)
    );
}

#[test]
fn ready_freshness_failure_exactly_cleans_registered_broker() {
    let (pending, owner) = accepted_spawn_reply(1305);
    let Ok(pending) = pending.validate(&installed_catalog()) else {
        panic!("installed policy rejected exact authenticated spawn")
    };
    let session = session(0x96, 1305);
    let handle = session.handle();
    let mut pending = pending.assign_session(session);
    assert_eq!(pending.register_watchdog(Ok((handle, owner))), Ok(()));
    assert_eq!(
        pending.bind_trace(handle, owner, handle, owner, true),
        Ok(())
    );
    pending.freshness.sequence = 2;
    assert_eq!(
        pending.establish_ready(handle, owner, Ok(())),
        Err(SessionRefusal {
            error: WatchdogStateError::WrongConnection,
            reason: Some(TerminationReason::ProtocolViolation),
        })
    );
}

#[test]
fn session_of_another_connection_is_never_ready() {
    let (pending, owner) = accepted_spawn_reply(1305);
    let Ok(pending) = pending.validate(&installed_catalog()) else {
        panic!("installed policy rejected exact authenticated spawn")
    };
    let session = session(0x96, 1305);
    let handle = session.handle();
    let pending = pending.assign_session(session);
    let wrong_owner = connection(9305).connection_identity();
    assert_eq!(
        pending.establish_ready(handle, wrong_owner, Ok(())),
        Err(SessionRefusal {
            error: WatchdogStateError::WrongConnection,
            reason: Some(TerminationReason::ProtocolViolation),
        })
    );
    assert_eq!(
        pending.establish_ready(handle, owner, Err(WatchdogStateError::DeadlineExpired)),
        Err(SessionRefusal {
            error: WatchdogStateError::DeadlineExpired,
            reason: None,
        })
    );
}

#[test]
fn native_ready_send_delivers_exact_authenticated_result_and_stays_live() {
    let (pending, owner) = accepted_spawn_reply(1306);
    let freshness = pending.freshness();
    let Ok(pending) = pending.validate(&installed_catalog()) else {
        panic!("installed policy rejected exact authenticated spawn")
    };
    let session = session(0x97, 1306);
    let handle = session.handle();
    let pending = pending.assign_session(session);
    let Ok((ready, _output)) = pending.prepare_ready() else {
        panic!("the bound reply was not encoded")
    };
    let Ok(send) = ready.release(handle, owner, clock().local_now, clock().local_now + SECOND)
    else {
        panic!("the exact session was not released")
    };
    assert_eq!(ready_send_outcome(0), Ok(()));
    assert_eq!(ready_outcome(Ok(Ok(()))), ReadyOutcome::Delivered);
    assert_eq!(
        &send.message[20..24],
        &SUPERVISOR_MESSAGE_ID.to_le_bytes()
    );
    let decoded = decode_spawn_result(
        &send.message[24..],
        freshness.generation,
        freshness.client_nonce,
        freshness.service_nonce,
    )
    .ok()
    .unwrap();
    let DecodedSpawnResult::Ready(decoded_handle) = decoded else {
        panic!("native Ready send returned a rejection")
    };
    assert_eq!(decoded_handle.bytes(), handle.bytes());
}

#[test]
fn recoverable_native_ready_send_exactly_cleans_before_returning_error() {
    let sent = ready_send_outcome(MACH_SEND_INVALID_DEST);
    assert_eq!(
        sent,
        Err(ReadyNativeSendError::Recoverable(MachReplyError::MachSend(
            MACH_SEND_INVALID_DEST
        )))
    );
    assert_eq!(
        sent.unwrap_err().cleanup_reason(),
        TerminationReason::SpawnResultUndeliverable
    );
    assert_eq!(
        ready_outcome(Ok(sent)),
        ReadyOutcome::Failed(ReadyReplyError::Mach(MachReplyError::MachSend(
            MACH_SEND_INVALID_DEST
        )))
    );
    assert_eq!(
        ready_outcome(Ok(Err(ReadyNativeSendError::Indeterminate(9)))),
        ReadyOutcome::Abort
    );
    assert_eq!(
        ready_outcome(Ok(Err(ReadyNativeSendError::Binding))),
        ReadyOutcome::Failed(ReadyReplyError::Watchdog(
            WatchdogStateError::WrongConnection
        ))
    );
}

#[test]
fn ready_reply_is_released_only_for_its_session_and_in_time() {
    for (wrong_handle, wrong_owner, late, expected) in [
        (true, false, false, ReadyNativeSendError::Binding),
        (false, true, false, ReadyNativeSendError::Binding),
        (false, false, true, ReadyNativeSendError::DeadlineExpired),
    ] {
        let (pending, owner) = accepted_spawn_reply(1308);
        let Ok(pending) = pending.validate(&installed_catalog()) else {
            unreachable!()
        };
        let session = session(0x98, 1308);
        let handle = session.handle();
        let Ok((ready, _output)) = pending.assign_session(session).prepare_ready() else {
            unreachable!()
        };
        let handle = if wrong_handle {
            SessionHandle([9; 32])
        } else {
            handle
        };
        let owner = if wrong_owner {
            ConnectionIdentity(9)
        } else {
            owner
        };
        let now = if late { 5 } else { 4 };
        let refused = ready.release(handle, owner, now, 5).err().unwrap();
        assert_eq!(refused.error, expected);
        assert_eq!(&refused.message.message[8..12], &0x707_u32.to_le_bytes());
    }
    let (pending, _owner) = accepted_spawn_reply(1309);
    let refused = pending.prepare_ready().err().unwrap();
    assert_eq!(
        refused.error,
        ReadyReplyError::Watchdog(WatchdogStateError::UnknownSession)
    );
    assert_eq!(refused.pending.into_parts().0.name, 0x707);
}

#[test]
fn staged_plan_carries_the_validated_spawn_and_its_session() {
    let (pending, owner) = accepted_spawn_reply(1310);
    let Ok(pending) = pending.validate(&installed_catalog()) else {
        unreachable!()
    };
    let session = session(0x99, 1310);
    let handle = session.handle();
    let Ok(staged) = pending.assign_session(session).stage_broker_plan() else {
        panic!("the plan was not staged")
    };
    let plan = BrokerLaunchPlan::decode_untrusted(staged.frame()).unwrap();
    assert_eq!(plan.session, handle.bytes());
    assert_eq!(plan.connection_generation, owner.get());
    assert_eq!(plan.sequence, 1);
    assert_eq!(plan.effective_uid, 501);
    assert_eq!(plan.effective_gid, 20);
    assert_eq!(plan.audit_identity, AUDIT_IDENTITY);
    assert_eq!(plan.code_identity, CLIENT_CODE_IDENTITY);
    assert_eq!(plan.target_identity, TARGET_CODE_IDENTITY);
    assert_eq!(plan.client_nonce, CLIENT_NONCE);
    assert_eq!(plan.service_nonce, service_nonce(1310));
    assert_eq!(plan.policy_id, b"com.example.receiver");
    assert_eq!(
        plan.installed_executable,
        b"/Library/PrivilegedHelperTools/com.example.receiver"
    );
    assert_eq!(
        plan.arguments,
        [b"receiver".to_vec(), b"--mode=test".to_vec()]
    );
    assert_eq!(plan.deadline, deadline_after(5 * SECOND));
}

#[test]
fn direct_child_authority_accepts_only_clean_exact_reap() {
    let mut authority = DirectChildAuthWorkerAuthority::from_spawned_direct_child(41).unwrap();
    assert_eq!(authority.after_wait(0, 0, 0), WaitOutcome::Running);
    let WaitOutcome::Reaped(proof) = authority.after_wait(41, 0, 0) else {
        unreachable!()
    };
    assert!(proof.is_clean());
    assert_eq!(
        authority.signal_needed(),
        Err(DirectChildAuthWorkerError::WaitAuthorityLost)
    );
    assert_eq!(
        authority.may_wait(),
        Err(DirectChildAuthWorkerError::WaitAuthorityLost)
    );
}

#[test]
fn direct_child_authority_kills_and_exactly_reaps_without_pid_fallback() {
    let mut authority = DirectChildAuthWorkerAuthority::from_spawned_direct_child(41).unwrap();
    assert_eq!(authority.signal_needed(), Ok(true));
    assert_eq!(
        authority.after_kill(-1, 1),
        Err(DirectChildAuthWorkerError::Signal(1))
    );
    assert_eq!(authority.state, DirectChildState::Unreaped);
    assert_eq!(authority.after_kill(-1, ESRCH), Ok(()));
    assert_eq!(authority.signal_needed(), Ok(false));
    let WaitOutcome::Reaped(proof) = authority.after_wait(41, SIGKILL, 0) else {
        unreachable!()
    };
    assert!(!proof.is_clean());
}

#[test]
fn direct_child_authority_rejects_nonpositive_pid() {
    assert!(matches!(
        DirectChildAuthWorkerAuthority::from_spawned_direct_child(0),
        Err(DirectChildAuthWorkerError::InvalidChild)
    ));
}

#[test]
fn stolen_wait_authority_fails_stop_without_pid_fallback() {
    let mut authority = DirectChildAuthWorkerAuthority::from_spawned_direct_child(41).unwrap();
    assert_eq!(authority.after_wait(-1, 0, ECHILD), WaitOutcome::Abort);
    assert_eq!(authority.state, DirectChildState::AuthorityLost);
    assert_eq!(
        authority.signal_needed(),
        Err(DirectChildAuthWorkerError::WaitAuthorityLost)
    );
    assert_eq!(
        emergency_step(WaitOutcome::Failed(DirectChildAuthWorkerError::Wait(EINTR))),
        EmergencyStep::WaitAgain
    );
    assert_eq!(
        emergency_step(WaitOutcome::Failed(DirectChildAuthWorkerError::Wait(22))),
        EmergencyStep::Abort
    );
    assert_eq!(emergency_step(WaitOutcome::Running), EmergencyStep::Abort);
}

#[test]
fn every_result_binding_change_terminates_and_reaps_without_effect() {
    for mutation in 0..7 {
        let generation = 300 + mutation;
        let (mut pool, states) = pool(&[generation]);
        let (job, receipt) = dispatch(
            &mut pool,
            raw(AUDIT_IDENTITY, 501, hello_bytes()),
            job_id(u8::try_from(mutation + 10).unwrap()),
            deadline_after(5 * SECOND),
        )
        .unwrap();
        let mut result = validated_result(job);
        match mutation {
            0 => result.job.worker.generation ^= 1,
            1 => result.job.job_id[0] ^= 1,
            2 => result.job.audit_identity[0] ^= 1,
            3 => result.job.effective_uid ^= 1,
            4 => result.job.effective_gid ^= 1,
            5 => result.job.frame_digest[0] ^= 1,
            6 => result.job.deadline ^= 1,
            _ => unreachable!(),
        }
        let error = complete(&mut pool, received_result(receipt, result))
            .err()
            .unwrap();
        assert_eq!(error, AuthAdapterError::ResultMismatch);
        assert_eq!(states[0].lock().unwrap().terminations, 1);
    }
}

#[test]
fn saturation_and_per_uid_limits_reject_without_queueing() {
    let (mut pool, _states) = pool(&[501, 502, 503, 504]);
    let (first, _first_receipt) = dispatch(
        &mut pool,
        raw(AUDIT_IDENTITY, 501, hello_bytes()),
        job_id(31),
        deadline_after(5 * SECOND),
    )
    .unwrap();
    let (second, _second_receipt) = dispatch(
        &mut pool,
        raw(AUDIT_IDENTITY, 501, hello_bytes()),
        job_id(32),
        deadline_after(5 * SECOND),
    )
    .unwrap();
    assert_eq!(
        dispatch(
            &mut pool,
            raw(AUDIT_IDENTITY, 501, hello_bytes()),
            job_id(33),
            deadline_after(5 * SECOND),
        )
        .err()
        .unwrap(),
        AuthAdapterError::CapacityExceeded
    );
    pool.cancel(first.worker()).unwrap();
    pool.cancel(second.worker()).unwrap();
}

#[test]
fn full_pool_saturates_and_a_live_job_identity_is_refused() {
    let (mut pool, _states) = pool(&[511]);
    let (_job, _receipt) = dispatch(
        &mut pool,
        raw(AUDIT_IDENTITY, 501, hello_bytes()),
        job_id(34),
        deadline_after(5 * SECOND),
    )
    .unwrap();
    assert_eq!(
        dispatch(
            &mut pool,
            raw(AUDIT_IDENTITY, 502, hello_bytes()),
            job_id(35),
            deadline_after(5 * SECOND),
        )
        .err(),
        Some(AuthAdapterError::Saturated)
    );
    assert_eq!(
        dispatch(
            &mut pool,
            raw(AUDIT_IDENTITY, 502, hello_bytes()),
            job_id(34),
            deadline_after(5 * SECOND),
        )
        .err(),
        Some(AuthAdapterError::InvalidJobIdentity)
    );
    let empty: Vec<(
        FreshAuthWorkerGeneration,
        ExactAuthWorker<FakeAuthority>,
        AuthWorkerEndpoint,
    )> = Vec::new();
    assert_eq!(
        AuthWorkerPool::from_precreated_workers(empty).err(),
        Some(AuthAdapterError::CapacityExceeded)
    );
    assert_eq!(pool.take_released().rights.len(), 2);
    let (first, first_worker, first_state) = worker(5);
    let (second, second_worker, second_state) = worker(5);
    assert_eq!(
        AuthWorkerPool::from_precreated_workers(vec![
            (first, first_worker, test_worker_endpoint()),
            (second, second_worker, test_worker_endpoint()),
        ])
        .err(),
        Some(AuthAdapterError::InvalidReplacement)
    );
    assert_eq!(first_state.lock().unwrap().emergency_cleanups, 1);
    assert_eq!(second_state.lock().unwrap().emergency_cleanups, 1);
    let mut states = Vec::new();
    let many = (1..=5)
        .map(|generation| {
            let (generation, worker, state) = worker(generation);
            states.push(state);
            (generation, worker, test_worker_endpoint())
        })
        .collect();
    assert_eq!(
        AuthWorkerPool::from_precreated_workers(many).err(),
        Some(AuthAdapterError::CapacityExceeded)
    );
    for state in &states {
        assert_eq!(state.lock().unwrap().emergency_cleanups, 1);
    }
}

#[test]
fn late_or_rejected_result_cannot_survive_worker_cleanup() {
    let (mut pool, states) = pool(&[701, 702]);
    let short = deadline_after(2 * MILLI);
    let (late_job, late_receipt) = dispatch(
        &mut pool,
        raw(AUDIT_IDENTITY, 501, hello_bytes()),
        job_id(41),
        short,
    )
    .unwrap();
    let later = clock_after(5 * MILLI);
    assert_eq!(
        pool.complete(
            received_result(late_receipt, validated_result(late_job)),
            later,
            later
        )
        .err()
        .unwrap(),
        AuthAdapterError::DeadlineExpired
    );
    assert_eq!(states[0].lock().unwrap().terminations, 1);

    let (rejected_job, rejected_receipt) = dispatch(
        &mut pool,
        raw(AUDIT_IDENTITY, 502, hello_bytes()),
        job_id(42),
        deadline_after(5 * SECOND),
    )
    .unwrap();
    let rejected = AuthWorkerResult::from_security_validation(rejected_job, [0; 32]);
    assert_eq!(
        complete(&mut pool, received_result(rejected_receipt, rejected))
            .err()
            .unwrap(),
        AuthAdapterError::AuthenticationRejected
    );
    assert_eq!(states[1].lock().unwrap().terminations, 1);
}

#[test]
fn cleanup_failure_retains_authority_and_blocks_replacement_until_retry() {
    let (mut pool, states) = pool(&[901]);
    let (job, receipt) = dispatch(
        &mut pool,
        raw(AUDIT_IDENTITY, 501, hello_bytes()),
        job_id(51),
        deadline_after(5 * SECOND),
    )
    .unwrap();
    states[0].lock().unwrap().fail_next = true;
    let mut mismatched = validated_result(job);
    mismatched.job.frame_digest[0] ^= 1;
    assert_eq!(
        complete(&mut pool, received_result(receipt, mismatched))
            .err()
            .unwrap(),
        AuthAdapterError::WorkerCleanupFailed(FakeFailure::LostWaitAuthority)
    );
    let (replacement_generation, replacement, replacement_state) = worker(903);
    assert_eq!(
        pool.install_replacement(
            0,
            replacement_generation,
            replacement,
            test_worker_endpoint(),
        )
        .unwrap_err(),
        AuthAdapterError::InvalidReplacement
    );
    assert_eq!(replacement_state.lock().unwrap().emergency_cleanups, 1);
    assert_eq!(
        pool.take_released(),
        Released {
            rights: Vec::new(),
            endpoints: vec![test_worker_endpoint()],
        }
    );
    pool.cancel(job.worker()).unwrap();
    assert_eq!(states[0].lock().unwrap().terminations, 1);
    assert_eq!(pool.take_released().rights, [MachSendOnceRight { name: 0x707 }]);
}

#[test]
fn emptied_slots_release_what_they_held() {
    // An idle worker leaves its endpoint.
    let (mut pool, states) = pool(&[921, 922, 923]);
    let idle = AuthWorkerIdentity {
        slot: 2,
        generation: 923,
    };
    pool.cancel(idle).unwrap();
    assert_eq!(
        pool.take_released(),
        Released {
            rights: Vec::new(),
            endpoints: vec![test_worker_endpoint()],
        }
    );
    // A minted record keeps its right.
    let (job, receipt) = dispatch(
        &mut pool,
        raw(AUDIT_IDENTITY, 501, hello_bytes()),
        job_id(61),
        deadline_after(5 * SECOND),
    )
    .unwrap();
    let record = complete(&mut pool, received_result(receipt, validated_result(job)))
        .ok()
        .unwrap();
    assert_eq!(record.raw().reply.name, 0x707);
    assert_eq!(states[0].lock().unwrap().result_reaps, 1);
    assert_eq!(pool.take_released(), Released::none());
    // A worker that vouched and then exited badly leaves the right.
    states[1].lock().unwrap().result_wait_status = 9;
    let (job, receipt) = dispatch(
        &mut pool,
        raw(AUDIT_IDENTITY, 501, hello_bytes()),
        job_id(62),
        deadline_after(5 * SECOND),
    )
    .unwrap();
    assert_eq!(
        complete(&mut pool, received_result(receipt, validated_result(job))).err(),
        Some(AuthAdapterError::WorkerExitedAbnormally)
    );
    assert_eq!(pool.take_released().rights, [MachSendOnceRight { name: 0x707 }]);
}

#[test]
fn termination_waits_signals_and_waits_again() {
    let waited = |outcome| TerminateEvent::Waited(Ok(outcome));
    let reaped = || WaitOutcome::Reaped(ReapedAuthWorker::from_exact_wait_status(SIGKILL));
    let done = || TerminateAction::Done(ReapedAuthWorker::from_exact_wait_status(SIGKILL));
    let failed = DirectChildAuthWorkerError::Wait(22);
    let lost = DirectChildAuthWorkerError::WaitAuthorityLost;
    for (at, event, expected) in [
        (
            TerminateAction::Observe,
            waited(WaitOutcome::Running),
            TerminateAction::Signal,
        ),
        (TerminateAction::Observe, waited(reaped()), done()),
        (
            TerminateAction::Observe,
            TerminateEvent::Waited(Err(lost)),
            TerminateAction::Failed(lost),
        ),
        (
            TerminateAction::Signal,
            TerminateEvent::Signalled(Ok(())),
            TerminateAction::ObserveAgain,
        ),
        (
            TerminateAction::Signal,
            TerminateEvent::Signalled(Err(DirectChildAuthWorkerError::Signal(1))),
            TerminateAction::Failed(DirectChildAuthWorkerError::Signal(1)),
        ),
        (
            TerminateAction::Signal,
            waited(reaped()),
            TerminateAction::Signal,
        ),
        (TerminateAction::ObserveAgain, waited(reaped()), done()),
        (
            TerminateAction::ObserveAgain,
            waited(WaitOutcome::Running),
            TerminateAction::Pending,
        ),
        (
            TerminateAction::ObserveAgain,
            waited(WaitOutcome::Failed(failed)),
            TerminateAction::Failed(failed),
        ),
        (
            TerminateAction::ObserveAgain,
            waited(WaitOutcome::Abort),
            TerminateAction::Abort,
        ),
    ] {
        assert_eq!(terminate_step(at, event), expected);
    }
}

/// One child of a kernel that is as simple as it can be.
struct OneChild {
    authority: DirectChildAuthWorkerAuthority,
    signals: Arc<Mutex<Vec<i32>>>,
    reaps: Arc<Mutex<usize>>,
}

impl OneChild {
    fn wait(&mut self) -> TerminateEvent {
        if let Err(error) = self.authority.may_wait() {
            return TerminateEvent::Waited(Err(error));
        }
        let Some(signal) = self.signals.lock().unwrap().last().copied() else {
            return TerminateEvent::Waited(Ok(self.authority.after_wait(0, 0, 0)));
        };
        *self.reaps.lock().unwrap() += 1;
        let pid = self.authority.pid;
        TerminateEvent::Waited(Ok(self.authority.after_wait(pid, signal, 0)))
    }

    fn signal(&mut self) -> TerminateEvent {
        TerminateEvent::Signalled(match self.authority.signal_needed() {
            Err(error) => Err(error),
            Ok(false) => Ok(()),
            Ok(true) => {
                self.signals.lock().unwrap().push(SIGKILL);
                self.authority.after_kill(0, 0)
            }
        })
    }
}

impl ExactAuthWorkerAuthority for OneChild {
    type Failure = DirectChildAuthWorkerError;

    fn try_reap_after_result(
        &mut self,
    ) -> Result<Option<ReapedAuthWorker>, DirectChildAuthWorkerError> {
        unreachable!()
    }

    fn try_terminate_and_reap(
        &mut self,
    ) -> Result<Option<ReapedAuthWorker>, DirectChildAuthWorkerError> {
        unreachable!()
    }

    fn emergency_terminate_and_reap(&mut self) -> ReapedAuthWorker {
        let mut step = EmergencyStep::Signal;
        loop {
            let event = match step {
                EmergencyStep::Signal => self.signal(),
                EmergencyStep::WaitAgain => self.wait(),
                EmergencyStep::Done(proof) => return proof,
                EmergencyStep::Abort => panic!("the child was not ended"),
            };
            step = emergency_advance(step, event);
        }
    }
}

#[test]
fn armed_direct_child_drop_exactly_kills_and_reaps() {
    let signals = Arc::new(Mutex::new(Vec::new()));
    let reaps = Arc::new(Mutex::new(0));
    let mut worker = ExactAuthWorker::from_unreaped_direct_child(OneChild {
        authority: DirectChildAuthWorkerAuthority::from_spawned_direct_child(41).unwrap(),
        signals: Arc::clone(&signals),
        reaps: Arc::clone(&reaps),
    });
    worker.emergency_cleanup();
    assert!(!worker.armed);
    assert_eq!(*signals.lock().unwrap(), [SIGKILL]);
    assert_eq!(*reaps.lock().unwrap(), 1);
    assert_eq!(
        worker.authority.authority.may_wait(),
        Err(DirectChildAuthWorkerError::WaitAuthorityLost)
    );
    // What is not armed is not asked again.
    worker.emergency_cleanup();
    assert_eq!(*reaps.lock().unwrap(), 1);
    assert_eq!(
        emergency_advance(
            EmergencyStep::Signal,
            TerminateEvent::Signalled(Err(DirectChildAuthWorkerError::Signal(1)))
        ),
        EmergencyStep::Abort
    );
    assert_eq!(
        emergency_advance(
            EmergencyStep::WaitAgain,
            TerminateEvent::Waited(Err(DirectChildAuthWorkerError::WaitAuthorityLost))
        ),
        EmergencyStep::Abort
    );
}

#[test]
fn emergency_cleanup_ends_every_worker() {
    let (mut pool, states) = pool(&[911, 912]);
    states[0].lock().unwrap().termination_pending_once = true;
    pool.emergency_cleanup();
    for state in &states {
        assert_eq!(state.lock().unwrap().emergency_cleanups, 1);
    }
    for slot in &pool.slots {
        assert_eq!(
            slot.as_ref().unwrap().endpoint,
            Some(test_worker_endpoint())
        );
    }
    pool.emergency_cleanup();
    for state in &states {
        assert_eq!(state.lock().unwrap().emergency_cleanups, 1);
    }
}

#[test]
fn old_result_and_job_id_cannot_cross_exact_reap_and_replacement() {
    let (mut retired, states) = pool(&[1001]);
    let (first_job, first_receipt) = dispatch(
        &mut retired,
        raw(AUDIT_IDENTITY, 501, hello_bytes()),
        job_id(61),
        deadline_after(5 * SECOND),
    )
    .unwrap();
    complete(
        &mut retired,
        received_result(first_receipt, validated_result(first_job)),
    )
    .ok()
    .unwrap();
    assert_eq!(states[0].lock().unwrap().result_reaps, 1);

    let (replacement_generation, replacement, replacement_state) = worker(1003);
    let replacement_identity = retired
        .install_replacement(
            0,
            replacement_generation,
            replacement,
            test_worker_endpoint(),
        )
        .unwrap();
    assert_ne!(replacement_identity, first_job.worker());
    let (second_job, _second_receipt) = dispatch(
        &mut retired,
        raw(AUDIT_IDENTITY, 502, hello_bytes()),
        job_id(61),
        deadline_after(5 * SECOND),
    )
    .unwrap();
    // A receipt of the retired worker's endpoint, as the same worker in another pool gives it.
    let (mut twin, _twin_states) = pool(&[1001]);
    let (_twin_job, old_receipt) = dispatch(
        &mut twin,
        raw(AUDIT_IDENTITY, 501, hello_bytes()),
        job_id(61),
        deadline_after(5 * SECOND),
    )
    .unwrap();
    assert_eq!(
        complete(
            &mut retired,
            received_result(old_receipt, validated_result(first_job))
        )
        .err()
        .unwrap(),
        AuthAdapterError::UnknownWorker
    );
    assert_eq!(replacement_state.lock().unwrap().terminations, 0);
    retired.cancel(second_job.worker()).unwrap();
}

fn authenticated_spawn(
    pool: &mut AuthWorkerPool<FakeAuthority>,
    audit_identity: [u8; 32],
    bytes: Vec<u8>,
    job: u8,
) -> AuthenticatedMachRoute {
    let (spawn_job, spawn_receipt) = dispatch(
        pool,
        raw(audit_identity, 501, bytes),
        job_id(job),
        deadline_after(5 * SECOND),
    )
    .unwrap();
    complete(
        pool,
        received_result(spawn_receipt, validated_result(spawn_job)),
    )
    .ok()
    .unwrap()
    .route(clock())
    .ok()
    .unwrap()
}

#[test]
fn complete_audit_token_transition_still_cannot_cross_adapter() {
    let (mut pool, _states) = pool(&[1101, 1102, 1104, 1105]);
    let (hello_job, hello_receipt) = dispatch(
        &mut pool,
        raw(AUDIT_IDENTITY, 501, hello_bytes()),
        job_id(71),
        deadline_after(5 * SECOND),
    )
    .unwrap();
    let authenticated = complete(
        &mut pool,
        received_result(hello_receipt, validated_result(hello_job)),
    )
    .ok()
    .unwrap();
    let (mut connection, _reply) = accept_client_hello(authenticated, 1103);

    let spawn_bytes = encode_spawn_request(
        &spawn_request(deadline_after(5 * SECOND)),
        connection.connection_identity().get(),
        CLIENT_NONCE,
        service_nonce(1103),
    )
    .unwrap();
    let mut changed_audit = AUDIT_IDENTITY;
    changed_audit[31] ^= 1;
    let AuthenticatedMachRoute::Spawn(wrong_peer) =
        authenticated_spawn(&mut pool, changed_audit, spawn_bytes.clone(), 72)
    else {
        panic!("authenticated record was not a spawn")
    };
    assert_eq!(
        wrong_peer.generation(),
        connection.connection_identity().get()
    );
    assert_eq!(
        wrong_peer
            .accept(&mut connection, clock(), clock())
            .err()
            .unwrap(),
        refused(SupervisorWireError::PeerMismatch)
    );

    let mut wrong_nonce = spawn_bytes.clone();
    wrong_nonce[32] ^= 1;
    let AuthenticatedMachRoute::Spawn(wrong_nonce) =
        authenticated_spawn(&mut pool, AUDIT_IDENTITY, wrong_nonce, 73)
    else {
        panic!("authenticated record was not a spawn")
    };
    assert_eq!(
        wrong_nonce
            .accept(&mut connection, clock(), clock())
            .err()
            .unwrap(),
        refused(SupervisorWireError::ReplayOrSubstitution)
    );

    let AuthenticatedMachRoute::Spawn(spawn) =
        authenticated_spawn(&mut pool, AUDIT_IDENTITY, spawn_bytes, 74)
    else {
        panic!("authenticated record was not a spawn")
    };
    let pending = spawn
        .accept(&mut connection, clock(), clock())
        .ok()
        .unwrap();
    let (_reply, freshness, bound_session, _request) = pending.into_parts();
    assert!(bound_session.is_none());
    assert_eq!(freshness.connection, connection.connection_identity());
    assert_eq!(freshness.generation, 1103);
    assert_eq!(freshness.sequence, 1);
    assert_eq!(freshness.client_nonce, CLIENT_NONCE);
    assert_eq!(freshness.service_nonce, service_nonce(1103));
}

#[test]
fn malformed_authenticated_hello_returns_no_connection_and_service_reply_cannot_route() {
    let (mut pool, _states) = pool(&[1201, 1202]);
    let mut malformed_hello = hello_bytes();
    malformed_hello[24] = 1;
    let (job, receipt) = dispatch(
        &mut pool,
        raw(AUDIT_IDENTITY, 501, malformed_hello),
        job_id(81),
        deadline_after(5 * SECOND),
    )
    .unwrap();
    let authenticated = complete(&mut pool, received_result(receipt, validated_result(job)))
        .ok()
        .unwrap();
    let Ok(AuthenticatedMachRoute::ClientHello(hello)) = authenticated.route(clock()) else {
        panic!("malformed hello was routed as another request kind")
    };
    let generation = ConnectionGeneration::from_unique_service_value(1203)
        .ok()
        .unwrap();
    let nonce = FreshServiceNonce::from_fresh_random(service_nonce(1203)).unwrap();
    assert_eq!(
        hello.accept(generation, nonce, clock()).err().unwrap(),
        refused(SupervisorWireError::AuthenticationRequired)
    );

    let (job, receipt) = dispatch(
        &mut pool,
        raw(AUDIT_IDENTITY, 501, hello_bytes()),
        job_id(82),
        deadline_after(5 * SECOND),
    )
    .unwrap();
    let authenticated = complete(&mut pool, received_result(receipt, validated_result(job)))
        .ok()
        .unwrap();
    let (_connection, service_reply) = accept_client_hello(authenticated, 1204);
    let (_reply_right, service_reply) = service_reply.into_parts();

    let (replacement_generation, replacement, _state) = worker(1205);
    pool.install_replacement(
        0,
        replacement_generation,
        replacement,
        test_worker_endpoint(),
    )
    .unwrap();
    let (job, receipt) = dispatch(
        &mut pool,
        raw(AUDIT_IDENTITY, 501, service_reply),
        job_id(83),
        deadline_after(5 * SECOND),
    )
    .unwrap();
    let authenticated = complete(&mut pool, received_result(receipt, validated_result(job)))
        .ok()
        .unwrap();
    assert_eq!(
        authenticated.route(clock()).err().unwrap(),
        refused(SupervisorWireError::Malformed)
    );
}

#[test]
fn rejected_authentication_cannot_consume_live_connection_state() {
    let (mut pool, _states) = pool(&[1301, 1302, 1303]);
    let (hello_job, hello_receipt) = dispatch(
        &mut pool,
        raw(AUDIT_IDENTITY, 501, hello_bytes()),
        job_id(84),
        deadline_after(5 * SECOND),
    )
    .unwrap();
    let authenticated = complete(
        &mut pool,
        received_result(hello_receipt, validated_result(hello_job)),
    )
    .ok()
    .unwrap();
    let (mut connection, _reply) = accept_client_hello(authenticated, 1304);

    let request = SpawnRequest::new(
        deadline_after(5 * SECOND),
        b"com.example.receiver".to_vec(),
        vec![b"--mode=test".to_vec()],
        Vec::new(),
    )
    .unwrap();
    let spawn_bytes = encode_spawn_request(
        &request,
        connection.connection_identity().get(),
        CLIENT_NONCE,
        service_nonce(1304),
    )
    .unwrap();
    let (rejected_job, rejected_receipt) = dispatch(
        &mut pool,
        raw(AUDIT_IDENTITY, 501, spawn_bytes.clone()),
        job_id(85),
        deadline_after(5 * SECOND),
    )
    .unwrap();
    let rejected = AuthWorkerResult::from_security_validation(rejected_job, [0; 32]);
    assert_eq!(
        complete(&mut pool, received_result(rejected_receipt, rejected))
            .err()
            .unwrap(),
        AuthAdapterError::AuthenticationRejected
    );

    let AuthenticatedMachRoute::Spawn(spawn) =
        authenticated_spawn(&mut pool, AUDIT_IDENTITY, spawn_bytes, 86)
    else {
        panic!("authenticated spawn was routed as another request kind")
    };
    assert_eq!(spawn.generation(), connection.connection_identity().get());
    assert!(spawn.accept(&mut connection, clock(), clock()).is_ok());
    assert!(!connection.is_poisoned());
}
