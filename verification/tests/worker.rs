use native_ipc::auth::message::AuthAdapterError;
use native_ipc::auth::pool::{AuthWorkerPool, FreshAuthWorkerGeneration};
use native_ipc::auth::worker::{
    DirectChildAuthWorkerError, DirectChildState, ExactAuthWorkerAuthority, ReapedAuthWorker,
};
use native_ipc::auth::worker_entry::{
    adopt_fixed_pipe, answer_job, ensure_deadline, exit_status, inspect_fixed_pipe,
    prepare_worker, security_validates, take_job, validate_fixed_arguments, write_one_frame,
    SecurityAnswer, SecurityFailure, WorkerRequest, WriteStep, O_RDONLY, O_WRONLY,
};
use native_ipc::auth::worker_frame::{AuthWorkerIdentity, AuthWorkerJob, AuthWorkerResult};
use native_ipc::auth::worker_spawn::{
    create_pipe_pair, AuthWorkerSpawnError, FileAction, InstalledAuthWorkerImage, PipeStep,
    SpawnedAuthWorker, WorkerSpawn, WorkerSpawnAction, WorkerSpawnEvent, CANONICAL_LANG,
    CANONICAL_LOCALE, CANONICAL_PATH, INSTALLED_AUTH_WORKER_MODE,
    INSTALLED_AUTH_WORKER_REQUEST_ARGUMENT, INSTALLED_AUTH_WORKER_RESULT_ARGUMENT,
};
use native_ipc::supervisor::deadline::ClockSample;

const DEPLOYER_AUTH_WORKER_PATH: &[u8] =
    b"/example/NativeIPC.app/Contents/Helpers/native-ipc-auth-worker";
const CODE_IDENTITY: [u8; 32] = [0x5a; 32];

fn clock() -> ClockSample {
    ClockSample {
        local_now: 40_000_000_000,
        monotonic_now: Some(90_000_000_000),
    }
}

fn late() -> ClockSample {
    ClockSample {
        local_now: 50_000_000_000,
        monotonic_now: Some(100_000_000_000),
    }
}

#[test]
fn fixed_worker_arguments_are_exact() {
    let validate = |arguments: &[&[u8]]| {
        validate_fixed_arguments(
            DEPLOYER_AUTH_WORKER_PATH,
            &arguments.iter().map(|argument| argument.to_vec()).collect(),
        )
    };
    assert_eq!(
        validate(&[
            DEPLOYER_AUTH_WORKER_PATH,
            &INSTALLED_AUTH_WORKER_MODE,
            &INSTALLED_AUTH_WORKER_REQUEST_ARGUMENT,
            &INSTALLED_AUTH_WORKER_RESULT_ARGUMENT,
        ]),
        Ok(())
    );
    assert!(validate(&[
        DEPLOYER_AUTH_WORKER_PATH,
        &INSTALLED_AUTH_WORKER_MODE,
        &INSTALLED_AUTH_WORKER_REQUEST_ARGUMENT,
    ])
    .is_err());
    assert!(validate(&[
        DEPLOYER_AUTH_WORKER_PATH,
        &INSTALLED_AUTH_WORKER_MODE,
        b"--request-fd=4",
        &INSTALLED_AUTH_WORKER_RESULT_ARGUMENT,
    ])
    .is_err());
}

#[test]
fn installed_worker_vectors_are_fixed_and_canonical() {
    let image =
        InstalledAuthWorkerImage::from_verified_installation(DEPLOYER_AUTH_WORKER_PATH)
            .ok()
            .unwrap();
    assert_eq!(image.spawn_path(), DEPLOYER_AUTH_WORKER_PATH);
    let argv = image.argv();
    assert_eq!(argv.len(), 4);
    assert_eq!(argv[0], DEPLOYER_AUTH_WORKER_PATH);
    assert_eq!(argv[1], INSTALLED_AUTH_WORKER_MODE);
    assert_eq!(argv[1], b"--supervisor-auth-worker");
    assert_eq!(argv[2], INSTALLED_AUTH_WORKER_REQUEST_ARGUMENT);
    assert_eq!(argv[2], b"--request-fd=3");
    assert_eq!(argv[3], INSTALLED_AUTH_WORKER_RESULT_ARGUMENT);
    assert_eq!(argv[3], b"--result-fd=4");
    let environment = image.environment();
    assert_eq!(environment.len(), 3);
    assert_eq!(environment[0], CANONICAL_PATH);
    assert_eq!(environment[0], b"PATH=/usr/bin:/bin");
    assert_eq!(environment[1], CANONICAL_LANG);
    assert_eq!(environment[1], b"LANG=C");
    assert_eq!(environment[2], CANONICAL_LOCALE);
    assert_eq!(environment[2], b"LC_ALL=C");
    assert!(matches!(
        InstalledAuthWorkerImage::from_verified_installation(b"relative-worker"),
        Err(AuthWorkerSpawnError::InvalidFixedImage)
    ));
    // A worker accepts the arguments that it is spawned with.
    assert_eq!(
        prepare_worker(DEPLOYER_AUTH_WORKER_PATH, &argv, &CODE_IDENTITY),
        Ok(())
    );
    assert_eq!(
        prepare_worker(DEPLOYER_AUTH_WORKER_PATH, &argv, &[0; 32]),
        Err(71)
    );
    assert_eq!(
        prepare_worker(b"/other", &argv, &CODE_IDENTITY),
        Err(79)
    );
}

fn spawned() -> WorkerSpawn {
    let mut spawn = WorkerSpawn::spawn_installed_auth_worker();
    let mut steps = 0;
    while spawn.action != WorkerSpawnAction::Done {
        let event = good(spawn.action);
        spawn.advance(event).unwrap();
        steps += 1;
    }
    assert_eq!(steps, 10);
    spawn
}

fn good(action: WorkerSpawnAction) -> WorkerSpawnEvent {
    match action {
        WorkerSpawnAction::VerifyDomain | WorkerSpawnAction::VerifyDomainAgain => {
            WorkerSpawnEvent::Domain(true)
        }
        WorkerSpawnAction::CreateRequestPipe => {
            WorkerSpawnEvent::Pipe(create_pipe_pair(PipeStep::Made(10, 11)))
        }
        WorkerSpawnAction::CreateResultPipe => {
            WorkerSpawnEvent::Pipe(create_pipe_pair(PipeStep::Made(12, 13)))
        }
        WorkerSpawnAction::Spawn => WorkerSpawnEvent::Spawned(Ok(321)),
        _ => WorkerSpawnEvent::Outcome(Ok(())),
    }
}

#[test]
fn worker_spawn_hands_over_exactly_the_two_child_ends() {
    let spawn = spawned();
    assert_eq!(
        spawn.file_actions(),
        [
            FileAction::OpenNullReader(0),
            FileAction::OpenNullWriter(1),
            FileAction::OpenNullWriter(2),
            FileAction::Duplicate(10, 3),
            FileAction::Duplicate(13, 4),
            FileAction::Close(10),
            FileAction::Close(11),
            FileAction::Close(12),
            FileAction::Close(13),
        ]
    );
    let (authority, endpoint) = spawn.finish().unwrap();
    assert_eq!(authority.pid, 321);
    assert_eq!(authority.state, DirectChildState::Unreaped);
    assert_eq!(endpoint.request, 11);
    assert_eq!(endpoint.result, 12);
}

#[test]
fn failed_fixed_path_spawn_mints_no_worker_bundle() {
    for (at, event, expected) in [
        (
            WorkerSpawnAction::VerifyDomain,
            WorkerSpawnEvent::Domain(false),
            AuthWorkerSpawnError::InvalidWaitDomain,
        ),
        (
            WorkerSpawnAction::CreateRequestPipe,
            WorkerSpawnEvent::Pipe(create_pipe_pair(PipeStep::Call(24))),
            AuthWorkerSpawnError::Pipe(24),
        ),
        (
            WorkerSpawnAction::CreateResultPipe,
            WorkerSpawnEvent::Pipe(create_pipe_pair(PipeStep::Configure(9))),
            AuthWorkerSpawnError::Descriptor(9),
        ),
        (
            WorkerSpawnAction::SilenceRequest,
            WorkerSpawnEvent::Outcome(Err(9)),
            AuthWorkerSpawnError::Descriptor(9),
        ),
        (
            WorkerSpawnAction::PrepareFiles,
            WorkerSpawnEvent::Outcome(Err(12)),
            AuthWorkerSpawnError::FileActions(12),
        ),
        (
            WorkerSpawnAction::PrepareAttributes,
            WorkerSpawnEvent::Outcome(Err(22)),
            AuthWorkerSpawnError::Attributes(22),
        ),
        (
            WorkerSpawnAction::VerifyDomainAgain,
            WorkerSpawnEvent::Domain(false),
            AuthWorkerSpawnError::InvalidWaitDomain,
        ),
        (
            WorkerSpawnAction::Spawn,
            WorkerSpawnEvent::Spawned(Err(2)),
            AuthWorkerSpawnError::Spawn(2),
        ),
    ] {
        let mut spawn = WorkerSpawn::spawn_installed_auth_worker();
        while spawn.action != at {
            let event = good(spawn.action);
            spawn.advance(event).unwrap();
        }
        assert_eq!(spawn.advance(event), Err(expected));
        assert!(spawn.finish().is_none());
    }
    let mut spawn = WorkerSpawn::spawn_installed_auth_worker();
    while spawn.action != WorkerSpawnAction::Spawn {
        let event = good(spawn.action);
        spawn.advance(event).unwrap();
    }
    spawn.advance(WorkerSpawnEvent::Spawned(Ok(0))).unwrap();
    assert_eq!(spawn.action, WorkerSpawnAction::Abort);
}

struct Idle;

impl ExactAuthWorkerAuthority for Idle {
    type Failure = DirectChildAuthWorkerError;

    fn try_reap_after_result(
        &mut self,
    ) -> Result<Option<ReapedAuthWorker>, DirectChildAuthWorkerError> {
        Ok(Some(ReapedAuthWorker::from_exact_wait_status(0)))
    }

    fn try_terminate_and_reap(
        &mut self,
    ) -> Result<Option<ReapedAuthWorker>, DirectChildAuthWorkerError> {
        Ok(Some(ReapedAuthWorker::from_exact_wait_status(9)))
    }

    fn emergency_terminate_and_reap(&mut self) -> ReapedAuthWorker {
        ReapedAuthWorker::from_exact_wait_status(9)
    }
}

fn bundle(generation: u64) -> SpawnedAuthWorker<Idle> {
    let (_authority, endpoint) = spawned().finish().unwrap();
    let generation = FreshAuthWorkerGeneration::from_unique_service_value::<
        DirectChildAuthWorkerError,
    >(generation)
    .ok()
    .unwrap();
    SpawnedAuthWorker::arm(generation, Idle, endpoint)
}

#[test]
fn spawned_workers_fill_a_pool_and_replace_only_retired_ones() {
    let mut pool = AuthWorkerPool::from_spawned_workers(vec![bundle(8001)])
        .ok()
        .unwrap();
    assert_eq!(
        pool.install_spawned_replacement(0, bundle(8003)),
        Err(AuthAdapterError::InvalidReplacement)
    );
    let retired = AuthWorkerIdentity {
        slot: 0,
        generation: 8001,
    };
    assert!(pool.cancel(retired).is_ok());
    assert_eq!(
        pool.install_spawned_replacement(0, bundle(8001)),
        Err(AuthAdapterError::InvalidReplacement)
    );
    let identity = pool.install_spawned_replacement(0, bundle(8003)).unwrap();
    assert_eq!(identity.slot, 0);
    assert_eq!(identity.generation, 8003);
    assert!(AuthWorkerPool::from_spawned_workers(Vec::<SpawnedAuthWorker<Idle>>::new()).is_err());
}

fn token(uid: u32, gid: u32) -> [u8; 32] {
    let words = [9_u32, uid, gid, 0, 0, 77, 6, 7];
    let mut bytes = [0_u8; 32];
    for (destination, word) in bytes.chunks_exact_mut(4).zip(words) {
        destination.copy_from_slice(&word.to_le_bytes());
    }
    bytes
}

fn job() -> AuthWorkerJob {
    AuthWorkerJob {
        worker: AuthWorkerIdentity {
            slot: 1,
            generation: 8,
        },
        job_id: [3; 32],
        audit_identity: token(501, 20),
        effective_uid: 501,
        effective_gid: 20,
        frame_digest: [4; 32],
        deadline: 95_000_000_000,
    }
}

fn request(frame: &[u8]) -> WorkerRequest<'_> {
    WorkerRequest {
        frame: Some(frame),
        trailing: Some(0),
    }
}

#[test]
fn worker_takes_on_one_canonical_job() {
    let frame = job().encode_pipe_frame();
    assert_eq!(take_job(0, request(&frame), clock()), Ok(job()));
    assert_eq!(take_job(-1, request(&frame), clock()), Err(72));
    let unread = WorkerRequest {
        frame: None,
        trailing: None,
    };
    assert_eq!(take_job(0, unread, clock()), Err(73));
    let unfinished = WorkerRequest {
        frame: Some(&frame),
        trailing: None,
    };
    assert_eq!(take_job(0, unfinished, clock()), Err(74));
    let extended = WorkerRequest {
        frame: Some(&frame),
        trailing: Some(1),
    };
    assert_eq!(take_job(0, extended, clock()), Err(75));
    assert_eq!(take_job(0, request(&frame[1..]), clock()), Err(76));
    assert_eq!(take_job(0, request(&frame), late()), Err(85));
    let mut other_user = job();
    other_user.effective_uid = 502;
    assert_eq!(
        take_job(0, request(&other_user.encode_pipe_frame()), clock()),
        Err(77)
    );
    let mut other_group = job();
    other_group.effective_gid = 21;
    assert_eq!(
        take_job(0, request(&other_group.encode_pipe_frame()), clock()),
        Err(77)
    );
    assert_eq!(ensure_deadline(95_000_000_000, clock()), Ok(()));
    assert_eq!(ensure_deadline(90_000_000_000, clock()), Err(85));
}

#[test]
fn worker_vouches_only_for_validated_code() {
    let answer = |code_found, lookup, validity| {
        security_validates(Ok(SecurityAnswer {
            code_found,
            lookup,
            validity,
        }))
    };
    assert_eq!(answer(true, 0, 0), Ok(true));
    assert_eq!(answer(false, 0, 0), Ok(false));
    assert_eq!(answer(true, -67062, 0), Ok(false));
    assert_eq!(answer(true, 0, -67050), Ok(false));
    for (failure, status) in [
        (SecurityFailure::Data, 86),
        (SecurityFailure::Attributes, 87),
        (SecurityFailure::RequirementText, 88),
        (SecurityFailure::RequirementParse, 89),
        (SecurityFailure::RequirementMissing, 90),
        (SecurityFailure::CoreFoundation, 93),
        (SecurityFailure::Security, 94),
        (SecurityFailure::AuditAttribute, 95),
        (SecurityFailure::Symbol, 96),
    ] {
        assert_eq!(security_validates(Err(failure)), Err(status));
    }

    let frame = answer_job(job(), Ok(true), CODE_IDENTITY, clock()).unwrap();
    let result = AuthWorkerResult::decode_pipe_frame(&frame).unwrap();
    assert_eq!(result.job, job());
    assert_eq!(result.code_identity, CODE_IDENTITY);
    let frame = answer_job(job(), Ok(false), CODE_IDENTITY, clock()).unwrap();
    let result = AuthWorkerResult::decode_pipe_frame(&frame).unwrap();
    assert_eq!(result.job, job());
    assert_eq!(result.code_identity, [0; 32]);
    assert_eq!(answer_job(job(), Err(94), CODE_IDENTITY, clock()), Err(94));
    assert_eq!(answer_job(job(), Ok(true), CODE_IDENTITY, late()), Err(85));
}

#[test]
fn worker_exits_with_the_status_of_its_failure() {
    assert_eq!(inspect_fixed_pipe(0, Some(true), 0, O_RDONLY), Ok(()));
    assert_eq!(inspect_fixed_pipe(0, Some(true), 5, O_WRONLY), Ok(()));
    assert_eq!(inspect_fixed_pipe(-1, Some(true), 0, O_RDONLY), Err(80));
    assert_eq!(inspect_fixed_pipe(0, None, 0, O_RDONLY), Err(81));
    assert_eq!(inspect_fixed_pipe(0, Some(false), 0, O_RDONLY), Err(82));
    assert_eq!(inspect_fixed_pipe(0, Some(true), 2, O_RDONLY), Err(83));
    assert_eq!(inspect_fixed_pipe(0, Some(true), -1, O_RDONLY), Err(83));
    assert_eq!(adopt_fixed_pipe(0), Ok(()));
    assert_eq!(adopt_fixed_pipe(-1), Err(84));
    assert_eq!(write_one_frame(200, 200, 0), WriteStep::Written);
    assert_eq!(write_one_frame(199, 200, 0), WriteStep::Failed(91));
    assert_eq!(write_one_frame(-1, 200, 4), WriteStep::Again);
    assert_eq!(write_one_frame(-1, 200, 32), WriteStep::Failed(92));
    assert_eq!(exit_status(Ok(())), 0);
    assert_eq!(exit_status(Err(79)), 79);
    assert_eq!(exit_status(Err(-1)), 0);
}
