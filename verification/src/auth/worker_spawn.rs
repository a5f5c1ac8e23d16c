//! The fixed image of a worker, and the order in which one is spawned.

use vstd::prelude::*;
use crate::auth::message::AuthAdapterError;
use crate::auth::pool;
use crate::auth::pool::{
    AuthWorkerEndpoint, AuthWorkerPool, FreshAuthWorkerGeneration, WorkerSlot,
};
use crate::auth::worker::{
    DirectChildAuthWorkerAuthority, DirectChildState, ExactAuthWorker, ExactAuthWorkerAuthority,
};
use crate::auth::worker_frame::{AuthWorkerIdentity, MAX_AUTH_WORKERS};
use crate::bytes;
use crate::bytes::copy_bytes;
use crate::supervisor::target;
use crate::supervisor::target::deployer_helper_path;

verus! {

/// `--supervisor-auth-worker`
pub const INSTALLED_AUTH_WORKER_MODE: [u8; 24] = [
    0x2d, 0x2d, 0x73, 0x75, 0x70, 0x65, 0x72, 0x76, 0x69, 0x73, 0x6f, 0x72, 0x2d, 0x61, 0x75,
    0x74, 0x68, 0x2d, 0x77, 0x6f, 0x72, 0x6b, 0x65, 0x72,
];

/// `--request-fd=3`
pub const INSTALLED_AUTH_WORKER_REQUEST_ARGUMENT: [u8; 14] = [
    0x2d, 0x2d, 0x72, 0x65, 0x71, 0x75, 0x65, 0x73, 0x74, 0x2d, 0x66, 0x64, 0x3d, 0x33,
];

/// `--result-fd=4`
pub const INSTALLED_AUTH_WORKER_RESULT_ARGUMENT: [u8; 13] = [
    0x2d, 0x2d, 0x72, 0x65, 0x73, 0x75, 0x6c, 0x74, 0x2d, 0x66, 0x64, 0x3d, 0x34,
];

/// `PATH=/usr/bin:/bin`
pub const CANONICAL_PATH: [u8; 18] = [
    0x50, 0x41, 0x54, 0x48, 0x3d, 0x2f, 0x75, 0x73, 0x72, 0x2f, 0x62, 0x69, 0x6e, 0x3a, 0x2f,
    0x62, 0x69, 0x6e,
];

/// `LANG=C`
pub const CANONICAL_LANG: [u8; 6] = [0x4c, 0x41, 0x4e, 0x47, 0x3d, 0x43];

/// `LC_ALL=C`
pub const CANONICAL_LOCALE: [u8; 8] = [0x4c, 0x43, 0x5f, 0x41, 0x4c, 0x4c, 0x3d, 0x43];

/// Where a worker finds its request pipe.
pub const AUTH_WORKER_REQUEST_FD: i32 = 3;

/// Where a worker finds its result pipe.
pub const AUTH_WORKER_RESULT_FD: i32 = 4;

/// Lowest number of a descriptor that the service keeps, above every fixed one.
pub const STABLE_FD_MINIMUM: i32 = 10;

/// Failure before one exact worker is armed.
#[derive(Clone, Copy, Debug, PartialEq, Eq, Structural)]
pub enum AuthWorkerSpawnError {
    /// The verified installation cannot be represented exactly.
    InvalidFixedImage,
    /// The wait domain of the service no longer stands.
    InvalidWaitDomain,
    /// A pipe could not be created.
    Pipe(i32),
    /// A descriptor could not be configured.
    Descriptor(i32),
    /// The descriptors of the child could not be prepared.
    FileActions(i32),
    /// The signals of the child could not be prepared.
    Attributes(i32),
    /// The spawn failed.
    Spawn(i32),
}

/// Installed image and process vectors of a worker; no request selects any of them.
pub struct InstalledAuthWorkerImage {
    path: Vec<u8>,
}

/// The arguments of a worker.
pub open spec fn worker_argv(path: Seq<u8>) -> Seq<Seq<u8>> {
    seq![
        path,
        INSTALLED_AUTH_WORKER_MODE@,
        INSTALLED_AUTH_WORKER_REQUEST_ARGUMENT@,
        INSTALLED_AUTH_WORKER_RESULT_ARGUMENT@,
    ]
}

/// The environment of a worker.
pub open spec fn worker_environment() -> Seq<Seq<u8>> {
    seq![CANONICAL_PATH@, CANONICAL_LANG@, CANONICAL_LOCALE@]
}

impl View for InstalledAuthWorkerImage {
    type V = Seq<u8>;

    closed spec fn view(&self) -> Seq<u8> {
        self.path@
    }
}

impl InstalledAuthWorkerImage {
    /// Takes the path of a verified installation; it has to be absolute.
    pub fn from_verified_installation(path: &[u8]) -> (r: Result<
        InstalledAuthWorkerImage,
        AuthWorkerSpawnError,
    >)
        ensures
            match r {
                Ok(image) => target::helper_path(path@) && image@ == path@,
                Err(error) => !target::helper_path(path@) && error
                    == AuthWorkerSpawnError::InvalidFixedImage,
            },
    {
        match deployer_helper_path(path) {
            None => Err(AuthWorkerSpawnError::InvalidFixedImage),
            Some(path) => Ok(InstalledAuthWorkerImage { path }),
        }
    }

    /// The path of the image.
    pub fn spawn_path(&self) -> (r: Vec<u8>)
        ensures
            r@ == self@,
    {
        copy_bytes(&self.path)
    }

    /// The arguments of the worker.
    pub fn argv(&self) -> (r: Vec<Vec<u8>>)
        ensures
            bytes::strings(r@) == worker_argv(self@),
    {
        let mut out: Vec<Vec<u8>> = Vec::new();
        out.push(copy_bytes(&self.path));
        out.push(copy_bytes(&INSTALLED_AUTH_WORKER_MODE));
        out.push(copy_bytes(&INSTALLED_AUTH_WORKER_REQUEST_ARGUMENT));
        out.push(copy_bytes(&INSTALLED_AUTH_WORKER_RESULT_ARGUMENT));
        assert(bytes::strings(out@) =~= worker_argv(self@));
        out
    }

    /// The environment of the worker.
    pub fn environment(&self) -> (r: Vec<Vec<u8>>)
        ensures
            bytes::strings(r@) == worker_environment(),
    {
        let mut out: Vec<Vec<u8>> = Vec::new();
        out.push(copy_bytes(&CANONICAL_PATH));
        out.push(copy_bytes(&CANONICAL_LANG));
        out.push(copy_bytes(&CANONICAL_LOCALE));
        assert(bytes::strings(out@) =~= worker_environment());
        out
    }
}

/// What happens to the descriptors of a child before it executes.
#[derive(Clone, Copy, Debug, PartialEq, Eq, Structural)]
pub enum FileAction {
    /// Open the null device for reading.
    OpenNullReader(i32),
    /// Open the null device for writing.
    OpenNullWriter(i32),
    /// Put a descriptor under another number.
    Duplicate(i32, i32),
    /// Close a descriptor.
    Close(i32),
}

/// The ends of the two private pipes of a worker.
#[derive(Clone, Copy, Debug, PartialEq, Eq, Structural)]
pub struct WorkerPipes {
    pub request_reader: i32,
    pub request_writer: i32,
    pub result_reader: i32,
    pub result_writer: i32,
}

/// Everything that happens to the descriptors of a worker: standard streams from the null device,
/// its two pipe ends under their fixed numbers, and none of the originals.
pub open spec fn worker_file_actions(pipes: WorkerPipes) -> Seq<FileAction> {
    seq![
        FileAction::OpenNullReader(0),
        FileAction::OpenNullWriter(1),
        FileAction::OpenNullWriter(2),
        FileAction::Duplicate(pipes.request_reader, AUTH_WORKER_REQUEST_FD),
        FileAction::Duplicate(pipes.result_writer, AUTH_WORKER_RESULT_FD),
        FileAction::Close(pipes.request_reader),
        FileAction::Close(pipes.request_writer),
        FileAction::Close(pipes.result_reader),
        FileAction::Close(pipes.result_writer),
    ]
}

/// What has to be done next to spawn a worker.
#[derive(Clone, Copy, Debug, PartialEq, Eq, Structural)]
pub enum WorkerSpawnAction {
    /// Verify the wait domain.
    VerifyDomain,
    /// Create the request pipe, both ends close-on-exec and above the fixed numbers.
    CreateRequestPipe,
    /// Create the result pipe in the same way.
    CreateResultPipe,
    /// Make the request writer nonblocking.
    UnblockRequest,
    /// Make the result reader nonblocking.
    UnblockResult,
    /// Keep the request writer from raising SIGPIPE.
    SilenceRequest,
    /// Prepare the descriptors of the child.
    PrepareFiles,
    /// Prepare the signals of the child.
    PrepareAttributes,
    /// Verify the wait domain again.
    VerifyDomainAgain,
    /// Spawn the image.
    Spawn,
    /// Nothing: the worker is there.
    Done,
    /// Stop the service: the spawn gave no process.
    Abort,
}

/// What came of an action.
#[derive(Clone, Copy, Debug, PartialEq, Eq)]
pub enum WorkerSpawnEvent {
    /// Whether the wait domain stands.
    Domain(bool),
    /// A pipe, reader first.
    Pipe(Result<(i32, i32), AuthWorkerSpawnError>),
    /// Whether an operation went well, with its error where it did not.
    Outcome(Result<(), i32>),
    /// The process, or the error of the spawn.
    Spawned(Result<i32, i32>),
}

/// Whether an event is what comes of this action.
pub open spec fn spawn_event_fits(action: WorkerSpawnAction, event: WorkerSpawnEvent) -> bool {
    match action {
        WorkerSpawnAction::VerifyDomain | WorkerSpawnAction::VerifyDomainAgain => event is Domain,
        WorkerSpawnAction::CreateRequestPipe | WorkerSpawnAction::CreateResultPipe => event is Pipe,
        WorkerSpawnAction::UnblockRequest
        | WorkerSpawnAction::UnblockResult
        | WorkerSpawnAction::SilenceRequest
        | WorkerSpawnAction::PrepareFiles
        | WorkerSpawnAction::PrepareAttributes => event is Outcome,
        WorkerSpawnAction::Spawn => event is Spawned,
        WorkerSpawnAction::Done | WorkerSpawnAction::Abort => false,
    }
}

/// A worker that is being spawned.
#[derive(Clone, Copy, Debug, PartialEq, Eq, Structural)]
pub struct WorkerSpawn {
    pub action: WorkerSpawnAction,
    pub pipes: WorkerPipes,
    pub pid: i32,
}

/// A pipe end that is not there yet.
pub const NO_DESCRIPTOR: i32 = -1;

impl WorkerSpawn {
    /// The spawn with another action.
    pub open spec fn at(self, action: WorkerSpawnAction) -> WorkerSpawn {
        WorkerSpawn { action, ..self }
    }

    /// The spawn once an event has come of its action, or why it failed. An event that does not
    /// belong to the action leaves it as it is.
    pub open spec fn after(self, event: WorkerSpawnEvent) -> Result<
        WorkerSpawn,
        AuthWorkerSpawnError,
    > {
        match (self.action, event) {
            (WorkerSpawnAction::VerifyDomain, WorkerSpawnEvent::Domain(stands)) => if stands {
                Ok(self.at(WorkerSpawnAction::CreateRequestPipe))
            } else {
                Err(AuthWorkerSpawnError::InvalidWaitDomain)
            },
            (WorkerSpawnAction::CreateRequestPipe, WorkerSpawnEvent::Pipe(made)) => match made {
                Err(error) => Err(error),
                Ok((reader, writer)) => Ok(
                    WorkerSpawn {
                        action: WorkerSpawnAction::CreateResultPipe,
                        pipes: WorkerPipes {
                            request_reader: reader,
                            request_writer: writer,
                            ..self.pipes
                        },
                        ..self
                    },
                ),
            },
            (WorkerSpawnAction::CreateResultPipe, WorkerSpawnEvent::Pipe(made)) => match made {
                Err(error) => Err(error),
                Ok((reader, writer)) => Ok(
                    WorkerSpawn {
                        action: WorkerSpawnAction::UnblockRequest,
                        pipes: WorkerPipes {
                            result_reader: reader,
                            result_writer: writer,
                            ..self.pipes
                        },
                        ..self
                    },
                ),
            },
            (WorkerSpawnAction::UnblockRequest, WorkerSpawnEvent::Outcome(outcome)) => {
                match outcome {
                    Err(error) => Err(AuthWorkerSpawnError::Descriptor(error)),
                    Ok(()) => Ok(self.at(WorkerSpawnAction::UnblockResult)),
                }
            },
            (WorkerSpawnAction::UnblockResult, WorkerSpawnEvent::Outcome(outcome)) => {
                match outcome {
                    Err(error) => Err(AuthWorkerSpawnError::Descriptor(error)),
                    Ok(()) => Ok(self.at(WorkerSpawnAction::SilenceRequest)),
                }
            },
            (WorkerSpawnAction::SilenceRequest, WorkerSpawnEvent::Outcome(outcome)) => {
                match outcome {
                    Err(error) => Err(AuthWorkerSpawnError::Descriptor(error)),
                    Ok(()) => Ok(self.at(WorkerSpawnAction::PrepareFiles)),
                }
            },
            (WorkerSpawnAction::PrepareFiles, WorkerSpawnEvent::Outcome(outcome)) => {
                match outcome {
                    Err(error) => Err(AuthWorkerSpawnError::FileActions(error)),
                    Ok(()) => Ok(self.at(WorkerSpawnAction::PrepareAttributes)),
                }
            },
            (WorkerSpawnAction::PrepareAttributes, WorkerSpawnEvent::Outcome(outcome)) => {
                match outcome {
                    Err(error) => Err(AuthWorkerSpawnError::Attributes(error)),
                    Ok(()) => Ok(self.at(WorkerSpawnAction::VerifyDomainAgain)),
                }
            },
            (WorkerSpawnAction::VerifyDomainAgain, WorkerSpawnEvent::Domain(stands)) => if stands {
                Ok(self.at(WorkerSpawnAction::Spawn))
            } else {
                Err(AuthWorkerSpawnError::InvalidWaitDomain)
            },
            (WorkerSpawnAction::Spawn, WorkerSpawnEvent::Spawned(spawned)) => match spawned {
                Err(error) => Err(AuthWorkerSpawnError::Spawn(error)),
                Ok(pid) => if pid <= 0 {
                    Ok(self.at(WorkerSpawnAction::Abort))
                } else {
                    Ok(WorkerSpawn { action: WorkerSpawnAction::Done, pid, ..self })
                },
            },
            _ => Ok(self),
        }
    }

    /// Starts to spawn a worker.
    pub fn spawn_installed_auth_worker() -> (r: WorkerSpawn)
        ensures
            r.action == WorkerSpawnAction::VerifyDomain,
            r.pid == 0,
            r.pipes == (WorkerPipes {
                request_reader: NO_DESCRIPTOR,
                request_writer: NO_DESCRIPTOR,
                result_reader: NO_DESCRIPTOR,
                result_writer: NO_DESCRIPTOR,
            }),
    {
        WorkerSpawn {
            action: WorkerSpawnAction::VerifyDomain,
            pipes: WorkerPipes {
                request_reader: NO_DESCRIPTOR,
                request_writer: NO_DESCRIPTOR,
                result_reader: NO_DESCRIPTOR,
                result_writer: NO_DESCRIPTOR,
            },
            pid: 0,
        }
    }

    /// What happens to the descriptors of the worker.
    pub fn file_actions(&self) -> (r: Vec<FileAction>)
        ensures
            r@ == worker_file_actions(self.pipes),
    {
        let mut out: Vec<FileAction> = Vec::new();
        out.push(FileAction::OpenNullReader(0));
        out.push(FileAction::OpenNullWriter(1));
        out.push(FileAction::OpenNullWriter(2));
        out.push(FileAction::Duplicate(self.pipes.request_reader, AUTH_WORKER_REQUEST_FD));
        out.push(FileAction::Duplicate(self.pipes.result_writer, AUTH_WORKER_RESULT_FD));
        out.push(FileAction::Close(self.pipes.request_reader));
        out.push(FileAction::Close(self.pipes.request_writer));
        out.push(FileAction::Close(self.pipes.result_reader));
        out.push(FileAction::Close(self.pipes.result_writer));
        assert(out@ =~= worker_file_actions(self.pipes));
        out
    }

    /// Takes what came of the action.
    pub fn advance(&mut self, event: WorkerSpawnEvent) -> (r: Result<(), AuthWorkerSpawnError>)
        ensures
            match (r, old(self).after(event)) {
                (Ok(()), Ok(next)) => *final(self) == next,
                (Err(error), Err(expected)) => error == expected && *final(self) == *old(self),
                _ => false,
            },
    {
        match (self.action, event) {
            (WorkerSpawnAction::VerifyDomain, WorkerSpawnEvent::Domain(stands)) => {
                if !stands {
                    return Err(AuthWorkerSpawnError::InvalidWaitDomain);
                }
                self.action = WorkerSpawnAction::CreateRequestPipe;
            },
            (WorkerSpawnAction::CreateRequestPipe, WorkerSpawnEvent::Pipe(made)) => match made {
                Err(error) => {
                    return Err(error);
                },
                Ok((reader, writer)) => {
                    self.pipes.request_reader = reader;
                    self.pipes.request_writer = writer;
                    self.action = WorkerSpawnAction::CreateResultPipe;
                },
            },
            (WorkerSpawnAction::CreateResultPipe, WorkerSpawnEvent::Pipe(made)) => match made {
                Err(error) => {
                    return Err(error);
                },
                Ok((reader, writer)) => {
                    self.pipes.result_reader = reader;
                    self.pipes.result_writer = writer;
                    self.action = WorkerSpawnAction::UnblockRequest;
                },
            },
            (WorkerSpawnAction::UnblockRequest, WorkerSpawnEvent::Outcome(outcome)) => {
                match outcome {
                    Err(error) => {
                        return Err(AuthWorkerSpawnError::Descriptor(error));
                    },
                    Ok(()) => {
                        self.action = WorkerSpawnAction::UnblockResult;
                    },
                }
            },
            (WorkerSpawnAction::UnblockResult, WorkerSpawnEvent::Outcome(outcome)) => {
                match outcome {
                    Err(error) => {
                        return Err(AuthWorkerSpawnError::Descriptor(error));
                    },
                    Ok(()) => {
                        self.action = WorkerSpawnAction::SilenceRequest;
                    },
                }
            },
            (WorkerSpawnAction::SilenceRequest, WorkerSpawnEvent::Outcome(outcome)) => {
                match outcome {
                    Err(error) => {
                        return Err(AuthWorkerSpawnError::Descriptor(error));
                    },
                    Ok(()) => {
                        self.action = WorkerSpawnAction::PrepareFiles;
                    },
                }
            },
            (WorkerSpawnAction::PrepareFiles, WorkerSpawnEvent::Outcome(outcome)) => {
                match outcome {
                    Err(error) => {
                        return Err(AuthWorkerSpawnError::FileActions(error));
                    },
                    Ok(()) => {
                        self.action = WorkerSpawnAction::PrepareAttributes;
                    },
                }
            },
            (WorkerSpawnAction::PrepareAttributes, WorkerSpawnEvent::Outcome(outcome)) => {
                match outcome {
                    Err(error) => {
                        return Err(AuthWorkerSpawnError::Attributes(error));
                    },
                    Ok(()) => {
                        self.action = WorkerSpawnAction::VerifyDomainAgain;
                    },
                }
            },
            (WorkerSpawnAction::VerifyDomainAgain, WorkerSpawnEvent::Domain(stands)) => {
                if !stands {
                    return Err(AuthWorkerSpawnError::InvalidWaitDomain);
                }
                self.action = WorkerSpawnAction::Spawn;
            },
            (WorkerSpawnAction::Spawn, WorkerSpawnEvent::Spawned(spawned)) => match spawned {
                Err(error) => {
                    return Err(AuthWorkerSpawnError::Spawn(error));
                },
                Ok(pid) => {
                    if pid <= 0 {
                        self.action = WorkerSpawnAction::Abort;
                    } else {
                        self.pid = pid;
                        self.action = WorkerSpawnAction::Done;
                    }
                },
            },
            _ => {},
        }
        Ok(())
    }

    /// The authority over the worker and the service's pipe ends, once the worker is there.
    pub fn finish(&self) -> (r: Option<(DirectChildAuthWorkerAuthority, AuthWorkerEndpoint)>)
        ensures
            r == (if self.action == WorkerSpawnAction::Done {
                Some(
                    (
                        DirectChildAuthWorkerAuthority {
                            pid: self.pid,
                            state: DirectChildState::Unreaped,
                        },
                        AuthWorkerEndpoint {
                            request: self.pipes.request_writer,
                            result: self.pipes.result_reader,
                        },
                    ),
                )
            } else {
                None
            }),
    {
        match self.action {
            WorkerSpawnAction::Done => Some(
                (
                    DirectChildAuthWorkerAuthority {
                        pid: self.pid,
                        state: DirectChildState::Unreaped,
                    },
                    AuthWorkerEndpoint {
                        request: self.pipes.request_writer,
                        result: self.pipes.result_reader,
                    },
                ),
            ),
            _ => None,
        }
    }
}

/// How many actions are left at most.
pub open spec fn spawn_actions_left(action: WorkerSpawnAction) -> int {
    match action {
        WorkerSpawnAction::VerifyDomain => 10,
        WorkerSpawnAction::CreateRequestPipe => 9,
        WorkerSpawnAction::CreateResultPipe => 8,
        WorkerSpawnAction::UnblockRequest => 7,
        WorkerSpawnAction::UnblockResult => 6,
        WorkerSpawnAction::SilenceRequest => 5,
        WorkerSpawnAction::PrepareFiles => 4,
        WorkerSpawnAction::PrepareAttributes => 3,
        WorkerSpawnAction::VerifyDomainAgain => 2,
        WorkerSpawnAction::Spawn => 1,
        WorkerSpawnAction::Done | WorkerSpawnAction::Abort => 0,
    }
}

/// A spawn goes forward one action at a time; the process starts only after the wait domain was
/// verified last of all, and a worker that is there is a positive process.
pub proof fn law_worker_spawns_in_a_verified_domain(spawn: WorkerSpawn, event: WorkerSpawnEvent)
    requires
        spawn_event_fits(spawn.action, event),
    ensures
        spawn.after(event) matches Ok(next) ==> {
            &&& spawn_actions_left(next.action) == spawn_actions_left(spawn.action) - 1
            &&& next.action == WorkerSpawnAction::Spawn ==> event == WorkerSpawnEvent::Domain(true)
            &&& next.action == WorkerSpawnAction::Done ==> next.pid > 0 && next.pipes == spawn.pipes
        },
{
}

/// One freshly spawned worker with its number, its authority and the service's pipe ends.
pub struct SpawnedAuthWorker<Authority: ExactAuthWorkerAuthority> {
    generation: FreshAuthWorkerGeneration,
    worker: ExactAuthWorker<Authority>,
    endpoint: AuthWorkerEndpoint,
}

impl<Authority: ExactAuthWorkerAuthority> SpawnedAuthWorker<Authority> {
    #[verifier::type_invariant]
    spec fn is_armed(self) -> bool {
        self.worker.armed
    }

    /// The three parts.
    pub closed spec fn parts(self) -> (
        FreshAuthWorkerGeneration,
        ExactAuthWorker<Authority>,
        AuthWorkerEndpoint,
    ) {
        (self.generation, self.worker, self.endpoint)
    }

    /// Arms the authority over a worker that was just spawned.
    pub fn arm(
        generation: FreshAuthWorkerGeneration,
        authority: Authority,
        endpoint: AuthWorkerEndpoint,
    ) -> (r: SpawnedAuthWorker<Authority>)
        ensures
            r.parts() == (
                generation,
                ExactAuthWorker { authority, armed: true },
                endpoint,
            ),
    {
        SpawnedAuthWorker {
            generation,
            worker: ExactAuthWorker::from_unreaped_direct_child(authority),
            endpoint,
        }
    }

    fn into_parts(self) -> (r: (
        FreshAuthWorkerGeneration,
        ExactAuthWorker<Authority>,
        AuthWorkerEndpoint,
    ))
        ensures
            r == self.parts(),
            r.1.armed,
    {
        proof {
            use_type_invariant(&self);
        }
        (self.generation, self.worker, self.endpoint)
    }
}

/// The parts of a list of workers.
pub open spec fn all_parts<A: ExactAuthWorkerAuthority>(workers: Seq<SpawnedAuthWorker<A>>) -> Seq<
    (FreshAuthWorkerGeneration, ExactAuthWorker<A>, AuthWorkerEndpoint),
> {
    workers.map_values(|worker: SpawnedAuthWorker<A>| worker.parts())
}

impl<Authority: ExactAuthWorkerAuthority> AuthWorkerPool<Authority> {
    /// Builds a pool from complete spawned workers only. Workers that make no pool are terminated
    /// and reaped; their endpoints stay with the caller.
    pub fn from_spawned_workers(workers: Vec<SpawnedAuthWorker<Authority>>) -> (r: Result<
        AuthWorkerPool<Authority>,
        AuthAdapterError<Authority::Failure>,
    >)
        ensures
            match r {
                Ok(pool) => {
                    &&& pool.in_order()
                    &&& pool.released@ == pool::ReleasedModel::none()
                    &&& 0 < workers@.len() <= MAX_AUTH_WORKERS
                    &&& pool::distinct_numbers(all_parts(workers@))
                    &&& pool.slots@.len() == workers@.len()
                    &&& forall|i: int|
                        0 <= i < workers@.len() ==> (#[trigger] pool.slots@[i]) == Some(
                            pool::fresh_slot(i, all_parts(workers@)[i]),
                        )
                    &&& pool::is_greatest(all_parts(workers@), pool.last_worker_generation)
                },
                Err(error) => {
                    &&& if 0 < workers@.len() <= MAX_AUTH_WORKERS {
                        &&& error == AuthAdapterError::<Authority::Failure>::InvalidReplacement
                        &&& !pool::distinct_numbers(all_parts(workers@))
                    } else {
                        error == AuthAdapterError::<Authority::Failure>::CapacityExceeded
                    }
                    &&& forall|i: int|
                        0 <= i < workers@.len() ==> pool::ended_at_all_costs(
                            (#[trigger] workers@[i]).parts().1,
                        )
                },
            },
    {
        let ghost all = workers@;
        let mut rest = workers;
        let mut parts: Vec<
            (FreshAuthWorkerGeneration, ExactAuthWorker<Authority>, AuthWorkerEndpoint),
        > = Vec::new();
        assert(rest@ =~= all.subrange(0, all.len() as int));
        while rest.len() > 0
            invariant
                parts@.len() + rest@.len() == all.len(),
                rest@ == all.subrange(parts@.len() as int, all.len() as int),
                forall|i: int| 0 <= i < parts@.len() ==> #[trigger] parts@[i] == all[i].parts(),
                forall|i: int| 0 <= i < parts@.len() ==> (#[trigger] parts@[i]).1.armed,
            decreases rest@.len(),
        {
            let ghost before = rest@;
            let worker = rest.remove(0);
            assert(worker == all[parts@.len() as int]);
            parts.push(worker.into_parts());
            assert(rest@ =~= all.subrange(parts@.len() as int, all.len() as int));
        }
        assert(parts@ =~= all_parts(workers@));
        assert forall|i: int| 0 <= i < workers@.len() implies parts@[i] == (
        #[trigger] workers@[i]).parts() by {}
        AuthWorkerPool::from_precreated_workers(parts)
    }

    /// Installs a complete spawned worker into a slot that is retired; a number that is not above
    /// every earlier one is refused. A worker that is refused is terminated and reaped, and its
    /// endpoint released.
    pub fn install_spawned_replacement(
        &mut self,
        slot_index: u8,
        spawned: SpawnedAuthWorker<Authority>,
    ) -> (r: Result<AuthWorkerIdentity, AuthAdapterError<Authority::Failure>>)
        requires
            old(self).in_order(),
        ensures
            final(self).in_order(),
            ({
                let (generation, worker, endpoint) = spawned.parts();
                if slot_index < old(self).slots@.len() && old(self).slots@[slot_index as int]
                    is None && generation@ > old(self).last_worker_generation {
                    let identity = AuthWorkerIdentity { slot: slot_index, generation: generation@ };
                    &&& r == Ok::<_, AuthAdapterError<Authority::Failure>>(identity)
                    &&& final(self).last_worker_generation == generation@
                    &&& final(self).released@ == old(self).released@
                    &&& final(self).slots@ == old(self).slots@.update(
                        slot_index as int,
                        Some(
                            WorkerSlot {
                                identity,
                                worker,
                                endpoint: Some(endpoint),
                                pending: None,
                            },
                        ),
                    )
                } else {
                    &&& r == Err::<AuthWorkerIdentity, _>(
                        AuthAdapterError::<Authority::Failure>::InvalidReplacement,
                    )
                    &&& final(self).slots@ == old(self).slots@
                    &&& final(self).last_worker_generation == old(self).last_worker_generation
                    &&& final(self).released@ == old(self).released@.with(None, Some(endpoint))
                    &&& pool::ended_at_all_costs(worker)
                }
            }),
    {
        let (generation, worker, endpoint) = spawned.into_parts();
        self.install_replacement(slot_index, generation, worker, endpoint)
    }
}

/// What the creation of one pipe answered: the call itself, the two close-on-exec settings, and the
/// two duplicates above the fixed numbers.
#[derive(Clone, Copy, Debug, PartialEq, Eq)]
pub enum PipeStep {
    /// The call failed with this error.
    Call(i32),
    /// A setting or a duplicate failed with this error.
    Configure(i32),
    /// Both ends are there.
    Made(i32, i32),
}

/// Judges the creation of one pipe.
pub fn create_pipe_pair(step: PipeStep) -> (r: Result<(i32, i32), AuthWorkerSpawnError>)
    ensures
        r == (match step {
            PipeStep::Call(error) => Err(AuthWorkerSpawnError::Pipe(error)),
            PipeStep::Configure(error) => Err(AuthWorkerSpawnError::Descriptor(error)),
            PipeStep::Made(reader, writer) => Ok((reader, writer)),
        }),
{
    match step {
        PipeStep::Call(error) => Err(AuthWorkerSpawnError::Pipe(error)),
        PipeStep::Configure(error) => Err(AuthWorkerSpawnError::Descriptor(error)),
        PipeStep::Made(reader, writer) => Ok((reader, writer)),
    }
}

/// A spawn that nothing disturbs comes to its end: with the domain standing, both pipes made and
/// every operation done, it spawns and ends with the process that was spawned and with exactly the
/// pipes that were made.
pub proof fn law_good_spawn_comes_to_its_end(
    spawn: WorkerSpawn,
    request: (i32, i32),
    result: (i32, i32),
    pid: i32,
)
    requires
        spawn.action == WorkerSpawnAction::VerifyDomain,
        pid > 0,
    ensures
        ({
            let stands = WorkerSpawnEvent::Domain(true);
            let done = WorkerSpawnEvent::Outcome(Ok(()));
            let piped = spawn.after(stands)->Ok_0.after(
                WorkerSpawnEvent::Pipe(Ok(request)),
            )->Ok_0.after(WorkerSpawnEvent::Pipe(Ok(result)))->Ok_0;
            let ready = piped.after(done)->Ok_0.after(done)->Ok_0.after(done)->Ok_0.after(
                done,
            )->Ok_0.after(done)->Ok_0.after(stands)->Ok_0;
            &&& piped.action == WorkerSpawnAction::UnblockRequest
            &&& piped.pipes == (WorkerPipes {
                request_reader: request.0,
                request_writer: request.1,
                result_reader: result.0,
                result_writer: result.1,
            })
            &&& ready.action == WorkerSpawnAction::Spawn
            &&& ready.pipes == piped.pipes
            &&& ready.after(WorkerSpawnEvent::Spawned(Ok(pid))) == Ok::<_, AuthWorkerSpawnError>(
                WorkerSpawn { action: WorkerSpawnAction::Done, pid, pipes: piped.pipes, ..spawn },
            )
        }),
{
}

/// A spawn fails only for what failed, and tells it: a domain that does not stand, a pipe that
/// could not be made, an operation with its error, and a spawn with its own. A spawn without a
/// process stops the service.
pub proof fn law_spawn_tells_what_failed(
    spawn: WorkerSpawn,
    event: WorkerSpawnEvent,
    code: i32,
    failure: AuthWorkerSpawnError,
)
    requires
        spawn_event_fits(spawn.action, event),
    ensures
        spawn.after(event) is Err <==> {
            ||| event == WorkerSpawnEvent::Domain(false)
            ||| event matches WorkerSpawnEvent::Pipe(made) && made is Err
            ||| event matches WorkerSpawnEvent::Outcome(outcome) && outcome is Err
            ||| event matches WorkerSpawnEvent::Spawned(spawned) && spawned is Err
        },
        event == WorkerSpawnEvent::Domain(false) ==> spawn.after(event) == Err::<WorkerSpawn, _>(
            AuthWorkerSpawnError::InvalidWaitDomain,
        ),
        event == WorkerSpawnEvent::Pipe(Err(failure)) ==> spawn.after(event) == Err::<
            WorkerSpawn,
            _,
        >(failure),
        event == WorkerSpawnEvent::Outcome(Err(code)) ==> spawn.after(event) == Err::<
            WorkerSpawn,
            _,
        >(
            if spawn.action == WorkerSpawnAction::PrepareFiles {
                AuthWorkerSpawnError::FileActions(code)
            } else if spawn.action == WorkerSpawnAction::PrepareAttributes {
                AuthWorkerSpawnError::Attributes(code)
            } else {
                AuthWorkerSpawnError::Descriptor(code)
            },
        ),
        event == WorkerSpawnEvent::Spawned(Err(code)) ==> spawn.after(event) == Err::<
            WorkerSpawn,
            _,
        >(AuthWorkerSpawnError::Spawn(code)),
        event == WorkerSpawnEvent::Spawned(Ok(code)) && code <= 0 ==> (spawn.after(
            event,
        ) matches Ok(next) && next.action == WorkerSpawnAction::Abort),
{
}

/// A worker gets its two pipes at its two fixed descriptors and nothing behind its standard ones;
/// of the pipes nothing else stays open in it. Its arguments tell it the same descriptors.
pub proof fn law_worker_gets_its_pipes(pipes: WorkerPipes, path: Seq<u8>)
    ensures
        ({
            let actions = worker_file_actions(pipes);
            &&& actions.len() == 9
            &&& actions[0] == FileAction::OpenNullReader(0)
            &&& actions[1] == FileAction::OpenNullWriter(1)
            &&& actions[2] == FileAction::OpenNullWriter(2)
            &&& actions[3] == FileAction::Duplicate(pipes.request_reader, 3)
            &&& actions[4] == FileAction::Duplicate(pipes.result_writer, 4)
            &&& actions[5] == FileAction::Close(pipes.request_reader)
            &&& actions[6] == FileAction::Close(pipes.request_writer)
            &&& actions[7] == FileAction::Close(pipes.result_reader)
            &&& actions[8] == FileAction::Close(pipes.result_writer)
        }),
        worker_argv(path).len() == 4,
        worker_argv(path)[0] == path,
        worker_argv(path)[2].last() == 0x33,
        worker_argv(path)[3].last() == 0x34,
        worker_environment().len() == 3,
{
}

/// A worker is started in its own mode, and with the plainest environment: the system's own
/// programs and the C locale, whatever the service was started with.
pub proof fn law_worker_vectors_are_plain(path: Seq<u8>)
    ensures
        worker_argv(path)[1] == seq![
            0x2du8, 0x2d, 0x73, 0x75, 0x70, 0x65, 0x72, 0x76, 0x69, 0x73, 0x6f, 0x72, 0x2d, 0x61,
            0x75, 0x74, 0x68, 0x2d, 0x77, 0x6f, 0x72, 0x6b, 0x65, 0x72,
        ],
        worker_environment()[0] == seq![
            0x50u8, 0x41, 0x54, 0x48, 0x3d, 0x2f, 0x75, 0x73, 0x72, 0x2f, 0x62, 0x69, 0x6e, 0x3a,
            0x2f, 0x62, 0x69, 0x6e,
        ],
        worker_environment()[1] == seq![0x4cu8, 0x41, 0x4e, 0x47, 0x3d, 0x43],
        worker_environment()[2] == seq![0x4cu8, 0x43, 0x5f, 0x41, 0x4c, 0x4c, 0x3d, 0x43],
{
}

} // verus!
