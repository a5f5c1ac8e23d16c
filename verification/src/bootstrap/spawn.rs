//! The order in which a helper is spawned, and what it is given.

use vstd::prelude::*;
use crate::bytes;
use crate::bytes::copy_strings;
use crate::mach::{AuditToken, MACH_PORT_NULL};
use crate::bootstrap::channel::{checked_nonce, HelperModel, SpawnedHelper};
use crate::bootstrap::environment;
use crate::bootstrap::environment::{
    helper_arguments, helper_environment, inherited_environment, ENV_NONCE, ENV_PARENT_PID,
};
use crate::bootstrap::error;
use crate::bootstrap::error::{
    bootstrap_lifecycle_error, bootstrap_native_error, mach, spawn_result, BootstrapError,
    SessionTransportError,
};

verus! {

/// Flag that starts the process suspended.
pub const POSIX_SPAWN_START_SUSPENDED: i16 = 0x0080;

/// Flag that makes the process the leader of a fresh session.
pub const POSIX_SPAWN_SETSID: i16 = 0x0400;

/// Flag that closes every descriptor that is not passed on.
pub const POSIX_SPAWN_CLOEXEC_DEFAULT: i16 = 0x4000;

/// The flags of a process that an exact lifecycle owns.
pub const FRESH_SESSION_FLAGS: i16 = POSIX_SPAWN_START_SUSPENDED | POSIX_SPAWN_SETSID
    | POSIX_SPAWN_CLOEXEC_DEFAULT;

/// What has to be done next to spawn a helper.
#[derive(Clone, Copy, Debug, PartialEq, Eq)]
pub enum SpawnAction {
    /// Allocate a receive right.
    AllocateReceive,
    /// Make a send right from it.
    MakeSend,
    /// Initialise the attributes.
    InitAttributes,
    /// Put the port into the special port slot.
    SetSpecialPort,
    /// Set the flags of a fresh session.
    SetFlags,
    /// Prepare the lifecycle owner.
    PrepareLifecycle,
    /// Spawn the process, and drop the extra send right whatever came of it.
    Spawn,
    /// Capture the identity of the suspended process.
    Capture,
    /// Hand the identity to the lifecycle owner, and resume exactly that execution.
    Resume,
    /// Nothing: the helper is there.
    Done,
}

/// What came of an action.
#[derive(Clone, Copy, Debug, PartialEq, Eq)]
pub enum SpawnEvent {
    /// The status of an operation.
    Status(i32),
    /// The status of an allocation, and the name.
    Allocated(i32, u32),
    /// Whether the lifecycle owner is prepared.
    Prepared(Result<(), SessionTransportError>),
    /// The status of the spawn, and the process.
    Spawned(i32, u32),
    /// The identity of the process.
    Captured(Result<AuditToken, BootstrapError>),
    /// Whether the execution was resumed.
    Resumed(Result<(), i32>),
}

/// Why a spawn failed, and whether the lifecycle owner has to end the process.
#[derive(Clone, Copy, Debug, PartialEq, Eq)]
pub struct SpawnFailure {
    pub error: BootstrapError,
    pub request_termination: bool,
}

/// Whether an event is what comes of this action.
pub open spec fn comes_of(action: SpawnAction, event: SpawnEvent) -> bool {
    match action {
        SpawnAction::AllocateReceive => event is Allocated,
        SpawnAction::MakeSend
        | SpawnAction::InitAttributes
        | SpawnAction::SetSpecialPort
        | SpawnAction::SetFlags => event is Status,
        SpawnAction::PrepareLifecycle => event is Prepared,
        SpawnAction::Spawn => event is Spawned,
        SpawnAction::Capture => event is Captured,
        SpawnAction::Resume => event is Resumed,
        SpawnAction::Done => false,
    }
}

/// What stands between the start of a spawn and its end.
#[verifier::ext_equal]
pub struct SpawnModel {
    pub action: SpawnAction,
    pub fresh_session: bool,
    pub nonce: Seq<u8>,
    pub receive: u32,
    pub pid: u32,
}

pub open spec fn plain_failure(error: BootstrapError) -> SpawnFailure {
    SpawnFailure { error, request_termination: false }
}

/// The native error inside a failure.
pub open spec fn native_part(error: BootstrapError) -> Option<i32> {
    match error {
        BootstrapError::Mach { code, .. } => Some(code),
        BootstrapError::Spawn(code) => Some(code),
        BootstrapError::ExactAuthorityUnavailable { native_error } => native_error,
        _ => None,
    }
}

impl SpawnModel {
    /// The spawn once an event has come of its action, or why it failed. An event that does not
    /// belong to the action leaves it as it is.
    pub open spec fn after(self, event: SpawnEvent) -> Result<SpawnModel, SpawnFailure> {
        match (self.action, event) {
            (SpawnAction::AllocateReceive, SpawnEvent::Allocated(status, name)) => {
                if status != 0 {
                    Err(
                        plain_failure(
                            BootstrapError::Mach { operation: "mach_port_allocate", code: status },
                        ),
                    )
                } else if name == MACH_PORT_NULL {
                    Err(plain_failure(BootstrapError::InvalidMessage))
                } else {
                    Ok(SpawnModel { action: SpawnAction::MakeSend, receive: name, ..self })
                }
            },
            (SpawnAction::MakeSend, SpawnEvent::Status(status)) => if status != 0 {
                Err(
                    plain_failure(
                        BootstrapError::Mach { operation: "mach_port_insert_right", code: status },
                    ),
                )
            } else {
                Ok(SpawnModel { action: SpawnAction::InitAttributes, ..self })
            },
            (SpawnAction::InitAttributes, SpawnEvent::Status(status)) => if status != 0 {
                Err(plain_failure(BootstrapError::Spawn(status)))
            } else {
                Ok(SpawnModel { action: SpawnAction::SetSpecialPort, ..self })
            },
            (SpawnAction::SetSpecialPort, SpawnEvent::Status(status)) => if status != 0 {
                Err(plain_failure(BootstrapError::Spawn(status)))
            } else if self.fresh_session {
                Ok(SpawnModel { action: SpawnAction::SetFlags, ..self })
            } else {
                Ok(SpawnModel { action: SpawnAction::Spawn, ..self })
            },
            (SpawnAction::SetFlags, SpawnEvent::Status(status)) => if status != 0 {
                Err(plain_failure(BootstrapError::Spawn(status)))
            } else {
                Ok(SpawnModel { action: SpawnAction::PrepareLifecycle, ..self })
            },
            (SpawnAction::PrepareLifecycle, SpawnEvent::Prepared(outcome)) => match outcome {
                Err(error) => Err(plain_failure(error::as_bootstrap(error))),
                Ok(()) => Ok(SpawnModel { action: SpawnAction::Spawn, ..self }),
            },
            (SpawnAction::Spawn, SpawnEvent::Spawned(status, pid)) => if status != 0 {
                Err(plain_failure(BootstrapError::Spawn(status)))
            } else if self.fresh_session {
                Ok(SpawnModel { action: SpawnAction::Capture, pid, ..self })
            } else {
                Ok(SpawnModel { action: SpawnAction::Done, pid, ..self })
            },
            (SpawnAction::Capture, SpawnEvent::Captured(captured)) => match captured {
                Err(error) => Err(
                    SpawnFailure {
                        error: BootstrapError::ExactAuthorityUnavailable {
                            native_error: native_part(error),
                        },
                        request_termination: true,
                    },
                ),
                Ok(_) => Ok(SpawnModel { action: SpawnAction::Resume, ..self }),
            },
            (SpawnAction::Resume, SpawnEvent::Resumed(outcome)) => match outcome {
                Err(error) => Err(
                    SpawnFailure { error: BootstrapError::Spawn(error), request_termination: true },
                ),
                Ok(()) => Ok(SpawnModel { action: SpawnAction::Done, ..self }),
            },
            _ => Ok(self),
        }
    }
}

/// A helper that is being spawned.
pub struct HelperSpawn {
    action: SpawnAction,
    fresh_session: bool,
    nonce: [u8; 32],
    receive: u32,
    pid: u32,
}

impl View for HelperSpawn {
    type V = SpawnModel;

    closed spec fn view(&self) -> SpawnModel {
        SpawnModel {
            action: self.action,
            fresh_session: self.fresh_session,
            nonce: self.nonce@,
            receive: self.receive,
            pid: self.pid,
        }
    }
}

impl HelperSpawn {
    /// Starts to spawn a helper under a nonce that is not zero.
    pub fn begin(nonce: [u8; 32], fresh_session: bool) -> (r: Result<HelperSpawn, BootstrapError>)
        ensures
            match r {
                Err(error) => bytes::all_zero(nonce@)
                    && error == BootstrapError::InvalidEnvironment,
                Ok(spawn) => !bytes::all_zero(nonce@) && spawn@ == (SpawnModel {
                    action: SpawnAction::AllocateReceive,
                    fresh_session,
                    nonce: nonce@,
                    receive: MACH_PORT_NULL,
                    pid: 0,
                }),
            },
    {
        match checked_nonce(nonce) {
            Err(error) => Err(error),
            Ok(nonce) => Ok(
                HelperSpawn {
                    action: SpawnAction::AllocateReceive,
                    fresh_session,
                    nonce,
                    receive: MACH_PORT_NULL,
                    pid: 0,
                },
            ),
        }
    }

    /// What has to be done next.
    pub fn action(&self) -> (r: SpawnAction)
        ensures
            r == self@.action,
    {
        self.action
    }

    /// The receive right; null until it is allocated.
    pub fn receive(&self) -> (r: u32)
        ensures
            r == self@.receive,
    {
        self.receive
    }

    /// The process; zero until it is spawned.
    pub fn pid(&self) -> (r: u32)
        ensures
            r == self@.pid,
    {
        self.pid
    }

    /// Takes what came of the action.
    pub fn advance(&mut self, event: SpawnEvent) -> (r: Result<(), SpawnFailure>)
        ensures
            match (r, old(self)@.after(event)) {
                (Ok(()), Ok(next)) => final(self)@ == next,
                (Err(failure), Err(expected)) => failure == expected && final(self)@ == old(self)@,
                _ => false,
            },
    {
        match (self.action, event) {
            (SpawnAction::AllocateReceive, SpawnEvent::Allocated(status, name)) => {
                match mach("mach_port_allocate", status) {
                    Err(error) => {
                        return Err(SpawnFailure { error, request_termination: false });
                    },
                    Ok(()) => {},
                }
                if name == MACH_PORT_NULL {
                    return Err(
                        SpawnFailure {
                            error: BootstrapError::InvalidMessage,
                            request_termination: false,
                        },
                    );
                }
                self.receive = name;
                self.action = SpawnAction::MakeSend;
            },
            (SpawnAction::MakeSend, SpawnEvent::Status(status)) => {
                match mach("mach_port_insert_right", status) {
                    Err(error) => {
                        return Err(SpawnFailure { error, request_termination: false });
                    },
                    Ok(()) => {
                        self.action = SpawnAction::InitAttributes;
                    },
                }
            },
            (SpawnAction::InitAttributes, SpawnEvent::Status(status)) => {
                match spawn_result(status) {
                    Err(error) => {
                        return Err(SpawnFailure { error, request_termination: false });
                    },
                    Ok(()) => {
                        self.action = SpawnAction::SetSpecialPort;
                    },
                }
            },
            (SpawnAction::SetSpecialPort, SpawnEvent::Status(status)) => {
                match spawn_result(status) {
                    Err(error) => {
                        return Err(SpawnFailure { error, request_termination: false });
                    },
                    Ok(()) => {
                        self.action = if self.fresh_session {
                            SpawnAction::SetFlags
                        } else {
                            SpawnAction::Spawn
                        };
                    },
                }
            },
            (SpawnAction::SetFlags, SpawnEvent::Status(status)) => {
                match spawn_result(status) {
                    Err(error) => {
                        return Err(SpawnFailure { error, request_termination: false });
                    },
                    Ok(()) => {
                        self.action = SpawnAction::PrepareLifecycle;
                    },
                }
            },
            (SpawnAction::PrepareLifecycle, SpawnEvent::Prepared(outcome)) => {
                match outcome {
                    Err(error) => {
                        return Err(
                            SpawnFailure {
                                error: bootstrap_lifecycle_error(error),
                                request_termination: false,
                            },
                        );
                    },
                    Ok(()) => {
                        self.action = SpawnAction::Spawn;
                    },
                }
            },
            (SpawnAction::Spawn, SpawnEvent::Spawned(status, pid)) => {
                match spawn_result(status) {
                    Err(error) => {
                        return Err(SpawnFailure { error, request_termination: false });
                    },
                    Ok(()) => {
                        self.pid = pid;
                        self.action = if self.fresh_session {
                            SpawnAction::Capture
                        } else {
                            SpawnAction::Done
                        };
                    },
                }
            },
            (SpawnAction::Capture, SpawnEvent::Captured(captured)) => {
                match captured {
                    Err(error) => {
                        return Err(
                            SpawnFailure {
                                error: BootstrapError::ExactAuthorityUnavailable {
                                    native_error: bootstrap_native_error(&error),
                                },
                                request_termination: true,
                            },
                        );
                    },
                    Ok(_) => {
                        self.action = SpawnAction::Resume;
                    },
                }
            },
            (SpawnAction::Resume, SpawnEvent::Resumed(outcome)) => {
                match outcome {
                    Err(error) => {
                        return Err(
                            SpawnFailure {
                                error: BootstrapError::Spawn(error),
                                request_termination: true,
                            },
                        );
                    },
                    Ok(()) => {
                        self.action = SpawnAction::Done;
                    },
                }
            },
            _ => {},
        }
        Ok(())
    }

    /// The helper, once everything is done.
    pub fn finish(self) -> (r: Option<SpawnedHelper>)
        ensures
            match r {
                None => self@.action != SpawnAction::Done,
                Some(helper) => {
                    &&& self@.action == SpawnAction::Done
                    &&& helper@ == (HelperModel {
                        pid: self@.pid,
                        nonce: self@.nonce,
                        receive: Some(self@.receive),
                        exact: self@.fresh_session,
                    })
                },
            },
    {
        match self.action {
            SpawnAction::Done => Some(
                SpawnedHelper::spawned(self.pid, self.nonce, self.receive, self.fresh_session),
            ),
            _ => None,
        }
    }
}

/// What a helper is given, and the order in which it is spawned.
pub struct HelperPlan {
    pub arguments: Vec<Vec<u8>>,
    pub environment: Vec<Vec<u8>>,
    pub launch: HelperSpawn,
}

/// The environment that starts with `given`.
pub open spec fn told(given: Seq<Seq<u8>>, nonce: Seq<u8>, parent_pid: u32) -> Seq<Seq<u8>> {
    given.push(environment::variable(ENV_NONCE@, environment::hex_of(nonce))).push(
        environment::variable(ENV_PARENT_PID@, environment::decimal_of(parent_pid as nat)),
    )
}

impl SpawnedHelper {
    /// Plans a helper that inherits the environment of its parent, in the session of its parent.
    pub fn spawn(
        path: &[u8],
        arguments: &Vec<Vec<u8>>,
        parent_environment: &Vec<(Vec<u8>, Vec<u8>)>,
        nonce: [u8; 32],
        parent_pid: u32,
    ) -> (r: Result<HelperPlan, BootstrapError>)
        ensures
            match r {
                Err(error) => bytes::all_zero(nonce@)
                    && error == BootstrapError::InvalidEnvironment,
                Ok(plan) => {
                    &&& !bytes::all_zero(nonce@)
                    &&& bytes::strings(plan.arguments@) == seq![path@] + bytes::strings(arguments@)
                    &&& bytes::strings(plan.environment@) == told(
                        environment::inherited(environment::pairs(parent_environment@)),
                        nonce@,
                        parent_pid,
                    )
                    &&& plan.launch@ == (SpawnModel {
                        action: SpawnAction::AllocateReceive,
                        fresh_session: false,
                        nonce: nonce@,
                        receive: MACH_PORT_NULL,
                        pid: 0,
                    })
                },
            },
    {
        match HelperSpawn::begin(nonce, false) {
            Err(error) => Err(error),
            Ok(launch) => Ok(
                HelperPlan {
                    arguments: helper_arguments(path, arguments, false),
                    environment: helper_environment(
                        inherited_environment(parent_environment),
                        &nonce,
                        parent_pid,
                    ),
                    launch,
                },
            ),
        }
    }

    /// Plans a helper with exactly these arguments and this environment, in a fresh session that
    /// an exact lifecycle owns.
    pub fn spawn_explicit(
        path: &[u8],
        arguments: &Vec<Vec<u8>>,
        environment: &Vec<Vec<u8>>,
        nonce: [u8; 32],
        parent_pid: u32,
    ) -> (r: Result<HelperPlan, BootstrapError>)
        ensures
            match r {
                Err(error) => bytes::all_zero(nonce@)
                    && error == BootstrapError::InvalidEnvironment,
                Ok(plan) => {
                    &&& !bytes::all_zero(nonce@)
                    &&& bytes::strings(plan.arguments@) == bytes::strings(arguments@)
                    &&& bytes::strings(plan.environment@) == told(
                        bytes::strings(environment@),
                        nonce@,
                        parent_pid,
                    )
                    &&& plan.launch@ == (SpawnModel {
                        action: SpawnAction::AllocateReceive,
                        fresh_session: true,
                        nonce: nonce@,
                        receive: MACH_PORT_NULL,
                        pid: 0,
                    })
                },
            },
    {
        match HelperSpawn::begin(nonce, true) {
            Err(error) => Err(error),
            Ok(launch) => Ok(
                HelperPlan {
                    arguments: helper_arguments(path, arguments, true),
                    environment: helper_environment(copy_strings(environment), &nonce, parent_pid),
                    launch,
                },
            ),
        }
    }
}

/// How many actions are left at most.
pub open spec fn actions_left(action: SpawnAction) -> int {
    match action {
        SpawnAction::AllocateReceive => 9,
        SpawnAction::MakeSend => 8,
        SpawnAction::InitAttributes => 7,
        SpawnAction::SetSpecialPort => 6,
        SpawnAction::SetFlags => 5,
        SpawnAction::PrepareLifecycle => 4,
        SpawnAction::Spawn => 3,
        SpawnAction::Capture => 2,
        SpawnAction::Resume => 1,
        SpawnAction::Done => 0,
    }
}

/// A spawn always ends, and a helper in a fresh session runs no instruction before its identity is
/// captured: it is resumed only after its capture, and is there only once it was resumed. No
/// failure asks for a termination before there is a process whose capture was tried.
pub proof fn law_capture_precedes_resume(spawn: SpawnModel, event: SpawnEvent)
    requires
        comes_of(spawn.action, event),
    ensures
        match spawn.after(event) {
            Ok(next) => {
                &&& actions_left(next.action) < actions_left(spawn.action)
                &&& next.fresh_session == spawn.fresh_session && next.nonce == spawn.nonce
                &&& next.action == SpawnAction::Resume ==> spawn.action == SpawnAction::Capture && (
                event matches SpawnEvent::Captured(Ok(_)))
                &&& next.action == SpawnAction::Done && spawn.fresh_session ==> spawn.action
                    == SpawnAction::Resume && (event matches SpawnEvent::Resumed(Ok(_)))
            },
            Err(failure) => failure.request_termination ==> spawn.action == SpawnAction::Capture
                || spawn.action == SpawnAction::Resume,
        },
{
}

/// A spawn that nothing disturbs comes to its end, with the port that was allocated and the process
/// that was spawned: in a session of its own it is prepared, captured and resumed, and otherwise it
/// runs at once.
pub proof fn law_good_spawn_comes_to_its_end(
    spawn: SpawnModel,
    receive: u32,
    pid: u32,
    captured: AuditToken,
)
    requires
        spawn.action == SpawnAction::AllocateReceive,
        receive != 0,
    ensures
        ({
            let done = SpawnEvent::Status(0);
            let allocated = spawn.after(SpawnEvent::Allocated(0, receive))->Ok_0;
            let ported = allocated.after(done)->Ok_0.after(done)->Ok_0.after(done)->Ok_0;
            let ready = if spawn.fresh_session {
                ported.after(done)->Ok_0.after(SpawnEvent::Prepared(Ok(())))->Ok_0
            } else {
                ported
            };
            let running = ready.after(SpawnEvent::Spawned(0, pid))->Ok_0;
            let end = if spawn.fresh_session {
                running.after(SpawnEvent::Captured(Ok(captured)))->Ok_0.after(
                    SpawnEvent::Resumed(Ok(())),
                )->Ok_0
            } else {
                running
            };
            &&& ready.action == SpawnAction::Spawn
            &&& end == (SpawnModel { action: SpawnAction::Done, receive, pid, ..spawn })
        }),
{
}

/// A spawn fails only for what failed, and tells it; once the process is there, its end is asked
/// for.
pub proof fn law_spawn_tells_what_failed(
    spawn: SpawnModel,
    event: SpawnEvent,
    status: i32,
    name: u32,
)
    requires
        comes_of(spawn.action, event),
    ensures
        spawn.after(event) is Err <==> {
            ||| event matches SpawnEvent::Allocated(status, name) && (status != 0 || name == 0)
            ||| event matches SpawnEvent::Status(status) && status != 0
            ||| event matches SpawnEvent::Prepared(outcome) && outcome is Err
            ||| event matches SpawnEvent::Spawned(status, pid) && status != 0
            ||| event matches SpawnEvent::Captured(captured) && captured is Err
            ||| event matches SpawnEvent::Resumed(outcome) && outcome is Err
        },
        spawn.after(event) matches Err(failure) ==> {
            &&& failure.request_termination <==> spawn.action == SpawnAction::Capture
                || spawn.action == SpawnAction::Resume
            &&& event == SpawnEvent::Allocated(0, 0) ==> failure.error
                == BootstrapError::InvalidMessage
            &&& event == SpawnEvent::Allocated(status, name) && status != 0 ==> (
            failure.error matches BootstrapError::Mach { code, .. } && code == status)
            &&& event == SpawnEvent::Status(status) && spawn.action == SpawnAction::MakeSend ==> (
            failure.error matches BootstrapError::Mach { code, .. } && code == status)
            &&& event == SpawnEvent::Status(status) && spawn.action != SpawnAction::MakeSend
                ==> failure.error == BootstrapError::Spawn(status)
            &&& event == SpawnEvent::Spawned(status, name) ==> failure.error
                == BootstrapError::Spawn(status)
            &&& event == SpawnEvent::Resumed(Err(status)) ==> failure.error
                == BootstrapError::Spawn(status)
            &&& event is Captured ==> failure.error is ExactAuthorityUnavailable
        },
{
}

/// A helper is told everything that is given to it, in its order, and then the nonce and the
/// number of its parent.
pub proof fn law_helper_is_told_everything(given: Seq<Seq<u8>>, nonce: Seq<u8>, parent_pid: u32)
    ensures
        ({
            let told = told(given, nonce, parent_pid);
            &&& told.len() == given.len() + 2
            &&& told.subrange(0, given.len() as int) == given
            &&& told[given.len() as int] == ENV_NONCE@ + seq![0x3du8] + environment::hex_of(nonce)
            &&& told[given.len() as int + 1] == ENV_PARENT_PID@ + seq![0x3du8]
                + environment::decimal_of(parent_pid as nat)
        }),
{
    assert(told(given, nonce, parent_pid).subrange(0, given.len() as int) =~= given);
}

} // verus!
