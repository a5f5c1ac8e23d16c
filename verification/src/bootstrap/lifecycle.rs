//! The life of a helper as its one owner sees it: ending it exactly, and reaping it once.

use vstd::prelude::*;
use crate::mach::{same_token, AuditToken};
use crate::bootstrap::error;
use crate::bootstrap::error::{
    bootstrap_lifecycle_transport_error, BootstrapError, PeerState, SessionTransportError,
};
use crate::wait_status;
use crate::wait_status::{traced_stop_signal, EINTR, ESRCH};

verus! {

/// Option of a wait that returns at once.
pub const WNOHANG: i32 = 1;

/// Option of a wait that also reports stops.
pub const WUNTRACED: i32 = 2;

/// Both options.
pub const WNOHANG_WUNTRACED: i32 = 3;

/// How a child ended.
#[derive(Clone, Copy, Debug, PartialEq, Eq, Structural)]
pub enum ChildExitStatus {
    /// It exited with this code.
    Exited(i32),
    /// A signal ended it.
    Signaled {
        /// The signal.
        signal: i32,
        /// Whether it left a core.
        dumped_core: bool,
    },
}

/// What is known of the descendants of a child.
#[derive(Clone, Copy, Debug, PartialEq, Eq, Structural)]
pub enum DescendantCleanupStatus {
    /// The child led a group of its own, and nothing was verified of it.
    FreshGroupUnverified,
}

/// What the cleanup of a child came to.
#[derive(Clone, Copy, Debug, PartialEq, Eq)]
pub struct ChildCleanupFacts {
    pub exit: Option<ChildExitStatus>,
    pub descendants: DescendantCleanupStatus,
    pub native_error: Option<i32>,
}

/// How a wait status says that a child ended; `None` for one that is stopped.
pub open spec fn ended_as(status: i32) -> Option<ChildExitStatus> {
    if status & 0x7f == 0 {
        Some(ChildExitStatus::Exited((status >> 8) & 0xff))
    } else if status & 0x7f != 0x7f {
        Some(ChildExitStatus::Signaled { signal: status & 0x7f, dumped_core: status & 0x80 != 0 })
    } else {
        None
    }
}

/// The facts of a cleanup: how the child ended where that is known, and a native error where
/// there was one.
pub fn mac_child_cleanup_facts(result: Result<i32, SessionTransportError>) -> (r: ChildCleanupFacts)
    ensures
        r.descendants == DescendantCleanupStatus::FreshGroupUnverified,
        r.exit == (match result {
            Ok(status) => ended_as(status),
            Err(_) => None,
        }),
        r.native_error == (match result {
            Err(SessionTransportError::Native(code)) => code,
            _ => None,
        }),
{
    let descendants = DescendantCleanupStatus::FreshGroupUnverified;
    match result {
        Ok(status) => {
            let exit = if status & 0x7f == 0 {
                Some(ChildExitStatus::Exited((status >> 8) & 0xff))
            } else if status & 0x7f != 0x7f {
                Some(
                    ChildExitStatus::Signaled {
                        signal: status & 0x7f,
                        dumped_core: status & 0x80 != 0,
                    },
                )
            } else {
                None
            };
            ChildCleanupFacts { exit, descendants, native_error: None }
        },
        Err(SessionTransportError::Native(code)) => ChildCleanupFacts {
            exit: None,
            descendants,
            native_error: code,
        },
        Err(_) => ChildCleanupFacts { exit: None, descendants, native_error: None },
    }
}

/// The facts of a cleanup without an owner that could have seen anything.
pub fn unowned_cleanup_facts() -> (r: ChildCleanupFacts)
    ensures
        r.exit is None,
        r.descendants == DescendantCleanupStatus::FreshGroupUnverified,
        r.native_error is None,
{
    ChildCleanupFacts {
        exit: None,
        descendants: DescendantCleanupStatus::FreshGroupUnverified,
        native_error: None,
    }
}

/// The process that a numeric termination may address; `None` where the number names no single
/// process.
pub fn terminate_and_reap(pid: i32) -> (r: Option<i32>)
    ensures
        r == (if pid <= 0 {
            None
        } else {
            Some(pid)
        }),
{
    if pid <= 0 {
        None
    } else {
        Some(pid)
    }
}

/// Takes the status of a native call and the error that it left.
pub fn native_outcome(status: i32, errno: Option<i32>) -> (r: Result<(), SessionTransportError>)
    ensures
        r == (if status == 0 {
            Ok(())
        } else {
            Err(SessionTransportError::Native(errno))
        }),
{
    if status == 0 {
        Ok(())
    } else {
        Err(SessionTransportError::Native(errno))
    }
}

/// What came of a signal to an exact execution.
pub open spec fn signalled(status: i32, errno: Option<i32>) -> Result<(), i32> {
    if status == 0 {
        Ok(())
    } else {
        Err(
            match errno {
                Some(error) => error,
                None => status,
            },
        )
    }
}

/// Takes the status of a signal to an exact execution and the error that it left.
pub fn signal_outcome(status: i32, errno: Option<i32>) -> (r: Result<(), i32>)
    ensures
        r == signalled(status, errno),
{
    if status == 0 {
        Ok(())
    } else {
        match errno {
            Some(error) => Err(error),
            None => Err(status),
        }
    }
}

/// What a wait answered.
#[derive(Clone, Copy, Debug, PartialEq, Eq)]
pub struct WaitAnswer {
    /// The process, zero, or less on failure.
    pub result: i32,
    /// The status of the process.
    pub status: i32,
    /// The error of a failure.
    pub errno: Option<i32>,
}

/// What to do after a look for a traced stop.
#[derive(Clone, Copy, Debug, PartialEq, Eq)]
pub enum TracedStopStep {
    /// The child is stopped, with this status.
    Stopped(i32),
    /// There is no stop to wait for.
    Failed(SessionTransportError),
    /// Look again at once.
    Again,
    /// Look again in a millisecond.
    Sleep,
}

/// What a look for a traced stop of `pid` amounts to.
pub open spec fn traced_stop_after(pid: i32, answer: WaitAnswer, expired: bool) -> TracedStopStep {
    if answer.result == pid {
        if wait_status::stop_signal(answer.status) is Some {
            TracedStopStep::Stopped(answer.status)
        } else {
            TracedStopStep::Failed(SessionTransportError::PeerExited)
        }
    } else if answer.result < 0 {
        if answer.errno == Some(EINTR) {
            TracedStopStep::Again
        } else {
            TracedStopStep::Failed(SessionTransportError::Native(answer.errno))
        }
    } else if expired {
        TracedStopStep::Failed(SessionTransportError::DeadlineExpired)
    } else {
        TracedStopStep::Sleep
    }
}

fn interrupted(errno: Option<i32>) -> (r: bool)
    ensures
        r == (errno == Some(EINTR)),
{
    match errno {
        Some(error) => error == EINTR,
        None => false,
    }
}

/// Judges a look for a traced stop of `pid`.
pub fn wait_for_traced_stop(pid: i32, answer: WaitAnswer, expired: bool) -> (r: TracedStopStep)
    ensures
        r == traced_stop_after(pid, answer, expired),
{
    if answer.result == pid {
        match traced_stop_signal(answer.status) {
            Some(_) => TracedStopStep::Stopped(answer.status),
            None => TracedStopStep::Failed(SessionTransportError::PeerExited),
        }
    } else if answer.result < 0 {
        if interrupted(answer.errno) {
            TracedStopStep::Again
        } else {
            TracedStopStep::Failed(SessionTransportError::Native(answer.errno))
        }
    } else if expired {
        TracedStopStep::Failed(SessionTransportError::DeadlineExpired)
    } else {
        TracedStopStep::Sleep
    }
}

/// What a lifecycle knows of its child.
#[verifier::ext_equal]
pub struct LifecycleModel {
    /// How the child ended, once it is reaped.
    pub exit_status: Option<i32>,
    /// The last failure of a signal or a wait.
    pub last_error: Option<i32>,
    /// The name of the task, where it was captured.
    pub task_name: Option<u32>,
    /// The execution that may be signalled.
    pub audit_token: Option<AuditToken>,
}

/// What a lifecycle knows of its child.
pub struct MacChildLifecycleState {
    reaped: bool,
    last_error: Option<i32>,
    exit_status: Option<i32>,
    task_name: Option<u32>,
    audit_token: Option<AuditToken>,
}

impl View for MacChildLifecycleState {
    type V = LifecycleModel;

    closed spec fn view(&self) -> LifecycleModel {
        LifecycleModel {
            exit_status: self.exit_status,
            last_error: self.last_error,
            task_name: self.task_name,
            audit_token: self.audit_token,
        }
    }
}

/// What a caller that waits for the end of a child does.
#[derive(Clone, Copy, Debug, PartialEq, Eq)]
pub enum StatusStep {
    /// Nothing more: this is the outcome.
    Ready(Result<i32, SessionTransportError>),
    /// Wait until something changes, or the deadline comes.
    Wait,
}

impl LifecycleModel {
    /// What a poll says.
    pub open spec fn polled(self) -> Result<PeerState, SessionTransportError> {
        if self.exit_status is Some {
            Ok(PeerState::ExitedUnknown)
        } else {
            match self.last_error {
                Some(error) => Err(SessionTransportError::Native(Some(error))),
                None => Ok(PeerState::Running),
            }
        }
    }

    /// What a caller that waits for the end does. A vanished execution is waited for: the child
    /// may still be there to be reaped.
    pub open spec fn awaited(self, expired: bool) -> StatusStep {
        match (self.exit_status, self.last_error) {
            (Some(status), _) => StatusStep::Ready(Ok(status)),
            (None, Some(error)) => if error != ESRCH || expired {
                StatusStep::Ready(Err(SessionTransportError::Native(Some(error))))
            } else {
                StatusStep::Wait
            },
            (None, None) => if expired {
                StatusStep::Ready(Err(SessionTransportError::DeadlineExpired))
            } else {
                StatusStep::Wait
            },
        }
    }

    /// What it takes to accept an authenticated execution: where the task is known, it has to be
    /// its current one.
    pub open spec fn accepts(
        self,
        current: Result<AuditToken, BootstrapError>,
        audit: AuditToken,
    ) -> Result<(), SessionTransportError> {
        match (self.task_name, current) {
            (None, _) => Ok(()),
            (Some(_), Err(error)) => Err(error::as_transport(error)),
            (Some(_), Ok(token)) => if token == audit {
                Ok(())
            } else {
                Err(SessionTransportError::IdentityMismatch)
            },
        }
    }
}

impl MacChildLifecycleState {
    #[verifier::type_invariant]
    spec fn reaped_with_a_status(self) -> bool {
        self.reaped <==> self.exit_status is Some
    }

    /// Nothing is known yet.
    pub fn prepare() -> (r: MacChildLifecycleState)
        ensures
            r@ == (LifecycleModel {
                exit_status: None,
                last_error: None,
                task_name: None,
                audit_token: None,
            }),
    {
        MacChildLifecycleState {
            reaped: false,
            last_error: None,
            exit_status: None,
            task_name: None,
            audit_token: None,
        }
    }

    /// Records the task and the execution of the child.
    pub fn install_task_identity(&mut self, task_name: u32, audit_token: AuditToken)
        ensures
            final(self)@ == (LifecycleModel {
                task_name: Some(task_name),
                audit_token: Some(audit_token),
                ..old(self)@
            }),
    {
        proof {
            use_type_invariant(&*self);
        }
        self.task_name = Some(task_name);
        self.audit_token = Some(audit_token);
    }

    /// The name of the task, where it was captured.
    pub fn task_name(&self) -> (r: Option<u32>)
        ensures
            r == self@.task_name,
    {
        self.task_name
    }

    /// The execution that may be signalled.
    pub fn audit_token(&self) -> (r: Option<AuditToken>)
        ensures
            r == self@.audit_token,
    {
        self.audit_token
    }

    /// Records the execution that sent an authenticated message, if it is the current one of the
    /// task. `current` is what the task said; it is not looked at where no task is known.
    pub fn install_authenticated_audit_token(
        &mut self,
        current: Result<AuditToken, BootstrapError>,
        audit_token: AuditToken,
    ) -> (r: Result<(), SessionTransportError>)
        ensures
            r == old(self)@.accepts(current, audit_token),
            final(self)@ == (if r is Ok {
                LifecycleModel { audit_token: Some(audit_token), ..old(self)@ }
            } else {
                old(self)@
            }),
    {
        proof {
            use_type_invariant(&*self);
        }
        match self.task_name {
            None => {},
            Some(_) => match current {
                Err(error) => {
                    return Err(bootstrap_lifecycle_transport_error(error));
                },
                Ok(token) => {
                    if !same_token(token, audit_token) {
                        return Err(SessionTransportError::IdentityMismatch);
                    }
                },
            },
        }
        self.audit_token = Some(audit_token);
        Ok(())
    }

    /// What is known of the child now.
    pub fn try_poll(&self) -> (r: Result<PeerState, SessionTransportError>)
        ensures
            r == self@.polled(),
    {
        proof {
            use_type_invariant(self);
        }
        if self.reaped {
            Ok(PeerState::ExitedUnknown)
        } else {
            match self.last_error {
                Some(error) => Err(SessionTransportError::Native(Some(error))),
                None => Ok(PeerState::Running),
            }
        }
    }

    /// Whether the child exited with status zero.
    pub fn exited_successfully(&self) -> (r: bool)
        ensures
            r == (self@.exit_status == Some(0i32)),
    {
        match self.exit_status {
            Some(status) => status == 0,
            None => false,
        }
    }

    /// What a caller that waits for the end does.
    pub fn wait_for_status(&self, expired: bool) -> (r: StatusStep)
        ensures
            r == self@.awaited(expired),
    {
        proof {
            use_type_invariant(self);
        }
        match self.exit_status {
            Some(status) => {
                return StatusStep::Ready(Ok(status));
            },
            None => {},
        }
        match self.last_error {
            Some(error) => {
                if error != ESRCH || expired {
                    StatusStep::Ready(Err(SessionTransportError::Native(Some(error))))
                } else {
                    StatusStep::Wait
                }
            },
            None => {
                if expired {
                    StatusStep::Ready(Err(SessionTransportError::DeadlineExpired))
                } else {
                    StatusStep::Wait
                }
            },
        }
    }

    fn record_exit(&mut self, status: i32)
        ensures
            final(self)@ == (LifecycleModel { exit_status: Some(status), ..old(self)@ }),
    {
        proof {
            use_type_invariant(&*self);
        }
        let ended = MacChildLifecycleState {
            reaped: true,
            last_error: self.last_error,
            exit_status: Some(status),
            task_name: self.task_name,
            audit_token: self.audit_token,
        };
        *self = ended;
    }

    fn record_error(&mut self, error: Option<i32>)
        ensures
            final(self)@ == (LifecycleModel { last_error: error, ..old(self)@ }),
    {
        proof {
            use_type_invariant(&*self);
        }
        self.last_error = error;
    }
}

/// What the reaper does next.
#[derive(Clone, Copy, Debug, PartialEq, Eq)]
pub enum ReaperAction {
    /// Nothing more.
    Return,
    /// Look again in a millisecond, or when something changes.
    Sleep,
    /// Look again at once.
    Again,
    /// Stop the traced child by its number.
    StopTraced,
    /// Kill exactly this execution.
    KillExact(AuditToken),
    /// Wait for the child.
    Wait,
    /// Kill the stopped child as its tracer.
    KillStopped,
}

/// What the reaper keeps for itself.
#[derive(Clone, Copy, Debug, PartialEq, Eq)]
pub struct MacChildReaper {
    /// Whether the child was signalled.
    pub termination_attempted: bool,
    /// A failed signal that has not been published.
    pub pending_signal_error: Option<i32>,
}

impl MacChildReaper {
    /// What the reaper does at the start of a round. A child is signalled at most once: a traced
    /// one by its number, which it holds until it is reaped, any other by its exact execution and
    /// never by its number.
    pub open spec fn looks(
        self,
        pid: i32,
        terminate: bool,
        traced: bool,
        audit_token: Option<AuditToken>,
    ) -> ReaperAction {
        if pid == 0 {
            if terminate {
                ReaperAction::Return
            } else {
                ReaperAction::Sleep
            }
        } else if terminate && !self.termination_attempted {
            match (traced, audit_token) {
                (true, _) => ReaperAction::StopTraced,
                (false, Some(token)) => ReaperAction::KillExact(token),
                (false, None) => ReaperAction::Wait,
            }
        } else {
            ReaperAction::Wait
        }
    }

    /// The reaper after it decided on an action.
    pub open spec fn committed(self, action: ReaperAction) -> MacChildReaper {
        if action is StopTraced || action is KillExact {
            MacChildReaper { termination_attempted: true, ..self }
        } else {
            self
        }
    }

    /// The reaper after a stop by number: a child that is gone is no failure.
    pub open spec fn after_stop(self, outcome: Result<(), Option<i32>>) -> MacChildReaper {
        match outcome {
            Err(Some(error)) if error != ESRCH => MacChildReaper {
                pending_signal_error: Some(error),
                ..self
            },
            _ => self,
        }
    }

    /// The reaper after an exact signal: every failure is kept.
    pub open spec fn after_kill(self, outcome: Result<(), i32>) -> MacChildReaper {
        match outcome {
            Err(error) => MacChildReaper { pending_signal_error: Some(error), ..self },
            Ok(()) => self,
        }
    }

    /// The reaper after a kill as tracer: every failure is kept.
    pub open spec fn after_trace_kill(self, outcome: Result<(), Option<i32>>) -> MacChildReaper {
        match outcome {
            Err(Some(error)) => MacChildReaper { pending_signal_error: Some(error), ..self },
            Err(None) => MacChildReaper { pending_signal_error: Some(ESRCH), ..self },
            Ok(()) => self,
        }
    }

    /// What a wait amounts to.
    pub open spec fn waited(pid: i32, answer: WaitAnswer) -> ReaperAction {
        if answer.result == pid {
            if wait_status::stop_signal(answer.status) is Some {
                ReaperAction::KillStopped
            } else {
                ReaperAction::Return
            }
        } else if answer.result < 0 {
            if answer.errno == Some(EINTR) {
                ReaperAction::Again
            } else {
                ReaperAction::Return
            }
        } else {
            ReaperAction::Sleep
        }
    }

    /// The reaper after a wait, with what it publishes: an end, a failed wait, or the signal that
    /// failed before.
    pub open spec fn published(
        self,
        state: LifecycleModel,
        pid: i32,
        answer: WaitAnswer,
    ) -> (MacChildReaper, LifecycleModel) {
        match MacChildReaper::waited(pid, answer) {
            ReaperAction::Return => if answer.result == pid {
                (self, LifecycleModel { exit_status: Some(answer.status), ..state })
            } else {
                (self, LifecycleModel { last_error: answer.errno, ..state })
            },
            ReaperAction::Sleep => match self.pending_signal_error {
                Some(error) => (
                    MacChildReaper { pending_signal_error: None, ..self },
                    LifecycleModel { last_error: Some(error), ..state },
                ),
                None => (self, state),
            },
            _ => (self, state),
        }
    }

    /// A reaper that has done nothing.
    pub fn new() -> (r: MacChildReaper)
        ensures
            r == (MacChildReaper { termination_attempted: false, pending_signal_error: None }),
    {
        MacChildReaper { termination_attempted: false, pending_signal_error: None }
    }

    /// Starts a round.
    pub fn look(
        &mut self,
        pid: i32,
        terminate: bool,
        traced: bool,
        state: &MacChildLifecycleState,
    ) -> (r: ReaperAction)
        ensures
            r == old(self).looks(pid, terminate, traced, state@.audit_token),
            *final(self) == old(self).committed(r),
    {
        if pid == 0 {
            return if terminate {
                ReaperAction::Return
            } else {
                ReaperAction::Sleep
            };
        }
        if terminate && !self.termination_attempted {
            if traced {
                self.termination_attempted = true;
                return ReaperAction::StopTraced;
            }
            match state.audit_token() {
                Some(token) => {
                    self.termination_attempted = true;
                    return ReaperAction::KillExact(token);
                },
                None => {},
            }
        }
        ReaperAction::Wait
    }

    /// Takes what came of a stop by number.
    pub fn stopped(&mut self, outcome: Result<(), Option<i32>>)
        ensures
            *final(self) == old(self).after_stop(outcome),
    {
        match outcome {
            Ok(()) => {},
            Err(errno) => {
                let error: i32 = match errno {
                    Some(error) => error,
                    None => ESRCH,
                };
                if error != ESRCH {
                    self.pending_signal_error = Some(error);
                }
            },
        }
    }

    /// Takes what came of an exact kill.
    pub fn killed(&mut self, outcome: Result<(), i32>)
        ensures
            *final(self) == old(self).after_kill(outcome),
    {
        match outcome {
            Ok(()) => {},
            Err(error) => {
                self.pending_signal_error = Some(error);
            },
        }
    }

    /// Takes what came of a kill as tracer.
    pub fn trace_killed(&mut self, outcome: Result<(), Option<i32>>)
        ensures
            *final(self) == old(self).after_trace_kill(outcome),
    {
        match outcome {
            Ok(()) => {},
            Err(errno) => {
                self.pending_signal_error = match errno {
                    Some(error) => Some(error),
                    None => Some(ESRCH),
                };
            },
        }
    }

    /// The options of a wait: stops are asked for once a traced child was stopped.
    pub fn wait_options(&self, traced: bool) -> (r: i32)
        ensures
            r == (if self.termination_attempted && traced {
                WNOHANG_WUNTRACED
            } else {
                WNOHANG
            }),
    {
        if self.termination_attempted && traced {
            WNOHANG_WUNTRACED
        } else {
            WNOHANG
        }
    }

    /// Takes what a wait answered, and publishes what it says.
    pub fn take_wait(&mut self, state: &mut MacChildLifecycleState, pid: i32, answer: WaitAnswer)
        -> (r: ReaperAction)
        ensures
            r == MacChildReaper::waited(pid, answer),
            (*final(self), final(state)@) == old(self).published(old(state)@, pid, answer),
    {
        if answer.result == pid {
            return match traced_stop_signal(answer.status) {
                Some(_) => ReaperAction::KillStopped,
                None => {
                    state.record_exit(answer.status);
                    ReaperAction::Return
                },
            };
        }
        if answer.result < 0 {
            if interrupted(answer.errno) {
                return ReaperAction::Again;
            }
            state.record_error(answer.errno);
            return ReaperAction::Return;
        }
        match self.pending_signal_error {
            Some(error) => {
                self.pending_signal_error = None;
                state.record_error(Some(error));
            },
            None => {},
        }
        ReaperAction::Sleep
    }
}

/// A child is signalled at most once, never by its number unless it is traced, and never before
/// there is a child and its end was asked for.
pub proof fn law_termination_is_exact_and_single(
    reaper: MacChildReaper,
    pid: i32,
    terminate: bool,
    traced: bool,
    audit_token: Option<AuditToken>,
    later_pid: i32,
    later_terminate: bool,
    later_traced: bool,
    later_token: Option<AuditToken>,
)
    ensures
        ({
            let action = reaper.looks(pid, terminate, traced, audit_token);
            let later = reaper.committed(action).looks(
                later_pid,
                later_terminate,
                later_traced,
                later_token,
            );
            &&& action is StopTraced || action is KillExact ==> pid != 0 && terminate
                && !reaper.termination_attempted && !(later is StopTraced)
                && !(later is KillExact)
            &&& action is StopTraced ==> traced
            &&& action matches ReaperAction::KillExact(token) ==> !traced && audit_token == Some(
                token,
            )
        }),
{
}

/// What is published stays: an end that was reaped is never taken back, a stop is never taken for
/// an end, and a failed signal is not lost before it is published or the child has ended.
pub proof fn law_reaping_is_final(
    reaper: MacChildReaper,
    state: LifecycleModel,
    pid: i32,
    answer: WaitAnswer,
)
    ensures
        ({
            let (after, known) = reaper.published(state, pid, answer);
            let action = MacChildReaper::waited(pid, answer);
            &&& known.exit_status != state.exit_status ==> action is Return && answer.result == pid
                && known.exit_status == Some(answer.status)
                    && wait_status::stop_signal(answer.status) is None
            &&& known.exit_status is Some && known.exit_status != state.exit_status
                ==> known.polled() == Ok::<_, SessionTransportError>(PeerState::ExitedUnknown)
            &&& reaper.pending_signal_error is Some && !(action is Return)
                ==> after.pending_signal_error == reaper.pending_signal_error
                || known.last_error == reaper.pending_signal_error
            &&& after.termination_attempted == reaper.termination_attempted
            &&& known.task_name == state.task_name && known.audit_token == state.audit_token
        }),
{
}

/// A caller that waits for the end is answered exactly once there is an answer: by the end where
/// the child has ended, by an error that is not merely a vanished execution, and that the deadline
/// has passed only once it has. Before that it waits, and after that no longer.
pub proof fn law_waiting_ends_for_a_reason(state: LifecycleModel, expired: bool, status: i32)
    ensures
        state.awaited(expired) == StatusStep::Ready(Ok(status)) <==> state.exit_status == Some(
            status,
        ),
        state.awaited(expired) == StatusStep::Ready(Err(SessionTransportError::DeadlineExpired))
            <==> expired && state.exit_status is None && state.last_error is None,
        state.awaited(expired) == StatusStep::Wait <==> !expired && state.exit_status is None && (
        state.last_error is None || state.last_error == Some(3i32)),
        state.exit_status is None && (state.last_error matches Some(error) && (error != 3
            || expired)) ==> state.awaited(expired) == StatusStep::Ready(
            Err(SessionTransportError::Native(state.last_error)),
        ),
{
}

/// A poll tells the end, else the last error, and else that the child runs.
pub proof fn law_poll_tells_what_is_known(state: LifecycleModel)
    ensures
        state.polled() == Ok::<_, SessionTransportError>(PeerState::Running) <==>
            state.exit_status is None && state.last_error is None,
        state.polled() == Ok::<_, SessionTransportError>(PeerState::ExitedUnknown) <==>
            state.exit_status is Some,
        state.exit_status is None && state.last_error is Some ==> state.polled() == Err::<
            PeerState,
            _,
        >(SessionTransportError::Native(state.last_error)),
{
}

/// An execution is accepted exactly where no task is known, or where it is the current one of the
/// known task; a task that says another is no match, and one that says nothing is told why.
pub proof fn law_execution_is_the_current_one(
    state: LifecycleModel,
    current: Result<AuditToken, BootstrapError>,
    audit: AuditToken,
)
    ensures
        state.accepts(current, audit) is Ok <==> state.task_name is None || current == Ok::<
            _,
            BootstrapError,
        >(audit),
        state.task_name is Some && (current matches Ok(token) && token != audit) ==> state.accepts(
            current,
            audit,
        ) == Err::<(), _>(SessionTransportError::IdentityMismatch),
        state.task_name is Some && (current matches Err(BootstrapError::Spawn(code)))
            ==> state.accepts(current, audit) == Err::<(), _>(
            SessionTransportError::Native(Some(current->Err_0->Spawn_0)),
        ),
{
}

/// A look for a traced stop is patient: a child that has not changed is looked at again while time
/// remains, and so is one whose wait was interrupted. Its stop is told with its status, its end as
/// an end, and the deadline only once it has passed.
pub proof fn law_traced_stop_is_awaited(pid: i32, answer: WaitAnswer, expired: bool)
    requires
        pid > 0,
    ensures
        ({
            let step = traced_stop_after(pid, answer, expired);
            &&& answer.result >= 0 && answer.result != pid ==> step == (if expired {
                TracedStopStep::Failed(SessionTransportError::DeadlineExpired)
            } else {
                TracedStopStep::Sleep
            })
            &&& answer.result < 0 && answer.errno == Some(4i32) ==> step == TracedStopStep::Again
            &&& answer.result < 0 && answer.errno != Some(4i32) ==> step == TracedStopStep::Failed(
                SessionTransportError::Native(answer.errno),
            )
            &&& answer.result == pid ==> (step == TracedStopStep::Stopped(answer.status) || step
                == TracedStopStep::Failed(SessionTransportError::PeerExited))
            &&& step is Stopped <==> answer.result == pid && wait_status::stop_signal(
                answer.status,
            ) is Some
        }),
{
}

/// How a child ended is told whole: the code that it exited with, or the signal that ended it and
/// whether it left a core.
pub proof fn law_end_is_told_whole(status: i32, code: i32, signal: i32)
    requires
        0 <= code <= 255,
        1 <= signal <= 126,
    ensures
        status == 0x100 * code ==> ended_as(status) == Some(ChildExitStatus::Exited(code)),
        status == signal ==> ended_as(status) == Some(
            ChildExitStatus::Signaled { signal, dumped_core: false },
        ),
        status == 0x80 + signal ==> ended_as(status) == Some(
            ChildExitStatus::Signaled { signal, dumped_core: true },
        ),
        status == 0x100 * code + 0x7f ==> ended_as(status) is None,
{
    assert(0 <= code <= 255 && (status == 0x100 * code + 0x7f) ==> status & 0x7f == 0x7f) by (
    bit_vector);
    assert(0 <= code <= 255 && status == 0x100 * code ==> status & 0x7f == 0 && (status >> 8) & 0xff
        == code) by (bit_vector);
    assert(1 <= signal <= 126 && status == signal ==> status & 0x7f == signal && status & 0x80
        == 0) by (bit_vector);
    assert(1 <= signal <= 126 && status == 0x80 + signal ==> status & 0x7f == signal && status
        & 0x80 != 0) by (bit_vector);
}

/// A termination that is asked for is carried out: a child that has not been signalled yet is, as
/// soon as there is a way to. A reaper without a child sleeps until it has one or is told to end,
/// and with nothing to signal it waits for the child.
pub proof fn law_termination_is_carried_out(
    reaper: MacChildReaper,
    pid: i32,
    terminate: bool,
    traced: bool,
    audit_token: Option<AuditToken>,
)
    ensures
        ({
            let action = reaper.looks(pid, terminate, traced, audit_token);
            let due = pid != 0 && terminate && !reaper.termination_attempted;
            &&& due && traced ==> action == ReaperAction::StopTraced
            &&& due && !traced && audit_token is Some ==> action == ReaperAction::KillExact(
                audit_token->0,
            )
            &&& pid != 0 && !(due && (traced || audit_token is Some)) ==> action
                == ReaperAction::Wait
            &&& pid == 0 ==> action == (if terminate {
                ReaperAction::Return
            } else {
                ReaperAction::Sleep
            })
            &&& reaper.committed(action).termination_attempted == (reaper.termination_attempted || (
            due && (traced || audit_token is Some)))
            &&& reaper.committed(action).pending_signal_error == reaper.pending_signal_error
        }),
{
}

/// A signal that failed is remembered with its error, and one that found no child to stop is not a
/// failure; a signal that was delivered leaves nothing.
pub proof fn law_failed_signals_are_remembered(reaper: MacChildReaper, error: i32)
    ensures
        reaper.after_stop(Ok(())) == reaper,
        reaper.after_stop(Err(None)) == reaper,
        reaper.after_stop(Err(Some(3i32))) == reaper,
        error != 3 ==> reaper.after_stop(Err(Some(error))).pending_signal_error == Some(error),
        reaper.after_kill(Ok(())) == reaper,
        reaper.after_kill(Err(error)).pending_signal_error == Some(error),
        reaper.after_trace_kill(Ok(())) == reaper,
        reaper.after_trace_kill(Err(Some(error))).pending_signal_error == Some(error),
        reaper.after_trace_kill(Err(None)).pending_signal_error == Some(3i32),
        reaper.after_stop(Err(Some(error))).termination_attempted == reaper.termination_attempted,
        reaper.after_kill(Err(error)).termination_attempted == reaper.termination_attempted,
        reaper.after_trace_kill(Err(Some(error))).termination_attempted
            == reaper.termination_attempted,
{
}

/// The reaper stays until its child has ended or cannot be waited for: one that runs is waited for
/// again, one that is stopped is killed. The end is published with its status, a failed wait with
/// its error, and a failed signal at the next quiet moment, once.
pub proof fn law_reaper_stays_until_the_end(
    reaper: MacChildReaper,
    state: LifecycleModel,
    pid: i32,
    answer: WaitAnswer,
)
    requires
        pid > 0,
    ensures
        ({
            let action = MacChildReaper::waited(pid, answer);
            let stopped = wait_status::stop_signal(answer.status) is Some;
            let (after, known) = reaper.published(state, pid, answer);
            &&& answer.result >= 0 && answer.result != pid ==> action == ReaperAction::Sleep
            &&& answer.result < 0 && answer.errno == Some(4i32) ==> action == ReaperAction::Again
            &&& answer.result == pid && stopped ==> action == ReaperAction::KillStopped
            &&& action == ReaperAction::Return <==> answer.result == pid && !stopped || (
            answer.result < 0 && answer.errno != Some(4i32))
            &&& answer.result == pid && !stopped ==> known == (LifecycleModel {
                exit_status: Some(answer.status),
                ..state
            })
            &&& answer.result < 0 && answer.errno != Some(4i32) ==> known == (LifecycleModel {
                last_error: answer.errno,
                ..state
            })
            &&& action == ReaperAction::Sleep && reaper.pending_signal_error is Some ==> known == (
            LifecycleModel { last_error: reaper.pending_signal_error, ..state })
                && after.pending_signal_error is None
            &&& !(action is Return) && (reaper.pending_signal_error is None || !(action is Sleep))
                ==> known == state && after == reaper
        }),
{
}

/// A signal is sent exactly where its status is zero; otherwise its error is told, and its status
/// where it left none.
pub proof fn law_signals_are_told(status: i32, error: i32)
    ensures
        signalled(status, None) is Ok <==> status == 0,
        signalled(status, Some(error)) is Ok <==> status == 0,
        status != 0 ==> signalled(status, Some(error)) == Err::<(), i32>(error),
        status != 0 ==> signalled(status, None) == Err::<(), i32>(status),
{
}

} // verus!
