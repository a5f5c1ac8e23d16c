//! The exact authority of a broker over the one launcher it traces: two stops, one exec, one end.

use vstd::prelude::*;
use crate::bootstrap::identity;
use crate::bootstrap::identity::{IdentityModel, TaskAuditIdentity};
use crate::broker::entry::resume_commit;
use crate::broker::gate::{BrokerEntryError, GateRead};
use crate::broker::image::{FixedLauncherIdentity, LauncherIdentityModel};
use crate::bytes;
use crate::bytes::{is_all_zero, same_bytes};
use crate::mach;
use crate::mach::encode_audit_token;
use crate::supervisor::broker_plan::{
    BoundPlanModel, BrokerTraceReportBinding, ExactParentBrokerLaunchPlan,
};
use crate::supervisor::deadline::SupervisorWireError;
use crate::wait_status;
use crate::wait_status::{
    exact_target_exit, traced_stop_signal, ExactTargetExit, EAGAIN, ECHILD, EINTR, ESRCH, SIGKILL,
    SIGSTOP, SIGTRAP,
};

verus! {

/// Why a launcher was given up.
#[derive(Clone, Copy, Debug, PartialEq, Eq, Structural)]
pub enum LauncherWaitError {
    /// The spawn gave no process.
    InvalidPid,
    /// The service is gone.
    ServiceGone,
    /// The start pipe carried a byte.
    InvalidGate,
    /// The deadline has come.
    DeadlineExpired,
    /// The launcher stopped or ended otherwise than it has to.
    UnexpectedStatus,
    /// The launcher is not the process and image that it has to be.
    IdentityTransition,
    /// A native call failed.
    Native(i32),
}

/// Where the relation to the launcher stands.
#[derive(Clone, Copy, Debug, PartialEq, Eq, Structural)]
pub enum ExactPhase {
    AwaitingInitialStop,
    UnprovenInitialStop,
    AwaitingExecTrap,
    ObservedTracedStop,
    ExecTrapHeld,
    RunningTarget,
    Reaped,
}

/// What the broker does next.
#[derive(Clone, Copy, Debug, PartialEq, Eq, Structural)]
pub enum TraceAction {
    /// Make the start pipe nonblocking.
    OpenGate,
    /// Look at the start pipe and the clock, before the wait for the initial stop.
    CheckInitial,
    /// Wait for the initial stop.
    WaitInitial,
    /// Wait for the start pipe for a moment.
    PollInitial,
    /// Look at the start pipe and the clock, after the initial stop.
    CheckStopped,
    /// Capture the identity of the launcher.
    CaptureLauncher,
    /// Look at the start pipe and the clock, after the capture.
    CheckCaptured,
    /// Look at the start pipe and the clock, before the launcher continues.
    CheckContinue,
    /// Continue the launcher, which proves that it is traced.
    ContinueLauncher,
    /// Look at the start pipe and the clock, after the launcher continued.
    CheckContinued,
    /// Look at the start pipe and the clock, before the wait for the exec.
    CheckExec,
    /// Wait for the exec.
    WaitExec,
    /// Wait for the start pipe for a moment.
    PollExec,
    /// Look at the start pipe and the clock, after the exec.
    CheckTrapped,
    /// Capture the identity of the target.
    CaptureTarget,
    /// Look at the start pipe and the clock, after the transition is proven.
    CheckProven,
    /// Have the code of the target identified.
    VerifySignature,
    /// Report the stops, and wait for the commit.
    Report,
    /// Look at the start pipe before the target is resumed.
    ProbeResume,
    /// Resume the target.
    ResumeTarget,
    /// Look at the start pipe while the target runs.
    ProbeRunning,
    /// Wait for the end of the target.
    WaitRunning,
    /// Wait for the start pipe for a moment.
    PollRunning,
    /// Look at the start pipe once more, after the target stopped or ended.
    ProbeEnded,
    /// Nothing: the target has ended.
    Ended,
    /// Clean up.
    CleanUp,
}

/// What came of an action.
#[derive(Clone, Copy, Debug, PartialEq, Eq)]
pub enum TraceEvent {
    /// Whether an operation went well, with its error where it did not.
    Outcome(Result<(), i32>),
    /// What the start pipe gave, and the time.
    Checked(GateRead, u64),
    /// What a wait for the launcher answered.
    Waited(LauncherWait),
}

/// What a wait for the launcher answered.
#[derive(Clone, Copy, Debug, PartialEq, Eq, Structural)]
pub struct LauncherWait {
    /// The process, zero, or less on failure.
    pub result: i32,
    /// The status of the process.
    pub status: i32,
    /// The error of a failure.
    pub errno: i32,
}

/// What an event leads to.
#[derive(Clone, Copy, Debug, PartialEq, Eq, Structural)]
pub enum TraceStep {
    /// The next action.
    Next,
    /// The launcher is given up, and has to be cleaned up.
    Failed(LauncherWaitError),
    /// The child is gone without this owner; the broker has to stop.
    Abort,
}

/// Whether a phase is the one in which an action is made.
pub open spec fn phase_fits(action: TraceAction, phase: ExactPhase) -> bool {
    match action {
        TraceAction::OpenGate
        | TraceAction::CheckInitial
        | TraceAction::WaitInitial
        | TraceAction::PollInitial => phase == ExactPhase::AwaitingInitialStop,
        TraceAction::CheckStopped
        | TraceAction::CaptureLauncher
        | TraceAction::CheckCaptured
        | TraceAction::CheckContinue
        | TraceAction::ContinueLauncher => phase == ExactPhase::UnprovenInitialStop,
        TraceAction::CheckContinued
        | TraceAction::CheckExec
        | TraceAction::WaitExec
        | TraceAction::PollExec => phase == ExactPhase::AwaitingExecTrap,
        TraceAction::CheckTrapped
        | TraceAction::CaptureTarget
        | TraceAction::CheckProven
        | TraceAction::VerifySignature
        | TraceAction::Report
        | TraceAction::ProbeResume
        | TraceAction::ResumeTarget => phase == ExactPhase::ExecTrapHeld,
        TraceAction::ProbeRunning
        | TraceAction::WaitRunning
        | TraceAction::PollRunning => phase == ExactPhase::RunningTarget,
        TraceAction::ProbeEnded => phase == ExactPhase::ObservedTracedStop || phase
            == ExactPhase::Reaped,
        TraceAction::Ended => phase == ExactPhase::Reaped,
        TraceAction::CleanUp => true,
    }
}

/// Whether an action is made only once the exec of the target is proven.
pub open spec fn needs_exec(action: TraceAction) -> bool {
    match action {
        TraceAction::CheckProven
        | TraceAction::VerifySignature
        | TraceAction::Report
        | TraceAction::ProbeResume
        | TraceAction::ResumeTarget
        | TraceAction::ProbeRunning
        | TraceAction::WaitRunning
        | TraceAction::PollRunning
        | TraceAction::ProbeEnded
        | TraceAction::Ended => true,
        _ => false,
    }
}

/// What a look at the start pipe amounts to; `None` is to look again.
pub open spec fn gate_judged(read: GateRead) -> Option<Result<(), LauncherWaitError>> {
    match read {
        GateRead::End => Some(Err(LauncherWaitError::ServiceGone)),
        GateRead::Byte(_) => Some(Err(LauncherWaitError::InvalidGate)),
        GateRead::Failed(error) => if error == EINTR {
            None
        } else if error == EAGAIN {
            Some(Ok(()))
        } else {
            Some(Err(LauncherWaitError::Native(error)))
        },
    }
}

/// Judges a look at the start pipe; `None` is to look again.
pub fn probe_gate(read: GateRead) -> (r: Option<Result<(), LauncherWaitError>>)
    ensures
        r == gate_judged(read),
{
    match read {
        GateRead::End => Some(Err(LauncherWaitError::ServiceGone)),
        GateRead::Byte(_) => Some(Err(LauncherWaitError::InvalidGate)),
        GateRead::Failed(error) => {
            if error == EINTR {
                None
            } else if error == EAGAIN {
                Some(Ok(()))
            } else {
                Some(Err(LauncherWaitError::Native(error)))
            }
        },
    }
}

/// What follows from a wait for the start pipe for a moment.
pub open spec fn slice_awaited(result: i32, errno: i32) -> Result<(), LauncherWaitError> {
    if result < 0 && errno != EINTR {
        Err(LauncherWaitError::Native(errno))
    } else {
        Ok(())
    }
}

/// Judges a wait for the start pipe for a moment.
pub fn poll_gate_slice(result: i32, errno: i32) -> (r: Result<(), LauncherWaitError>)
    ensures
        r == slice_awaited(result, errno),
{
    if result < 0 && errno != EINTR {
        Err(LauncherWaitError::Native(errno))
    } else {
        Ok(())
    }
}

/// Whether a deadline has not come.
pub fn ensure_deadline(deadline: u64, now: u64) -> (r: Result<(), LauncherWaitError>)
    ensures
        r == (if now >= deadline {
            Err(LauncherWaitError::DeadlineExpired)
        } else {
            Ok(())
        }),
{
    if now >= deadline {
        Err(LauncherWaitError::DeadlineExpired)
    } else {
        Ok(())
    }
}

/// The launcher as its broker sees it.
#[verifier::ext_equal]
pub struct TraceModel {
    pub pid: i32,
    pub phase: ExactPhase,
    pub action: TraceAction,
    /// The identity at the initial stop.
    pub before: Option<IdentityModel>,
    /// The identity at the exec.
    pub after: Option<IdentityModel>,
    /// The last status of the running target.
    pub status: i32,
    /// What the launcher has to be.
    pub expected: LauncherIdentityModel,
    /// What the launcher is to execute, and until when.
    pub plan: BoundPlanModel,
}

impl TraceModel {
    /// The same launcher at another action.
    pub open spec fn at(self, action: TraceAction) -> (TraceModel, TraceStep) {
        (TraceModel { action, ..self }, TraceStep::Next)
    }

    /// The same launcher, given up.
    pub open spec fn failed(self, error: LauncherWaitError) -> (TraceModel, TraceStep) {
        (TraceModel { action: TraceAction::CleanUp, ..self }, TraceStep::Failed(error))
    }

    /// What a look at the start pipe leads to, where a silent start pipe leads to `next`.
    pub open spec fn probed(self, read: GateRead, next: TraceAction) -> (TraceModel, TraceStep) {
        match gate_judged(read) {
            None => (self, TraceStep::Next),
            Some(Err(error)) => self.failed(error),
            Some(Ok(())) => self.at(next),
        }
    }

    /// What a look at the start pipe and the clock leads to, where both allow `next`. The start
    /// pipe comes first.
    pub open spec fn checked(self, read: GateRead, now: u64, next: TraceAction) -> (
        TraceModel,
        TraceStep,
    ) {
        match gate_judged(read) {
            Some(Ok(())) => if now >= self.plan.local_deadline {
                self.failed(LauncherWaitError::DeadlineExpired)
            } else {
                self.at(next)
            },
            _ => self.probed(read, next),
        }
    }

    /// What an operation leads to.
    pub open spec fn led(self, outcome: Result<(), i32>, next: TraceModel) -> (
        TraceModel,
        TraceStep,
    ) {
        match outcome {
            Err(error) => self.failed(LauncherWaitError::Native(error)),
            Ok(()) => (next, TraceStep::Next),
        }
    }

    /// What a wait that found nothing leads to: back to `again`, or on to `poll`.
    pub open spec fn waited_in_vain(
        self,
        wait: LauncherWait,
        again: TraceAction,
        poll: TraceAction,
    ) -> (TraceModel, TraceStep) {
        if wait.result < 0 {
            if wait.errno == EINTR {
                self.at(again)
            } else if wait.errno == ECHILD {
                (self, TraceStep::Abort)
            } else {
                self.failed(LauncherWaitError::Native(wait.errno))
            }
        } else {
            self.at(poll)
        }
    }

    /// What a wait for one of the two stops leads to: the expected stop leads to `held`, another
    /// stop leaves the launcher in the phase `seen`, and an end leaves it reaped.
    pub open spec fn stopped(
        self,
        wait: LauncherWait,
        signal: i32,
        seen: ExactPhase,
        held: TraceModel,
    ) -> (TraceModel, TraceStep) {
        match wait_status::stop_signal(wait.status) {
            None => TraceModel { phase: ExactPhase::Reaped, ..self }.failed(
                LauncherWaitError::UnexpectedStatus,
            ),
            Some(actual) => if actual == signal {
                (held, TraceStep::Next)
            } else {
                TraceModel { phase: seen, ..self }.failed(LauncherWaitError::UnexpectedStatus)
            },
        }
    }

    /// The launcher once an event has come of its action. An event that does not belong to the
    /// action leaves it as it is.
    pub open spec fn on(self, event: TraceEvent) -> (TraceModel, TraceStep) {
        match (self.action, event) {
            (TraceAction::OpenGate, TraceEvent::Outcome(outcome)) => self.led(
                outcome,
                TraceModel { action: TraceAction::CheckInitial, ..self },
            ),
            (TraceAction::CheckInitial, TraceEvent::Checked(read, now)) => self.checked(
                read,
                now,
                TraceAction::WaitInitial,
            ),
            (TraceAction::WaitInitial, TraceEvent::Waited(wait)) => if wait.result == self.pid {
                self.stopped(
                    wait,
                    SIGSTOP,
                    ExactPhase::UnprovenInitialStop,
                    TraceModel {
                        phase: ExactPhase::UnprovenInitialStop,
                        action: TraceAction::CheckStopped,
                        ..self
                    },
                )
            } else {
                self.waited_in_vain(wait, TraceAction::CheckInitial, TraceAction::PollInitial)
            },
            (TraceAction::PollInitial, TraceEvent::Outcome(outcome)) => self.led(
                outcome,
                TraceModel { action: TraceAction::CheckInitial, ..self },
            ),
            (TraceAction::CheckStopped, TraceEvent::Checked(read, now)) => self.checked(
                read,
                now,
                TraceAction::CaptureLauncher,
            ),
            (TraceAction::CheckCaptured, TraceEvent::Checked(read, now)) => self.checked(
                read,
                now,
                TraceAction::CheckContinue,
            ),
            (TraceAction::CheckContinue, TraceEvent::Checked(read, now)) => self.checked(
                read,
                now,
                TraceAction::ContinueLauncher,
            ),
            (TraceAction::ContinueLauncher, TraceEvent::Outcome(outcome)) => self.led(
                outcome,
                TraceModel {
                    phase: ExactPhase::AwaitingExecTrap,
                    action: TraceAction::CheckContinued,
                    ..self
                },
            ),
            (TraceAction::CheckContinued, TraceEvent::Checked(read, now)) => self.checked(
                read,
                now,
                TraceAction::CheckExec,
            ),
            (TraceAction::CheckExec, TraceEvent::Checked(read, now)) => self.checked(
                read,
                now,
                TraceAction::WaitExec,
            ),
            (TraceAction::WaitExec, TraceEvent::Waited(wait)) => if wait.result == self.pid {
                self.stopped(
                    wait,
                    SIGTRAP,
                    ExactPhase::ObservedTracedStop,
                    TraceModel {
                        phase: ExactPhase::ExecTrapHeld,
                        action: TraceAction::CheckTrapped,
                        ..self
                    },
                )
            } else {
                self.waited_in_vain(wait, TraceAction::CheckExec, TraceAction::PollExec)
            },
            (TraceAction::PollExec, TraceEvent::Outcome(outcome)) => self.led(
                outcome,
                TraceModel { action: TraceAction::CheckExec, ..self },
            ),
            (TraceAction::CheckTrapped, TraceEvent::Checked(read, now)) => self.checked(
                read,
                now,
                TraceAction::CaptureTarget,
            ),
            (TraceAction::CheckProven, TraceEvent::Checked(read, now)) => self.checked(
                read,
                now,
                TraceAction::VerifySignature,
            ),
            (TraceAction::ProbeResume, TraceEvent::Checked(read, _)) => self.probed(
                read,
                TraceAction::ResumeTarget,
            ),
            (TraceAction::ResumeTarget, TraceEvent::Outcome(outcome)) => self.led(
                outcome,
                TraceModel {
                    phase: ExactPhase::RunningTarget,
                    action: TraceAction::ProbeRunning,
                    ..self
                },
            ),
            (TraceAction::ProbeRunning, TraceEvent::Checked(read, _)) => self.probed(
                read,
                TraceAction::WaitRunning,
            ),
            (TraceAction::WaitRunning, TraceEvent::Waited(wait)) => if wait.result == self.pid {
                (
                    TraceModel {
                        phase: if wait_status::stop_signal(wait.status) is Some {
                            ExactPhase::ObservedTracedStop
                        } else {
                            ExactPhase::Reaped
                        },
                        action: TraceAction::ProbeEnded,
                        status: wait.status,
                        ..self
                    },
                    TraceStep::Next,
                )
            } else {
                self.waited_in_vain(wait, TraceAction::ProbeRunning, TraceAction::PollRunning)
            },
            (TraceAction::PollRunning, TraceEvent::Outcome(outcome)) => self.led(
                outcome,
                TraceModel { action: TraceAction::ProbeRunning, ..self },
            ),
            (TraceAction::ProbeEnded, TraceEvent::Checked(read, _)) => {
                match gate_judged(read) {
                    Some(Ok(())) => if self.phase == ExactPhase::Reaped && wait_status::target_exit(
                        self.status,
                    ) is Some {
                        self.at(TraceAction::Ended)
                    } else {
                        self.failed(LauncherWaitError::UnexpectedStatus)
                    },
                    _ => self.probed(read, TraceAction::Ended),
                }
            },
            _ => (self, TraceStep::Next),
        }
    }

    /// The launcher once an identity was captured, or could not be. At the initial stop it has to
    /// be the installed launcher, at the exec the target, after an exec of the same process.
    pub open spec fn captured(self, identity: Option<IdentityModel>) -> (TraceModel, TraceStep) {
        match (self.action, identity) {
            (TraceAction::CaptureLauncher, Some(found)) if self.expected.describes(
                found,
                self.pid as int,
            ) => (
                TraceModel {
                    before: Some(found),
                    action: TraceAction::CheckCaptured,
                    ..self
                },
                TraceStep::Next,
            ),
            (TraceAction::CaptureTarget, Some(found)) if self.proves_exec(found) => (
                TraceModel { after: Some(found), action: TraceAction::CheckProven, ..self },
                TraceStep::Next,
            ),
            (TraceAction::CaptureLauncher, _) | (TraceAction::CaptureTarget, _) => self.failed(
                LauncherWaitError::IdentityTransition,
            ),
            _ => (self, TraceStep::Next),
        }
    }

    /// Whether an identity is that of the target after an exec of the launcher.
    pub open spec fn proves_exec(self, found: IdentityModel) -> bool {
        self.before matches Some(before) && identity::is_exec_of(
            before,
            found,
            self.pid as int,
            self.plan.plan.launch.effective_uid,
            self.plan.plan.launch.effective_gid,
            self.plan.plan.launch.executable,
        )
    }

    /// Whether a code identity is that of the target that the plan names.
    pub open spec fn names_target(self, code_identity: Seq<u8>) -> bool {
        !bytes::all_zero(code_identity) && code_identity == self.plan.plan.target_identity
    }

    /// The launcher once an authentication worker identified the code of the target: any code but
    /// that of the planned target gives it up.
    pub open spec fn signed(self, code_identity: Seq<u8>) -> (TraceModel, bool) {
        if self.action != TraceAction::VerifySignature {
            (self, false)
        } else if self.names_target(code_identity) {
            (TraceModel { action: TraceAction::Report, ..self }, true)
        } else {
            (TraceModel { action: TraceAction::CleanUp, ..self }, false)
        }
    }

    /// Whether everything fits together.
    pub open spec fn in_order(self) -> bool {
        &&& self.pid > 0
        &&& phase_fits(self.action, self.phase)
        &&& needs_exec(self.action) ==> self.exec_proven()
    }

    /// Whether the target was captured after an exec that its identity proves.
    pub open spec fn exec_proven(self) -> bool {
        self.after matches Some(found) && self.proves_exec(found)
    }

    /// Whose code has to be identified next: the bytes of the audit token of the target that is
    /// held at its exec, and of nothing before or after.
    pub open spec fn signature_subject(self) -> Option<Seq<u8>> {
        match (self.action, self.after) {
            (TraceAction::VerifySignature, Some(found)) => Some(mach::token_bytes(found.words)),
            _ => None,
        }
    }
}

/// The one launcher that a broker traces.
pub struct ExactLauncher {
    pid: i32,
    phase: ExactPhase,
    action: TraceAction,
    before: Option<TaskAuditIdentity>,
    after: Option<TaskAuditIdentity>,
    status: i32,
    expected: FixedLauncherIdentity,
    plan: ExactParentBrokerLaunchPlan,
}

/// What an identity says, where there is one.
pub open spec fn identity_view(identity: Option<TaskAuditIdentity>) -> Option<IdentityModel> {
    match identity {
        Some(found) => Some(found@),
        None => None,
    }
}

impl View for ExactLauncher {
    type V = TraceModel;

    closed spec fn view(&self) -> TraceModel {
        TraceModel {
            pid: self.pid,
            phase: self.phase,
            action: self.action,
            before: identity_view(self.before),
            after: identity_view(self.after),
            status: self.status,
            expected: self.expected@,
            plan: self.plan@,
        }
    }
}

impl ExactLauncher {
    #[verifier::type_invariant]
    spec fn fits(self) -> bool {
        self@.in_order()
    }

    /// Takes the launcher that was just spawned for this plan.
    pub fn from_positive_spawn(
        pid: i32,
        plan: ExactParentBrokerLaunchPlan,
        expected: FixedLauncherIdentity,
    ) -> (r: Result<ExactLauncher, LauncherWaitError>)
        ensures
            match r {
                Err(error) => pid <= 0 && error == LauncherWaitError::InvalidPid,
                Ok(launcher) => pid > 0 && launcher@ == (TraceModel {
                    pid,
                    phase: ExactPhase::AwaitingInitialStop,
                    action: TraceAction::OpenGate,
                    before: None,
                    after: None,
                    status: 0,
                    expected: expected@,
                    plan: plan@,
                }),
            },
    {
        if pid <= 0 {
            return Err(LauncherWaitError::InvalidPid);
        }
        Ok(
            ExactLauncher {
                pid,
                phase: ExactPhase::AwaitingInitialStop,
                action: TraceAction::OpenGate,
                before: None,
                after: None,
                status: 0,
                expected,
                plan,
            },
        )
    }

    /// The process.
    pub fn pid(&self) -> (r: i32)
        ensures
            r == self@.pid,
    {
        self.pid
    }

    /// Where the relation stands.
    pub fn phase(&self) -> (r: ExactPhase)
        ensures
            r == self@.phase,
    {
        self.phase
    }

    /// What has to be done next.
    pub fn action(&self) -> (r: TraceAction)
        ensures
            r == self@.action,
    {
        self.action
    }

    /// The local deadline.
    pub fn deadline(&self) -> (r: u64)
        ensures
            r == self@.plan.local_deadline,
    {
        self.plan.deadline().local()
    }

    fn moved(self, phase: ExactPhase, action: TraceAction, status: i32) -> (r: ExactLauncher)
        requires
            phase_fits(action, phase),
            needs_exec(action) ==> self@.exec_proven(),
        ensures
            r@ == (TraceModel { phase, action, status, ..self@ }),
    {
        proof {
            use_type_invariant(&self);
        }
        ExactLauncher {
            pid: self.pid,
            phase,
            action,
            before: self.before,
            after: self.after,
            status,
            expected: self.expected,
            plan: self.plan,
        }
    }

    fn give_up(self, phase: ExactPhase, error: LauncherWaitError) -> (r: (ExactLauncher, TraceStep))
        ensures
            (r.0@, r.1) == (TraceModel { phase, ..self@ }).failed(error),
    {
        let status: i32 = self.status;
        (self.moved(phase, TraceAction::CleanUp, status), TraceStep::Failed(error))
    }

    fn go(self, phase: ExactPhase, action: TraceAction) -> (r: (ExactLauncher, TraceStep))
        requires
            phase_fits(action, phase),
            needs_exec(action) ==> self@.exec_proven(),
        ensures
            r.0@ == (TraceModel { phase, action, ..self@ }),
            r.1 == TraceStep::Next,
    {
        let status: i32 = self.status;
        (self.moved(phase, action, status), TraceStep::Next)
    }

    fn take_probe(self, read: GateRead, next: TraceAction) -> (r: (ExactLauncher, TraceStep))
        requires
            phase_fits(next, self@.phase),
            needs_exec(next) ==> self@.exec_proven(),
        ensures
            (r.0@, r.1) == self@.probed(read, next),
    {
        let phase = self.phase;
        match probe_gate(read) {
            None => (self, TraceStep::Next),
            Some(Err(error)) => self.give_up(phase, error),
            Some(Ok(())) => self.go(phase, next),
        }
    }

    fn take_check(self, read: GateRead, now: u64, next: TraceAction) -> (r: (
        ExactLauncher,
        TraceStep,
    ))
        requires
            phase_fits(next, self@.phase),
            needs_exec(next) ==> self@.exec_proven(),
        ensures
            (r.0@, r.1) == self@.checked(read, now, next),
    {
        let phase = self.phase;
        match probe_gate(read) {
            None => (self, TraceStep::Next),
            Some(Err(error)) => self.give_up(phase, error),
            Some(Ok(())) => match ensure_deadline(self.deadline(), now) {
                Err(error) => self.give_up(phase, error),
                Ok(()) => self.go(phase, next),
            },
        }
    }

    fn take_outcome(self, outcome: Result<(), i32>, phase: ExactPhase, next: TraceAction) -> (r: (
        ExactLauncher,
        TraceStep,
    ))
        requires
            phase_fits(next, phase),
            needs_exec(next) ==> self@.exec_proven(),
        ensures
            (r.0@, r.1) == self@.led(outcome, TraceModel { phase, action: next, ..self@ }),
    {
        let current = self.phase;
        match outcome {
            Err(error) => self.give_up(current, LauncherWaitError::Native(error)),
            Ok(()) => self.go(phase, next),
        }
    }

    fn take_vain(self, wait: LauncherWait, again: TraceAction, poll: TraceAction) -> (r: (
        ExactLauncher,
        TraceStep,
    ))
        requires
            phase_fits(again, self@.phase),
            needs_exec(again) ==> self@.exec_proven(),
            phase_fits(poll, self@.phase),
            needs_exec(poll) ==> self@.exec_proven(),
        ensures
            (r.0@, r.1) == self@.waited_in_vain(wait, again, poll),
    {
        let phase = self.phase;
        if wait.result < 0 {
            if wait.errno == EINTR {
                return self.go(phase, again);
            }
            if wait.errno == ECHILD {
                return (self, TraceStep::Abort);
            }
            return self.give_up(phase, LauncherWaitError::Native(wait.errno));
        }
        self.go(phase, poll)
    }

    fn take_stop(
        self,
        wait: LauncherWait,
        expected: i32,
        seen: ExactPhase,
        held: ExactPhase,
        next: TraceAction,
    ) -> (r: (ExactLauncher, TraceStep))
        requires
            phase_fits(next, held),
            needs_exec(next) ==> self@.exec_proven(),
        ensures
            (r.0@, r.1) == self@.stopped(
                wait,
                expected,
                seen,
                TraceModel { phase: held, action: next, ..self@ },
            ),
    {
        match traced_stop_signal(wait.status) {
            None => self.give_up(ExactPhase::Reaped, LauncherWaitError::UnexpectedStatus),
            Some(signal) => {
                if signal == expected {
                    self.go(held, next)
                } else {
                    self.give_up(seen, LauncherWaitError::UnexpectedStatus)
                }
            },
        }
    }

    /// Takes what came of the action.
    pub fn advance(self, event: TraceEvent) -> (r: (ExactLauncher, TraceStep))
        ensures
            (r.0@, r.1) == self@.on(event),
    {
        proof {
            use_type_invariant(&self);
        }
        let phase = self.phase;
        match (self.action, event) {
            (TraceAction::OpenGate, TraceEvent::Outcome(outcome)) => self.take_outcome(
                outcome,
                phase,
                TraceAction::CheckInitial,
            ),
            (TraceAction::CheckInitial, TraceEvent::Checked(read, now)) => self.take_check(
                read,
                now,
                TraceAction::WaitInitial,
            ),
            (TraceAction::WaitInitial, TraceEvent::Waited(wait)) => {
                if wait.result == self.pid {
                    self.take_stop(
                        wait,
                        SIGSTOP,
                        ExactPhase::UnprovenInitialStop,
                        ExactPhase::UnprovenInitialStop,
                        TraceAction::CheckStopped,
                    )
                } else {
                    self.take_vain(wait, TraceAction::CheckInitial, TraceAction::PollInitial)
                }
            },
            (TraceAction::PollInitial, TraceEvent::Outcome(outcome)) => self.take_outcome(
                outcome,
                phase,
                TraceAction::CheckInitial,
            ),
            (TraceAction::CheckStopped, TraceEvent::Checked(read, now)) => self.take_check(
                read,
                now,
                TraceAction::CaptureLauncher,
            ),
            (TraceAction::CheckCaptured, TraceEvent::Checked(read, now)) => self.take_check(
                read,
                now,
                TraceAction::CheckContinue,
            ),
            (TraceAction::CheckContinue, TraceEvent::Checked(read, now)) => self.take_check(
                read,
                now,
                TraceAction::ContinueLauncher,
            ),
            (TraceAction::ContinueLauncher, TraceEvent::Outcome(outcome)) => self.take_outcome(
                outcome,
                ExactPhase::AwaitingExecTrap,
                TraceAction::CheckContinued,
            ),
            (TraceAction::CheckContinued, TraceEvent::Checked(read, now)) => self.take_check(
                read,
                now,
                TraceAction::CheckExec,
            ),
            (TraceAction::CheckExec, TraceEvent::Checked(read, now)) => self.take_check(
                read,
                now,
                TraceAction::WaitExec,
            ),
            (TraceAction::WaitExec, TraceEvent::Waited(wait)) => {
                if wait.result == self.pid {
                    self.take_stop(
                        wait,
                        SIGTRAP,
                        ExactPhase::ObservedTracedStop,
                        ExactPhase::ExecTrapHeld,
                        TraceAction::CheckTrapped,
                    )
                } else {
                    self.take_vain(wait, TraceAction::CheckExec, TraceAction::PollExec)
                }
            },
            (TraceAction::PollExec, TraceEvent::Outcome(outcome)) => self.take_outcome(
                outcome,
                phase,
                TraceAction::CheckExec,
            ),
            (TraceAction::CheckTrapped, TraceEvent::Checked(read, now)) => self.take_check(
                read,
                now,
                TraceAction::CaptureTarget,
            ),
            (TraceAction::CheckProven, TraceEvent::Checked(read, now)) => self.take_check(
                read,
                now,
                TraceAction::VerifySignature,
            ),
            (TraceAction::ProbeResume, TraceEvent::Checked(read, _)) => self.take_probe(
                read,
                TraceAction::ResumeTarget,
            ),
            (TraceAction::ResumeTarget, TraceEvent::Outcome(outcome)) => self.take_outcome(
                outcome,
                ExactPhase::RunningTarget,
                TraceAction::ProbeRunning,
            ),
            (TraceAction::ProbeRunning, TraceEvent::Checked(read, _)) => self.take_probe(
                read,
                TraceAction::WaitRunning,
            ),
            (TraceAction::WaitRunning, TraceEvent::Waited(wait)) => {
                if wait.result == self.pid {
                    let seen = match traced_stop_signal(wait.status) {
                        Some(_) => ExactPhase::ObservedTracedStop,
                        None => ExactPhase::Reaped,
                    };
                    (self.moved(seen, TraceAction::ProbeEnded, wait.status), TraceStep::Next)
                } else {
                    self.take_vain(wait, TraceAction::ProbeRunning, TraceAction::PollRunning)
                }
            },
            (TraceAction::PollRunning, TraceEvent::Outcome(outcome)) => self.take_outcome(
                outcome,
                phase,
                TraceAction::ProbeRunning,
            ),
            (TraceAction::ProbeEnded, TraceEvent::Checked(read, _)) => self.take_end(read),
            _ => (self, TraceStep::Next),
        }
    }

    fn take_end(self, read: GateRead) -> (r: (ExactLauncher, TraceStep))
        requires
            self@.action == TraceAction::ProbeEnded,
        ensures
            (r.0@, r.1) == self@.on(TraceEvent::Checked(read, 0)),
    {
        proof {
            use_type_invariant(&self);
        }
        let phase = self.phase;
        match probe_gate(read) {
            None => (self, TraceStep::Next),
            Some(Err(error)) => self.give_up(phase, error),
            Some(Ok(())) => match (phase, exact_target_exit(self.status)) {
                (ExactPhase::Reaped, Some(_)) => self.go(phase, TraceAction::Ended),
                _ => self.give_up(phase, LauncherWaitError::UnexpectedStatus),
            },
        }
    }

    /// Takes a captured identity; `None` where it could not be captured.
    pub fn take_identity(self, identity: Option<TaskAuditIdentity>) -> (r: (
        ExactLauncher,
        TraceStep,
    ))
        ensures
            (r.0@, r.1) == self@.captured(identity_view(identity)),
    {
        proof {
            use_type_invariant(&self);
        }
        let phase = self.phase;
        match self.action {
            TraceAction::CaptureLauncher => match identity {
                Some(found) => {
                    if self.expected.is_identity_of(&found, self.pid) {
                        let launcher = ExactLauncher {
                            pid: self.pid,
                            phase,
                            action: TraceAction::CheckCaptured,
                            before: Some(found),
                            after: self.after,
                            status: self.status,
                            expected: self.expected,
                            plan: self.plan,
                        };
                        (launcher, TraceStep::Next)
                    } else {
                        self.give_up(phase, LauncherWaitError::IdentityTransition)
                    }
                },
                None => self.give_up(phase, LauncherWaitError::IdentityTransition),
            },
            TraceAction::CaptureTarget => match identity {
                Some(found) => {
                    if self.exec_proven_by(&found) {
                        let launcher = ExactLauncher {
                            pid: self.pid,
                            phase,
                            action: TraceAction::CheckProven,
                            before: self.before,
                            after: Some(found),
                            status: self.status,
                            expected: self.expected,
                            plan: self.plan,
                        };
                        (launcher, TraceStep::Next)
                    } else {
                        self.give_up(phase, LauncherWaitError::IdentityTransition)
                    }
                },
                None => self.give_up(phase, LauncherWaitError::IdentityTransition),
            },
            _ => (self, TraceStep::Next),
        }
    }

    fn exec_proven_by(&self, found: &TaskAuditIdentity) -> (r: bool)
        ensures
            r == self@.proves_exec(found@),
    {
        match &self.before {
            None => false,
            Some(before) => found.proves_exec_transition_from(
                before,
                self.pid,
                self.plan.effective_uid(),
                self.plan.effective_gid(),
                self.plan.installed_executable(),
            ),
        }
    }

    /// What the report of the two stops is bound to; `None` before the target is held at its exec.
    pub fn report_trace_stops(&self) -> (r: Option<BrokerTraceReportBinding>)
        ensures
            match r {
                Some(binding) => self@.action == TraceAction::Report && binding.binds(
                    self@.plan.plan,
                    self@.plan.digest,
                ),
                None => self@.action != TraceAction::Report,
            },
    {
        match self.action {
            TraceAction::Report => Some(self.plan.trace_report_binding()),
            _ => None,
        }
    }

    /// Whose code an authentication worker has to identify: the audit identity of the target that
    /// is held at its exec; `None` before its exec is proven, and once its code was judged.
    pub fn signature_subject(&self) -> (r: Option<[u8; 32]>)
        ensures
            r is Some <==> self@.action == TraceAction::VerifySignature,
            match (r, self@.signature_subject()) {
                (Some(subject), Some(expected)) => subject@ == expected && self@.exec_proven(),
                (None, None) => true,
                _ => false,
            },
    {
        proof {
            use_type_invariant(self);
        }
        match (self.action, &self.after) {
            (TraceAction::VerifySignature, Some(found)) => Some(encode_audit_token(found.audit)),
            _ => None,
        }
    }

    /// Takes the code identity that an authentication worker found for the target that is held at
    /// its exec, whose audit identity is `signature_subject`; all zero where it vouches for none.
    /// Only the target that the plan names may be reported.
    pub fn take_signature(self, code_identity: &[u8; 32]) -> (r: (ExactLauncher, bool))
        ensures
            (r.0@, r.1) == self@.signed(code_identity@),
    {
        proof {
            use_type_invariant(&self);
        }
        let phase = self.phase;
        let status: i32 = self.status;
        match self.action {
            TraceAction::VerifySignature => {
                let binding = self.plan.trace_report_binding();
                if !is_all_zero(code_identity) && same_bytes(
                    code_identity,
                    &binding.target_identity,
                ) {
                    (self.moved(phase, TraceAction::Report, status), true)
                } else {
                    (self.moved(phase, TraceAction::CleanUp, status), false)
                }
            },
            _ => (self, false),
        }
    }

    /// Takes the commit that follows the report: one exact byte, then the end of the stream.
    /// `trailing` is how many bytes followed.
    pub fn take_commit(self, byte: u8, trailing: usize) -> (r: (
        ExactLauncher,
        Result<(), BrokerEntryError>,
    ))
        requires
            self@.action == TraceAction::Report,
        ensures
            match resume_judged(byte, trailing) {
                Ok(()) => r.1 is Ok && r.0@ == (TraceModel {
                    action: TraceAction::ProbeResume,
                    ..self@
                }),
                Err(expected) => (r.1 matches Err(error) && error == expected) && r.0@ == (
                TraceModel { action: TraceAction::CleanUp, ..self@ }),
            },
    {
        proof {
            use_type_invariant(&self);
        }
        let phase = self.phase;
        let status: i32 = self.status;
        match resume_commit(byte) {
            Err(error) => (self.moved(phase, TraceAction::CleanUp, status), Err(error)),
            Ok(()) => {
                if trailing != 0 {
                    (
                        self.moved(phase, TraceAction::CleanUp, status),
                        Err(BrokerEntryError::Plan(SupervisorWireError::Malformed)),
                    )
                } else {
                    (self.moved(phase, TraceAction::ProbeResume, status), Ok(()))
                }
            },
        }
    }

    /// How the target ended, once it has.
    pub fn wait_for_exit(&self) -> (r: Option<ExactTargetExit>)
        ensures
            r == (if self@.action == TraceAction::Ended {
                wait_status::target_exit(self@.status)
            } else {
                None
            }),
    {
        match self.action {
            TraceAction::Ended => exact_target_exit(self.status),
            _ => None,
        }
    }

    /// What has to be done to a launcher that is given up.
    pub fn cleanup(&self) -> (r: CleanupAction)
        ensures
            r == cleanup_of(self@.phase),
    {
        match self.phase {
            ExactPhase::AwaitingInitialStop | ExactPhase::UnprovenInitialStop => {
                CleanupAction::Signal(SIGKILL)
            },
            ExactPhase::AwaitingExecTrap | ExactPhase::RunningTarget => {
                CleanupAction::Signal(SIGSTOP)
            },
            ExactPhase::ObservedTracedStop | ExactPhase::ExecTrapHeld => CleanupAction::TraceKill,
            ExactPhase::Reaped => CleanupAction::Nothing,
        }
    }
}

/// What a commit amounts to.
pub open spec fn resume_judged(byte: u8, trailing: usize) -> Result<(), BrokerEntryError> {
    if byte != crate::broker::entry::BROKER_RESUME_BYTE || trailing != 0 {
        Err(BrokerEntryError::Plan(SupervisorWireError::Malformed))
    } else {
        Ok(())
    }
}

/// How a launcher that is given up is ended.
#[derive(Clone, Copy, Debug, PartialEq, Eq, Structural)]
pub enum CleanupAction {
    /// It has ended.
    Nothing,
    /// Signal it by its number, which it pins until it is reaped.
    Signal(i32),
    /// Kill it as its tracer, at its stop.
    TraceKill,
}

/// How a launcher in this phase is ended: it is killed outright before its tracing is proven,
/// stopped where it runs under tracing, and killed by its tracer where it is stopped.
pub open spec fn cleanup_of(phase: ExactPhase) -> CleanupAction {
    match phase {
        ExactPhase::AwaitingInitialStop | ExactPhase::UnprovenInitialStop => CleanupAction::Signal(
            SIGKILL,
        ),
        ExactPhase::AwaitingExecTrap | ExactPhase::RunningTarget => CleanupAction::Signal(SIGSTOP),
        ExactPhase::ObservedTracedStop | ExactPhase::ExecTrapHeld => CleanupAction::TraceKill,
        ExactPhase::Reaped => CleanupAction::Nothing,
    }
}

/// Whether a signal of the cleanup may be taken as delivered: a child that is gone is no failure,
/// anything else stops the broker.
pub fn signal_settled(status: i32, errno: i32) -> (r: bool)
    ensures
        r == (status == 0 || errno == ESRCH),
{
    status == 0 || errno == ESRCH
}

/// What the cleanup does after a wait.
#[derive(Clone, Copy, Debug, PartialEq, Eq, Structural)]
pub enum CleanupStep {
    /// Kill it as its tracer, and wait again.
    KillStopped,
    /// Wait again.
    Wait,
    /// Nothing: it is reaped, and nothing is left of it.
    Done,
    /// Stop the broker.
    Abort,
}

/// What a wait of the cleanup amounts to. `ended` is whether the end of the child was seen: its
/// tracer and its parent are told of it, so the waits go on until no child is left.
pub open spec fn drained(pid: i32, ended: bool, wait: LauncherWait) -> (bool, CleanupStep) {
    if wait.result == pid {
        if wait_status::stop_signal(wait.status) is Some {
            (ended, CleanupStep::KillStopped)
        } else {
            (true, CleanupStep::Wait)
        }
    } else if wait.result < 0 && wait.errno == EINTR {
        (ended, CleanupStep::Wait)
    } else if wait.result < 0 && wait.errno == ECHILD && ended {
        (ended, CleanupStep::Done)
    } else {
        (ended, CleanupStep::Abort)
    }
}

/// Judges a wait of the cleanup.
pub fn drain(pid: i32, ended: bool, wait: LauncherWait) -> (r: (bool, CleanupStep))
    ensures
        r == drained(pid, ended, wait),
{
    if wait.result == pid {
        return match traced_stop_signal(wait.status) {
            Some(_) => (ended, CleanupStep::KillStopped),
            None => (true, CleanupStep::Wait),
        };
    }
    if wait.result < 0 && wait.errno == EINTR {
        return (ended, CleanupStep::Wait);
    }
    if wait.result < 0 && wait.errno == ECHILD && ended {
        return (ended, CleanupStep::Done);
    }
    (ended, CleanupStep::Abort)
}

/// The plan that a launcher is to receive, and how much of it is written.
pub struct PlanDelivery {
    pub frame: Vec<u8>,
    pub written: usize,
}

impl PlanDelivery {
    /// Judges whether the next part may be written: the loss of the service comes before the
    /// delivery of anything that the launcher would act on. `None` is to look again.
    pub fn may_write(&self, read: GateRead, deadline: u64, now: u64) -> (r: Option<
        Result<(), LauncherWaitError>,
    >)
        ensures
            r == (match gate_judged(read) {
                Some(Ok(())) => if now >= deadline {
                    Some(Err(LauncherWaitError::DeadlineExpired))
                } else {
                    Some(Ok(()))
                },
                other => other,
            }),
    {
        match probe_gate(read) {
            Some(Ok(())) => Some(ensure_deadline(deadline, now)),
            other => other,
        }
    }

    /// What has to be written next.
    pub fn rest(&self) -> (r: &[u8])
        requires
            self.written <= self.frame@.len(),
        ensures
            r@ == self.frame@.subrange(self.written as int, self.frame@.len() as int),
    {
        vstd::slice::slice_subrange(self.frame.as_slice(), self.written, self.frame.len())
    }

    /// Takes how much was written; `true` once the writer is to be closed.
    pub fn wrote(&mut self, count: usize) -> (r: bool)
        requires
            old(self).written + count <= old(self).frame@.len(),
        ensures
            final(self).frame@ == old(self).frame@,
            final(self).written == old(self).written + count,
            r == (final(self).written == final(self).frame@.len()),
    {
        let length: usize = self.frame.len();
        self.written = self.written + count;
        self.written == length
    }
}

/// What to do after a part of the plan could not be written.
#[derive(Clone, Copy, Debug, PartialEq, Eq, Structural)]
pub enum DeliveryStep {
    /// Write again.
    Again,
    /// Wait for the pipe for a moment, then write again.
    Poll,
    /// The launcher is given up.
    Failed(LauncherWaitError),
}

/// What follows from a write of the plan that failed with this error.
pub open spec fn delivery_judged(errno: i32) -> DeliveryStep {
    if errno == EINTR {
        DeliveryStep::Again
    } else if errno == EAGAIN {
        DeliveryStep::Poll
    } else {
        DeliveryStep::Failed(LauncherWaitError::Native(errno))
    }
}

/// Judges a write of the plan that failed with this error.
pub fn delivery_failed(errno: i32) -> (r: DeliveryStep)
    ensures
        r == delivery_judged(errno),
{
    if errno == EINTR {
        DeliveryStep::Again
    } else if errno == EAGAIN {
        DeliveryStep::Poll
    } else {
        DeliveryStep::Failed(LauncherWaitError::Native(errno))
    }
}

/// Whether an event is what comes of this action.
pub open spec fn trace_event_fits(action: TraceAction, event: TraceEvent) -> bool {
    match action {
        TraceAction::OpenGate
        | TraceAction::PollInitial
        | TraceAction::ContinueLauncher
        | TraceAction::PollExec
        | TraceAction::ResumeTarget
        | TraceAction::PollRunning => event is Outcome,
        TraceAction::WaitInitial | TraceAction::WaitExec | TraceAction::WaitRunning => {
            event is Waited
        },
        TraceAction::CheckInitial
        | TraceAction::CheckStopped
        | TraceAction::CheckCaptured
        | TraceAction::CheckContinue
        | TraceAction::CheckContinued
        | TraceAction::CheckExec
        | TraceAction::CheckTrapped
        | TraceAction::CheckProven
        | TraceAction::ProbeResume
        | TraceAction::ProbeRunning
        | TraceAction::ProbeEnded => event is Checked,
        _ => false,
    }
}

/// The loss of the service wins: whatever the launcher or the target did, a start pipe that has
/// ended leads to no further action and to no exit status.
pub proof fn law_service_death_wins(launcher: TraceModel, now: u64)
    requires
        launcher.in_order(),
        trace_event_fits(launcher.action, TraceEvent::Checked(GateRead::End, now)),
    ensures
        launcher.on(TraceEvent::Checked(GateRead::End, now)) == launcher.failed(
            LauncherWaitError::ServiceGone,
        ),
{
}

/// The target runs only after its exec and its code are proven: the launcher is continued only
/// after its identity was captured as the installed one, the target is reported only after an exec
/// of the same process into the planned image with the planned credentials, and only where its
/// code is that of the planned target. An event never changes the process, the plan or the captured
/// identities.
pub proof fn law_target_is_proven_before_it_is_reported(
    launcher: TraceModel,
    event: TraceEvent,
    identity: Option<IdentityModel>,
    code_identity: Seq<u8>,
)
    requires
        launcher.in_order(),
    ensures
        ({
            let (next, step) = launcher.on(event);
            let (seen, judged) = launcher.captured(identity);
            let (signed, accepted) = launcher.signed(code_identity);
            &&& next.in_order() && seen.in_order() && signed.in_order()
            &&& next.pid == launcher.pid && next.plan == launcher.plan && next.before
                == launcher.before && next.after == launcher.after
            &&& next.action == TraceAction::ContinueLauncher && launcher.action
                != TraceAction::ContinueLauncher ==> launcher.action == TraceAction::CheckContinue
            &&& next.action == TraceAction::VerifySignature && launcher.action
                != TraceAction::VerifySignature ==> launcher.action == TraceAction::CheckProven
            &&& launcher.action != TraceAction::Report ==> next.action != TraceAction::Report
                && seen.action != TraceAction::Report
            &&& launcher.action != TraceAction::Report && signed.action == TraceAction::Report ==> {
                &&& launcher.action == TraceAction::VerifySignature
                &&& accepted && launcher.names_target(code_identity)
            }
            &&& next.action == TraceAction::ProbeRunning && launcher.phase
                != ExactPhase::RunningTarget ==> launcher.action == TraceAction::ResumeTarget
            &&& seen.action == TraceAction::CheckCaptured && launcher.action
                != TraceAction::CheckCaptured ==> {
                &&& seen.before matches Some(found) && launcher.expected.describes(
                    found,
                    launcher.pid as int,
                )
            }
            &&& seen.action == TraceAction::CheckProven && launcher.action
                != TraceAction::CheckProven ==> {
                &&& seen.after matches Some(found) && launcher.proves_exec(found)
            }
        }),
{
}

/// The end of a target is told as it was: it is an exit or a signal that a wait reported, never a
/// stop, and only while the service is there.
pub proof fn law_exit_is_exact(launcher: TraceModel, event: TraceEvent)
    requires
        launcher.in_order(),
        launcher.action != TraceAction::Ended,
    ensures
        launcher.on(event).0.action == TraceAction::Ended ==> {
            &&& launcher.action == TraceAction::ProbeEnded
            &&& wait_status::target_exit(launcher.status) is Some
            &&& launcher.on(event).0.status == launcher.status
            &&& (event matches TraceEvent::Checked(read, _) && gate_judged(read) == Some(
                Ok::<(), LauncherWaitError>(()),
            ))
        },
{
}

/// A cleanup is done only once the end of the child was seen and no child is left, and it never
/// forgets that end.
pub proof fn law_cleanup_leaves_nothing(pid: i32, ended: bool, wait: LauncherWait)
    requires
        pid > 0,
    ensures
        drained(pid, ended, wait).1 == CleanupStep::Done ==> ended && wait.errno == ECHILD
            && wait.result < 0,
        ended ==> drained(pid, ended, wait).0,
        drained(pid, ended, wait).0 && !ended ==> wait.result == pid && wait_status::stop_signal(
            wait.status,
        ) is None,
{
}

/// A look at the start pipe that finds the service there and silent.
pub open spec fn quiet() -> GateRead {
    GateRead::Failed(35)
}

/// A stop by this signal, as a wait reports it.
pub open spec fn stop_status(signal: int) -> int {
    0x100 * signal + 0x7f
}

/// Waiting is patient: a launcher that has not changed when it is waited for is never given up. The
/// start pipe is polled, and with a silent service before the deadline the launcher is waited for
/// again, the same as it was. An interrupted wait is repeated in the same way.
pub proof fn law_waiting_is_patient(
    launcher: TraceModel,
    wait: LauncherWait,
    now: u64,
)
    requires
        launcher.in_order(),
        launcher.action == TraceAction::WaitInitial || launcher.action == TraceAction::WaitExec
            || launcher.action == TraceAction::WaitRunning,
        wait.result != launcher.pid,
        wait.result >= 0 || wait.errno == 4,
    ensures
        ({
            let (polling, first) = launcher.on(TraceEvent::Waited(wait));
            let (checking, second) = if wait.result >= 0 {
                polling.on(TraceEvent::Outcome(Ok(())))
            } else {
                (polling, TraceStep::Next)
            };
            let (again, third) = checking.on(TraceEvent::Checked(quiet(), now));
            &&& first == TraceStep::Next && second == TraceStep::Next
            &&& wait.result >= 0 ==> polling.action == TraceAction::PollInitial || polling.action
                == TraceAction::PollExec || polling.action == TraceAction::PollRunning
            &&& now < launcher.plan.local_deadline || launcher.action == TraceAction::WaitRunning
                ==> third == TraceStep::Next && again == launcher
        }),
{
}

/// A launcher is given up only for a reason: the service is gone or spoke out of turn, the deadline
/// has come before the target was committed, a native call failed, or the launcher or the target
/// stopped or ended where it should not have. The reason is told, and the launcher is the same but
/// for its phase. The broker stops only where its child was taken from it.
pub proof fn law_giving_up_has_a_reason(launcher: TraceModel, event: TraceEvent)
    requires
        launcher.in_order(),
        trace_event_fits(launcher.action, event),
    ensures
        ({
            let (next, step) = launcher.on(event);
            &&& step matches TraceStep::Failed(error) ==> next.action == TraceAction::CleanUp
                && match error {
                LauncherWaitError::ServiceGone => event matches TraceEvent::Checked(read, _) && read
                    == GateRead::End,
                LauncherWaitError::InvalidGate => event matches TraceEvent::Checked(read, _)
                    && read is Byte,
                LauncherWaitError::DeadlineExpired => event matches TraceEvent::Checked(read, now)
                    && read == quiet() && now >= launcher.plan.local_deadline && !(launcher.action
                    == TraceAction::ProbeResume || launcher.action == TraceAction::ProbeRunning
                    || launcher.action == TraceAction::ProbeEnded),
                LauncherWaitError::Native(code) => match event {
                    TraceEvent::Checked(read, _) => read == GateRead::Failed(code) && code != 4
                        && code != 35,
                    TraceEvent::Outcome(outcome) => outcome == Err::<(), i32>(code),
                    TraceEvent::Waited(wait) => wait.result < 0 && wait.result != launcher.pid
                        && wait.errno == code && code != 4 && code != 10,
                },
                LauncherWaitError::UnexpectedStatus => match event {
                    TraceEvent::Waited(wait) => wait.result == launcher.pid && (if launcher.action
                        == TraceAction::WaitInitial {
                        wait_status::stop_signal(wait.status) != Some(17i32)
                    } else {
                        launcher.action == TraceAction::WaitExec && wait_status::stop_signal(
                            wait.status,
                        ) != Some(5i32)
                    }),
                    TraceEvent::Checked(read, _) => read == quiet() && launcher.action
                        == TraceAction::ProbeEnded && (launcher.phase != ExactPhase::Reaped
                        || wait_status::target_exit(launcher.status) is None),
                    TraceEvent::Outcome(_) => false,
                },
                _ => false,
            }
            &&& step == TraceStep::Abort ==> (event matches TraceEvent::Waited(wait) && wait.result
                < 0 && wait.errno == 10)
            &&& next.pid == launcher.pid && next.plan == launcher.plan && next.expected
                == launcher.expected
        }),
{
}

/// What is wrong is not passed over: an expired deadline, a service that spoke, a failed call and a
/// child that was taken away are noticed wherever they can be.
pub proof fn law_faults_are_noticed(
    launcher: TraceModel,
    now: u64,
    byte: u8,
    code: i32,
    wait: LauncherWait,
)
    requires
        launcher.in_order(),
    ensures
        trace_event_fits(launcher.action, TraceEvent::Checked(quiet(), now)) ==> {
            &&& launcher.on(TraceEvent::Checked(GateRead::Byte(byte), now)).1 == TraceStep::Failed(
                LauncherWaitError::InvalidGate,
            )
            &&& code != 4 && code != 35 ==> launcher.on(
                TraceEvent::Checked(GateRead::Failed(code), now),
            ).1 == TraceStep::Failed(LauncherWaitError::Native(code))
            &&& launcher.on(TraceEvent::Checked(GateRead::Failed(4), now)) == (
                launcher,
                TraceStep::Next,
            )
            &&& now >= launcher.plan.local_deadline && launcher.action != TraceAction::ProbeResume
                && launcher.action != TraceAction::ProbeRunning && launcher.action
                != TraceAction::ProbeEnded ==> launcher.on(TraceEvent::Checked(quiet(), now)).1
                == TraceStep::Failed(LauncherWaitError::DeadlineExpired)
        },
        trace_event_fits(launcher.action, TraceEvent::Outcome(Err(code))) ==> launcher.on(
            TraceEvent::Outcome(Err(code)),
        ).1 == TraceStep::Failed(LauncherWaitError::Native(code)),
        trace_event_fits(launcher.action, TraceEvent::Waited(wait)) && wait.result < 0 ==> {
            let step = launcher.on(TraceEvent::Waited(wait)).1;
            &&& wait.errno == 10 ==> step == TraceStep::Abort
            &&& wait.errno != 10 && wait.errno != 4 ==> step == TraceStep::Failed(
                LauncherWaitError::Native(wait.errno),
            )
        },
        trace_event_fits(launcher.action, TraceEvent::Waited(wait)) && wait.result == launcher.pid
            ==> {
            let (next, step) = launcher.on(TraceEvent::Waited(wait));
            let stop = wait_status::stop_signal(wait.status);
            &&& launcher.action == TraceAction::WaitInitial && stop != Some(17i32) ==> step
                == TraceStep::Failed(LauncherWaitError::UnexpectedStatus)
            &&& launcher.action == TraceAction::WaitExec && stop != Some(5i32) ==> step
                == TraceStep::Failed(LauncherWaitError::UnexpectedStatus)
            &&& stop is None ==> next.phase == ExactPhase::Reaped
            &&& launcher.action == TraceAction::WaitRunning ==> step == TraceStep::Next
                && next.status == wait.status && next.action == TraceAction::ProbeEnded && (stop
                is Some ==> next.phase == ExactPhase::ObservedTracedStop)
        },
{
}

/// A launcher that does what it should comes all the way: with a silent service, before the
/// deadline, it stops for the first time, is proven to be the installed one and continued, stops at
/// its exec, is proven to be the target, is identified and committed, runs, and its end is told as
/// it was. Nothing on the way changes the process or the plan.
pub proof fn law_good_launcher_comes_all_the_way(
    launcher: TraceModel,
    first: IdentityModel,
    second: IdentityModel,
    now: u64,
    stopped: LauncherWait,
    trapped: LauncherWait,
    ended: LauncherWait,
)
    requires
        launcher.in_order(),
        launcher.action == TraceAction::OpenGate,
        now < launcher.plan.local_deadline,
        launcher.expected.describes(first, launcher.pid as int),
        (TraceModel { before: Some(first), ..launcher }).proves_exec(second),
        exists|i: int|
            0 <= i < launcher.plan.plan.target_identity.len()
                && launcher.plan.plan.target_identity[i] != 0,
        stopped.result == launcher.pid && stopped.status == stop_status(17),
        trapped.result == launcher.pid && trapped.status == stop_status(5),
        ended.result == launcher.pid && wait_status::target_exit(ended.status) is Some
            && wait_status::stop_signal(ended.status) is None,
    ensures
        ({
            let checked = TraceEvent::Checked(quiet(), now);
            let done = TraceEvent::Outcome(Ok(()));
            let waiting = launcher.on(done).0.on(checked).0;
            let held = waiting.on(TraceEvent::Waited(stopped)).0.on(checked).0;
            let continued = held.captured(Some(first)).0.on(checked).0.on(checked).0.on(done).0;
            let running = continued.on(checked).0.on(checked).0;
            let at_exec = running.on(TraceEvent::Waited(trapped)).0.on(checked).0;
            let proven = at_exec.captured(Some(second)).0.on(checked).0;
            let signed = proven.signed(launcher.plan.plan.target_identity).0;
            let committed = TraceModel { action: TraceAction::ProbeResume, ..signed };
            let resumed = committed.on(checked).0.on(done).0.on(checked).0;
            let told = resumed.on(TraceEvent::Waited(ended)).0.on(checked).0;
            &&& waiting.action == TraceAction::WaitInitial
            &&& held.action == TraceAction::CaptureLauncher
            &&& continued.phase == ExactPhase::AwaitingExecTrap
            &&& running.action == TraceAction::WaitExec
            &&& at_exec.action == TraceAction::CaptureTarget
            &&& at_exec.phase == ExactPhase::ExecTrapHeld
            &&& proven.action == TraceAction::VerifySignature
            &&& signed.action == TraceAction::Report
            &&& resumed.action == TraceAction::WaitRunning
            &&& resumed.phase == ExactPhase::RunningTarget
            &&& told == (TraceModel {
                phase: ExactPhase::Reaped,
                action: TraceAction::Ended,
                before: Some(first),
                after: Some(second),
                status: ended.status,
                ..launcher
            })
        }),
{
    wait_status::law_status_is_read_back(stopped.status, 17, 1);
    wait_status::law_status_is_read_back(trapped.status, 5, 1);
    let code = launcher.plan.plan.target_identity;
    assert(!bytes::all_zero(code));
}

/// Only the named identities count: at the first stop that of the installed launcher, at the exec
/// that of the target after an exec of the same process, and for the code that of the planned
/// target. Any other gives the launcher up.
pub proof fn law_other_identities_are_refused(
    launcher: TraceModel,
    found: Option<IdentityModel>,
    code_identity: Seq<u8>,
)
    requires
        launcher.in_order(),
    ensures
        ({
            let (seen, step) = launcher.captured(found);
            let (signed, accepted) = launcher.signed(code_identity);
            let installed = found matches Some(identity) && launcher.expected.describes(
                identity,
                launcher.pid as int,
            );
            let target = found matches Some(identity) && launcher.proves_exec(identity);
            &&& launcher.action == TraceAction::CaptureLauncher && !installed || launcher.action
                == TraceAction::CaptureTarget && !target ==> step == TraceStep::Failed(
                LauncherWaitError::IdentityTransition,
            ) && seen.action == TraceAction::CleanUp
            &&& launcher.action != TraceAction::CaptureLauncher && launcher.action
                != TraceAction::CaptureTarget ==> seen == launcher && step == TraceStep::Next
            &&& launcher.action == TraceAction::VerifySignature ==> (accepted <==> code_identity
                == launcher.plan.plan.target_identity && exists|i: int|
                0 <= i < code_identity.len() && code_identity[i] != 0)
            &&& launcher.action == TraceAction::VerifySignature && !accepted ==> signed == (
            TraceModel { action: TraceAction::CleanUp, ..launcher })
            &&& launcher.action != TraceAction::VerifySignature ==> !accepted && signed == launcher
            &&& launcher.action == TraceAction::VerifySignature ==> (
            launcher.signature_subject() matches Some(subject) && launcher.after matches Some(
                after,
            ) && subject == mach::token_bytes(after.words))
        }),
{
    assert(!bytes::all_zero(code_identity) <==> exists|i: int|
        0 <= i < code_identity.len() && code_identity[i] != 0);
}

/// A launcher that is given up is ended in the way that its phase permits: it is killed where its
/// tracing is not proven, stopped where it runs under its tracer, killed by its tracer where it is
/// stopped, and left alone where it has ended. The cleanup goes on as long as a child is left: a
/// stop is killed, an interruption repeated, and the loss of the child before its end is no end.
pub proof fn law_cleanup_goes_on(pid: i32, ended: bool, wait: LauncherWait, phase: ExactPhase)
    requires
        pid > 0,
    ensures
        phase == ExactPhase::AwaitingInitialStop || phase == ExactPhase::UnprovenInitialStop
            ==> cleanup_of(phase) == CleanupAction::Signal(9),
        phase == ExactPhase::AwaitingExecTrap || phase == ExactPhase::RunningTarget ==> cleanup_of(
            phase,
        ) == CleanupAction::Signal(17),
        phase == ExactPhase::ObservedTracedStop || phase == ExactPhase::ExecTrapHeld ==> cleanup_of(
            phase,
        ) == CleanupAction::TraceKill,
        cleanup_of(phase) == CleanupAction::Nothing <==> phase == ExactPhase::Reaped,
        ({
            let (seen, step) = drained(pid, ended, wait);
            let stopped = wait_status::stop_signal(wait.status) is Some;
            &&& wait.result == pid && stopped ==> step == CleanupStep::KillStopped && seen == ended
            &&& wait.result == pid && !stopped ==> step == CleanupStep::Wait && seen
            &&& wait.result < 0 && wait.errno == 4 ==> step == CleanupStep::Wait && seen == ended
            &&& wait.result < 0 && wait.errno == 10 && ended ==> step == CleanupStep::Done
            &&& wait.result < 0 && wait.errno == 10 && !ended ==> step == CleanupStep::Abort
            &&& wait.result < 0 && wait.errno != 10 && wait.errno != 4 ==> step
                == CleanupStep::Abort
            &&& wait.result >= 0 && wait.result != pid ==> step == CleanupStep::Abort
        }),
{
}

/// A commit is the one byte with nothing behind it.
pub proof fn law_commit_is_exact(byte: u8, trailing: usize)
    ensures
        resume_judged(byte, trailing) is Ok <==> byte == 1 && trailing == 0,
        byte != 1 || trailing != 0 ==> resume_judged(byte, trailing) == Err::<(), _>(
            BrokerEntryError::Plan(SupervisorWireError::Malformed),
        ),
{
}

/// A moment's wait fails only for an error that is no interruption; an interrupted write of the
/// plan is repeated, one that would block waits for the stream, and any other fails with its error.
pub proof fn law_delivery_is_patient(result: i32, errno: i32)
    ensures
        slice_awaited(result, errno) is Err <==> result < 0 && errno != 4,
        slice_awaited(result, errno) matches Err(error) ==> error == LauncherWaitError::Native(
            errno,
        ),
        delivery_judged(errno) == DeliveryStep::Again <==> errno == 4,
        delivery_judged(errno) == DeliveryStep::Poll <==> errno == 35,
        errno != 4 && errno != 35 ==> delivery_judged(errno) == DeliveryStep::Failed(
            LauncherWaitError::Native(errno),
        ),
{
}

/// No step is left out: while the service is there and the deadline ahead, each look, each capture
/// and each operation leads to the one next step, and to nothing else.
pub proof fn law_no_step_is_left_out(launcher: TraceModel, found: IdentityModel, now: u64)
    requires
        now < launcher.plan.local_deadline,
    ensures
        ({
            let looked = launcher.on(TraceEvent::Checked(quiet(), now)).0.action;
            let done = launcher.on(TraceEvent::Outcome(Ok(()))).0.action;
            &&& launcher.action == TraceAction::OpenGate ==> done == TraceAction::CheckInitial
            &&& launcher.action == TraceAction::CheckInitial ==> looked == TraceAction::WaitInitial
            &&& launcher.action == TraceAction::PollInitial ==> done == TraceAction::CheckInitial
            &&& launcher.action == TraceAction::CheckStopped ==> looked
                == TraceAction::CaptureLauncher
            &&& launcher.action == TraceAction::CaptureLauncher && launcher.expected.describes(
                found,
                launcher.pid as int,
            ) ==> launcher.captured(Some(found)).0 == (TraceModel {
                before: Some(found),
                action: TraceAction::CheckCaptured,
                ..launcher
            })
            &&& launcher.action == TraceAction::CheckCaptured ==> looked
                == TraceAction::CheckContinue
            &&& launcher.action == TraceAction::CheckContinue ==> looked
                == TraceAction::ContinueLauncher
            &&& launcher.action == TraceAction::ContinueLauncher ==> done
                == TraceAction::CheckContinued
            &&& launcher.action == TraceAction::CheckContinued ==> looked == TraceAction::CheckExec
            &&& launcher.action == TraceAction::CheckExec ==> looked == TraceAction::WaitExec
            &&& launcher.action == TraceAction::PollExec ==> done == TraceAction::CheckExec
            &&& launcher.action == TraceAction::CheckTrapped ==> looked
                == TraceAction::CaptureTarget
            &&& launcher.action == TraceAction::CaptureTarget && launcher.proves_exec(found)
                ==> launcher.captured(Some(found)).0 == (TraceModel {
                after: Some(found),
                action: TraceAction::CheckProven,
                ..launcher
            })
            &&& launcher.action == TraceAction::CheckProven ==> looked
                == TraceAction::VerifySignature
            &&& launcher.action == TraceAction::ProbeResume ==> looked == TraceAction::ResumeTarget
            &&& launcher.action == TraceAction::ResumeTarget ==> done == TraceAction::ProbeRunning
            &&& launcher.action == TraceAction::ProbeRunning ==> looked == TraceAction::WaitRunning
            &&& launcher.action == TraceAction::PollRunning ==> done == TraceAction::ProbeRunning
        }),
{
}

} // verus!
