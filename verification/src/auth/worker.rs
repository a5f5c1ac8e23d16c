//! The direct-child authority over one disposable worker, and the process-wide wait domain.

use vstd::prelude::*;
use crate::wait_status;
use crate::wait_status::{wait_status_is_clean_exit, ECHILD, EINTR, ESRCH};

verus! {

/// Proof that one worker has been reaped, and whether it exited as a worker should.
#[derive(Debug, PartialEq, Eq)]
pub struct ReapedAuthWorker {
    clean_exit: bool,
}

impl ReapedAuthWorker {
    /// Whether the worker exited by itself with status zero.
    pub closed spec fn spec_clean(self) -> bool {
        self.clean_exit
    }

    /// Records the status that the reaping wait returned.
    pub fn from_exact_wait_status(status: i32) -> (r: ReapedAuthWorker)
        ensures
            r.spec_clean() == wait_status::clean_exit(status),
    {
        ReapedAuthWorker { clean_exit: wait_status_is_clean_exit(status) }
    }

    /// Whether the worker exited by itself with status zero.
    pub fn is_clean(&self) -> (r: bool)
        ensures
            r == self.spec_clean(),
    {
        self.clean_exit
    }
}

/// Failure while retaining one exact direct-child worker.
#[derive(Clone, Copy, Debug, PartialEq, Eq, Structural)]
pub enum DirectChildAuthWorkerError {
    /// The spawn result was not a positive process number.
    InvalidChild,
    /// The child is no longer this owner's to wait for; no signal is permitted.
    WaitAuthorityLost,
    /// A wait failed while the child remained unreaped.
    Wait(i32),
    /// Signaling the unreaped child failed.
    Signal(i32),
}

/// Where the relation to a direct child stands.
#[derive(Clone, Copy, Debug, PartialEq, Eq, Structural)]
pub enum DirectChildState {
    Unreaped,
    TerminationSent,
    Reaped,
    AuthorityLost,
}

/// Whether the child still pins its process number, so that waiting and signaling are permitted.
pub open spec fn pins(state: DirectChildState) -> bool {
    state == DirectChildState::Unreaped || state == DirectChildState::TerminationSent
}

/// What follows from one wait.
#[derive(Debug, PartialEq, Eq)]
pub enum WaitOutcome {
    /// The child is reaped.
    Reaped(ReapedAuthWorker),
    /// The child has not ended.
    Running,
    /// The wait failed; the child is still there.
    Failed(DirectChildAuthWorkerError),
    /// The child is gone without this owner; the service has to stop.
    Abort,
}

/// Sole-waiter authority over one worker. Its only permission to use the process number is that
/// the child is unreaped: a live child or a zombie pins the number.
#[derive(Debug, PartialEq, Eq)]
pub struct DirectChildAuthWorkerAuthority {
    pub pid: i32,
    pub state: DirectChildState,
}

/// Whether one wait for a child had this outcome: `result`, `status` and `error` as `waitpid` gave
/// them.
pub open spec fn waited(
    before: DirectChildAuthWorkerAuthority,
    result: i32,
    status: i32,
    error: i32,
    after: DirectChildAuthWorkerAuthority,
    outcome: WaitOutcome,
) -> bool {
    &&& after.pid == before.pid
    &&& if result == before.pid {
        &&& after.state == DirectChildState::Reaped
        &&& outcome matches WaitOutcome::Reaped(proof) && proof.spec_clean()
            == wait_status::clean_exit(status)
    } else if result == 0 {
        &&& after.state == before.state
        &&& outcome == WaitOutcome::Running
    } else if error == ECHILD {
        &&& after.state == DirectChildState::AuthorityLost
        &&& outcome == WaitOutcome::Abort
    } else {
        &&& after.state == before.state
        &&& outcome == WaitOutcome::Failed(DirectChildAuthWorkerError::Wait(error))
    }
}

/// Whether one kill of a child had this outcome: `result` and `error` as `kill` gave them.
pub open spec fn killed(
    before: DirectChildAuthWorkerAuthority,
    result: i32,
    error: i32,
    after: DirectChildAuthWorkerAuthority,
    outcome: Result<(), DirectChildAuthWorkerError>,
) -> bool {
    &&& after.pid == before.pid
    &&& if result == 0 || error == ESRCH {
        &&& after.state == DirectChildState::TerminationSent
        &&& outcome == Ok::<(), DirectChildAuthWorkerError>(())
    } else {
        &&& after.state == before.state
        &&& outcome == Err::<(), _>(DirectChildAuthWorkerError::Signal(error))
    }
}

impl DirectChildAuthWorkerAuthority {
    /// Takes a freshly spawned child.
    pub fn from_spawned_direct_child(pid: i32) -> (r: Result<
        DirectChildAuthWorkerAuthority,
        DirectChildAuthWorkerError,
    >)
        ensures
            r == (if pid > 0 {
                Ok(DirectChildAuthWorkerAuthority { pid, state: DirectChildState::Unreaped })
            } else {
                Err(DirectChildAuthWorkerError::InvalidChild)
            }),
    {
        if pid <= 0 {
            return Err(DirectChildAuthWorkerError::InvalidChild);
        }
        Ok(DirectChildAuthWorkerAuthority { pid, state: DirectChildState::Unreaped })
    }

    /// Whether the child may be waited for.
    pub fn may_wait(&self) -> (r: Result<(), DirectChildAuthWorkerError>)
        ensures
            r == (if pins(self.state) {
                Ok(())
            } else {
                Err(DirectChildAuthWorkerError::WaitAuthorityLost)
            }),
    {
        match self.state {
            DirectChildState::Unreaped | DirectChildState::TerminationSent => Ok(()),
            DirectChildState::Reaped | DirectChildState::AuthorityLost => Err(
                DirectChildAuthWorkerError::WaitAuthorityLost,
            ),
        }
    }

    /// Records one wait for the child: `result` and `status` as `waitpid` gave them, `error` where
    /// it failed. That there is no such child means that somebody else reaped it.
    pub fn after_wait(&mut self, result: i32, status: i32, error: i32) -> (r: WaitOutcome)
        requires
            pins(old(self).state),
        ensures
            waited(*old(self), result, status, error, *final(self), r),
    {
        if result == self.pid {
            self.state = DirectChildState::Reaped;
            return WaitOutcome::Reaped(ReapedAuthWorker::from_exact_wait_status(status));
        }
        if result == 0 {
            return WaitOutcome::Running;
        }
        if error == ECHILD {
            self.state = DirectChildState::AuthorityLost;
            return WaitOutcome::Abort;
        }
        WaitOutcome::Failed(DirectChildAuthWorkerError::Wait(error))
    }

    /// Whether a kill has to be sent: not twice, and only to a child that pins its number.
    pub fn signal_needed(&self) -> (r: Result<bool, DirectChildAuthWorkerError>)
        ensures
            r == (if pins(self.state) {
                Ok(self.state == DirectChildState::Unreaped)
            } else {
                Err(DirectChildAuthWorkerError::WaitAuthorityLost)
            }),
    {
        match self.state {
            DirectChildState::Unreaped => Ok(true),
            DirectChildState::TerminationSent => Ok(false),
            DirectChildState::Reaped | DirectChildState::AuthorityLost => Err(
                DirectChildAuthWorkerError::WaitAuthorityLost,
            ),
        }
    }

    /// Records one kill. That no process answers is compatible with a zombie: only a wait retires
    /// the child.
    pub fn after_kill(&mut self, result: i32, error: i32) -> (r: Result<
        (),
        DirectChildAuthWorkerError,
    >)
        requires
            old(self).state == DirectChildState::Unreaped,
        ensures
            killed(*old(self), result, error, *final(self), r),
    {
        if result == 0 || error == ESRCH {
            self.state = DirectChildState::TerminationSent;
            return Ok(());
        }
        Err(DirectChildAuthWorkerError::Signal(error))
    }
}

/// Where one step of terminating a worker stands.
#[derive(Debug, PartialEq, Eq)]
pub enum TerminateAction {
    /// Wait for the child, without blocking.
    Observe,
    /// Signal the child, unless that is done.
    Signal,
    /// Wait once more, without blocking.
    ObserveAgain,
    /// The child is reaped.
    Done(ReapedAuthWorker),
    /// The child has not ended yet.
    Pending,
    /// The step failed; the child is still there.
    Failed(DirectChildAuthWorkerError),
    /// The service has to stop.
    Abort,
}

/// What an action of termination came to.
#[derive(Debug, PartialEq, Eq)]
pub enum TerminateEvent {
    /// A wait, or the refusal of one.
    Waited(Result<WaitOutcome, DirectChildAuthWorkerError>),
    /// A signal.
    Signalled(Result<(), DirectChildAuthWorkerError>),
}

/// What follows an event of termination. The child is signalled only once a first wait has found it
/// running, and is done only once it is reaped; an event that does not fit changes nothing.
pub open spec fn terminated(at: TerminateAction, event: TerminateEvent) -> TerminateAction {
    match (at, event) {
        (
            TerminateAction::Observe | TerminateAction::ObserveAgain,
            TerminateEvent::Waited(waited),
        ) => {
            match waited {
                Ok(WaitOutcome::Reaped(proof)) => TerminateAction::Done(proof),
                Ok(WaitOutcome::Running) => if at is Observe {
                    TerminateAction::Signal
                } else {
                    TerminateAction::Pending
                },
                Ok(WaitOutcome::Failed(error)) | Err(error) => TerminateAction::Failed(error),
                Ok(WaitOutcome::Abort) => TerminateAction::Abort,
            }
        },
        (TerminateAction::Signal, TerminateEvent::Signalled(Ok(()))) => {
            TerminateAction::ObserveAgain
        },
        (TerminateAction::Signal, TerminateEvent::Signalled(Err(error))) => {
            TerminateAction::Failed(error)
        },
        _ => at,
    }
}

/// Decides what follows an event of termination.
pub fn terminate_step(at: TerminateAction, event: TerminateEvent) -> (r: TerminateAction)
    ensures
        r == terminated(at, event),
{
    match (at, event) {
        (TerminateAction::Observe, TerminateEvent::Waited(waited)) => match waited {
            Ok(WaitOutcome::Reaped(proof)) => TerminateAction::Done(proof),
            Ok(WaitOutcome::Running) => TerminateAction::Signal,
            Ok(WaitOutcome::Failed(error)) => TerminateAction::Failed(error),
            Ok(WaitOutcome::Abort) => TerminateAction::Abort,
            Err(error) => TerminateAction::Failed(error),
        },
        (TerminateAction::Signal, TerminateEvent::Signalled(sent)) => match sent {
            Ok(()) => TerminateAction::ObserveAgain,
            Err(error) => TerminateAction::Failed(error),
        },
        (TerminateAction::ObserveAgain, TerminateEvent::Waited(waited)) => match waited {
            Ok(WaitOutcome::Reaped(proof)) => TerminateAction::Done(proof),
            Ok(WaitOutcome::Running) => TerminateAction::Pending,
            Ok(WaitOutcome::Failed(error)) => TerminateAction::Failed(error),
            Ok(WaitOutcome::Abort) => TerminateAction::Abort,
            Err(error) => TerminateAction::Failed(error),
        },
        (at, _) => at,
    }
}

/// A step of termination comes to a signal only from a wait that found the child running, and to a
/// reaped child only from the wait that reaped it.
pub proof fn law_termination_is_exact(at: TerminateAction, event: TerminateEvent)
    ensures
        at !is Signal && terminated(at, event) is Signal ==> at is Observe && event
            == TerminateEvent::Waited(Ok(WaitOutcome::Running)),
        at !is Done ==> (terminated(at, event) matches TerminateAction::Done(proof) ==> event
            == TerminateEvent::Waited(Ok(WaitOutcome::Reaped(proof)))),
{
}

/// What emergency cleanup does next.
#[derive(Debug, PartialEq, Eq)]
pub enum EmergencyStep {
    /// Signal the child, unless that is done.
    Signal,
    /// Wait for the child, for as long as it takes.
    WaitAgain,
    /// The child is reaped.
    Done(ReapedAuthWorker),
    /// The service has to stop.
    Abort,
}

/// What emergency cleanup does after one wait that blocks: an interrupted one is repeated, and
/// nothing but a reaped child ends it well.
pub open spec fn emergency_after(outcome: WaitOutcome) -> EmergencyStep {
    match outcome {
        WaitOutcome::Reaped(proof) => EmergencyStep::Done(proof),
        WaitOutcome::Failed(error) => if error == DirectChildAuthWorkerError::Wait(EINTR) {
            EmergencyStep::WaitAgain
        } else {
            EmergencyStep::Abort
        },
        WaitOutcome::Running | WaitOutcome::Abort => EmergencyStep::Abort,
    }
}

/// Decides what emergency cleanup does after one wait that blocks.
pub fn emergency_step(outcome: WaitOutcome) -> (r: EmergencyStep)
    ensures
        r == emergency_after(outcome),
{
    match outcome {
        WaitOutcome::Reaped(proof) => EmergencyStep::Done(proof),
        WaitOutcome::Failed(DirectChildAuthWorkerError::Wait(error)) => {
            if error == EINTR {
                EmergencyStep::WaitAgain
            } else {
                EmergencyStep::Abort
            }
        },
        _ => EmergencyStep::Abort,
    }
}

/// What emergency cleanup does after an event.
pub open spec fn emergency_moved(at: EmergencyStep, event: TerminateEvent) -> EmergencyStep {
    match (at, event) {
        (EmergencyStep::Signal, TerminateEvent::Signalled(Ok(()))) => EmergencyStep::WaitAgain,
        (EmergencyStep::Signal, TerminateEvent::Signalled(Err(_))) => EmergencyStep::Abort,
        (EmergencyStep::WaitAgain, TerminateEvent::Waited(Ok(outcome))) => {
            emergency_after(outcome)
        },
        (EmergencyStep::WaitAgain, TerminateEvent::Waited(Err(_))) => EmergencyStep::Abort,
        _ => at,
    }
}

/// Decides what emergency cleanup does after an event: first the signal, then waits until the child
/// is reaped. A refusal of either stops the service; an event that does not fit changes nothing.
pub fn emergency_advance(at: EmergencyStep, event: TerminateEvent) -> (r: EmergencyStep)
    ensures
        r == emergency_moved(at, event),
{
    match (at, event) {
        (EmergencyStep::Signal, TerminateEvent::Signalled(sent)) => match sent {
            Ok(()) => EmergencyStep::WaitAgain,
            Err(_) => EmergencyStep::Abort,
        },
        (EmergencyStep::WaitAgain, TerminateEvent::Waited(waited)) => match waited {
            Ok(outcome) => emergency_step(outcome),
            Err(_) => EmergencyStep::Abort,
        },
        (at, _) => at,
    }
}

/// Exact cleanup and sole-waiter behavior of one worker.
///
/// An implementation owns one unreaped child. It signals the number only while the child pins it,
/// keeps the same child on `Err`, and represents an abnormal exit faithfully.
pub trait ExactAuthWorkerAuthority {
    type Failure;

    /// Makes one nonblocking observation after a result.
    fn try_reap_after_result(&mut self) -> Result<Option<ReapedAuthWorker>, Self::Failure>;

    /// Makes one nonblocking step of termination.
    fn try_terminate_and_reap(&mut self) -> Result<Option<ReapedAuthWorker>, Self::Failure>;

    /// Terminates and reaps, or stops the service.
    fn emergency_terminate_and_reap(&mut self) -> ReapedAuthWorker;
}

/// How far a worker has retired.
#[derive(Clone, Copy, Debug, PartialEq, Eq, Structural)]
pub enum AuthWorkerRetirement {
    Pending,
    Clean,
    Rejected,
}

/// What one observation says of a worker's retirement.
pub open spec fn retirement_of<F>(observed: Result<Option<ReapedAuthWorker>, F>) -> Result<
    AuthWorkerRetirement,
    F,
> {
    match observed {
        Err(failure) => Err(failure),
        Ok(None) => Ok(AuthWorkerRetirement::Pending),
        Ok(Some(proof)) => if proof.spec_clean() {
            Ok(AuthWorkerRetirement::Clean)
        } else {
            Ok(AuthWorkerRetirement::Rejected)
        },
    }
}

/// Whether one step of termination has reaped the worker.
pub open spec fn reaped_by<F>(observed: Result<Option<ReapedAuthWorker>, F>) -> Result<bool, F> {
    match observed {
        Err(failure) => Err(failure),
        Ok(proof) => Ok(proof is Some),
    }
}

/// One worker whose cleanup is owed while it is armed.
pub struct ExactAuthWorker<Authority: ExactAuthWorkerAuthority> {
    pub authority: Authority,
    pub armed: bool,
}

impl<Authority: ExactAuthWorkerAuthority> ExactAuthWorker<Authority> {
    /// Arms the cleanup of one unreaped worker.
    pub fn from_unreaped_direct_child(authority: Authority) -> (r: ExactAuthWorker<Authority>)
        ensures
            r.authority == authority,
            r.armed,
    {
        ExactAuthWorker { authority, armed: true }
    }

    /// Records an observation of the worker: a reaped one is no longer armed.
    pub fn settle_reap(
        &mut self,
        observed: Result<Option<ReapedAuthWorker>, Authority::Failure>,
    ) -> (r: Result<AuthWorkerRetirement, Authority::Failure>)
        ensures
            r == retirement_of(observed),
            final(self).authority == old(self).authority,
            final(self).armed == (old(self).armed && !(observed matches Ok(Some(_)))),
    {
        match observed {
            Err(failure) => Err(failure),
            Ok(None) => Ok(AuthWorkerRetirement::Pending),
            Ok(Some(proof)) => {
                self.armed = false;
                if proof.is_clean() {
                    Ok(AuthWorkerRetirement::Clean)
                } else {
                    Ok(AuthWorkerRetirement::Rejected)
                }
            },
        }
    }

    /// Makes one observation after a result: what the authority answers decides, and the authority
    /// is left as its answer leaves it.
    pub fn try_reap_after_result(&mut self) -> (r: Result<AuthWorkerRetirement, Authority::Failure>)
        ensures
            exists|
                asked: &mut Authority,
                observed: Result<Option<ReapedAuthWorker>, Authority::Failure>,
            |
                {
                    &&& *asked == old(self).authority
                    &&& *final(asked) == final(self).authority
                    &&& #[trigger] call_ensures(
                        Authority::try_reap_after_result,
                        (asked,),
                        observed,
                    )
                    &&& r == retirement_of(observed)
                },
            final(self).armed == (old(self).armed && (r is Err || r
                == Ok::<_, Authority::Failure>(AuthWorkerRetirement::Pending))),
    {
        let observed = self.authority.try_reap_after_result();
        self.settle_reap(observed)
    }

    /// Makes one step of termination; `true` once the worker is reaped. What the authority answers
    /// decides, and the authority is left as its answer leaves it.
    pub fn try_terminate_and_reap(&mut self) -> (r: Result<bool, Authority::Failure>)
        ensures
            exists|
                asked: &mut Authority,
                observed: Result<Option<ReapedAuthWorker>, Authority::Failure>,
            |
                {
                    &&& *asked == old(self).authority
                    &&& *final(asked) == final(self).authority
                    &&& #[trigger] call_ensures(
                        Authority::try_terminate_and_reap,
                        (asked,),
                        observed,
                    )
                    &&& r == reaped_by(observed)
                },
            final(self).armed == (old(self).armed && r != Ok::<_, Authority::Failure>(true)),
    {
        let observed = self.authority.try_terminate_and_reap();
        match self.settle_reap(observed) {
            Err(failure) => Err(failure),
            Ok(AuthWorkerRetirement::Pending) => Ok(false),
            Ok(_) => Ok(true),
        }
    }

    /// Cleans up an armed worker at all costs: its authority terminates and reaps it. Of a worker
    /// that is not armed nothing is owed, and its authority is not asked.
    pub fn emergency_cleanup(&mut self)
        ensures
            !final(self).armed,
            old(self).armed ==> exists|asked: &mut Authority, reaped: ReapedAuthWorker|
                {
                    &&& *asked == old(self).authority
                    &&& *final(asked) == final(self).authority
                    &&& #[trigger] call_ensures(
                        Authority::emergency_terminate_and_reap,
                        (asked,),
                        reaped,
                    )
                },
            !old(self).armed ==> final(self).authority == old(self).authority,
    {
        if self.armed {
            let _ = self.authority.emergency_terminate_and_reap();
            self.armed = false;
        }
    }
}

/// Failure to establish the process-wide wait domain.
#[derive(Clone, Copy, Debug, PartialEq, Eq, Structural)]
pub enum ChildWaitDomainError {
    /// Another owner already claimed the domain.
    AlreadyClaimed,
    /// The disposition of SIGCHLD could not be queried.
    Sigaction(i32),
    /// SIGCHLD was ignored or handled.
    NonDefaultSigchld,
    /// The process asked for automatic reaping, which unpins process numbers.
    AutoReapEnabled,
    /// The caller is not the main thread.
    NotMainThread,
    /// Another thread exists or has existed.
    ProcessAlreadyThreaded,
    /// The canonical disposition could not be installed.
    InstallSigaction(i32),
    /// A signal-set operation failed.
    SignalSet(i32),
    /// The signal mask could not be set or read.
    SignalMask(i32),
    /// The disposition is not the canonical one after it was installed.
    NonCanonicalSigchld,
    /// SIGCHLD is not blocked.
    SigchldNotBlocked,
}

/// Disposition of a signal.
#[derive(Clone, Copy, Debug, PartialEq, Eq, Structural)]
pub struct DarwinSigaction {
    pub handler: u64,
    pub mask: u32,
    pub flags: i32,
}

/// Flag that asks for automatic reaping.
pub const SA_NOCLDWAIT: i32 = 0x0020;

/// The disposition that the domain installs.
pub open spec fn canonical_disposition() -> DarwinSigaction {
    DarwinSigaction { handler: 0, mask: 0, flags: 0 }
}

/// Why a disposition is refused, if it is.
pub open spec fn checked_disposition(disposition: DarwinSigaction) -> Result<
    (),
    ChildWaitDomainError,
> {
    if disposition.handler != 0 {
        Err(ChildWaitDomainError::NonDefaultSigchld)
    } else if disposition.flags & SA_NOCLDWAIT != 0 {
        Err(ChildWaitDomainError::AutoReapEnabled)
    } else {
        Ok(())
    }
}

/// Refuses a disposition under which children could vanish unobserved.
pub fn validate_disposition(disposition: DarwinSigaction) -> (r: Result<(), ChildWaitDomainError>)
    ensures
        r == checked_disposition(disposition),
{
    if disposition.handler != 0 {
        return Err(ChildWaitDomainError::NonDefaultSigchld);
    }
    if disposition.flags & SA_NOCLDWAIT != 0 {
        return Err(ChildWaitDomainError::AutoReapEnabled);
    }
    Ok(())
}

/// The operations by which a wait domain is established, in their order. A recheck before a spawn
/// skips those that change something.
#[derive(Clone, Copy, Debug, PartialEq, Eq, Structural)]
pub enum WaitDomainStep {
    /// Ask whether this is the main thread.
    AskMainThread,
    /// Ask whether the process is threaded.
    AskThreaded,
    /// Query the disposition.
    QueryDisposition,
    /// Claim the domain, once per process.
    Claim,
    /// Install the canonical disposition.
    Install,
    /// Build the set that holds SIGCHLD.
    BuildSet,
    /// Block the set.
    Block,
    /// Query the disposition again.
    QueryInstalled,
    /// Read the mask.
    ReadMask,
    /// Ask whether the mask holds SIGCHLD.
    AskBlocked,
    /// The domain stands.
    Established,
}

/// What an operation answered.
#[derive(Clone, Copy, Debug, PartialEq, Eq)]
pub enum WaitDomainAnswer {
    /// A status or predicate.
    Status(i32),
    /// An operation that failed with this error, or went well.
    Outcome(Result<(), i32>),
    /// A disposition, or the error of the query.
    Disposition(Result<DarwinSigaction, i32>),
    /// Whether the claim was the first.
    Claimed(bool),
}

/// Whether an answer is one to this operation.
pub open spec fn answers(step: WaitDomainStep, answer: WaitDomainAnswer) -> bool {
    match step {
        WaitDomainStep::AskMainThread
        | WaitDomainStep::AskThreaded
        | WaitDomainStep::Block
        | WaitDomainStep::ReadMask
        | WaitDomainStep::AskBlocked => answer is Status,
        WaitDomainStep::QueryDisposition | WaitDomainStep::QueryInstalled => answer is Disposition,
        WaitDomainStep::Claim => answer is Claimed,
        WaitDomainStep::Install | WaitDomainStep::BuildSet => answer is Outcome,
        WaitDomainStep::Established => false,
    }
}

/// The operation that follows an answer, or why the domain is refused.
pub open spec fn next_step(recheck: bool, step: WaitDomainStep, answer: WaitDomainAnswer) -> Result<
    WaitDomainStep,
    ChildWaitDomainError,
> {
    match (step, answer) {
        (WaitDomainStep::AskMainThread, WaitDomainAnswer::Status(value)) => if value == 0 {
            Err(ChildWaitDomainError::NotMainThread)
        } else {
            Ok(WaitDomainStep::AskThreaded)
        },
        (WaitDomainStep::AskThreaded, WaitDomainAnswer::Status(value)) => if value != 0 {
            Err(ChildWaitDomainError::ProcessAlreadyThreaded)
        } else {
            Ok(WaitDomainStep::QueryDisposition)
        },
        (WaitDomainStep::QueryDisposition, WaitDomainAnswer::Disposition(Err(error))) => Err(
            ChildWaitDomainError::Sigaction(error),
        ),
        (WaitDomainStep::QueryDisposition, WaitDomainAnswer::Disposition(Ok(disposition))) => {
            match checked_disposition(disposition) {
                Err(error) => Err(error),
                Ok(()) => if recheck {
                    Ok(WaitDomainStep::ReadMask)
                } else {
                    Ok(WaitDomainStep::Claim)
                },
            }
        },
        (WaitDomainStep::Claim, WaitDomainAnswer::Claimed(first)) => if first {
            Ok(WaitDomainStep::Install)
        } else {
            Err(ChildWaitDomainError::AlreadyClaimed)
        },
        (WaitDomainStep::Install, WaitDomainAnswer::Outcome(outcome)) => match outcome {
            Ok(()) => Ok(WaitDomainStep::BuildSet),
            Err(error) => Err(ChildWaitDomainError::InstallSigaction(error)),
        },
        (WaitDomainStep::BuildSet, WaitDomainAnswer::Outcome(outcome)) => match outcome {
            Ok(()) => Ok(WaitDomainStep::Block),
            Err(error) => Err(ChildWaitDomainError::SignalSet(error)),
        },
        (WaitDomainStep::Block, WaitDomainAnswer::Status(error)) => if error == 0 {
            Ok(WaitDomainStep::QueryInstalled)
        } else {
            Err(ChildWaitDomainError::SignalMask(error))
        },
        (WaitDomainStep::QueryInstalled, WaitDomainAnswer::Disposition(Err(error))) => Err(
            ChildWaitDomainError::Sigaction(error),
        ),
        (WaitDomainStep::QueryInstalled, WaitDomainAnswer::Disposition(Ok(disposition))) => {
            if disposition == canonical_disposition() {
                Ok(WaitDomainStep::ReadMask)
            } else {
                Err(ChildWaitDomainError::NonCanonicalSigchld)
            }
        },
        (WaitDomainStep::ReadMask, WaitDomainAnswer::Status(error)) => if error == 0 {
            Ok(WaitDomainStep::AskBlocked)
        } else {
            Err(ChildWaitDomainError::SignalMask(error))
        },
        (WaitDomainStep::AskBlocked, WaitDomainAnswer::Status(member)) => if member == 1 {
            Ok(WaitDomainStep::Established)
        } else {
            Err(ChildWaitDomainError::SigchldNotBlocked)
        },
        _ => Ok(step),
    }
}

/// Decides which operation follows an answer.
pub fn wait_domain_step(recheck: bool, step: WaitDomainStep, answer: WaitDomainAnswer) -> (r:
    Result<WaitDomainStep, ChildWaitDomainError>)
    requires
        answers(step, answer),
    ensures
        r == next_step(recheck, step, answer),
{
    match (step, answer) {
        (WaitDomainStep::AskMainThread, WaitDomainAnswer::Status(value)) => {
            if value == 0 {
                Err(ChildWaitDomainError::NotMainThread)
            } else {
                Ok(WaitDomainStep::AskThreaded)
            }
        },
        (WaitDomainStep::AskThreaded, WaitDomainAnswer::Status(value)) => {
            if value != 0 {
                Err(ChildWaitDomainError::ProcessAlreadyThreaded)
            } else {
                Ok(WaitDomainStep::QueryDisposition)
            }
        },
        (WaitDomainStep::QueryDisposition, WaitDomainAnswer::Disposition(found)) => match found {
            Err(error) => Err(ChildWaitDomainError::Sigaction(error)),
            Ok(disposition) => match validate_disposition(disposition) {
                Err(error) => Err(error),
                Ok(()) => {
                    if recheck {
                        Ok(WaitDomainStep::ReadMask)
                    } else {
                        Ok(WaitDomainStep::Claim)
                    }
                },
            },
        },
        (WaitDomainStep::Claim, WaitDomainAnswer::Claimed(first)) => {
            if first {
                Ok(WaitDomainStep::Install)
            } else {
                Err(ChildWaitDomainError::AlreadyClaimed)
            }
        },
        (WaitDomainStep::Install, WaitDomainAnswer::Outcome(outcome)) => match outcome {
            Ok(()) => Ok(WaitDomainStep::BuildSet),
            Err(error) => Err(ChildWaitDomainError::InstallSigaction(error)),
        },
        (WaitDomainStep::BuildSet, WaitDomainAnswer::Outcome(outcome)) => match outcome {
            Ok(()) => Ok(WaitDomainStep::Block),
            Err(error) => Err(ChildWaitDomainError::SignalSet(error)),
        },
        (WaitDomainStep::Block, WaitDomainAnswer::Status(error)) => {
            if error == 0 {
                Ok(WaitDomainStep::QueryInstalled)
            } else {
                Err(ChildWaitDomainError::SignalMask(error))
            }
        },
        (WaitDomainStep::QueryInstalled, WaitDomainAnswer::Disposition(found)) => match found {
            Err(error) => Err(ChildWaitDomainError::Sigaction(error)),
            Ok(disposition) => {
                if disposition.handler == 0 && disposition.mask == 0 && disposition.flags == 0 {
                    Ok(WaitDomainStep::ReadMask)
                } else {
                    Err(ChildWaitDomainError::NonCanonicalSigchld)
                }
            },
        },
        (WaitDomainStep::ReadMask, WaitDomainAnswer::Status(error)) => {
            if error == 0 {
                Ok(WaitDomainStep::AskBlocked)
            } else {
                Err(ChildWaitDomainError::SignalMask(error))
            }
        },
        (WaitDomainStep::AskBlocked, WaitDomainAnswer::Status(member)) => {
            if member == 1 {
                Ok(WaitDomainStep::Established)
            } else {
                Err(ChildWaitDomainError::SigchldNotBlocked)
            }
        },
        _ => Ok(step),
    }
}

/// How many operations are left before the domain can stand.
pub open spec fn steps_left(step: WaitDomainStep) -> int {
    match step {
        WaitDomainStep::AskMainThread => 10,
        WaitDomainStep::AskThreaded => 9,
        WaitDomainStep::QueryDisposition => 8,
        WaitDomainStep::Claim => 7,
        WaitDomainStep::Install => 6,
        WaitDomainStep::BuildSet => 5,
        WaitDomainStep::Block => 4,
        WaitDomainStep::QueryInstalled => 3,
        WaitDomainStep::ReadMask => 2,
        WaitDomainStep::AskBlocked => 1,
        WaitDomainStep::Established => 0,
    }
}

/// Establishing a domain always ends, and nothing is changed by a recheck: an answer that is not
/// refused leads strictly nearer to the end, and a recheck never claims, installs or blocks.
pub proof fn law_wait_domain_progress(recheck: bool, step: WaitDomainStep, answer: WaitDomainAnswer)
    requires
        answers(step, answer),
    ensures
        next_step(recheck, step, answer) matches Ok(next) ==> {
            &&& steps_left(next) < steps_left(step)
            &&& recheck && 7 < steps_left(step) ==> next == WaitDomainStep::AskThreaded || next
                == WaitDomainStep::QueryDisposition || next == WaitDomainStep::ReadMask
            &&& next == WaitDomainStep::Established ==> step == WaitDomainStep::AskBlocked
                && answer == WaitDomainAnswer::Status(1)
        },
{
}

/// A domain is established where nothing stands against it: on the main thread of a process without
/// threads, with an ordinary disposition and a first claim, every operation done and read back. A
/// recheck needs the answers alone.
pub proof fn law_good_domain_is_established(found: DarwinSigaction, main: i32)
    requires
        main != 0,
        found.handler == 0,
        found.flags & 0x20 == 0,
    ensures
        ({
            let ordinary = WaitDomainAnswer::Disposition(Ok(found));
            let canonical = WaitDomainAnswer::Disposition(
                Ok(DarwinSigaction { handler: 0, mask: 0, flags: 0 }),
            );
            let zero = WaitDomainAnswer::Status(0);
            let done = WaitDomainAnswer::Outcome(Ok(()));
            &&& forall|recheck: bool|
                #![trigger next_step(recheck, WaitDomainStep::AskThreaded, zero)]
                next_step(recheck, WaitDomainStep::AskMainThread, WaitDomainAnswer::Status(main))
                    == Ok::<_, ChildWaitDomainError>(WaitDomainStep::AskThreaded) && next_step(
                    recheck,
                    WaitDomainStep::AskThreaded,
                    zero,
                ) == Ok::<_, ChildWaitDomainError>(WaitDomainStep::QueryDisposition) && next_step(
                    recheck,
                    WaitDomainStep::ReadMask,
                    zero,
                ) == Ok::<_, ChildWaitDomainError>(WaitDomainStep::AskBlocked) && next_step(
                    recheck,
                    WaitDomainStep::AskBlocked,
                    WaitDomainAnswer::Status(1),
                ) == Ok::<_, ChildWaitDomainError>(WaitDomainStep::Established)
            &&& next_step(true, WaitDomainStep::QueryDisposition, ordinary) == Ok::<
                _,
                ChildWaitDomainError,
            >(WaitDomainStep::ReadMask)
            &&& next_step(false, WaitDomainStep::QueryDisposition, ordinary) == Ok::<
                _,
                ChildWaitDomainError,
            >(WaitDomainStep::Claim)
            &&& next_step(false, WaitDomainStep::Claim, WaitDomainAnswer::Claimed(true)) == Ok::<
                _,
                ChildWaitDomainError,
            >(WaitDomainStep::Install)
            &&& next_step(false, WaitDomainStep::Install, done) == Ok::<_, ChildWaitDomainError>(
                WaitDomainStep::BuildSet,
            )
            &&& next_step(false, WaitDomainStep::BuildSet, done) == Ok::<_, ChildWaitDomainError>(
                WaitDomainStep::Block,
            )
            &&& next_step(false, WaitDomainStep::Block, zero) == Ok::<_, ChildWaitDomainError>(
                WaitDomainStep::QueryInstalled,
            )
            &&& next_step(false, WaitDomainStep::QueryInstalled, canonical) == Ok::<
                _,
                ChildWaitDomainError,
            >(WaitDomainStep::ReadMask)
        }),
{
}

/// A domain is refused for what stands against it, and that is told.
pub proof fn law_bad_domains_are_refused(recheck: bool, found: DarwinSigaction, code: i32)
    ensures
        next_step(recheck, WaitDomainStep::AskMainThread, WaitDomainAnswer::Status(0)) == Err::<
            WaitDomainStep,
            _,
        >(ChildWaitDomainError::NotMainThread),
        code != 0 ==> next_step(
            recheck,
            WaitDomainStep::AskThreaded,
            WaitDomainAnswer::Status(code),
        ) == Err::<WaitDomainStep, _>(ChildWaitDomainError::ProcessAlreadyThreaded),
        found.handler != 0 ==> next_step(
            recheck,
            WaitDomainStep::QueryDisposition,
            WaitDomainAnswer::Disposition(Ok(found)),
        ) == Err::<WaitDomainStep, _>(ChildWaitDomainError::NonDefaultSigchld),
        found.handler == 0 && found.flags & 0x20 != 0 ==> next_step(
            recheck,
            WaitDomainStep::QueryDisposition,
            WaitDomainAnswer::Disposition(Ok(found)),
        ) == Err::<WaitDomainStep, _>(ChildWaitDomainError::AutoReapEnabled),
        next_step(
            recheck,
            WaitDomainStep::QueryDisposition,
            WaitDomainAnswer::Disposition(Err(code)),
        ) == Err::<WaitDomainStep, _>(ChildWaitDomainError::Sigaction(code)),
        next_step(recheck, WaitDomainStep::Claim, WaitDomainAnswer::Claimed(false)) == Err::<
            WaitDomainStep,
            _,
        >(ChildWaitDomainError::AlreadyClaimed),
        next_step(recheck, WaitDomainStep::Install, WaitDomainAnswer::Outcome(Err(code))) == Err::<
            WaitDomainStep,
            _,
        >(ChildWaitDomainError::InstallSigaction(code)),
        next_step(recheck, WaitDomainStep::BuildSet, WaitDomainAnswer::Outcome(Err(code))) == Err::<
            WaitDomainStep,
            _,
        >(ChildWaitDomainError::SignalSet(code)),
        code != 0 ==> next_step(recheck, WaitDomainStep::Block, WaitDomainAnswer::Status(code))
            == Err::<WaitDomainStep, _>(ChildWaitDomainError::SignalMask(code)),
        found.handler != 0 || found.mask != 0 || found.flags != 0 ==> next_step(
            recheck,
            WaitDomainStep::QueryInstalled,
            WaitDomainAnswer::Disposition(Ok(found)),
        ) == Err::<WaitDomainStep, _>(ChildWaitDomainError::NonCanonicalSigchld),
        code != 0 ==> next_step(recheck, WaitDomainStep::ReadMask, WaitDomainAnswer::Status(code))
            == Err::<WaitDomainStep, _>(ChildWaitDomainError::SignalMask(code)),
        code != 1 ==> next_step(recheck, WaitDomainStep::AskBlocked, WaitDomainAnswer::Status(code))
            == Err::<WaitDomainStep, _>(ChildWaitDomainError::SigchldNotBlocked),
{
}

/// What an authority observes is passed on: its failure as it is, a worker that runs as pending,
/// and a reaped one by how it exited; a step of termination has ended the worker exactly where it
/// reaped it.
pub proof fn law_observations_are_passed_on<F>(failure: F, proof: ReapedAuthWorker)
    ensures
        retirement_of::<F>(Err(failure)) == Err::<AuthWorkerRetirement, F>(failure),
        retirement_of::<F>(Ok(None)) == Ok::<_, F>(AuthWorkerRetirement::Pending),
        retirement_of::<F>(Ok(Some(proof))) == Ok::<_, F>(AuthWorkerRetirement::Clean)
            <==> proof.spec_clean(),
        retirement_of::<F>(Ok(Some(proof))) == Ok::<_, F>(AuthWorkerRetirement::Rejected)
            <==> !proof.spec_clean(),
        reaped_by::<F>(Err(failure)) == Err::<bool, F>(failure),
        reaped_by::<F>(Ok(None)) == Ok::<_, F>(false),
        reaped_by::<F>(Ok(Some(proof))) == Ok::<_, F>(true),
{
}

/// A termination goes all the way: a child that runs is signalled and waited for once more, and is
/// then done or still pending; a reaped child is done at once, and a failure is told. Emergency
/// cleanup waits until the child is reaped, and repeats only an interrupted wait.
pub proof fn law_termination_goes_all_the_way(
    proof: ReapedAuthWorker,
    error: DirectChildAuthWorkerError,
)
    ensures
        ({
            let running = TerminateEvent::Waited(Ok(WaitOutcome::Running));
            let reaped = TerminateEvent::Waited(Ok(WaitOutcome::Reaped(proof)));
            let sent = TerminateEvent::Signalled(Ok(()));
            &&& terminated(TerminateAction::Observe, running) == TerminateAction::Signal
            &&& terminated(TerminateAction::Signal, sent) == TerminateAction::ObserveAgain
            &&& terminated(TerminateAction::ObserveAgain, running) == TerminateAction::Pending
            &&& terminated(TerminateAction::ObserveAgain, reaped) == TerminateAction::Done(proof)
            &&& terminated(TerminateAction::Observe, reaped) == TerminateAction::Done(proof)
            &&& terminated(TerminateAction::Signal, TerminateEvent::Signalled(Err(error)))
                == TerminateAction::Failed(error)
            &&& terminated(TerminateAction::Observe, TerminateEvent::Waited(Err(error)))
                == TerminateAction::Failed(error)
            &&& terminated(
                TerminateAction::ObserveAgain,
                TerminateEvent::Waited(Ok(WaitOutcome::Failed(error))),
            ) == TerminateAction::Failed(error)
            &&& terminated(
                TerminateAction::Observe,
                TerminateEvent::Waited(Ok(WaitOutcome::Abort)),
            ) == TerminateAction::Abort
        }),
        emergency_after(WaitOutcome::Reaped(proof)) == EmergencyStep::Done(proof),
        emergency_after(WaitOutcome::Failed(error)) == EmergencyStep::WaitAgain <==> error
            == DirectChildAuthWorkerError::Wait(4),
        error != DirectChildAuthWorkerError::Wait(4) ==> emergency_after(
            WaitOutcome::Failed(error),
        ) == EmergencyStep::Abort,
        emergency_after(WaitOutcome::Running) == EmergencyStep::Abort,
        emergency_after(WaitOutcome::Abort) == EmergencyStep::Abort,
{
}

/// A child pins its number exactly until it is reaped or taken away.
pub proof fn law_unreaped_children_pin_their_number(state: DirectChildState)
    ensures
        pins(state) <==> state != DirectChildState::Reaped && state
            != DirectChildState::AuthorityLost,
{
}

/// A child is reaped exactly by a wait that gives its number, and the proof says how it ended; a
/// wait that gives nothing leaves it running, one that finds no child loses it, and any other is
/// told. Its number never changes.
pub proof fn law_waits_are_judged(
    before: DirectChildAuthWorkerAuthority,
    result: i32,
    status: i32,
    error: i32,
    after: DirectChildAuthWorkerAuthority,
    outcome: WaitOutcome,
)
    requires
        before.pid > 0,
        pins(before.state),
        waited(before, result, status, error, after, outcome),
    ensures
        after.pid == before.pid,
        outcome is Reaped <==> result == before.pid,
        outcome matches WaitOutcome::Reaped(proof) ==> (proof.spec_clean()
            <==> wait_status::clean_exit(status)),
        outcome is Running <==> result == 0,
        outcome is Abort <==> result != before.pid && result != 0 && error == 10,
        outcome matches WaitOutcome::Failed(told) ==> told == DirectChildAuthWorkerError::Wait(
            error,
        ),
        pins(after.state) <==> outcome is Running || outcome is Failed,
        outcome is Running || outcome is Failed ==> after.state == before.state,
        after.state == DirectChildState::Reaped <==> outcome is Reaped,
{
}

/// A kill is done exactly where it succeeded or found no process, and then is not sent again; any
/// other is told and changes nothing.
pub proof fn law_kills_are_judged(
    before: DirectChildAuthWorkerAuthority,
    result: i32,
    error: i32,
    after: DirectChildAuthWorkerAuthority,
    outcome: Result<(), DirectChildAuthWorkerError>,
)
    requires
        before.state == DirectChildState::Unreaped,
        killed(before, result, error, after, outcome),
    ensures
        after.pid == before.pid,
        pins(after.state),
        outcome is Ok <==> result == 0 || error == 3,
        outcome is Ok <==> after.state == DirectChildState::TerminationSent,
        outcome matches Err(told) ==> told == DirectChildAuthWorkerError::Signal(error) && after
            == before,
{
}

/// Emergency cleanup signals first and then waits until the child is reaped; it stops the service
/// for a refusal of either.
pub proof fn law_emergency_goes_all_the_way(
    proof: ReapedAuthWorker,
    error: DirectChildAuthWorkerError,
)
    ensures
        emergency_moved(EmergencyStep::Signal, TerminateEvent::Signalled(Ok(())))
            == EmergencyStep::WaitAgain,
        emergency_moved(EmergencyStep::Signal, TerminateEvent::Signalled(Err(error)))
            == EmergencyStep::Abort,
        emergency_moved(
            EmergencyStep::WaitAgain,
            TerminateEvent::Waited(Ok(WaitOutcome::Reaped(proof))),
        ) == EmergencyStep::Done(proof),
        emergency_moved(
            EmergencyStep::WaitAgain,
            TerminateEvent::Waited(
                Ok(WaitOutcome::Failed(DirectChildAuthWorkerError::Wait(4))),
            ),
        ) == EmergencyStep::WaitAgain,
        emergency_moved(EmergencyStep::WaitAgain, TerminateEvent::Waited(Err(error)))
            == EmergencyStep::Abort,
{
}

} // verus!
