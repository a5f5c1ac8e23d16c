//! The start pipe that starts a broker once, and tells it that its service is gone.

use vstd::prelude::*;
use crate::supervisor::deadline::SupervisorWireError;
use crate::wait_status::{EAGAIN, EINTR};

verus! {

/// The byte that starts a broker.
pub const START_BYTE: u8 = 1;

/// Nanoseconds in a millisecond.
pub const NANOS_PER_MILLI: u64 = 1_000_000;

/// Timeout of a wait that takes as long as it takes.
pub const NO_TIMEOUT: i32 = -1;

/// A descriptor can be read.
pub const POLLIN: i16 = 0x0001;

/// A descriptor can be written.
pub const POLLOUT: i16 = 0x0004;

/// A descriptor has failed, is closed at the other end, or is not open.
pub const POLL_BROKEN: i16 = 0x0038;

/// Status flag of a descriptor that does not block.
pub const O_NONBLOCK: i32 = 0x0000_0004;

/// Failure before or while the protocol of the broker's entry is consumed.
#[derive(Clone, Copy, Debug, PartialEq, Eq, Structural)]
pub enum BrokerEntryError {
    /// The arguments are not the fixed ones.
    InvalidArguments,
    /// The start pipe is absent, not read-only, or no pipe.
    InvalidGate,
    /// The control stream is absent, or no bidirectional stream.
    InvalidControl,
    /// An operation on a descriptor failed.
    Descriptor(i32),
    /// A read of the start pipe failed.
    Read(i32),
    /// The start pipe carried a wrong or repeated byte.
    InvalidActivation,
    /// The plan is malformed, expired or not canonical.
    Plan(SupervisorWireError),
    /// The control stream failed.
    Control(i32),
}

/// Clean end caused by the loss of the service.
#[derive(Clone, Copy, Debug, PartialEq, Eq, Structural)]
pub enum BrokerGateExit {
    /// The service disappeared before it started the broker.
    ServiceGoneBeforeActivation,
    /// The service disappeared after it started the broker.
    ServiceGone,
}

/// What one read of one byte from the start pipe gave.
#[derive(Clone, Copy, Debug, PartialEq, Eq, Structural)]
pub enum GateRead {
    /// The other end is closed.
    End,
    /// A byte.
    Byte(u8),
    /// The read failed.
    Failed(i32),
}

/// What a look at the start pipe amounts to.
#[derive(Clone, Copy, Debug, PartialEq, Eq, Structural)]
pub enum GateStep {
    /// Look again.
    Again,
    /// The service is there and silent.
    Live,
    /// The service is gone.
    Exit(BrokerGateExit),
    /// The protocol is broken.
    Failed(BrokerEntryError),
}

/// What a look at the start pipe amounts to, where the loss of the service is `gone`.
pub open spec fn probed(read: GateRead, gone: BrokerGateExit) -> GateStep {
    match read {
        GateRead::End => GateStep::Exit(gone),
        GateRead::Byte(_) => GateStep::Failed(BrokerEntryError::InvalidActivation),
        GateRead::Failed(error) => if error == EINTR {
            GateStep::Again
        } else if error == EAGAIN {
            GateStep::Live
        } else {
            GateStep::Failed(BrokerEntryError::Read(error))
        },
    }
}

fn probe(read: GateRead, gone: BrokerGateExit) -> (r: GateStep)
    ensures
        r == probed(read, gone),
{
    match read {
        GateRead::End => GateStep::Exit(gone),
        GateRead::Byte(_) => GateStep::Failed(BrokerEntryError::InvalidActivation),
        GateRead::Failed(error) => {
            if error == EINTR {
                GateStep::Again
            } else if error == EAGAIN {
                GateStep::Live
            } else {
                GateStep::Failed(BrokerEntryError::Read(error))
            }
        },
    }
}

/// Judges a look at the start pipe of a broker that has not been started.
pub fn probe_dormant_gate(read: GateRead) -> (r: GateStep)
    ensures
        r == probed(read, BrokerGateExit::ServiceGoneBeforeActivation),
{
    probe(read, BrokerGateExit::ServiceGoneBeforeActivation)
}

/// Judges the look at the start pipe that follows a complete trace report: the loss of the service
/// comes before any authority that the report would give.
pub fn finish_trace_report_before_authority(read: GateRead) -> (r: GateStep)
    ensures
        r == probed(read, BrokerGateExit::ServiceGone),
{
    probe(read, BrokerGateExit::ServiceGone)
}

/// Judges the look at the start pipe that follows a complete resume commit: the loss of the service
/// comes before the authority to resume.
pub fn final_resume_gate_probe(read: GateRead) -> (r: GateStep)
    ensures
        r == probed(read, BrokerGateExit::ServiceGone),
{
    probe(read, BrokerGateExit::ServiceGone)
}

/// Whether a deadline has not come.
pub fn ensure_deadline_live(deadline: Option<u64>, now: u64) -> (r: Result<(), BrokerEntryError>)
    ensures
        r == live_until(deadline, now),
{
    match deadline {
        Some(value) => {
            if now >= value {
                Err(BrokerEntryError::Plan(SupervisorWireError::LimitExceeded))
            } else {
                Ok(())
            }
        },
        None => Ok(()),
    }
}

/// Whether a deadline has not come.
pub open spec fn live_until(deadline: Option<u64>, now: u64) -> Result<(), BrokerEntryError> {
    match deadline {
        Some(value) => if now >= value {
            Err(BrokerEntryError::Plan(SupervisorWireError::LimitExceeded))
        } else {
            Ok(())
        },
        None => Ok(()),
    }
}

/// How long to wait, in milliseconds; less than zero for as long as it takes.
pub open spec fn timeout_until(deadline: Option<u64>, now: u64) -> Result<i32, BrokerEntryError> {
    match deadline {
        None => Ok(NO_TIMEOUT),
        Some(value) => if now > value {
            Err(BrokerEntryError::Plan(SupervisorWireError::LimitExceeded))
        } else {
            let millis = (value - now) / NANOS_PER_MILLI as int;
            Ok(
                if millis > i32::MAX {
                    i32::MAX
                } else {
                    millis as i32
                },
            )
        },
    }
}

/// How long to wait, in milliseconds; less than zero for as long as it takes.
pub fn poll_timeout(deadline: Option<u64>, now: u64) -> (r: Result<i32, BrokerEntryError>)
    ensures
        r == timeout_until(deadline, now),
{
    match deadline {
        None => Ok(NO_TIMEOUT),
        Some(value) => {
            if now > value {
                return Err(BrokerEntryError::Plan(SupervisorWireError::LimitExceeded));
            }
            let millis: u64 = (value - now) / NANOS_PER_MILLI;
            if millis > i32::MAX as u64 {
                Ok(i32::MAX)
            } else {
                Ok(millis as i32)
            }
        },
    }
}

/// What a wait on descriptors amounts to.
#[derive(Clone, Copy, Debug, PartialEq, Eq, Structural)]
pub enum PollStep {
    /// Wait again.
    Again,
    /// Something can be done.
    Ready,
    /// The start pipe has something to say.
    ReadGate,
    /// The wait failed, or the deadline has come.
    Failed(BrokerEntryError),
}

/// What follows from a wait on the start pipe alone.
pub open spec fn start_awaited(result: i32, errno: i32, deadline: u64, now: u64) -> PollStep {
    if result > 0 {
        PollStep::Ready
    } else if result == 0 {
        if now >= deadline {
            PollStep::Failed(BrokerEntryError::Plan(SupervisorWireError::LimitExceeded))
        } else {
            PollStep::Again
        }
    } else if errno != EINTR {
        PollStep::Failed(BrokerEntryError::Read(errno))
    } else {
        PollStep::Again
    }
}

/// Judges a wait on the start pipe alone.
pub fn poll_gate_until(result: i32, errno: i32, deadline: u64, now: u64) -> (r: PollStep)
    ensures
        r == start_awaited(result, errno, deadline, now),
{
    if result > 0 {
        return PollStep::Ready;
    }
    if result == 0 {
        return match ensure_deadline_live(Some(deadline), now) {
            Err(error) => PollStep::Failed(error),
            Ok(()) => PollStep::Again,
        };
    }
    if errno != EINTR {
        return PollStep::Failed(BrokerEntryError::Read(errno));
    }
    PollStep::Again
}

/// What a wait on the start pipe and another stream answered.
#[derive(Clone, Copy, Debug, PartialEq, Eq, Structural)]
pub struct PollAnswer {
    /// How many descriptors have something to say; less than zero on failure.
    pub result: i32,
    /// The error of a failure.
    pub errno: i32,
    /// What the start pipe has to say.
    pub gate: i16,
    /// What the stream has to say.
    pub control: i16,
}

/// What a wait on the start pipe and the control stream amounts to. The start pipe comes first.
pub open spec fn polled(
    answer: PollAnswer,
    events: i16,
    deadline: Option<u64>,
    now: u64,
) -> PollStep {
    if answer.result == 0 {
        match live_until(deadline, now) {
            Err(error) => PollStep::Failed(error),
            Ok(()) => PollStep::Again,
        }
    } else if answer.result < 0 {
        if answer.errno == EINTR {
            PollStep::Again
        } else {
            PollStep::Failed(BrokerEntryError::Control(answer.errno))
        }
    } else if answer.gate != 0 {
        PollStep::ReadGate
    } else if answer.control & events != 0 {
        PollStep::Ready
    } else if answer.control & POLL_BROKEN != 0 {
        PollStep::Failed(BrokerEntryError::Control(0))
    } else {
        PollStep::Again
    }
}

/// Judges a wait on the start pipe and the control stream.
pub fn poll_control_and_gate(
    answer: PollAnswer,
    events: i16,
    deadline: Option<u64>,
    now: u64,
) -> (r: PollStep)
    ensures
        r == polled(answer, events, deadline, now),
{
    if answer.result == 0 {
        return match ensure_deadline_live(deadline, now) {
            Err(error) => PollStep::Failed(error),
            Ok(()) => PollStep::Again,
        };
    }
    if answer.result < 0 {
        if answer.errno == EINTR {
            return PollStep::Again;
        }
        return PollStep::Failed(BrokerEntryError::Control(answer.errno));
    }
    if answer.gate != 0 {
        return PollStep::ReadGate;
    }
    if answer.control & events != 0 {
        return PollStep::Ready;
    }
    if answer.control & POLL_BROKEN != 0 {
        return PollStep::Failed(BrokerEntryError::Control(0));
    }
    PollStep::Again
}

/// What follows from the read of a start pipe that a wait said has something to say.
pub open spec fn polled_read(read: GateRead) -> GateStep {
    match read {
        GateRead::Failed(error) => if error == EAGAIN || error == EINTR {
            GateStep::Live
        } else {
            GateStep::Failed(BrokerEntryError::Read(error))
        },
        _ => probed(read, BrokerGateExit::ServiceGoneBeforeActivation),
    }
}

/// Judges the read of a start pipe that a wait said has something to say; `Live` is to wait again.
pub fn read_polled_gate(read: GateRead) -> (r: GateStep)
    ensures
        r == polled_read(read),
{
    match probe_dormant_gate(read) {
        GateStep::Again => GateStep::Live,
        step => step,
    }
}

/// How far the start of a broker is.
#[derive(Clone, Copy, Debug, PartialEq, Eq, Structural)]
pub enum Activation {
    /// The start has not come.
    AwaitingStart,
    /// The start has come; whether anything follows it is not known.
    Confirming,
    /// The start has come alone.
    Active,
}

/// What a read during the start of a broker amounts to.
#[derive(Clone, Copy, Debug, PartialEq, Eq, Structural)]
pub enum ActivationStep {
    /// Read again, at this stage.
    Read(Activation),
    /// Wait for the start pipe, then read again.
    Poll,
    /// The service is gone.
    Exit(BrokerGateExit),
    /// The protocol is broken.
    Failed(BrokerEntryError),
}

/// What a read during the start amounts to. `blocking` is whether the first reads wait by
/// themselves; those of the confirmation never do.
pub open spec fn activated(stage: Activation, read: GateRead, blocking: bool) -> ActivationStep {
    match (stage, read) {
        (Activation::AwaitingStart, GateRead::End) => ActivationStep::Exit(
            BrokerGateExit::ServiceGoneBeforeActivation,
        ),
        (Activation::AwaitingStart, GateRead::Byte(byte)) => if byte == START_BYTE {
            ActivationStep::Read(Activation::Confirming)
        } else {
            ActivationStep::Failed(BrokerEntryError::InvalidActivation)
        },
        (Activation::AwaitingStart, GateRead::Failed(error)) => if error == EINTR {
            ActivationStep::Read(Activation::AwaitingStart)
        } else if error == EAGAIN && !blocking {
            ActivationStep::Poll
        } else {
            ActivationStep::Failed(BrokerEntryError::Read(error))
        },
        (Activation::Confirming, _) => match probed(read, BrokerGateExit::ServiceGone) {
            GateStep::Again => ActivationStep::Read(Activation::Confirming),
            GateStep::Live => ActivationStep::Read(Activation::Active),
            GateStep::Exit(exit) => ActivationStep::Exit(exit),
            GateStep::Failed(error) => ActivationStep::Failed(error),
        },
        (Activation::Active, _) => ActivationStep::Read(Activation::Active),
    }
}

/// Judges a read during the start of a broker.
pub fn wait_for_activation(stage: Activation, read: GateRead, blocking: bool) -> (r: ActivationStep)
    ensures
        r == activated(stage, read, blocking),
{
    match stage {
        Activation::AwaitingStart => match read {
            GateRead::End => ActivationStep::Exit(BrokerGateExit::ServiceGoneBeforeActivation),
            GateRead::Byte(byte) => {
                if byte == START_BYTE {
                    ActivationStep::Read(Activation::Confirming)
                } else {
                    ActivationStep::Failed(BrokerEntryError::InvalidActivation)
                }
            },
            GateRead::Failed(error) => {
                if error == EINTR {
                    ActivationStep::Read(Activation::AwaitingStart)
                } else if error == EAGAIN && !blocking {
                    ActivationStep::Poll
                } else {
                    ActivationStep::Failed(BrokerEntryError::Read(error))
                }
            },
        },
        Activation::Confirming => match probe(read, BrokerGateExit::ServiceGone) {
            GateStep::Again => ActivationStep::Read(Activation::Confirming),
            GateStep::Live => ActivationStep::Read(Activation::Active),
            GateStep::Exit(exit) => ActivationStep::Exit(exit),
            GateStep::Failed(error) => ActivationStep::Failed(error),
        },
        Activation::Active => ActivationStep::Read(Activation::Active),
    }
}

/// What follows from a read of the start pipe of a broker that runs.
pub open spec fn death_awaited(read: GateRead) -> GateStep {
    match read {
        GateRead::End => GateStep::Exit(BrokerGateExit::ServiceGone),
        GateRead::Byte(_) => GateStep::Failed(BrokerEntryError::InvalidActivation),
        GateRead::Failed(error) => if error == EINTR {
            GateStep::Again
        } else {
            GateStep::Failed(BrokerEntryError::Read(error))
        },
    }
}

/// Judges a read of the start pipe of a broker that runs: only the end of the service is in order.
pub fn wait_for_service_death(read: GateRead) -> (r: GateStep)
    ensures
        r == death_awaited(read),
{
    match read {
        GateRead::End => GateStep::Exit(BrokerGateExit::ServiceGone),
        GateRead::Byte(_) => GateStep::Failed(BrokerEntryError::InvalidActivation),
        GateRead::Failed(error) => {
            if error == EINTR {
                GateStep::Again
            } else {
                GateStep::Failed(BrokerEntryError::Read(error))
            }
        },
    }
}

/// The status flags of a descriptor that does, or does not, block; the other flags stay.
pub fn nonblocking_flags(flags: i32, enabled: bool) -> (r: i32)
    ensures
        r == (if enabled {
            flags | O_NONBLOCK
        } else {
            flags & !O_NONBLOCK
        }),
{
    if enabled {
        flags | O_NONBLOCK
    } else {
        flags & !O_NONBLOCK
    }
}

/// A broker becomes active only by one exact start that nothing follows: from the first stage one
/// start leads to the second, from there only silence leads on, and at both the end of the service
/// or any other byte ends the start.
pub proof fn law_one_exact_start_activates(stage: Activation, read: GateRead, blocking: bool)
    requires
        stage != Activation::Active,
    ensures
        activated(stage, read, blocking) == ActivationStep::Read(Activation::Active) ==> stage
            == Activation::Confirming && read == GateRead::Failed(EAGAIN),
        stage == Activation::AwaitingStart && activated(stage, read, blocking)
            == ActivationStep::Read(Activation::Confirming) ==> read == GateRead::Byte(START_BYTE),
        read is End ==> activated(stage, read, blocking) is Exit,
        (read matches GateRead::Byte(byte) && (byte != START_BYTE || stage
            == Activation::Confirming)) ==> activated(stage, read, blocking)
            == ActivationStep::Failed(BrokerEntryError::InvalidActivation),
{
}

/// The loss of the service comes first: whatever else a stream has to say, a start pipe with
/// something to say is read before it.
pub proof fn law_gate_comes_first(
    answer: PollAnswer,
    events: i16,
    deadline: Option<u64>,
    now: u64,
)
    requires
        answer.result > 0,
        answer.gate != 0,
    ensures
        polled(answer, events, deadline, now) == PollStep::ReadGate,
{
}

/// A look at the start pipe says what is there: its end is the loss of the service, a byte is out
/// of turn, nothing to read is a service that is there, an interruption says nothing, and any other
/// failure is one.
pub proof fn law_look_says_what_is_there(read: GateRead, gone: BrokerGateExit, error: i32)
    ensures
        probed(read, gone) == GateStep::Live <==> read == GateRead::Failed(35),
        probed(read, gone) == GateStep::Again <==> read == GateRead::Failed(4),
        probed(read, gone) == GateStep::Exit(gone) <==> read == GateRead::End,
        read is Byte ==> probed(read, gone) == GateStep::Failed(
            BrokerEntryError::InvalidActivation,
        ),
        read == GateRead::Failed(error) && error != 35 && error != 4 ==> probed(read, gone)
            == GateStep::Failed(BrokerEntryError::Read(error)),
{
}

/// Work goes on exactly until the deadline, and without one for ever. A wait lasts as many whole
/// milliseconds as are left, so that it never outlasts the deadline and falls short of it by less
/// than one.
pub proof fn law_deadline_is_kept(deadline: Option<u64>, now: u64)
    ensures
        live_until(deadline, now) is Ok <==> (deadline matches Some(end) ==> now < end),
        live_until(deadline, now) is Err ==> live_until(deadline, now) == Err::<(), _>(
            BrokerEntryError::Plan(SupervisorWireError::LimitExceeded),
        ),
        deadline is None ==> (timeout_until(deadline, now) matches Ok(millis) && millis == -1),
        deadline matches Some(end) ==> {
            &&& timeout_until(deadline, now) is Ok <==> now <= end
            &&& timeout_until(deadline, now) matches Ok(millis) ==> {
                &&& 0 <= millis
                &&& now + millis * 1_000_000 <= end
                &&& millis < i32::MAX ==> end < now + (millis + 1) * 1_000_000
            }
        },
{
}

/// A wait that found nothing goes on while time remains, and so does an interrupted one. The start
/// pipe is read as soon as it has something to say, then the stream is used as soon as it can be;
/// only a stream that has failed and can do nothing, a failed wait and the deadline end it.
pub proof fn law_wait_is_patient(
    answer: PollAnswer,
    events: i16,
    deadline: Option<u64>,
    now: u64,
)
    ensures
        ({
            let step = polled(answer, events, deadline, now);
            let late = deadline matches Some(end) && end <= now;
            &&& answer.result == 0 && !late ==> step == PollStep::Again
            &&& answer.result == 0 && late ==> step == PollStep::Failed(
                BrokerEntryError::Plan(SupervisorWireError::LimitExceeded),
            )
            &&& answer.result < 0 && answer.errno == 4 ==> step == PollStep::Again
            &&& answer.result < 0 && answer.errno != 4 ==> step == PollStep::Failed(
                BrokerEntryError::Control(answer.errno),
            )
            &&& answer.result > 0 && answer.gate == 0 && answer.control & events != 0 ==> step
                == PollStep::Ready
            &&& answer.result > 0 && answer.gate == 0 && answer.control & events == 0
                && answer.control & 0x38 == 0 ==> step == PollStep::Again
            &&& answer.result > 0 && answer.gate == 0 && answer.control & events == 0
                && answer.control & 0x38 != 0 ==> step == PollStep::Failed(
                BrokerEntryError::Control(0),
            )
        }),
{
}

/// A start succeeds: the one byte followed by silence makes a broker active, whether its first read
/// waits by itself or not, and interruptions in between change nothing. Before the byte a broker
/// without one polls, and one whose read waits by itself has no reason to.
pub proof fn law_good_start_activates(stage: Activation, blocking: bool, error: i32)
    ensures
        activated(Activation::AwaitingStart, GateRead::Byte(1), blocking) == ActivationStep::Read(
            Activation::Confirming,
        ),
        activated(Activation::Confirming, GateRead::Failed(35), blocking) == ActivationStep::Read(
            Activation::Active,
        ),
        activated(stage, GateRead::Failed(4), blocking) == ActivationStep::Read(stage),
        activated(Activation::AwaitingStart, GateRead::Failed(35), false) == ActivationStep::Poll,
        activated(Activation::AwaitingStart, GateRead::Failed(35), true) == ActivationStep::Failed(
            BrokerEntryError::Read(35),
        ),
        stage != Activation::Active && error != 4 && error != 35 ==> activated(
            stage,
            GateRead::Failed(error),
            blocking,
        ) == ActivationStep::Failed(BrokerEntryError::Read(error)),
        activated(Activation::AwaitingStart, GateRead::End, blocking) == ActivationStep::Exit(
            BrokerGateExit::ServiceGoneBeforeActivation,
        ),
        activated(Activation::Confirming, GateRead::End, blocking) == ActivationStep::Exit(
            BrokerGateExit::ServiceGone,
        ),
{
}

/// A wait on the start pipe is over exactly where something is there; while time remains, silence
/// and interruptions repeat it.
pub proof fn law_start_wait_is_patient(result: i32, errno: i32, deadline: u64, now: u64)
    ensures
        ({
            let step = start_awaited(result, errno, deadline, now);
            &&& step is Ready <==> result > 0
            &&& step is Again <==> (result == 0 && now < deadline) || (result < 0 && errno == 4)
            &&& result == 0 && now >= deadline ==> step == PollStep::Failed(
                BrokerEntryError::Plan(SupervisorWireError::LimitExceeded),
            )
            &&& result < 0 && errno != 4 ==> step == PollStep::Failed(BrokerEntryError::Read(errno))
        }),
{
}

/// A broker that runs ends with its service and for nothing else: nothing may come on its start
/// pipe, an interrupted read is repeated, and an error is told. A start pipe that had nothing to
/// say after all is waited for again.
pub proof fn law_running_broker_ends_with_its_service(byte: u8, error: i32)
    ensures
        death_awaited(GateRead::End) == GateStep::Exit(BrokerGateExit::ServiceGone),
        death_awaited(GateRead::Byte(byte)) == GateStep::Failed(
            BrokerEntryError::InvalidActivation,
        ),
        death_awaited(GateRead::Failed(error)) == GateStep::Again <==> error == 4,
        error != 4 ==> death_awaited(GateRead::Failed(error)) == GateStep::Failed(
            BrokerEntryError::Read(error),
        ),
        polled_read(GateRead::Failed(error)) == GateStep::Live <==> error == 4 || error == 35,
        error != 4 && error != 35 ==> polled_read(GateRead::Failed(error)) == GateStep::Failed(
            BrokerEntryError::Read(error),
        ),
        polled_read(GateRead::End) == GateStep::Exit(BrokerGateExit::ServiceGoneBeforeActivation),
{
}

} // verus!
