//! Absolute deadlines on the monotonic clock that all processes of the machine share.

use vstd::prelude::*;

verus! {

/// Failure while validating the bounded same-user supervisor protocol.
#[derive(Clone, Copy, Debug, PartialEq, Eq, Structural)]
pub enum SupervisorWireError {
    /// The message was truncated, noncanonical, or used an unknown kind.
    Malformed,
    /// The message exceeded a protocol bound.
    LimitExceeded,
    /// An effect-bearing message arrived before mutual authentication.
    AuthenticationRequired,
    /// The message came from another authenticated connection identity.
    PeerMismatch,
    /// A nonce, connection generation, or sequence did not match.
    ReplayOrSubstitution,
    /// A caller-controlled target policy identifier was not canonical.
    InvalidPolicy,
    /// An argv or environment component was invalid or privilege-bearing.
    InvalidTargetInput,
    /// This connection already consumed its one permitted spawn request.
    StateViolation,
    /// The shared monotonic clock could not supply a trustworthy timestamp.
    ClockUnavailable,
}

/// The longest authority window, in nanoseconds.
pub const MAX_SUPERVISOR_DEADLINE: u64 = 30_000_000_000;

/// Nanoseconds in one second.
pub const NANOS_PER_SECOND: u64 = 1_000_000_000;

/// What `clock_gettime` reported, as nanoseconds: `Err` where the call failed or its answer is
/// no time of day.
pub open spec fn clock_nanos(status: i32, seconds: int, nanoseconds: int) -> Result<
    u64,
    SupervisorWireError,
> {
    if status == 0 && seconds >= 0 && 0 <= nanoseconds < NANOS_PER_SECOND && seconds
        * NANOS_PER_SECOND + nanoseconds <= u64::MAX {
        Ok((seconds * NANOS_PER_SECOND + nanoseconds) as u64)
    } else {
        Err(SupervisorWireError::ClockUnavailable)
    }
}

/// Turns one answer of the shared clock into nanoseconds.
pub fn monotonic_now_nanos(status: i32, seconds: i64, nanoseconds: i64) -> (r: Result<
    u64,
    SupervisorWireError,
>)
    ensures
        r == clock_nanos(status, seconds as int, nanoseconds as int),
{
    if status != 0 || seconds < 0 || nanoseconds < 0 || nanoseconds >= 1_000_000_000 {
        return Err(SupervisorWireError::ClockUnavailable);
    }
    match (seconds as u64).checked_mul(NANOS_PER_SECOND) {
        None => Err(SupervisorWireError::ClockUnavailable),
        Some(whole) => match whole.checked_add(nanoseconds as u64) {
            None => Err(SupervisorWireError::ClockUnavailable),
            Some(total) => Ok(total),
        },
    }
}

/// One reading of the two clocks, both in nanoseconds. `monotonic_now` is `None` where the shared
/// clock gave no trustworthy time.
///
/// The order of the two readings decides who loses the time between them: a sender reads the
/// shared clock first, a receiver the local one, so that the time only ever shortens a window.
#[derive(Clone, Copy, Debug, PartialEq, Eq, Structural)]
pub struct ClockSample {
    pub local_now: u64,
    pub monotonic_now: Option<u64>,
}

/// Absolute deadline, in nanoseconds, on the shared monotonic clock.
#[derive(Clone, Copy, Debug, PartialEq, Eq, Structural)]
pub struct SupervisorDeadline(pub u64);

impl SupervisorDeadline {
    /// The shared-clock deadline of a local one: the time that remains locally is added to the
    /// shared time. Refused where nothing remains or more than the longest window.
    pub open spec fn of_instant(deadline: u64, clock: ClockSample) -> Result<
        SupervisorDeadline,
        SupervisorWireError,
    > {
        match clock.monotonic_now {
            None => Err(SupervisorWireError::ClockUnavailable),
            Some(now) => {
                let remaining = deadline - clock.local_now;
                if 0 < remaining <= MAX_SUPERVISOR_DEADLINE && now + remaining <= u64::MAX {
                    Ok(SupervisorDeadline((now + remaining) as u64))
                } else {
                    Err(SupervisorWireError::LimitExceeded)
                }
            },
        }
    }

    /// The local deadline of a shared-clock one; the mirror image of `of_instant`.
    pub open spec fn local_instant(self, clock: ClockSample) -> Result<u64, SupervisorWireError> {
        match clock.monotonic_now {
            None => Err(SupervisorWireError::ClockUnavailable),
            Some(now) => {
                let remaining = self.0 - now;
                if 0 < remaining <= MAX_SUPERVISOR_DEADLINE && clock.local_now + remaining
                    <= u64::MAX {
                    Ok((clock.local_now + remaining) as u64)
                } else {
                    Err(SupervisorWireError::LimitExceeded)
                }
            },
        }
    }

    /// Converts a caller deadline once, conservatively, before transport.
    pub fn from_instant(deadline: u64, clock: ClockSample) -> (r: Result<
        SupervisorDeadline,
        SupervisorWireError,
    >)
        ensures
            r == SupervisorDeadline::of_instant(deadline, clock),
    {
        match clock.monotonic_now {
            None => Err(SupervisorWireError::ClockUnavailable),
            Some(now) => {
                if deadline <= clock.local_now || deadline - clock.local_now
                    > MAX_SUPERVISOR_DEADLINE {
                    return Err(SupervisorWireError::LimitExceeded);
                }
                match now.checked_add(deadline - clock.local_now) {
                    None => Err(SupervisorWireError::LimitExceeded),
                    Some(value) => Ok(SupervisorDeadline(value)),
                }
            },
        }
    }

    /// The deadline that a frame carries.
    pub fn from_wire(value: u64) -> (r: SupervisorDeadline)
        ensures
            r.0 == value,
    {
        SupervisorDeadline(value)
    }

    /// The earlier of two deadlines.
    pub open spec fn spec_earlier(self, other: SupervisorDeadline) -> SupervisorDeadline {
        if self.0 <= other.0 {
            self
        } else {
            other
        }
    }

    /// The earlier of two deadlines.
    pub fn earlier(self, other: SupervisorDeadline) -> (r: SupervisorDeadline)
        ensures
            r == self.spec_earlier(other),
    {
        if self.0 <= other.0 {
            self
        } else {
            other
        }
    }

    /// Converts to the local clock.
    pub fn to_local_instant(self, clock: ClockSample) -> (r: Result<u64, SupervisorWireError>)
        ensures
            r == self.local_instant(clock),
    {
        match clock.monotonic_now {
            None => Err(SupervisorWireError::ClockUnavailable),
            Some(now) => {
                if self.0 <= now || self.0 - now > MAX_SUPERVISOR_DEADLINE {
                    return Err(SupervisorWireError::LimitExceeded);
                }
                match clock.local_now.checked_add(self.0 - now) {
                    None => Err(SupervisorWireError::LimitExceeded),
                    Some(value) => Ok(value),
                }
            },
        }
    }

    /// The number that a frame carries.
    pub fn wire_value(self) -> (r: u64)
        ensures
            r == self.0,
    {
        self.0
    }
}

/// A wire deadline and its local view, fixed together.
#[derive(Clone, Copy, Debug, PartialEq, Eq, Structural)]
pub struct SupervisorDeadlineBinding {
    wire: SupervisorDeadline,
    local: u64,
}

impl SupervisorDeadlineBinding {
    /// The bound wire deadline.
    pub closed spec fn spec_wire(self) -> SupervisorDeadline {
        self.wire
    }

    /// The bound local deadline.
    pub closed spec fn spec_local(self) -> u64 {
        self.local
    }

    /// Binds a wire deadline to its local view; refused where the conversion is.
    pub fn from_wire(wire: SupervisorDeadline, clock: ClockSample) -> (r: Result<
        SupervisorDeadlineBinding,
        SupervisorWireError,
    >)
        ensures
            match (r, wire.local_instant(clock)) {
                (Ok(binding), Ok(local)) => binding.spec_wire() == wire && binding.spec_local()
                    == local,
                (Err(error), Err(expected)) => error == expected,
                _ => false,
            },
    {
        match wire.to_local_instant(clock) {
            Ok(local) => Ok(SupervisorDeadlineBinding { wire, local }),
            Err(error) => Err(error),
        }
    }

    /// The bound wire deadline.
    pub fn wire(self) -> (r: SupervisorDeadline)
        ensures
            r == self.spec_wire(),
    {
        self.wire
    }

    /// The bound local deadline.
    pub fn local(self) -> (r: u64)
        ensures
            r == self.spec_local(),
    {
        self.local
    }
}

/// A window never grows on its way: what the receiver gets locally ends no later than what the
/// sender meant. The local clock and the shared one advance together, from wherever each began.
/// The sender reads the shared clock (`sent`) before the local one (`here`), the receiver the
/// local one (`arrival`) before the shared one (`arrived`), so that the local clock is ahead of the
/// shared one by no more in the receiver's readings than in the sender's.
pub proof fn law_deadline_never_extends(
    deadline: u64,
    sent: u64,
    here: u64,
    arrival: u64,
    arrived: u64,
)
    requires
        arrival - arrived <= here - sent,
    ensures
        SupervisorDeadline::of_instant(
            deadline,
            ClockSample { local_now: here, monotonic_now: Some(sent) },
        ) matches Ok(wire) ==> (wire.local_instant(
            ClockSample { local_now: arrival, monotonic_now: Some(arrived) },
        ) matches Ok(local) ==> local <= deadline),
{
}

/// The local view of an accepted deadline lies ahead, by at most the longest window.
pub proof fn law_window_is_bounded(wire: SupervisorDeadline, clock: ClockSample)
    ensures
        wire.local_instant(clock) matches Ok(local) ==> clock.local_now < local <= clock.local_now
            + MAX_SUPERVISOR_DEADLINE,
{
}

/// Taking the earlier deadline only ever shortens, in any order and however often.
pub proof fn law_earlier_only_shortens(
    a: SupervisorDeadline,
    b: SupervisorDeadline,
    c: SupervisorDeadline,
)
    ensures
        a.spec_earlier(b).0 <= a.0,
        a.spec_earlier(b) == b.spec_earlier(a),
        a.spec_earlier(b).spec_earlier(c) == a.spec_earlier(b.spec_earlier(c)),
        a.spec_earlier(a) == a,
{
}

/// A window keeps its length on its way, in either direction: as much time remains on the one clock
/// as on the other. A window is accepted exactly where something of it remains, no more than thirty
/// seconds, and both clocks can tell its end.
pub proof fn law_window_keeps_its_length(
    wire: SupervisorDeadline,
    deadline: u64,
    clock: ClockSample,
)
    ensures
        wire.local_instant(clock) matches Ok(local) ==> (clock.monotonic_now matches Some(now)
            && local - clock.local_now == wire.0 - now),
        SupervisorDeadline::of_instant(deadline, clock) matches Ok(sent) ==> (
        clock.monotonic_now matches Some(now) && sent.0 - now == deadline - clock.local_now),
        wire.local_instant(clock) is Ok <==> (clock.monotonic_now matches Some(now) && now < wire.0
            && wire.0 <= now + 30_000_000_000 && wire.0 - now <= u64::MAX - clock.local_now),
        SupervisorDeadline::of_instant(deadline, clock) is Ok <==> (
        clock.monotonic_now matches Some(now) && clock.local_now < deadline && deadline
            <= clock.local_now + 30_000_000_000 && deadline - clock.local_now <= u64::MAX - now),
        wire.local_instant(clock) == Err::<u64, _>(SupervisorWireError::ClockUnavailable) <==>
            clock.monotonic_now is None,
        wire.local_instant(clock) matches Err(error) ==> error
            == SupervisorWireError::ClockUnavailable || error == SupervisorWireError::LimitExceeded,
{
}

/// A window is not lost on its way: where the local clock is ahead of the shared one by as much at
/// the receiver as at the sender, the receiver gets back the deadline that the sender meant.
pub proof fn law_deadline_arrives(deadline: u64, sender: ClockSample, receiver: ClockSample)
    requires
        sender.monotonic_now is Some,
        receiver.monotonic_now is Some,
        receiver.local_now - receiver.monotonic_now->0 == sender.local_now
            - sender.monotonic_now->0,
    ensures
        SupervisorDeadline::of_instant(deadline, sender) matches Ok(wire) ==> {
            &&& wire.local_instant(receiver) matches Ok(local) ==> local == deadline
            &&& wire.local_instant(receiver) is Ok <==> receiver.local_now < deadline && deadline
                <= receiver.local_now + 30_000_000_000
        },
{
}

/// The earlier of two deadlines is one of the two.
pub proof fn law_earlier_is_one_of_both(a: SupervisorDeadline, b: SupervisorDeadline)
    ensures
        a.spec_earlier(b) == a || a.spec_earlier(b) == b,
        a.spec_earlier(b).0 <= a.0 && a.spec_earlier(b).0 <= b.0,
{
}

/// The shared clock is read to the nanosecond: the time of a good answer has the seconds and the
/// nanoseconds that were answered, an answer that is no time of day or does not fit has none.
pub proof fn law_clock_is_read_exactly(status: i32, seconds: i64, nanoseconds: i64)
    ensures
        clock_nanos(status, seconds as int, nanoseconds as int) matches Ok(now) ==> {
            &&& status == 0
            &&& now / 1_000_000_000 == seconds
            &&& now % 1_000_000_000 == nanoseconds
        },
        status == 0 && 0 <= seconds < 18_446_744_073 && 0 <= nanoseconds < 1_000_000_000
            ==> clock_nanos(status, seconds as int, nanoseconds as int) is Ok,
        status != 0 || seconds < 0 || nanoseconds < 0 || nanoseconds >= 1_000_000_000
            ==> clock_nanos(status, seconds as int, nanoseconds as int) is Err,
{
}

/// A deadline that cannot be told is told so: without a clock as that, and outside of its window as
/// a limit.
pub proof fn law_refused_deadlines(deadline: u64, clock: ClockSample)
    ensures
        clock.monotonic_now is None ==> SupervisorDeadline::of_instant(deadline, clock) == Err::<
            SupervisorDeadline,
            _,
        >(SupervisorWireError::ClockUnavailable) && SupervisorDeadline(deadline).local_instant(
            clock,
        ) == Err::<u64, _>(SupervisorWireError::ClockUnavailable),
        clock.monotonic_now is Some && SupervisorDeadline::of_instant(deadline, clock) is Err
            ==> SupervisorDeadline::of_instant(deadline, clock) == Err::<SupervisorDeadline, _>(
            SupervisorWireError::LimitExceeded,
        ),
        clock.monotonic_now is Some && SupervisorDeadline(deadline).local_instant(clock) is Err
            ==> SupervisorDeadline(deadline).local_instant(clock) == Err::<u64, _>(
            SupervisorWireError::LimitExceeded,
        ),
{
}

} // verus!
