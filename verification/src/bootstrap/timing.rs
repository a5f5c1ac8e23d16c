//! What follows from the status of one Mach operation, and how long one may wait.

use vstd::prelude::*;
use crate::auth::message::{
    MACH_MSG_SUCCESS, MACH_RCV_INTERRUPTED, MACH_RCV_TIMED_OUT, MACH_RCV_TOO_LARGE,
    MACH_SEND_INTERRUPTED, MACH_SEND_TIMED_OUT,
};
use crate::bootstrap::error::{BootstrapError, SessionTransportError};
use crate::bootstrap::vnext::{
    MACH_BODY_BYTES, MACH_DESCRIPTOR_BYTES, MAX_VNEXT_CAPABILITIES, MAX_VNEXT_RECORD_BYTES,
    VNEXT_ENVELOPE_BYTES,
};
use crate::mach;
use crate::mach::{round_mach_message, AUDIT_TRAILER_BYTES, MACH_HEADER_BYTES};

verus! {

/// Milliseconds that an operation without a deadline may wait.
pub const TIMEOUT_MS: u32 = 10_000;

/// What follows from one operation.
#[derive(Debug, PartialEq, Eq)]
pub enum MachStep<Failure> {
    /// It is done.
    Done,
    /// It is to be repeated.
    Again,
    /// It failed.
    Failed(Failure),
}

/// Milliseconds of so many nanoseconds, rounded up and capped.
pub open spec fn millis_of(remaining: u128) -> u32 {
    let millis = (remaining + 999_999) / 1_000_000;
    if millis > u32::MAX {
        u32::MAX
    } else {
        millis as u32
    }
}

/// Milliseconds of so many nanoseconds, rounded up and capped.
fn round_up_millis(remaining: u128) -> (r: u32)
    ensures
        r == millis_of(remaining),
{
    let whole: u128 = remaining / 1_000_000;
    if whole >= u32::MAX as u128 {
        assert((remaining + 999_999) / 1_000_000 >= whole);
        return u32::MAX;
    }
    if remaining % 1_000_000 == 0 {
        assert((remaining + 999_999) / 1_000_000 == whole as int);
        whole as u32
    } else {
        assert((remaining + 999_999) / 1_000_000 == whole + 1);
        (whole + 1) as u32
    }
}

/// Milliseconds that an operation waits when so many nanoseconds remain.
pub open spec fn timeout_of(remaining: u128) -> Result<u32, SessionTransportError> {
    if remaining == 0 {
        Err(SessionTransportError::DeadlineExpired)
    } else {
        Ok(millis_of(remaining))
    }
}

/// Milliseconds that an operation may wait when so many nanoseconds remain.
pub fn deadline_timeout(remaining: u128) -> (r: Result<u32, SessionTransportError>)
    ensures
        r == timeout_of(remaining),
{
    if remaining == 0 {
        return Err(SessionTransportError::DeadlineExpired);
    }
    Ok(round_up_millis(remaining))
}

/// Milliseconds that a bootstrap operation waits when so many nanoseconds remain.
pub open spec fn bootstrap_timeout_of(remaining: Option<u128>) -> Result<u32, BootstrapError> {
    match remaining {
        None => Ok(TIMEOUT_MS),
        Some(nanos) => if nanos == 0 {
            Err(BootstrapError::DeadlineExpired)
        } else {
            Ok(millis_of(nanos))
        },
    }
}

/// Milliseconds that a bootstrap operation may wait; without a deadline a fixed time.
pub fn bootstrap_timeout(remaining: Option<u128>) -> (r: Result<u32, BootstrapError>)
    ensures
        r == bootstrap_timeout_of(remaining),
{
    match remaining {
        None => Ok(TIMEOUT_MS),
        Some(nanos) => {
            if nanos == 0 {
                return Err(BootstrapError::DeadlineExpired);
            }
            Ok(round_up_millis(nanos))
        },
    }
}

/// A wait never ends before its deadline by a whole millisecond, nor is it ever zero.
pub proof fn law_timeout_covers_the_deadline(remaining: u128)
    requires
        0 < remaining <= u32::MAX * 1_000_000,
    ensures
        remaining <= millis_of(remaining) * 1_000_000 < remaining + 1_000_000,
        millis_of(remaining) > 0,
{
}

/// What follows from sending a port message.
pub open spec fn port_sent(status: i32, expired: Option<bool>) -> MachStep<BootstrapError> {
    if status == MACH_MSG_SUCCESS {
        if expired == Some(true) {
            MachStep::Failed(BootstrapError::Ambiguous)
        } else {
            MachStep::Done
        }
    } else if (status == MACH_SEND_INTERRUPTED && expired is Some) || (status
        == MACH_SEND_TIMED_OUT && expired == Some(false)) {
        MachStep::Again
    } else if status == MACH_SEND_TIMED_OUT {
        MachStep::Failed(BootstrapError::DeadlineExpired)
    } else {
        MachStep::Failed(BootstrapError::Mach { operation: "mach_msg(send)", code: status })
    }
}

/// Decides what follows from sending a port message. `expired` is `None` without a deadline, else
/// whether it has passed.
pub fn port_send_step(status: i32, expired: Option<bool>) -> (r: MachStep<BootstrapError>)
    ensures
        r == port_sent(status, expired),
{
    if status == MACH_MSG_SUCCESS {
        return match expired {
            Some(true) => MachStep::Failed(BootstrapError::Ambiguous),
            _ => MachStep::Done,
        };
    }
    if status == MACH_SEND_INTERRUPTED && expired.is_some() {
        return MachStep::Again;
    }
    if status == MACH_SEND_TIMED_OUT {
        return match expired {
            Some(false) => MachStep::Again,
            _ => MachStep::Failed(BootstrapError::DeadlineExpired),
        };
    }
    MachStep::Failed(BootstrapError::Mach { operation: "mach_msg(send)", code: status })
}

/// What follows from receiving a port message.
pub open spec fn port_received(status: i32, expired: Option<bool>) -> MachStep<BootstrapError> {
    if status == MACH_MSG_SUCCESS {
        if expired == Some(true) {
            MachStep::Failed(BootstrapError::DeadlineExpired)
        } else {
            MachStep::Done
        }
    } else if (status == MACH_RCV_INTERRUPTED && expired is Some) || (status
        == MACH_RCV_TIMED_OUT && expired == Some(false)) {
        MachStep::Again
    } else if status == MACH_RCV_TIMED_OUT {
        MachStep::Failed(BootstrapError::DeadlineExpired)
    } else {
        MachStep::Failed(BootstrapError::Mach { operation: "mach_msg(receive)", code: status })
    }
}

/// Decides what follows from receiving a port message. `expired` is `None` without a deadline,
/// else whether it has passed; a message that came too late is destroyed.
pub fn port_receive_step(status: i32, expired: Option<bool>) -> (r: MachStep<BootstrapError>)
    ensures
        r == port_received(status, expired),
{
    if status == MACH_MSG_SUCCESS {
        return match expired {
            Some(true) => MachStep::Failed(BootstrapError::DeadlineExpired),
            _ => MachStep::Done,
        };
    }
    if status == MACH_RCV_INTERRUPTED && expired.is_some() {
        return MachStep::Again;
    }
    if status == MACH_RCV_TIMED_OUT {
        return match expired {
            Some(false) => MachStep::Again,
            _ => MachStep::Failed(BootstrapError::DeadlineExpired),
        };
    }
    MachStep::Failed(BootstrapError::Mach { operation: "mach_msg(receive)", code: status })
}

/// What follows from sending a record.
pub open spec fn record_sent(status: i32, expired: bool) -> MachStep<SessionTransportError> {
    if status == MACH_MSG_SUCCESS {
        if expired {
            MachStep::Failed(SessionTransportError::Ambiguous)
        } else {
            MachStep::Done
        }
    } else if status == MACH_SEND_INTERRUPTED || (status == MACH_SEND_TIMED_OUT && !expired) {
        MachStep::Again
    } else if status == MACH_SEND_TIMED_OUT {
        MachStep::Failed(SessionTransportError::DeadlineExpired)
    } else {
        MachStep::Failed(SessionTransportError::Native(Some(status)))
    }
}

/// Decides what follows from sending a record.
pub fn vnext_send_step(status: i32, expired: bool) -> (r: MachStep<SessionTransportError>)
    ensures
        r == record_sent(status, expired),
{
    if status == MACH_MSG_SUCCESS {
        if expired {
            MachStep::Failed(SessionTransportError::Ambiguous)
        } else {
            MachStep::Done
        }
    } else if status == MACH_SEND_INTERRUPTED {
        MachStep::Again
    } else if status == MACH_SEND_TIMED_OUT {
        if expired {
            MachStep::Failed(SessionTransportError::DeadlineExpired)
        } else {
            MachStep::Again
        }
    } else {
        MachStep::Failed(SessionTransportError::Native(Some(status)))
    }
}

/// What follows from receiving a record.
pub open spec fn record_received(status: i32, expired: bool) -> MachStep<SessionTransportError> {
    if status == MACH_MSG_SUCCESS {
        if expired {
            MachStep::Failed(SessionTransportError::DeadlineExpired)
        } else {
            MachStep::Done
        }
    } else if status == MACH_RCV_INTERRUPTED || (status == MACH_RCV_TIMED_OUT && !expired) {
        MachStep::Again
    } else if status == MACH_RCV_TIMED_OUT {
        MachStep::Failed(SessionTransportError::DeadlineExpired)
    } else if status == MACH_RCV_TOO_LARGE {
        MachStep::Failed(SessionTransportError::RecordTooLarge)
    } else {
        MachStep::Failed(SessionTransportError::Native(Some(status)))
    }
}

/// Decides what follows from receiving a record. One that came too late is destroyed.
pub fn vnext_receive_step(status: i32, expired: bool) -> (r: MachStep<SessionTransportError>)
    ensures
        r == record_received(status, expired),
{
    if status == MACH_MSG_SUCCESS {
        if expired {
            MachStep::Failed(SessionTransportError::DeadlineExpired)
        } else {
            MachStep::Done
        }
    } else if status == MACH_RCV_INTERRUPTED {
        MachStep::Again
    } else if status == MACH_RCV_TIMED_OUT {
        if expired {
            MachStep::Failed(SessionTransportError::DeadlineExpired)
        } else {
            MachStep::Again
        }
    } else if status == MACH_RCV_TOO_LARGE {
        MachStep::Failed(SessionTransportError::RecordTooLarge)
    } else {
        MachStep::Failed(SessionTransportError::Native(Some(status)))
    }
}

/// Size of the buffer for a record whose payload has at most `maximum` bytes.
pub fn vnext_receive_bytes(maximum: usize) -> (r: Result<usize, SessionTransportError>)
    ensures
        match r {
            Ok(size) => {
                &&& 0 < maximum <= MAX_VNEXT_RECORD_BYTES
                &&& size == mach::rounded(
                    MACH_HEADER_BYTES + MACH_BODY_BYTES + MAX_VNEXT_CAPABILITIES
                        * MACH_DESCRIPTOR_BYTES + VNEXT_ENVELOPE_BYTES + maximum,
                ) + AUDIT_TRAILER_BYTES
            },
            Err(error) => {
                &&& error == SessionTransportError::RecordTooLarge
                &&& maximum == 0 || maximum > MAX_VNEXT_RECORD_BYTES
            },
        },
{
    if maximum == 0 || maximum > MAX_VNEXT_RECORD_BYTES {
        return Err(SessionTransportError::RecordTooLarge);
    }
    match round_mach_message(
        MACH_HEADER_BYTES + MACH_BODY_BYTES + MAX_VNEXT_CAPABILITIES * MACH_DESCRIPTOR_BYTES
            + VNEXT_ENVELOPE_BYTES + maximum,
    ) {
        Some(size) => Ok(size + AUDIT_TRAILER_BYTES),
        None => Err(SessionTransportError::RecordTooLarge),
    }
}

/// A wait is as long as its deadline is away: it is refused only where nothing is left, covers what
/// is left as far as a number of milliseconds can, and without a deadline is ten seconds.
pub proof fn law_waits_are_as_long_as_their_deadline(remaining: u128)
    ensures
        timeout_of(remaining) is Ok <==> remaining > 0,
        timeout_of(0) == Err::<u32, _>(SessionTransportError::DeadlineExpired),
        timeout_of(remaining) matches Ok(millis) ==> (millis < u32::MAX ==> remaining <= millis
            * 1_000_000) && (millis - 1) * 1_000_000 < remaining,
        bootstrap_timeout_of(None) == Ok::<u32, BootstrapError>(10_000u32),
        bootstrap_timeout_of(Some(0)) == Err::<u32, _>(BootstrapError::DeadlineExpired),
        remaining > 0 ==> bootstrap_timeout_of(Some(remaining)) == Ok::<u32, BootstrapError>(
            timeout_of(remaining)->Ok_0,
        ),
{
}

/// A port message is sent exactly where its send succeeded before its deadline; one that was sent
/// too late may have arrived. It is tried again only after an interruption or a timeout, with a
/// deadline to end it, and no timeout repeats it once the deadline has passed.
pub proof fn law_port_sends(status: i32, expired: Option<bool>)
    ensures
        ({
            let step = port_sent(status, expired);
            &&& step == MachStep::<BootstrapError>::Done <==> status == 0 && expired != Some(true)
            &&& status == 0 && expired == Some(true) ==> step == MachStep::Failed(
                BootstrapError::Ambiguous,
            )
            &&& step == MachStep::<BootstrapError>::Again <==> expired is Some && (status
                == 0x1000_0007 || (status == 0x1000_0004 && expired == Some(false)))
            &&& status == 0x1000_0004 && expired != Some(false) ==> step == MachStep::Failed(
                BootstrapError::DeadlineExpired,
            )
            &&& status != 0 && status != 0x1000_0004 && status != 0x1000_0007 ==> (
            step matches MachStep::Failed(BootstrapError::Mach { code, .. }) && code == status)
        }),
{
}

/// A port message is received exactly where its receive succeeded before its deadline; one that
/// came too late is refused as that. It is tried again as a send is.
pub proof fn law_port_receives(status: i32, expired: Option<bool>)
    ensures
        ({
            let step = port_received(status, expired);
            &&& step == MachStep::<BootstrapError>::Done <==> status == 0 && expired != Some(true)
            &&& step == MachStep::<BootstrapError>::Again <==> expired is Some && (status
                == 0x1000_4005 || (status == 0x1000_4003 && expired == Some(false)))
            &&& (status == 0 && expired == Some(true)) || (status == 0x1000_4003 && expired != Some(
                false,
            )) ==> step == MachStep::Failed(BootstrapError::DeadlineExpired)
            &&& status != 0 && status != 0x1000_4003 && status != 0x1000_4005 ==> (
            step matches MachStep::Failed(BootstrapError::Mach { code, .. }) && code == status)
        }),
{
}

/// A record is sent and received under the same rules, with a deadline always, and with its own
/// answer to a record that is too large.
pub proof fn law_record_transfers(status: i32, expired: bool)
    ensures
        ({
            let sent = record_sent(status, expired);
            let received = record_received(status, expired);
            &&& sent == MachStep::<SessionTransportError>::Done <==> status == 0 && !expired
            &&& received == MachStep::<SessionTransportError>::Done <==> status == 0 && !expired
            &&& status == 0 && expired ==> sent == MachStep::Failed(
                SessionTransportError::Ambiguous,
            )
            &&& status == 0 && expired ==> received == MachStep::Failed(
                SessionTransportError::DeadlineExpired,
            )
            &&& sent == MachStep::<SessionTransportError>::Again <==> status == 0x1000_0007 || (
            status == 0x1000_0004 && !expired)
            &&& received == MachStep::<SessionTransportError>::Again <==> status == 0x1000_4005 || (
            status == 0x1000_4003 && !expired)
            &&& status == 0x1000_0004 && expired ==> sent == MachStep::Failed(
                SessionTransportError::DeadlineExpired,
            )
            &&& status == 0x1000_4003 && expired ==> received == MachStep::Failed(
                SessionTransportError::DeadlineExpired,
            )
            &&& status == 0x1000_4004 ==> received == MachStep::Failed(
                SessionTransportError::RecordTooLarge,
            )
            &&& status != 0 && status != 0x1000_0004 && status != 0x1000_0007 ==> sent
                == MachStep::Failed(SessionTransportError::Native(Some(status)))
            &&& status != 0 && status != 0x1000_4003 && status != 0x1000_4004 && status
                != 0x1000_4005 ==> received == MachStep::Failed(
                SessionTransportError::Native(Some(status)),
            )
        }),
{
}

} // verus!
