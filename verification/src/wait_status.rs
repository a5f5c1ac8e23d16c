//! What `waitpid` says of a child, and the signals and errors that go with it.

use vstd::prelude::*;

verus! {

pub const SIGTRAP: i32 = 5;

pub const SIGKILL: i32 = 9;

pub const SIGSTOP: i32 = 17;

pub const ESRCH: i32 = 3;

pub const EINTR: i32 = 4;

pub const ECHILD: i32 = 10;

pub const EAGAIN: i32 = 35;

/// The bits that tell an exit, a signal and a stop apart.
pub open spec fn low_bits(status: i32) -> i32 {
    status & 0x7f
}

/// The exit code of a child that exited, the stop signal of one that is stopped.
pub open spec fn code_bits(status: i32) -> i32 {
    (status >> 8) & 0xff
}

/// Whether a child exited by itself with status zero.
pub open spec fn clean_exit(status: i32) -> bool {
    low_bits(status) == 0 && code_bits(status) == 0
}

/// Whether a child exited by itself with status zero.
pub fn wait_status_is_clean_exit(status: i32) -> (r: bool)
    ensures
        r == clean_exit(status),
{
    status & 0x7f == 0 && (status >> 8) & 0xff == 0
}

/// The signal that a stopped child is stopped by.
pub open spec fn stop_signal(status: i32) -> Option<i32> {
    if status & 0xff == 0x7f {
        Some(code_bits(status))
    } else {
        None
    }
}

/// The signal that a stopped child is stopped by; `None` for a child that has ended.
pub fn traced_stop_signal(status: i32) -> (r: Option<i32>)
    ensures
        r == stop_signal(status),
{
    if status & 0xff == 0x7f {
        Some((status >> 8) & 0xff)
    } else {
        None
    }
}

/// How a target ended.
#[derive(Clone, Copy, Debug, PartialEq, Eq, Structural)]
pub enum ExactTargetExit {
    /// It exited with this code.
    Exited(i32),
    /// This signal ended it.
    Signaled(i32),
}

/// How a child ended; `None` for one that is stopped.
pub open spec fn target_exit(status: i32) -> Option<ExactTargetExit> {
    if low_bits(status) == 0x7f {
        None
    } else if low_bits(status) == 0 {
        Some(ExactTargetExit::Exited(code_bits(status)))
    } else {
        Some(ExactTargetExit::Signaled(low_bits(status)))
    }
}

/// How a child ended; `None` for one that is stopped.
pub fn exact_target_exit(status: i32) -> (r: Option<ExactTargetExit>)
    ensures
        r == target_exit(status),
{
    let low: i32 = status & 0x7f;
    if low == 0x7f {
        None
    } else if low == 0 {
        Some(ExactTargetExit::Exited((status >> 8) & 0xff))
    } else {
        Some(ExactTargetExit::Signaled(low))
    }
}

/// A child that is stopped has not ended, and one that ended cleanly exited with zero.
pub proof fn law_stop_and_exit_exclude_each_other(status: i32)
    ensures
        stop_signal(status) is Some ==> target_exit(status) is None && !clean_exit(status),
        clean_exit(status) <==> target_exit(status) == Some(ExactTargetExit::Exited(0)),
{
    assert(status & 0xff == 0x7f ==> status & 0x7f == 0x7f) by (bit_vector);
}

/// The status of a child says exactly one thing, and says it whole: a child that is stopped by a
/// signal, one that exited with a code, and one that a signal ended are told apart, and the signal
/// or the code comes out as it was put in.
pub proof fn law_status_is_read_back(status: i32, code: i32, signal: i32)
    requires
        0 <= code <= 255,
        1 <= signal <= 126,
    ensures
        status == 0x100 * code + 0x7f ==> stop_signal(status) == Some(code) && target_exit(status)
            is None && !clean_exit(status),
        status == 0x100 * code ==> {
            &&& target_exit(status) == Some(ExactTargetExit::Exited(code))
            &&& stop_signal(status) is None
            &&& clean_exit(status) <==> code == 0
        },
        status == signal || status == 0x80 + signal ==> {
            &&& target_exit(status) == Some(ExactTargetExit::Signaled(signal))
            &&& stop_signal(status) is None
            &&& !clean_exit(status)
        },
{
    assert(0 <= code <= 255 && status == 0x100 * code + 0x7f ==> status & 0xff == 0x7f && status
        & 0x7f == 0x7f && (status >> 8) & 0xff == code) by (bit_vector);
    assert(0 <= code <= 255 && status == 0x100 * code ==> status & 0xff == 0 && status & 0x7f == 0
        && (status >> 8) & 0xff == code) by (bit_vector);
    assert(1 <= signal <= 126 && (status == signal || status == 0x80 + signal) ==> status & 0x7f
        == signal && status & 0xff != 0x7f) by (bit_vector);
}

} // verus!
