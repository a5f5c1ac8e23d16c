//! The cooperative handshake between a broker and the launcher that it traces, from both sides.

use vstd::prelude::*;
use crate::mach;
use crate::mach::{
    decode_audit_token, encode_audit_token, same_token, AuditToken, MACH_PORT_NULL,
};
use crate::bytes::array_at;
use crate::bootstrap::channel::{RefusedRecord, VnextCapabilityRecord};
use crate::bootstrap::error;
use crate::bootstrap::error::{
    bootstrap_lifecycle_transport_error, BootstrapError, SessionTransportError,
};
use crate::bootstrap::vnext;
use crate::bootstrap::vnext::SendRight;
use crate::wait_status;
use crate::wait_status::{traced_stop_signal, SIGSTOP, SIGTRAP};

verus! {

/// What the launcher sends once it is traced.
pub const TRACED_MARKER: u8 = 1;

/// What the launcher sends once it can have no descendants.
pub const LIMITED_MARKER: u8 = 2;

/// Bytes of the record that carries the broker's execution.
pub const BROKER_RECORD_BYTES: usize = 32;

/// The process limit under which the launcher executes the target, soft and hard.
pub const NO_DESCENDANTS_LIMIT: u64 = 1;

/// The one byte of a record of one byte.
pub open spec fn one_byte(bytes: Seq<u8>) -> Option<u8> {
    if bytes.len() == 1 {
        Some(bytes[0])
    } else {
        None
    }
}

/// The one byte of a record of one byte.
pub fn marker(bytes: &[u8]) -> (r: Option<u8>)
    ensures
        r == one_byte(bytes@),
{
    if bytes.len() == 1 {
        Some(bytes[0])
    } else {
        None
    }
}

/// What the broker does next.
#[derive(Clone, Copy, Debug, PartialEq, Eq)]
pub enum BrokerAction {
    /// Capture its own execution.
    CaptureSelf,
    /// Look up its launchd port.
    GetBootstrap,
    /// Send its execution, with a right to that port.
    SendBroker,
    /// Receive the record that says that the launcher is traced.
    AwaitTraced,
    /// Wait for the launcher to stop.
    AwaitStop,
    /// Mark the launcher as traced, and continue it.
    ContinueStopped,
    /// Receive the record that says that the launcher is limited.
    AwaitLimited,
    /// Wait for the launcher to stop at its exec.
    AwaitExec,
    /// Continue the target.
    ContinueTarget,
    /// Nothing: the target runs.
    Done,
}

/// What came of an action of the broker.
#[derive(Clone, Copy, Debug, PartialEq, Eq)]
pub enum BrokerEvent {
    /// Its own execution.
    Captured(Result<AuditToken, BootstrapError>),
    /// The status of the lookup, and the port.
    Bootstrap(i32, u32),
    /// Whether the record was sent.
    Sent(Result<(), SessionTransportError>),
    /// The one byte of a record, if it is one byte.
    Received(Result<Option<u8>, SessionTransportError>),
    /// The status of the stopped launcher.
    Stopped(Result<i32, SessionTransportError>),
    /// Whether the launcher was continued.
    Continued(Result<(), SessionTransportError>),
}

/// Whether an event is what comes of this action.
pub open spec fn broker_event_fits(action: BrokerAction, event: BrokerEvent) -> bool {
    match action {
        BrokerAction::CaptureSelf => event is Captured,
        BrokerAction::GetBootstrap => event is Bootstrap,
        BrokerAction::SendBroker => event is Sent,
        BrokerAction::AwaitTraced | BrokerAction::AwaitLimited => event is Received,
        BrokerAction::AwaitStop | BrokerAction::AwaitExec => event is Stopped,
        BrokerAction::ContinueStopped | BrokerAction::ContinueTarget => event is Continued,
        BrokerAction::Done => false,
    }
}

/// The broker's half of the handshake.
#[derive(Clone, Copy, Debug, PartialEq, Eq)]
pub struct TracedLauncherStart {
    pub action: BrokerAction,
    pub broker: Option<AuditToken>,
    pub launchd_port: u32,
}

/// What a marker amounts to where `expected` has to come.
pub open spec fn marker_judged(
    received: Result<Option<u8>, SessionTransportError>,
    expected: u8,
) -> Result<(), SessionTransportError> {
    match received {
        Err(error) => Err(error),
        Ok(byte) => if byte == Some(expected) {
            Ok(())
        } else {
            Err(SessionTransportError::MalformedRecord)
        },
    }
}

fn judge_marker(received: Result<Option<u8>, SessionTransportError>, expected: u8) -> (r: Result<
    (),
    SessionTransportError,
>)
    ensures
        r == marker_judged(received, expected),
{
    match received {
        Err(error) => Err(error),
        Ok(Some(byte)) => {
            if byte == expected {
                Ok(())
            } else {
                Err(SessionTransportError::MalformedRecord)
            }
        },
        Ok(None) => Err(SessionTransportError::MalformedRecord),
    }
}

/// What a stop amounts to where one by `expected` has to come.
pub open spec fn stop_judged(stopped: Result<i32, SessionTransportError>, expected: i32) -> Result<
    (),
    SessionTransportError,
> {
    match stopped {
        Err(error) => Err(error),
        Ok(status) => if wait_status::stop_signal(status) == Some(expected) {
            Ok(())
        } else {
            Err(SessionTransportError::IdentityMismatch)
        },
    }
}

fn judge_stop(stopped: Result<i32, SessionTransportError>, expected: i32) -> (r: Result<
    (),
    SessionTransportError,
>)
    ensures
        r == stop_judged(stopped, expected),
{
    match stopped {
        Err(error) => Err(error),
        Ok(status) => match traced_stop_signal(status) {
            Some(signal) => {
                if signal == expected {
                    Ok(())
                } else {
                    Err(SessionTransportError::IdentityMismatch)
                }
            },
            None => Err(SessionTransportError::IdentityMismatch),
        },
    }
}

impl TracedLauncherStart {
    /// The broker's half with another action.
    pub open spec fn at(self, action: BrokerAction) -> TracedLauncherStart {
        TracedLauncherStart { action, ..self }
    }

    /// The broker's half once an event has come of its action, or why it failed. An event that
    /// does not belong to the action leaves it as it is.
    pub open spec fn after(self, event: BrokerEvent) -> Result<
        TracedLauncherStart,
        SessionTransportError,
    > {
        match (self.action, event) {
            (BrokerAction::CaptureSelf, BrokerEvent::Captured(captured)) => match captured {
                Err(error) => Err(error::as_transport(error)),
                Ok(token) => Ok(
                    TracedLauncherStart {
                        action: BrokerAction::GetBootstrap,
                        broker: Some(token),
                        ..self
                    },
                ),
            },
            (BrokerAction::GetBootstrap, BrokerEvent::Bootstrap(status, port)) => if status != 0
                || port == MACH_PORT_NULL {
                Err(SessionTransportError::Native(Some(status)))
            } else {
                Ok(
                    TracedLauncherStart {
                        action: BrokerAction::SendBroker,
                        launchd_port: port,
                        ..self
                    },
                )
            },
            (BrokerAction::SendBroker, BrokerEvent::Sent(outcome)) => match outcome {
                Err(error) => Err(error),
                Ok(()) => Ok(self.at(BrokerAction::AwaitTraced)),
            },
            (BrokerAction::AwaitTraced, BrokerEvent::Received(received)) => {
                match marker_judged(received, TRACED_MARKER) {
                    Err(error) => Err(error),
                    Ok(()) => Ok(self.at(BrokerAction::AwaitStop)),
                }
            },
            (BrokerAction::AwaitStop, BrokerEvent::Stopped(stopped)) => {
                match stop_judged(stopped, SIGSTOP) {
                    Err(error) => Err(error),
                    Ok(()) => Ok(self.at(BrokerAction::ContinueStopped)),
                }
            },
            (BrokerAction::ContinueStopped, BrokerEvent::Continued(outcome)) => match outcome {
                Err(error) => Err(error),
                Ok(()) => Ok(self.at(BrokerAction::AwaitLimited)),
            },
            (BrokerAction::AwaitLimited, BrokerEvent::Received(received)) => {
                match marker_judged(received, LIMITED_MARKER) {
                    Err(error) => Err(error),
                    Ok(()) => Ok(self.at(BrokerAction::AwaitExec)),
                }
            },
            (BrokerAction::AwaitExec, BrokerEvent::Stopped(stopped)) => {
                match stop_judged(stopped, SIGTRAP) {
                    Err(error) => Err(error),
                    Ok(()) => Ok(self.at(BrokerAction::ContinueTarget)),
                }
            },
            (BrokerAction::ContinueTarget, BrokerEvent::Continued(outcome)) => match outcome {
                Err(error) => Err(error),
                Ok(()) => Ok(self.at(BrokerAction::Done)),
            },
            _ => Ok(self),
        }
    }

    /// Starts the broker's half, for the process that both the channel and its lifecycle name.
    pub fn start_traced_launcher(lifecycle_pid: u32, peer_pid: u32) -> (r: Result<
        TracedLauncherStart,
        SessionTransportError,
    >)
        ensures
            match r {
                Ok(start) => lifecycle_pid == peer_pid && start == (TracedLauncherStart {
                    action: BrokerAction::CaptureSelf,
                    broker: None,
                    launchd_port: MACH_PORT_NULL,
                }),
                Err(error) => lifecycle_pid != peer_pid && error
                    == SessionTransportError::IdentityMismatch,
            },
    {
        if lifecycle_pid != peer_pid {
            return Err(SessionTransportError::IdentityMismatch);
        }
        Ok(
            TracedLauncherStart {
                action: BrokerAction::CaptureSelf,
                broker: None,
                launchd_port: MACH_PORT_NULL,
            },
        )
    }

    /// The record that names the broker's execution, and the right that goes with it.
    pub fn announcement(&self) -> (r: Option<([u8; 32], u32)>)
        ensures
            match (r, self.broker) {
                (Some((record, port)), Some(token)) => self.action == BrokerAction::SendBroker
                    && record@ == mach::token_bytes(token.values@) && port == self.launchd_port,
                (Some(_), None) => false,
                (None, broker) => self.action != BrokerAction::SendBroker || broker is None,
            },
    {
        match (self.action, self.broker) {
            (BrokerAction::SendBroker, Some(token)) => Some(
                (encode_audit_token(token), self.launchd_port),
            ),
            _ => None,
        }
    }

    /// Takes what came of the action.
    pub fn advance(&mut self, event: BrokerEvent) -> (r: Result<(), SessionTransportError>)
        ensures
            match (r, old(self).after(event)) {
                (Ok(()), Ok(next)) => *final(self) == next,
                (Err(error), Err(expected)) => error == expected && *final(self) == *old(self),
                _ => false,
            },
    {
        match (self.action, event) {
            (BrokerAction::CaptureSelf, BrokerEvent::Captured(captured)) => match captured {
                Err(error) => {
                    return Err(bootstrap_lifecycle_transport_error(error));
                },
                Ok(token) => {
                    self.broker = Some(token);
                    self.action = BrokerAction::GetBootstrap;
                },
            },
            (BrokerAction::GetBootstrap, BrokerEvent::Bootstrap(status, port)) => {
                if status != 0 || port == MACH_PORT_NULL {
                    return Err(SessionTransportError::Native(Some(status)));
                }
                self.launchd_port = port;
                self.action = BrokerAction::SendBroker;
            },
            (BrokerAction::SendBroker, BrokerEvent::Sent(outcome)) => match outcome {
                Err(error) => {
                    return Err(error);
                },
                Ok(()) => {
                    self.action = BrokerAction::AwaitTraced;
                },
            },
            (BrokerAction::AwaitTraced, BrokerEvent::Received(received)) => {
                match judge_marker(received, TRACED_MARKER) {
                    Err(error) => {
                        return Err(error);
                    },
                    Ok(()) => {
                        self.action = BrokerAction::AwaitStop;
                    },
                }
            },
            (BrokerAction::AwaitStop, BrokerEvent::Stopped(stopped)) => {
                match judge_stop(stopped, SIGSTOP) {
                    Err(error) => {
                        return Err(error);
                    },
                    Ok(()) => {
                        self.action = BrokerAction::ContinueStopped;
                    },
                }
            },
            (BrokerAction::ContinueStopped, BrokerEvent::Continued(outcome)) => match outcome {
                Err(error) => {
                    return Err(error);
                },
                Ok(()) => {
                    self.action = BrokerAction::AwaitLimited;
                },
            },
            (BrokerAction::AwaitLimited, BrokerEvent::Received(received)) => {
                match judge_marker(received, LIMITED_MARKER) {
                    Err(error) => {
                        return Err(error);
                    },
                    Ok(()) => {
                        self.action = BrokerAction::AwaitExec;
                    },
                }
            },
            (BrokerAction::AwaitExec, BrokerEvent::Stopped(stopped)) => {
                match judge_stop(stopped, SIGTRAP) {
                    Err(error) => {
                        return Err(error);
                    },
                    Ok(()) => {
                        self.action = BrokerAction::ContinueTarget;
                    },
                }
            },
            (BrokerAction::ContinueTarget, BrokerEvent::Continued(outcome)) => match outcome {
                Err(error) => {
                    return Err(error);
                },
                Ok(()) => {
                    self.action = BrokerAction::Done;
                },
            },
            _ => {},
        }
        Ok(())
    }
}

/// How far the broker's half is from its end.
pub open spec fn broker_actions_left(action: BrokerAction) -> int {
    match action {
        BrokerAction::CaptureSelf => 9,
        BrokerAction::GetBootstrap => 8,
        BrokerAction::SendBroker => 7,
        BrokerAction::AwaitTraced => 6,
        BrokerAction::AwaitStop => 5,
        BrokerAction::ContinueStopped => 4,
        BrokerAction::AwaitLimited => 3,
        BrokerAction::AwaitExec => 2,
        BrokerAction::ContinueTarget => 1,
        BrokerAction::Done => 0,
    }
}

/// The broker's half goes forward one action at a time, and continues the launcher only at the
/// stops that it has to make: first at its own SIGSTOP, later at the SIGTRAP of its exec.
pub proof fn law_broker_continues_only_at_the_stops(
    start: TracedLauncherStart,
    event: BrokerEvent,
)
    requires
        broker_event_fits(start.action, event),
    ensures
        start.after(event) matches Ok(next) ==> {
            &&& broker_actions_left(next.action) == broker_actions_left(start.action) - 1
            &&& next.action == BrokerAction::ContinueStopped
                ==> (event matches BrokerEvent::Stopped(
                Ok(status),
            ) && wait_status::stop_signal(status) == Some(SIGSTOP))
            &&& next.action == BrokerAction::ContinueTarget ==> (event matches BrokerEvent::Stopped(
                Ok(status),
            ) && wait_status::stop_signal(status) == Some(SIGTRAP))
            &&& next.action == BrokerAction::AwaitStop ==> event == BrokerEvent::Received(
                Ok(Some(TRACED_MARKER)),
            )
            &&& next.action == BrokerAction::AwaitExec ==> event == BrokerEvent::Received(
                Ok(Some(LIMITED_MARKER)),
            )
        },
{
}

/// What the launcher does next.
#[derive(Clone, Copy, Debug, PartialEq, Eq)]
pub enum LauncherAction {
    /// Receive the broker's execution.
    ReceiveBroker,
    /// Install the launchd port.
    SetBootstrap,
    /// Capture the execution of its parent.
    CaptureParent,
    /// Ask who its parent is.
    AskParent,
    /// Let itself be traced.
    TraceMe,
    /// Capture the execution of its parent again.
    RecaptureParent,
    /// Ask again who its parent is.
    AskParentAgain,
    /// Say that it is traced.
    SendTraced,
    /// Stop itself.
    RaiseStop,
    /// Capture the execution of its parent once more.
    CaptureAfterStop,
    /// Limit its processes.
    LimitProcesses,
    /// Say that it is limited.
    SendLimited,
    /// Execute the target.
    ExecTarget,
}

/// What came of an action of the launcher.
#[derive(Clone, Copy, Debug, PartialEq, Eq)]
pub enum LauncherEvent {
    /// The status of a Mach operation.
    Status(i32),
    /// The execution of its parent.
    Captured(Result<AuditToken, BootstrapError>),
    /// Its parent.
    Parent(u32),
    /// Whether a native call went well, with its error where it did not.
    Native(Result<(), Option<i32>>),
    /// Whether a record was sent.
    Sent(Result<(), SessionTransportError>),
}

/// Whether an event is what comes of this action.
pub open spec fn launcher_event_fits(action: LauncherAction, event: LauncherEvent) -> bool {
    match action {
        LauncherAction::SetBootstrap => event is Status,
        LauncherAction::CaptureParent
        | LauncherAction::RecaptureParent
        | LauncherAction::CaptureAfterStop => event is Captured,
        LauncherAction::AskParent | LauncherAction::AskParentAgain => event is Parent,
        LauncherAction::TraceMe
        | LauncherAction::RaiseStop
        | LauncherAction::LimitProcesses => event is Native,
        LauncherAction::SendTraced | LauncherAction::SendLimited => event is Sent,
        LauncherAction::ReceiveBroker | LauncherAction::ExecTarget => false,
    }
}

/// The launcher's half of the handshake.
#[derive(Clone, Copy, Debug, PartialEq, Eq)]
pub struct TracedTargetExec {
    pub action: LauncherAction,
    pub parent_pid: u32,
    pub broker: Option<AuditToken>,
    pub launchd_port: u32,
}

/// What a captured execution amounts to where `expected` has to be.
pub open spec fn capture_judged(
    captured: Result<AuditToken, BootstrapError>,
    expected: Option<AuditToken>,
) -> Result<(), SessionTransportError> {
    match captured {
        Err(error) => Err(error::as_transport(error)),
        Ok(token) => if expected == Some(token) {
            Ok(())
        } else {
            Err(SessionTransportError::IdentityMismatch)
        },
    }
}

fn judge_capture(
    captured: Result<AuditToken, BootstrapError>,
    expected: Option<AuditToken>,
) -> (r: Result<(), SessionTransportError>)
    ensures
        r == capture_judged(captured, expected),
{
    match captured {
        Err(error) => Err(bootstrap_lifecycle_transport_error(error)),
        Ok(token) => match expected {
            Some(known) => {
                if same_token(known, token) {
                    Ok(())
                } else {
                    Err(SessionTransportError::IdentityMismatch)
                }
            },
            None => Err(SessionTransportError::IdentityMismatch),
        },
    }
}

impl TracedTargetExec {
    /// The launcher's half with another action.
    pub open spec fn at(self, action: LauncherAction) -> TracedTargetExec {
        TracedTargetExec { action, ..self }
    }

    /// The launcher's half after an operation that leads to `next` where it went well.
    pub open spec fn led(
        self,
        outcome: Result<(), SessionTransportError>,
        next: LauncherAction,
    ) -> Result<TracedTargetExec, SessionTransportError> {
        match outcome {
            Err(error) => Err(error),
            Ok(()) => Ok(self.at(next)),
        }
    }

    /// Whether the parent is still the one that is named.
    pub open spec fn parent_judged(self, parent: u32) -> Result<(), SessionTransportError> {
        if parent == self.parent_pid {
            Ok(())
        } else {
            Err(SessionTransportError::IdentityMismatch)
        }
    }

    /// The launcher's half once an event has come of its action, or why it failed. An event that
    /// does not belong to the action leaves it as it is.
    pub open spec fn after(self, event: LauncherEvent) -> Result<
        TracedTargetExec,
        SessionTransportError,
    > {
        match (self.action, event) {
            (LauncherAction::SetBootstrap, LauncherEvent::Status(status)) => if status != 0 {
                Err(SessionTransportError::Native(Some(status)))
            } else {
                Ok(self.at(LauncherAction::CaptureParent))
            },
            (LauncherAction::CaptureParent, LauncherEvent::Captured(captured)) => self.led(
                capture_judged(captured, self.broker),
                LauncherAction::AskParent,
            ),
            (LauncherAction::AskParent, LauncherEvent::Parent(parent)) => self.led(
                self.parent_judged(parent),
                LauncherAction::TraceMe,
            ),
            (LauncherAction::TraceMe, LauncherEvent::Native(outcome)) => self.led(
                native_judged(outcome),
                LauncherAction::RecaptureParent,
            ),
            (LauncherAction::RecaptureParent, LauncherEvent::Captured(captured)) => self.led(
                capture_judged(captured, self.broker),
                LauncherAction::AskParentAgain,
            ),
            (LauncherAction::AskParentAgain, LauncherEvent::Parent(parent)) => self.led(
                self.parent_judged(parent),
                LauncherAction::SendTraced,
            ),
            (LauncherAction::SendTraced, LauncherEvent::Sent(outcome)) => self.led(
                outcome,
                LauncherAction::RaiseStop,
            ),
            (LauncherAction::RaiseStop, LauncherEvent::Native(outcome)) => self.led(
                native_judged(outcome),
                LauncherAction::CaptureAfterStop,
            ),
            (LauncherAction::CaptureAfterStop, LauncherEvent::Captured(captured)) => self.led(
                capture_judged(captured, self.broker),
                LauncherAction::LimitProcesses,
            ),
            (LauncherAction::LimitProcesses, LauncherEvent::Native(outcome)) => self.led(
                native_judged(outcome),
                LauncherAction::SendLimited,
            ),
            (LauncherAction::SendLimited, LauncherEvent::Sent(outcome)) => self.led(
                outcome,
                LauncherAction::ExecTarget,
            ),
            _ => Ok(self),
        }
    }

    /// Starts the launcher's half for this parent.
    pub fn prepare_traced_target_exec(parent_pid: u32) -> (r: TracedTargetExec)
        ensures
            r == (TracedTargetExec {
                action: LauncherAction::ReceiveBroker,
                parent_pid,
                broker: None,
                launchd_port: MACH_PORT_NULL,
            }),
    {
        TracedTargetExec {
            action: LauncherAction::ReceiveBroker,
            parent_pid,
            broker: None,
            launchd_port: MACH_PORT_NULL,
        }
    }

    /// Takes the record that names the broker's execution, with the right to the launchd port.
    /// A refused record gives its rights back.
    pub fn receive_broker(&mut self, record: Result<VnextCapabilityRecord, RefusedRecord>) -> (r:
        Result<(), RefusedRecord>)
        requires
            old(self).action == LauncherAction::ReceiveBroker,
        ensures
            match record {
                Err(refused) => r matches Err(given) && given == refused && *final(self) == *old(
                    self,
                ),
                Ok(received) => if received.bytes@.len() != BROKER_RECORD_BYTES
                    || received.rights@.len() != 1 {
                    r matches Err(given) && given.error == SessionTransportError::MalformedRecord
                        && given.rights == received.rights && *final(self) == *old(self)
                } else {
                    r is Ok && final(self).action == LauncherAction::SetBootstrap
                        && final(self).parent_pid == old(self).parent_pid
                        && final(self).launchd_port == received.rights@[0].0 && (
                    final(self).broker matches Some(token)
                        && mach::is_token(received.bytes@, token))
                },
            },
    {
        let received = match record {
            Err(refused) => {
                return Err(refused);
            },
            Ok(received) => received,
        };
        if received.bytes.len() == BROKER_RECORD_BYTES && received.rights.len() == 1 {
            match array_at(&received.bytes, 0) {
                Some(encoded) => {
                    assert(encoded@ =~= received.bytes@);
                    self.broker = Some(decode_audit_token(encoded));
                    self.launchd_port = received.rights[0].0;
                    self.action = LauncherAction::SetBootstrap;
                    return Ok(());
                },
                None => {},
            }
        }
        Err(
            RefusedRecord {
                error: SessionTransportError::MalformedRecord,
                rights: received.rights,
            },
        )
    }

    fn lead(&mut self, outcome: Result<(), SessionTransportError>, next: LauncherAction) -> (r:
        Result<(), SessionTransportError>)
        ensures
            match (r, old(self).led(outcome, next)) {
                (Ok(()), Ok(after)) => *final(self) == after,
                (Err(error), Err(expected)) => error == expected && *final(self) == *old(self),
                _ => false,
            },
    {
        match outcome {
            Err(error) => Err(error),
            Ok(()) => {
                self.action = next;
                Ok(())
            },
        }
    }

    fn judge_parent(&self, parent: u32) -> (r: Result<(), SessionTransportError>)
        ensures
            r == self.parent_judged(parent),
    {
        if parent == self.parent_pid {
            Ok(())
        } else {
            Err(SessionTransportError::IdentityMismatch)
        }
    }

    /// Takes what came of the action.
    pub fn advance(&mut self, event: LauncherEvent) -> (r: Result<(), SessionTransportError>)
        ensures
            match (r, old(self).after(event)) {
                (Ok(()), Ok(next)) => *final(self) == next,
                (Err(error), Err(expected)) => error == expected && *final(self) == *old(self),
                _ => false,
            },
    {
        match (self.action, event) {
            (LauncherAction::SetBootstrap, LauncherEvent::Status(status)) => {
                if status != 0 {
                    return Err(SessionTransportError::Native(Some(status)));
                }
                self.action = LauncherAction::CaptureParent;
                Ok(())
            },
            (LauncherAction::CaptureParent, LauncherEvent::Captured(captured)) => {
                let outcome = judge_capture(captured, self.broker);
                self.lead(outcome, LauncherAction::AskParent)
            },
            (LauncherAction::AskParent, LauncherEvent::Parent(parent)) => {
                let outcome = self.judge_parent(parent);
                self.lead(outcome, LauncherAction::TraceMe)
            },
            (LauncherAction::TraceMe, LauncherEvent::Native(outcome)) => {
                self.lead(judge_native(outcome), LauncherAction::RecaptureParent)
            },
            (LauncherAction::RecaptureParent, LauncherEvent::Captured(captured)) => {
                let outcome = judge_capture(captured, self.broker);
                self.lead(outcome, LauncherAction::AskParentAgain)
            },
            (LauncherAction::AskParentAgain, LauncherEvent::Parent(parent)) => {
                let outcome = self.judge_parent(parent);
                self.lead(outcome, LauncherAction::SendTraced)
            },
            (LauncherAction::SendTraced, LauncherEvent::Sent(outcome)) => {
                self.lead(outcome, LauncherAction::RaiseStop)
            },
            (LauncherAction::RaiseStop, LauncherEvent::Native(outcome)) => {
                self.lead(judge_native(outcome), LauncherAction::CaptureAfterStop)
            },
            (LauncherAction::CaptureAfterStop, LauncherEvent::Captured(captured)) => {
                let outcome = judge_capture(captured, self.broker);
                self.lead(outcome, LauncherAction::LimitProcesses)
            },
            (LauncherAction::LimitProcesses, LauncherEvent::Native(outcome)) => {
                self.lead(judge_native(outcome), LauncherAction::SendLimited)
            },
            (LauncherAction::SendLimited, LauncherEvent::Sent(outcome)) => {
                self.lead(outcome, LauncherAction::ExecTarget)
            },
            _ => Ok(()),
        }
    }

    /// The byte to send, where the action is to send one.
    pub fn outgoing(&self) -> (r: Option<u8>)
        ensures
            r == (match self.action {
                LauncherAction::SendTraced => Some(TRACED_MARKER),
                LauncherAction::SendLimited => Some(LIMITED_MARKER),
                _ => None,
            }),
    {
        match self.action {
            LauncherAction::SendTraced => Some(TRACED_MARKER),
            LauncherAction::SendLimited => Some(LIMITED_MARKER),
            _ => None,
        }
    }
}

/// What a native call amounts to.
pub open spec fn native_judged(outcome: Result<(), Option<i32>>) -> Result<
    (),
    SessionTransportError,
> {
    match outcome {
        Ok(()) => Ok(()),
        Err(errno) => Err(SessionTransportError::Native(errno)),
    }
}

fn judge_native(outcome: Result<(), Option<i32>>) -> (r: Result<(), SessionTransportError>)
    ensures
        r == native_judged(outcome),
{
    match outcome {
        Ok(()) => Ok(()),
        Err(errno) => Err(SessionTransportError::Native(errno)),
    }
}

/// How far the launcher's half is from its end.
pub open spec fn launcher_actions_left(action: LauncherAction) -> int {
    match action {
        LauncherAction::ReceiveBroker => 12,
        LauncherAction::SetBootstrap => 11,
        LauncherAction::CaptureParent => 10,
        LauncherAction::AskParent => 9,
        LauncherAction::TraceMe => 8,
        LauncherAction::RecaptureParent => 7,
        LauncherAction::AskParentAgain => 6,
        LauncherAction::SendTraced => 5,
        LauncherAction::RaiseStop => 4,
        LauncherAction::CaptureAfterStop => 3,
        LauncherAction::LimitProcesses => 2,
        LauncherAction::SendLimited => 1,
        LauncherAction::ExecTarget => 0,
    }
}

/// The launcher's half goes forward one action at a time, under the same parent and broker. It
/// lets itself be traced only by the execution that the broker named, tells the broker so only
/// while that execution is still its parent, and executes the target only once its processes are
/// limited.
pub proof fn law_launcher_trusts_only_its_broker(launcher: TracedTargetExec, event: LauncherEvent)
    requires
        launcher_event_fits(launcher.action, event),
    ensures
        launcher.after(event) matches Ok(next) ==> {
            &&& launcher_actions_left(next.action) == launcher_actions_left(launcher.action) - 1
            &&& next.broker == launcher.broker && next.parent_pid == launcher.parent_pid
            &&& (next.action == LauncherAction::AskParent || next.action
                == LauncherAction::AskParentAgain || next.action == LauncherAction::LimitProcesses)
                ==> (event matches LauncherEvent::Captured(Ok(token)) && launcher.broker == Some(
                token,
            ))
            &&& (next.action == LauncherAction::TraceMe || next.action
                == LauncherAction::SendTraced) ==> event == LauncherEvent::Parent(
                launcher.parent_pid,
            )
            &&& next.action == LauncherAction::SendLimited ==> (event matches LauncherEvent::Native(
                Ok(_),
            ))
        },
{
}

/// What the broker announces is what the launcher takes it for: the record that names an execution
/// is read back as that execution.
pub proof fn law_announcement_names_the_broker(broker: AuditToken, read: AuditToken)
    requires
        mach::is_token(mach::token_bytes(broker.values@), read),
    ensures
        mach::token_bytes(broker.values@).len() == BROKER_RECORD_BYTES,
        read == broker,
{
    mach::law_token_round_trip(broker);
    assert(read.values =~= broker.values);
}

/// A marker is one byte and nothing else, and a marker is good exactly where it is the expected
/// one.
pub proof fn law_markers(bytes: Seq<u8>, byte: u8, expected: u8, error: SessionTransportError)
    ensures
        one_byte(bytes) == Some(byte) <==> bytes == seq![byte],
        one_byte(bytes) is None <==> bytes.len() != 1,
        marker_judged(Ok(one_byte(bytes)), expected) is Ok <==> bytes == seq![expected],
        marker_judged(Ok(one_byte(bytes)), expected) is Err ==> marker_judged(
            Ok(one_byte(bytes)),
            expected,
        ) == Err::<(), _>(SessionTransportError::MalformedRecord),
        marker_judged(Err(error), expected) == Err::<(), _>(error),
{
    if bytes.len() == 1 {
        assert(bytes =~= seq![bytes[0]]);
        assert(seq![byte][0] == byte && seq![expected][0] == expected);
    }
}

/// A broker whose launcher does its part comes to the end: it says who it is, waits for the first
/// marker and the stop, lets the launcher go on, waits for the second marker and the exec, and
/// lets the target go on.
pub proof fn law_good_start_comes_to_its_end(
    start: TracedLauncherStart,
    token: AuditToken,
    port: u32,
    stopped: i32,
    trapped: i32,
)
    requires
        start.action == BrokerAction::CaptureSelf,
        port != 0,
        wait_status::stop_signal(stopped) == Some(17i32),
        wait_status::stop_signal(trapped) == Some(5i32),
    ensures
        ({
            let announced = start.after(BrokerEvent::Captured(Ok(token)))->Ok_0.after(
                BrokerEvent::Bootstrap(0, port),
            )->Ok_0;
            let traced = announced.after(BrokerEvent::Sent(Ok(())))->Ok_0.after(
                BrokerEvent::Received(Ok(Some(1))),
            )->Ok_0.after(BrokerEvent::Stopped(Ok(stopped)))->Ok_0;
            let limited = traced.after(BrokerEvent::Continued(Ok(())))->Ok_0.after(
                BrokerEvent::Received(Ok(Some(2))),
            )->Ok_0.after(BrokerEvent::Stopped(Ok(trapped)))->Ok_0;
            &&& announced.action == BrokerAction::SendBroker
            &&& traced.action == BrokerAction::ContinueStopped
            &&& limited.action == BrokerAction::ContinueTarget
            &&& limited.after(BrokerEvent::Continued(Ok(()))) == Ok::<_, SessionTransportError>(
                TracedLauncherStart {
                    action: BrokerAction::Done,
                    broker: Some(token),
                    launchd_port: port,
                    ..start
                },
            )
        }),
{
}

/// A broker gives up only for what went wrong, and tells it.
pub proof fn law_broker_gives_up_for_a_reason(
    start: TracedLauncherStart,
    event: BrokerEvent,
    status: i32,
    error: SessionTransportError,
)
    requires
        broker_event_fits(start.action, event),
    ensures
        ({
            let marker: u8 = if start.action == BrokerAction::AwaitTraced {
                1
            } else {
                2
            };
            let signal: i32 = if start.action == BrokerAction::AwaitStop {
                17
            } else {
                5
            };
            let next = start.after(event);
            &&& next is Err <==> {
                ||| event matches BrokerEvent::Captured(captured) && captured is Err
                ||| event matches BrokerEvent::Bootstrap(status, port) && (status != 0 || port == 0)
                ||| event matches BrokerEvent::Sent(outcome) && outcome is Err
                ||| event matches BrokerEvent::Received(received) && !(received matches Ok(
                    Some(byte),
                ) && byte == marker)
                ||| event matches BrokerEvent::Stopped(stopped) && !(stopped matches Ok(status)
                    && wait_status::stop_signal(status) == Some(signal))
                ||| event matches BrokerEvent::Continued(outcome) && outcome is Err
            }
            &&& event == BrokerEvent::Sent(Err(error)) || event == BrokerEvent::Received(Err(error))
                || event == BrokerEvent::Stopped(Err(error)) || event == BrokerEvent::Continued(
                Err(error),
            ) ==> next == Err::<TracedLauncherStart, _>(error)
            &&& (event matches BrokerEvent::Received(Ok(byte)) && byte != Some(marker)) ==> next
                == Err::<TracedLauncherStart, _>(SessionTransportError::MalformedRecord)
            &&& event == BrokerEvent::Stopped(Ok(status)) && wait_status::stop_signal(status)
                != Some(signal) ==> next == Err::<TracedLauncherStart, _>(
                SessionTransportError::IdentityMismatch,
            )
            &&& event == BrokerEvent::Bootstrap(status, 0) ==> next == Err::<
                TracedLauncherStart,
                _,
            >(SessionTransportError::Native(Some(status)))
        }),
{
}

/// A launcher whose broker is its parent all along comes to the exec: it proves its parent, is
/// traced, proves it again, stops, proves it once more, gives its children up, and says so.
pub proof fn law_good_launcher_comes_to_its_exec(
    launcher: TracedTargetExec,
    token: AuditToken,
)
    requires
        launcher.action == LauncherAction::SetBootstrap,
        launcher.broker == Some(token),
    ensures
        ({
            let captured = LauncherEvent::Captured(Ok(token));
            let parent = LauncherEvent::Parent(launcher.parent_pid);
            let done = LauncherEvent::Native(Ok(()));
            let sent = LauncherEvent::Sent(Ok(()));
            let traced = launcher.after(LauncherEvent::Status(0))->Ok_0.after(captured)->Ok_0.after(
                parent,
            )->Ok_0.after(done)->Ok_0;
            let stopped = traced.after(captured)->Ok_0.after(parent)->Ok_0.after(sent)->Ok_0.after(
                done,
            )->Ok_0;
            &&& traced.action == LauncherAction::RecaptureParent
            &&& stopped.action == LauncherAction::CaptureAfterStop
            &&& stopped.after(captured)->Ok_0.after(done)->Ok_0.after(sent) == Ok::<
                _,
                SessionTransportError,
            >(TracedTargetExec { action: LauncherAction::ExecTarget, ..launcher })
        }),
{
}

/// A launcher gives up only for what went wrong, and tells it: another token or another parent is
/// somebody else.
pub proof fn law_launcher_gives_up_for_a_reason(
    launcher: TracedTargetExec,
    event: LauncherEvent,
    error: SessionTransportError,
    errno: Option<i32>,
    status: i32,
)
    requires
        launcher_event_fits(launcher.action, event),
    ensures
        ({
            let next = launcher.after(event);
            &&& next is Err <==> {
                ||| event matches LauncherEvent::Status(status) && status != 0
                ||| event matches LauncherEvent::Captured(captured) && !(captured matches Ok(token)
                    && launcher.broker == Some(token))
                ||| event matches LauncherEvent::Parent(parent) && parent != launcher.parent_pid
                ||| event matches LauncherEvent::Native(outcome) && outcome is Err
                ||| event matches LauncherEvent::Sent(outcome) && outcome is Err
            }
            &&& next is Err && (event is Parent || (event matches LauncherEvent::Captured(Ok(_))))
                ==> next == Err::<TracedTargetExec, _>(SessionTransportError::IdentityMismatch)
            &&& event == LauncherEvent::Sent(Err(error)) ==> next == Err::<TracedTargetExec, _>(
                error,
            )
            &&& event == LauncherEvent::Native(Err(errno)) ==> next == Err::<TracedTargetExec, _>(
                SessionTransportError::Native(errno),
            )
            &&& event == LauncherEvent::Status(status) && status != 0 ==> next == Err::<
                TracedTargetExec,
                _,
            >(SessionTransportError::Native(Some(status)))
        }),
{
}

} // verus!
