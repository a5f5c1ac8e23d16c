//! Failures of the bootstrap channel and of the session transport above it.

use vstd::prelude::*;

verus! {

/// Mach bootstrap or authenticated port-transfer failure.
#[derive(Clone, Copy, Debug, PartialEq, Eq)]
pub enum BootstrapError {
    /// A bounded Mach operation failed.
    Mach {
        /// Bounded Mach operation.
        operation: &'static str,
        /// Kernel return code.
        code: i32,
    },
    /// Setup or launch of the helper failed.
    Spawn(i32),
    /// Received message shape, nonce, or descriptor was noncanonical.
    InvalidMessage,
    /// Kernel audit trailer identified another process.
    WrongPeer {
        /// Held spawned or parent process.
        expected: u32,
        /// Process from the kernel audit trailer.
        actual: u32,
    },
    /// Spawn environment was missing or malformed.
    InvalidEnvironment,
    /// The caller-derived absolute deadline expired.
    DeadlineExpired,
    /// A send completed at the deadline boundary with ambiguous peer state.
    Ambiguous,
    /// Exact child authority could not be retained, so no numeric signal was sent.
    ExactAuthorityUnavailable {
        /// Native capture error when one was available.
        native_error: Option<i32>,
    },
}

/// Failure of the session transport.
#[derive(Clone, Copy, Debug, PartialEq, Eq)]
pub enum SessionTransportError {
    /// The deadline expired.
    DeadlineExpired,
    /// The peer has exited.
    PeerExited,
    /// A record was not canonical.
    MalformedRecord,
    /// A record exceeded a bound.
    RecordTooLarge,
    /// A record came from another execution or process.
    IdentityMismatch,
    /// A send completed at the deadline boundary with ambiguous peer state.
    Ambiguous,
    /// A native operation failed, with its error where there was one.
    Native(Option<i32>),
}

/// What is known of a peer.
#[derive(Clone, Copy, Debug, PartialEq, Eq, Structural)]
pub enum PeerState {
    /// It is there.
    Running,
    /// It is gone.
    ExitedUnknown,
}

/// The bootstrap failure that a lifecycle failure amounts to.
pub open spec fn as_bootstrap(error: SessionTransportError) -> BootstrapError {
    match error {
        SessionTransportError::DeadlineExpired => BootstrapError::DeadlineExpired,
        SessionTransportError::Native(Some(code)) => BootstrapError::Spawn(code),
        _ => BootstrapError::InvalidMessage,
    }
}

/// The bootstrap failure that a lifecycle failure amounts to.
pub fn bootstrap_lifecycle_error(error: SessionTransportError) -> (r: BootstrapError)
    ensures
        r == as_bootstrap(error),
{
    match error {
        SessionTransportError::DeadlineExpired => BootstrapError::DeadlineExpired,
        SessionTransportError::Native(Some(code)) => BootstrapError::Spawn(code),
        SessionTransportError::IdentityMismatch
        | SessionTransportError::PeerExited
        | SessionTransportError::MalformedRecord
        | SessionTransportError::RecordTooLarge
        | SessionTransportError::Ambiguous
        | SessionTransportError::Native(None) => BootstrapError::InvalidMessage,
    }
}

/// The transport failure that a bootstrap failure amounts to.
pub open spec fn as_transport(error: BootstrapError) -> SessionTransportError {
    match error {
        BootstrapError::Mach { code, .. } => SessionTransportError::Native(Some(code)),
        BootstrapError::Spawn(code) => SessionTransportError::Native(Some(code)),
        BootstrapError::WrongPeer { .. } => SessionTransportError::IdentityMismatch,
        BootstrapError::DeadlineExpired => SessionTransportError::DeadlineExpired,
        BootstrapError::Ambiguous => SessionTransportError::Ambiguous,
        BootstrapError::ExactAuthorityUnavailable { native_error } => {
            SessionTransportError::Native(native_error)
        },
        BootstrapError::InvalidMessage | BootstrapError::InvalidEnvironment => {
            SessionTransportError::MalformedRecord
        },
    }
}

/// The transport failure that a bootstrap failure amounts to.
pub fn bootstrap_lifecycle_transport_error(error: BootstrapError) -> (r: SessionTransportError)
    ensures
        r == as_transport(error),
{
    match error {
        BootstrapError::Mach { code, .. } => SessionTransportError::Native(Some(code)),
        BootstrapError::Spawn(code) => SessionTransportError::Native(Some(code)),
        BootstrapError::WrongPeer { .. } => SessionTransportError::IdentityMismatch,
        BootstrapError::DeadlineExpired => SessionTransportError::DeadlineExpired,
        BootstrapError::Ambiguous => SessionTransportError::Ambiguous,
        BootstrapError::ExactAuthorityUnavailable { native_error } => {
            SessionTransportError::Native(native_error)
        },
        BootstrapError::InvalidMessage | BootstrapError::InvalidEnvironment => {
            SessionTransportError::MalformedRecord
        },
    }
}

/// The native error inside a bootstrap failure, if there is one.
pub fn bootstrap_native_error(error: &BootstrapError) -> (r: Option<i32>)
    ensures
        r == (match *error {
            BootstrapError::Mach { code, .. } => Some(code),
            BootstrapError::Spawn(code) => Some(code),
            BootstrapError::ExactAuthorityUnavailable { native_error } => native_error,
            _ => None,
        }),
{
    match *error {
        BootstrapError::Mach { code, .. } => Some(code),
        BootstrapError::Spawn(code) => Some(code),
        BootstrapError::ExactAuthorityUnavailable { native_error } => native_error,
        BootstrapError::InvalidMessage
        | BootstrapError::WrongPeer { .. }
        | BootstrapError::InvalidEnvironment
        | BootstrapError::DeadlineExpired
        | BootstrapError::Ambiguous => None,
    }
}

/// Takes the status of a Mach operation.
pub fn mach(operation: &'static str, code: i32) -> (r: Result<(), BootstrapError>)
    ensures
        r == (if code == 0 {
            Ok(())
        } else {
            Err(BootstrapError::Mach { operation, code })
        }),
{
    if code == 0 {
        Ok(())
    } else {
        Err(BootstrapError::Mach { operation, code })
    }
}

/// Takes the status of a spawn operation.
pub fn spawn_result(code: i32) -> (r: Result<(), BootstrapError>)
    ensures
        r == (if code == 0 {
            Ok(())
        } else {
            Err(BootstrapError::Spawn(code))
        }),
{
    if code == 0 {
        Ok(())
    } else {
        Err(BootstrapError::Spawn(code))
    }
}

/// Set in the type of a name whose port is dead.
pub const MACH_PORT_TYPE_DEAD_NAME: u32 = 0x0010_0000;

/// Set in the type of a name that is a send right.
pub const MACH_PORT_TYPE_SEND: u32 = 0x0001_0000;

/// What the type of the name of a peer's port says of the peer.
pub open spec fn peer_state_of(status: i32, port_type: u32) -> Result<
    PeerState,
    SessionTransportError,
> {
    if status != 0 {
        Err(SessionTransportError::Native(Some(status)))
    } else if port_type & MACH_PORT_TYPE_DEAD_NAME != 0 {
        Ok(PeerState::ExitedUnknown)
    } else if port_type & MACH_PORT_TYPE_SEND != 0 {
        Ok(PeerState::Running)
    } else {
        Err(SessionTransportError::Native(None))
    }
}

/// What the type of the name of a peer's port says of the peer.
pub fn port_peer_state(status: i32, port_type: u32) -> (r: Result<
    PeerState,
    SessionTransportError,
>)
    ensures
        r == peer_state_of(status, port_type),
{
    if status != 0 {
        return Err(SessionTransportError::Native(Some(status)));
    }
    if port_type & MACH_PORT_TYPE_DEAD_NAME != 0 {
        Ok(PeerState::ExitedUnknown)
    } else if port_type & MACH_PORT_TYPE_SEND != 0 {
        Ok(PeerState::Running)
    } else {
        Err(SessionTransportError::Native(None))
    }
}

/// A failure keeps what it says from one form to the other: a native code stays that code, an
/// expired deadline stays one, and an ambiguous send stays ambiguous.
pub proof fn law_failures_keep_their_meaning(
    code: i32,
    operation: &'static str,
    expected: u32,
    actual: u32,
    native_error: Option<i32>,
)
    ensures
        as_bootstrap(SessionTransportError::DeadlineExpired) == BootstrapError::DeadlineExpired,
        as_bootstrap(SessionTransportError::Native(Some(code))) == BootstrapError::Spawn(code),
        as_bootstrap(SessionTransportError::Native(None)) == BootstrapError::InvalidMessage,
        as_bootstrap(SessionTransportError::IdentityMismatch) == BootstrapError::InvalidMessage,
        as_transport(BootstrapError::DeadlineExpired) == SessionTransportError::DeadlineExpired,
        as_transport(BootstrapError::Ambiguous) == SessionTransportError::Ambiguous,
        as_transport(BootstrapError::Spawn(code)) == SessionTransportError::Native(Some(code)),
        as_transport(BootstrapError::Mach { operation, code }) == SessionTransportError::Native(
            Some(code),
        ),
        as_transport(BootstrapError::WrongPeer { expected, actual })
            == SessionTransportError::IdentityMismatch,
        as_transport(BootstrapError::ExactAuthorityUnavailable { native_error })
            == SessionTransportError::Native(native_error),
        as_transport(BootstrapError::InvalidMessage) == SessionTransportError::MalformedRecord,
        as_transport(BootstrapError::InvalidEnvironment) == SessionTransportError::MalformedRecord,
{
}

/// A peer runs where its port is there as a send right, and is gone where the port is dead; a name
/// that is neither says nothing of it, and a failed look is told with its status.
pub proof fn law_peer_is_what_its_port_says(status: i32, port_type: u32)
    ensures
        status != 0 ==> peer_state_of(status, port_type) == Err::<PeerState, _>(
            SessionTransportError::Native(Some(status)),
        ),
        status == 0 ==> {
            let dead = port_type & 0x10_0000 != 0;
            let send = port_type & 0x1_0000 != 0;
            &&& peer_state_of(status, port_type) == Ok::<_, SessionTransportError>(
                PeerState::ExitedUnknown,
            ) <==> dead
            &&& peer_state_of(status, port_type) == Ok::<_, SessionTransportError>(
                PeerState::Running,
            ) <==> send && !dead
            &&& !dead && !send ==> peer_state_of(status, port_type) == Err::<PeerState, _>(
                SessionTransportError::Native(None),
            )
        },
{
}

} // verus!
