//! What a broker process decides at its entry, and the status that it exits with.

use vstd::prelude::*;
use crate::broker::gate::{BrokerEntryError, BrokerGateExit};
use crate::bytes;
use crate::bytes::same_bytes;
use crate::supervisor::deadline::SupervisorWireError;
use crate::supervisor::target;
use crate::supervisor::target::is_deployer_helper_path;

verus! {

/// `--supervisor-broker`
pub const INSTALLED_BROKER_MODE: [u8; 19] = [
    0x2d, 0x2d, 0x73, 0x75, 0x70, 0x65, 0x72, 0x76, 0x69, 0x73, 0x6f, 0x72, 0x2d, 0x62, 0x72,
    0x6f, 0x6b, 0x65, 0x72,
];

/// Tells where the start pipe is.
pub const INSTALLED_GATE_ARGUMENT: [u8; 11] = [
    0x2d, 0x2d, 0x67, 0x61, 0x74, 0x65, 0x2d, 0x66, 0x64, 0x3d, 0x33,
];

/// `--control-fd=4`
pub const INSTALLED_CONTROL_ARGUMENT: [u8; 14] = [
    0x2d, 0x2d, 0x63, 0x6f, 0x6e, 0x74, 0x72, 0x6f, 0x6c, 0x2d, 0x66, 0x64, 0x3d, 0x34,
];

/// `--trace-fd=5`
pub const INSTALLED_TRACE_ARGUMENT: [u8; 12] = [
    0x2d, 0x2d, 0x74, 0x72, 0x61, 0x63, 0x65, 0x2d, 0x66, 0x64, 0x3d, 0x35,
];

/// Where a broker finds its start pipe.
pub const BROKER_GATE_FD: i32 = 3;

/// Where a broker finds its control stream.
pub const BROKER_CONTROL_FD: i32 = 4;

/// Where a broker finds its trace stream.
pub const BROKER_TRACE_FD: i32 = 5;

/// The byte that commits a target to be resumed.
pub const BROKER_RESUME_BYTE: u8 = 1;

/// The access bits of the status flags of a descriptor.
pub const O_ACCMODE: i32 = 3;

/// Access for reading.
pub const O_RDONLY: i32 = 0;

/// Access for reading and writing.
pub const O_RDWR: i32 = 2;

/// The type of a stream socket.
pub const SOCK_STREAM: i32 = 1;

/// Bytes of the type of a socket.
pub const SOCKET_TYPE_BYTES: u32 = 4;

/// The arguments of a broker.
pub open spec fn broker_argv(path: Seq<u8>) -> Seq<Seq<u8>> {
    seq![
        path,
        INSTALLED_BROKER_MODE@,
        INSTALLED_GATE_ARGUMENT@,
        INSTALLED_CONTROL_ARGUMENT@,
        INSTALLED_TRACE_ARGUMENT@,
    ]
}

/// Accepts exactly the arguments of the installed broker of this path; the path has to be
/// absolute.
pub fn validate_fixed_arguments(path: &[u8], arguments: &Vec<Vec<u8>>) -> (r: Result<
    (),
    BrokerEntryError,
>)
    ensures
        r == (if target::helper_path(path@) && bytes::strings(arguments@) == broker_argv(path@) {
            Ok(())
        } else {
            Err(BrokerEntryError::InvalidArguments)
        }),
{
    let ghost expected = broker_argv(path@);
    let ghost actual = bytes::strings(arguments@);
    if !is_deployer_helper_path(path) {
        return Err(BrokerEntryError::InvalidArguments);
    }
    if arguments.len() != 5 {
        assert(actual.len() != expected.len());
        return Err(BrokerEntryError::InvalidArguments);
    }
    if same_bytes(&arguments[0], path) && same_bytes(&arguments[1], &INSTALLED_BROKER_MODE)
        && same_bytes(&arguments[2], &INSTALLED_GATE_ARGUMENT) && same_bytes(
        &arguments[3],
        &INSTALLED_CONTROL_ARGUMENT,
    ) && same_bytes(&arguments[4], &INSTALLED_TRACE_ARGUMENT) {
        assert(actual =~= expected);
        return Ok(());
    }
    assert(actual != expected) by {
        assert(actual[0] == arguments@[0]@ && actual[1] == arguments@[1]@);
        assert(actual[2] == arguments@[2]@ && actual[3] == arguments@[3]@);
        assert(actual[4] == arguments@[4]@);
        assert(expected[0] == path@ && expected[1] == INSTALLED_BROKER_MODE@);
        assert(expected[2] == INSTALLED_GATE_ARGUMENT@);
        assert(expected[3] == INSTALLED_CONTROL_ARGUMENT@);
        assert(expected[4] == INSTALLED_TRACE_ARGUMENT@);
    }
    Err(BrokerEntryError::InvalidArguments)
}

/// Whether the start pipe may be adopted.
pub open spec fn start_pipe_adopted(
    getfd: i32,
    flags: Result<i32, i32>,
    fifo: Result<bool, i32>,
) -> Result<(), BrokerEntryError> {
    if getfd < 0 {
        Err(BrokerEntryError::InvalidGate)
    } else {
        match (flags, fifo) {
            (Err(error), _) => Err(BrokerEntryError::Descriptor(error)),
            (Ok(value), _) if value & O_ACCMODE != O_RDONLY => Err(
                BrokerEntryError::InvalidGate,
            ),
            (Ok(_), Err(error)) => Err(BrokerEntryError::Descriptor(error)),
            (Ok(_), Ok(pipe)) => if pipe {
                Ok(())
            } else {
                Err(BrokerEntryError::InvalidGate)
            },
        }
    }
}

/// Decides whether the start pipe may be adopted: it is open, read-only and a pipe.
pub fn adopt_fixed_gate(getfd: i32, flags: Result<i32, i32>, fifo: Result<bool, i32>) -> (r: Result<
    (),
    BrokerEntryError,
>)
    ensures
        r == start_pipe_adopted(getfd, flags, fifo),
{
    if getfd < 0 {
        return Err(BrokerEntryError::InvalidGate);
    }
    match flags {
        Err(error) => {
            return Err(BrokerEntryError::Descriptor(error));
        },
        Ok(value) => {
            if value & O_ACCMODE != O_RDONLY {
                return Err(BrokerEntryError::InvalidGate);
            }
        },
    }
    match fifo {
        Err(error) => Err(BrokerEntryError::Descriptor(error)),
        Ok(pipe) => {
            if pipe {
                Ok(())
            } else {
                Err(BrokerEntryError::InvalidGate)
            }
        },
    }
}

/// What is known of a descriptor that should be a stream.
#[derive(Clone, Copy, Debug, PartialEq, Eq)]
pub struct StreamFacts {
    pub getfd: i32,
    pub flags: i32,
    pub option_status: i32,
    pub type_bytes: u32,
    pub socket_type: i32,
    /// Whether the metadata say that it is a socket.
    pub socket: Result<bool, i32>,
}

/// Whether the facts are those of an open bidirectional stream, as far as its options say.
pub open spec fn looks_like_stream(facts: StreamFacts) -> bool {
    &&& facts.getfd >= 0
    &&& facts.flags >= 0
    &&& facts.flags & O_ACCMODE == O_RDWR
    &&& facts.option_status == 0
    &&& facts.type_bytes == SOCKET_TYPE_BYTES
    &&& facts.socket_type == SOCK_STREAM
}

/// Whether a control stream may be adopted.
pub open spec fn control_adopted(facts: StreamFacts) -> Result<(), BrokerEntryError> {
    if !looks_like_stream(facts) {
        Err(BrokerEntryError::InvalidControl)
    } else {
        match facts.socket {
            Err(error) => Err(BrokerEntryError::Descriptor(error)),
            Ok(socket) => if socket {
                Ok(())
            } else {
                Err(BrokerEntryError::InvalidControl)
            },
        }
    }
}

/// Decides whether a control stream may be adopted: it is open, bidirectional and a stream socket.
pub fn adopt_fixed_control(facts: StreamFacts) -> (r: Result<(), BrokerEntryError>)
    ensures
        r == control_adopted(facts),
{
    if facts.getfd < 0 {
        return Err(BrokerEntryError::InvalidControl);
    }
    if facts.flags < 0 || facts.flags & O_ACCMODE != O_RDWR || facts.option_status != 0
        || facts.type_bytes != SOCKET_TYPE_BYTES || facts.socket_type != SOCK_STREAM {
        return Err(BrokerEntryError::InvalidControl);
    }
    match facts.socket {
        Err(error) => Err(BrokerEntryError::Descriptor(error)),
        Ok(socket) => {
            if socket {
                Ok(())
            } else {
                Err(BrokerEntryError::InvalidControl)
            }
        },
    }
}

/// Takes what came of configuring an adopted descriptor.
pub fn configured(outcome: Result<(), i32>) -> (r: Result<(), BrokerEntryError>)
    ensures
        r == (match outcome {
            Ok(()) => Ok(()),
            Err(error) => Err(BrokerEntryError::Descriptor(error)),
        }),
{
    match outcome {
        Ok(()) => Ok(()),
        Err(error) => Err(BrokerEntryError::Descriptor(error)),
    }
}

/// Judges the byte of a resume commit.
pub fn resume_commit(byte: u8) -> (r: Result<(), BrokerEntryError>)
    ensures
        r == (if byte == BROKER_RESUME_BYTE {
            Ok(())
        } else {
            Err(BrokerEntryError::Plan(SupervisorWireError::Malformed))
        }),
{
    if byte == BROKER_RESUME_BYTE {
        Ok(())
    } else {
        Err(BrokerEntryError::Plan(SupervisorWireError::Malformed))
    }
}

/// How a broker process ended.
#[derive(Clone, Copy, Debug, PartialEq, Eq, Structural)]
pub enum BrokerEnd {
    /// Its arguments or descriptors are not the fixed ones.
    NotAdopted(BrokerEntryError),
    /// The service was gone before the broker was active.
    Dormant(BrokerGateExit),
    /// The protocol was broken.
    Broken(BrokerEntryError),
    /// The service was gone while the broker was active.
    Active(BrokerGateExit),
    /// The target was not the one that the plan names.
    TargetRejected,
}

/// The status that a broker exits with: zero only where the service is gone and nothing was broken.
pub fn exit_status(end: BrokerEnd) -> (r: i32)
    ensures
        r == (match end {
            BrokerEnd::NotAdopted(_) => 64,
            BrokerEnd::Dormant(_) => 0,
            BrokerEnd::Broken(_) => 65,
            BrokerEnd::Active(BrokerGateExit::ServiceGone) => 0,
            BrokerEnd::Active(BrokerGateExit::ServiceGoneBeforeActivation) => 66,
            BrokerEnd::TargetRejected => 67int,
        }),
{
    match end {
        BrokerEnd::NotAdopted(_) => 64,
        BrokerEnd::Dormant(_) => 0,
        BrokerEnd::Broken(_) => 65,
        BrokerEnd::Active(exit) => match exit {
            BrokerGateExit::ServiceGone => 0,
            BrokerGateExit::ServiceGoneBeforeActivation => 66,
        },
        BrokerEnd::TargetRejected => 67,
    }
}

/// A broker is started by its own path, with one mode and its three descriptors.
pub proof fn law_broker_vector_is_fixed(path: Seq<u8>, other: Seq<u8>)
    ensures
        broker_argv(path).len() == 5,
        broker_argv(path)[0] == path,
        forall|i: int| 1 <= i < 5 ==> #[trigger] broker_argv(path)[i] == broker_argv(other)[i],
        broker_argv(path)[2].last() == 0x30 + BROKER_GATE_FD,
        broker_argv(path)[3].last() == 0x30 + BROKER_CONTROL_FD,
        broker_argv(path)[4].last() == 0x30 + BROKER_TRACE_FD,
{
}

/// A stream is one that is open for reading and writing, and whose type is that of a stream.
pub proof fn law_streams_are_recognised(facts: StreamFacts)
    ensures
        looks_like_stream(facts) <==> {
            &&& facts.getfd >= 0 && facts.flags >= 0 && facts.flags & 3 == 2
            &&& facts.option_status == 0 && facts.type_bytes == 4 && facts.socket_type == 1
        },
{
}

/// The start pipe is adopted exactly where it is open, is a pipe, and is only read from; and a
/// control stream exactly where it is open, is read from and written to, and is a stream socket by
/// every account.
pub proof fn law_descriptors_are_adopted(
    getfd: i32,
    flags: Result<i32, i32>,
    fifo: Result<bool, i32>,
    facts: StreamFacts,
    error: i32,
)
    ensures
        ({
            let adopted = start_pipe_adopted(getfd, flags, fifo);
            &&& adopted is Ok <==> getfd >= 0 && (flags matches Ok(value) && value & 3 == 0) && fifo
                == Ok::<bool, i32>(true)
            &&& adopted is Err && getfd >= 0 && flags == Err::<i32, i32>(error) ==> adopted
                == Err::<(), _>(BrokerEntryError::Descriptor(error))
            &&& getfd < 0 || fifo == Ok::<bool, i32>(false) && flags is Ok ==> adopted == Err::<
                (),
                _,
            >(BrokerEntryError::InvalidGate)
        }),
        ({
            let adopted = control_adopted(facts);
            let shaped = facts.getfd >= 0 && facts.flags >= 0 && facts.flags & 3 == 2
                && facts.option_status == 0 && facts.type_bytes == 4 && facts.socket_type == 1;
            &&& adopted is Ok <==> shaped && facts.socket == Ok::<bool, i32>(true)
            &&& shaped && facts.socket == Err::<bool, i32>(error) ==> adopted == Err::<(), _>(
                BrokerEntryError::Descriptor(error),
            )
            &&& !shaped || facts.socket == Ok::<bool, i32>(false) ==> adopted == Err::<(), _>(
                BrokerEntryError::InvalidControl,
            )
        }),
{
}

} // verus!
