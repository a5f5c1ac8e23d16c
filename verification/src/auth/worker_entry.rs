//! What one worker process decides, from its arguments to its exit status.

use vstd::prelude::*;
use crate::auth::worker_frame;
use crate::auth::worker_frame::{AuthWorkerJob, AuthWorkerResult, JobModel};
use crate::auth::worker_spawn;
use crate::auth::worker_spawn::{
    INSTALLED_AUTH_WORKER_MODE, INSTALLED_AUTH_WORKER_REQUEST_ARGUMENT,
    INSTALLED_AUTH_WORKER_RESULT_ARGUMENT,
};
use crate::bytes;
use crate::bytes::{is_all_zero, same_bytes};
use crate::mach;
use crate::mach::decode_audit_token;
use crate::supervisor::deadline::{ClockSample, SupervisorDeadline};
use crate::wait_status::EINTR;

verus! {

/// The identity of the code is zero.
pub const EXIT_CODE_IDENTITY: i32 = 71;

/// The working directory could not be changed.
pub const EXIT_DIRECTORY: i32 = 72;

/// The job could not be read.
pub const EXIT_READ_JOB: i32 = 73;

/// The end of the request could not be read.
pub const EXIT_READ_END: i32 = 74;

/// Something follows the job.
pub const EXIT_TRAILING: i32 = 75;

/// The job is not canonical.
pub const EXIT_JOB: i32 = 76;

/// The token of the job has other credentials than the job.
pub const EXIT_CREDENTIALS: i32 = 77;

/// The result could not be encoded.
pub const EXIT_ENCODE: i32 = 78;

/// The arguments are not the fixed ones.
pub const EXIT_ARGUMENTS: i32 = 79;

/// A fixed descriptor is not open.
pub const EXIT_DESCRIPTOR: i32 = 80;

/// A fixed descriptor cannot be inspected.
pub const EXIT_METADATA: i32 = 81;

/// A fixed descriptor is no pipe.
pub const EXIT_NOT_A_PIPE: i32 = 82;

/// A fixed descriptor has the wrong access.
pub const EXIT_ACCESS: i32 = 83;

/// A fixed descriptor could not be made close-on-exec.
pub const EXIT_CLOEXEC: i32 = 84;

/// The deadline of the job has passed.
pub const EXIT_DEADLINE: i32 = 85;

/// The result was written in part.
pub const EXIT_SHORT_WRITE: i32 = 91;

/// The result could not be written.
pub const EXIT_WRITE: i32 = 92;

/// The access bits of the status flags of a descriptor.
pub const O_ACCMODE: i32 = 3;

/// Access for reading.
pub const O_RDONLY: i32 = 0;

/// Access for writing.
pub const O_WRONLY: i32 = 1;

/// Accepts exactly the arguments that a worker of this path is spawned with.
pub fn validate_fixed_arguments(path: &[u8], arguments: &Vec<Vec<u8>>) -> (r: Result<(), i32>)
    ensures
        r == (if bytes::strings(arguments@) == worker_spawn::worker_argv(path@) {
            Ok(())
        } else {
            Err(EXIT_ARGUMENTS)
        }),
{
    let ghost expected = worker_spawn::worker_argv(path@);
    let ghost actual = bytes::strings(arguments@);
    if arguments.len() != 4 {
        assert(actual.len() != expected.len());
        return Err(EXIT_ARGUMENTS);
    }
    if same_bytes(&arguments[0], path) && same_bytes(&arguments[1], &INSTALLED_AUTH_WORKER_MODE)
        && same_bytes(&arguments[2], &INSTALLED_AUTH_WORKER_REQUEST_ARGUMENT) && same_bytes(
        &arguments[3],
        &INSTALLED_AUTH_WORKER_RESULT_ARGUMENT,
    ) {
        assert(actual =~= expected);
        return Ok(());
    }
    assert(actual != expected) by {
        assert(actual[0] == arguments@[0]@ && actual[1] == arguments@[1]@);
        assert(actual[2] == arguments@[2]@ && actual[3] == arguments@[3]@);
        assert(expected[0] == path@ && expected[1] == INSTALLED_AUTH_WORKER_MODE@);
        assert(expected[2] == INSTALLED_AUTH_WORKER_REQUEST_ARGUMENT@);
        assert(expected[3] == INSTALLED_AUTH_WORKER_RESULT_ARGUMENT@);
    }
    Err(EXIT_ARGUMENTS)
}

/// Decides whether a worker may touch its descriptors: it has the fixed arguments, and an identity
/// to vouch with.
pub fn prepare_worker(path: &[u8], arguments: &Vec<Vec<u8>>, code_identity: &[u8; 32]) -> (r:
    Result<(), i32>)
    ensures
        r == (if bytes::strings(arguments@) != worker_spawn::worker_argv(path@) {
            Err(EXIT_ARGUMENTS)
        } else if bytes::all_zero(code_identity@) {
            Err(EXIT_CODE_IDENTITY)
        } else {
            Ok(())
        }),
{
    match validate_fixed_arguments(path, arguments) {
        Err(status) => {
            return Err(status);
        },
        Ok(()) => {},
    }
    if is_all_zero(code_identity) {
        return Err(EXIT_CODE_IDENTITY);
    }
    Ok(())
}

/// Whether a fixed descriptor may be adopted.
pub open spec fn pipe_inspected(
    getfd: i32,
    fifo: Option<bool>,
    flags: i32,
    access: i32,
) -> Result<(), i32> {
    if getfd < 0 {
        Err(EXIT_DESCRIPTOR)
    } else if fifo is None {
        Err(EXIT_METADATA)
    } else if fifo == Some(false) {
        Err(EXIT_NOT_A_PIPE)
    } else if flags < 0 || flags & O_ACCMODE != access {
        Err(EXIT_ACCESS)
    } else {
        Ok(())
    }
}

/// Decides whether a fixed descriptor may be adopted: it is open, a pipe, and has this access.
/// `fifo` is `None` where the descriptor could not be inspected.
pub fn inspect_fixed_pipe(getfd: i32, fifo: Option<bool>, flags: i32, access: i32) -> (r: Result<
    (),
    i32,
>)
    ensures
        r == pipe_inspected(getfd, fifo, flags, access),
{
    if getfd < 0 {
        return Err(EXIT_DESCRIPTOR);
    }
    match fifo {
        None => Err(EXIT_METADATA),
        Some(false) => Err(EXIT_NOT_A_PIPE),
        Some(true) => {
            if flags < 0 || flags & O_ACCMODE != access {
                Err(EXIT_ACCESS)
            } else {
                Ok(())
            }
        },
    }
}

/// Takes the status of making an adopted descriptor close-on-exec.
pub fn adopt_fixed_pipe(setfd: i32) -> (r: Result<(), i32>)
    ensures
        r == (if setfd != 0 {
            Err(EXIT_CLOEXEC)
        } else {
            Ok(())
        }),
{
    if setfd != 0 {
        Err(EXIT_CLOEXEC)
    } else {
        Ok(())
    }
}

/// Whether the deadline of a job has not passed.
pub fn ensure_deadline(deadline: u64, clock: ClockSample) -> (r: Result<(), i32>)
    ensures
        r == (if SupervisorDeadline(deadline).local_instant(clock) is Ok {
            Ok(())
        } else {
            Err(EXIT_DEADLINE)
        }),
{
    match SupervisorDeadline::from_wire(deadline).to_local_instant(clock) {
        Ok(_) => Ok(()),
        Err(_) => Err(EXIT_DEADLINE),
    }
}

/// The request of a worker: the job, read in full, and how many bytes followed it. `None` where a
/// read failed.
pub struct WorkerRequest<'a> {
    pub frame: Option<&'a [u8]>,
    pub trailing: Option<usize>,
}

/// The words of the token of a job.
pub open spec fn job_words(job: JobModel) -> Seq<u32> {
    mach::token_words(job.audit_identity)
}

/// The job that a worker takes on, or the status it exits with.
pub open spec fn taken_job(
    chdir: i32,
    frame: Option<Seq<u8>>,
    trailing: Option<usize>,
    clock: ClockSample,
) -> Result<JobModel, i32> {
    if chdir != 0 {
        Err(EXIT_DIRECTORY)
    } else {
        match (frame, trailing) {
            (None, _) => Err(EXIT_READ_JOB),
            (Some(_), None) => Err(EXIT_READ_END),
            (Some(bytes), Some(extra)) => if extra != 0 {
                Err(EXIT_TRAILING)
            } else {
                match worker_frame::parsed_job(bytes) {
                    Err(_) => Err(EXIT_JOB),
                    Ok(job) => if SupervisorDeadline(job.deadline).local_instant(clock) is Err {
                        Err(EXIT_DEADLINE)
                    } else if job_words(job)[1] != job.effective_uid || job_words(job)[2]
                        != job.effective_gid {
                        Err(EXIT_CREDENTIALS)
                    } else {
                        Ok(job)
                    },
                }
            },
        }
    }
}

/// Takes on one job: it stands alone in the request, is canonical and in time, and names the
/// credentials of its own token.
pub fn take_job(chdir: i32, request: WorkerRequest, clock: ClockSample) -> (r: Result<
    AuthWorkerJob,
    i32,
>)
    ensures
        match (
            r,
            taken_job(
                chdir,
                match request.frame {
                    Some(bytes) => Some(bytes@),
                    None => None,
                },
                request.trailing,
                clock,
            ),
        ) {
            (Ok(job), Ok(expected)) => job@ == expected,
            (Err(status), Err(expected)) => status == expected,
            _ => false,
        },
{
    if chdir != 0 {
        return Err(EXIT_DIRECTORY);
    }
    let frame = match request.frame {
        None => {
            return Err(EXIT_READ_JOB);
        },
        Some(frame) => frame,
    };
    match request.trailing {
        None => {
            return Err(EXIT_READ_END);
        },
        Some(extra) => {
            if extra != 0 {
                return Err(EXIT_TRAILING);
            }
        },
    }
    let job = match AuthWorkerJob::decode_pipe_frame(frame) {
        Err(_) => {
            return Err(EXIT_JOB);
        },
        Ok(job) => job,
    };
    match ensure_deadline(job.deadline(), clock) {
        Err(status) => {
            return Err(status);
        },
        Ok(()) => {},
    }
    let token = decode_audit_token(job.audit_identity());
    if token.values[1] != job.effective_uid() || token.values[2] != job.effective_gid() {
        return Err(EXIT_CREDENTIALS);
    }
    Ok(job)
}

/// Why the validation of a caller's code could not be made.
#[derive(Clone, Copy, Debug, PartialEq, Eq, Structural)]
pub enum SecurityFailure {
    /// The data object of the token could not be created.
    Data,
    /// The attributes could not be created.
    Attributes,
    /// The text of the requirement could not be created.
    RequirementText,
    /// The requirement could not be parsed.
    RequirementParse,
    /// The parsed requirement is missing.
    RequirementMissing,
    /// The first framework could not be loaded.
    CoreFoundation,
    /// The second framework could not be loaded.
    Security,
    /// The attribute of the token is missing.
    AuditAttribute,
    /// A symbol is missing.
    Symbol,
}

impl SecurityFailure {
    /// The status that a worker exits with.
    pub open spec fn spec_status(self) -> i32 {
        match self {
            SecurityFailure::Data => 86,
            SecurityFailure::Attributes => 87,
            SecurityFailure::RequirementText => 88,
            SecurityFailure::RequirementParse => 89,
            SecurityFailure::RequirementMissing => 90,
            SecurityFailure::CoreFoundation => 93,
            SecurityFailure::Security => 94,
            SecurityFailure::AuditAttribute => 95,
            SecurityFailure::Symbol => 96,
        }
    }

    /// The status that a worker exits with.
    pub fn status(self) -> (r: i32)
        ensures
            r == self.spec_status(),
    {
        match self {
            SecurityFailure::Data => 86,
            SecurityFailure::Attributes => 87,
            SecurityFailure::RequirementText => 88,
            SecurityFailure::RequirementParse => 89,
            SecurityFailure::RequirementMissing => 90,
            SecurityFailure::CoreFoundation => 93,
            SecurityFailure::Security => 94,
            SecurityFailure::AuditAttribute => 95,
            SecurityFailure::Symbol => 96,
        }
    }
}

/// What the validation of a caller's code answered.
#[derive(Clone, Copy, Debug, PartialEq, Eq, Structural)]
pub struct SecurityAnswer {
    /// Whether code was found for the token.
    pub code_found: bool,
    /// The status of the lookup.
    pub lookup: i32,
    /// The status of the check against the requirement; not looked at where no code was found.
    pub validity: i32,
}

/// Whether the code of the caller was found and meets the requirement.
pub open spec fn code_validated(
    answer: Result<SecurityAnswer, SecurityFailure>,
) -> Result<bool, i32> {
    match answer {
        Err(failure) => Err(failure.spec_status()),
        Ok(found) => Ok(found.code_found && found.lookup == 0 && found.validity == 0),
    }
}

/// Whether the code of the caller was found and meets the requirement. Code that cannot be found
/// is rejected, not reported as a failure.
pub fn security_validates(answer: Result<SecurityAnswer, SecurityFailure>) -> (r: Result<
    bool,
    i32,
>)
    ensures
        r == code_validated(answer),
{
    match answer {
        Err(failure) => Err(failure.status()),
        Ok(found) => {
            if !found.code_found {
                return Ok(false);
            }
            if found.lookup != 0 {
                return Ok(false);
            }
            Ok(found.validity == 0)
        },
    }
}

/// The frame that a worker writes about a job, or the status that it ends with.
pub open spec fn answered(
    job: JobModel,
    validated: Result<bool, i32>,
    code_identity: Seq<u8>,
    clock: ClockSample,
) -> Result<Seq<u8>, i32> {
    match validated {
        Err(status) => Err(status),
        Ok(valid) => if SupervisorDeadline(job.deadline).local_instant(clock) is Err {
            Err(EXIT_DEADLINE)
        } else {
            Ok(
                worker_frame::worker_result_bytes(
                    job,
                    if valid {
                        code_identity
                    } else {
                        bytes::zeros(32)
                    },
                ),
            )
        },
    }
}

/// The result of a job: it vouches for the caller only where its code was validated, and only in
/// time.
pub fn answer_job(
    job: AuthWorkerJob,
    validated: Result<bool, i32>,
    code_identity: [u8; 32],
    clock: ClockSample,
) -> (r: Result<Vec<u8>, i32>)
    ensures
        match (r, answered(job@, validated, code_identity@, clock)) {
            (Ok(frame), Ok(expected)) => frame@ == expected,
            (Err(status), Err(expected)) => status == expected,
            _ => false,
        },
{
    let valid = match validated {
        Err(status) => {
            return Err(status);
        },
        Ok(valid) => valid,
    };
    match ensure_deadline(job.deadline(), clock) {
        Err(status) => {
            return Err(status);
        },
        Ok(()) => {},
    }
    let rejected: [u8; 32] = [0u8; 32];
    assert(rejected@ =~= bytes::zeros(32));
    let identity = if valid {
        code_identity
    } else {
        rejected
    };
    match AuthWorkerResult::from_security_validation(job, identity).encode_pipe_frame() {
        Ok(frame) => Ok(frame),
        Err(_) => Err(EXIT_ENCODE),
    }
}

/// What to do after a write of the result.
#[derive(Clone, Copy, Debug, PartialEq, Eq, Structural)]
pub enum WriteStep {
    /// Nothing: it is written.
    Written,
    /// Write again.
    Again,
    /// Exit with this status.
    Failed(i32),
}

/// What follows from one write of a frame.
pub open spec fn frame_written(written: i64, length: usize, errno: i32) -> WriteStep {
    if written == length as int {
        WriteStep::Written
    } else if written >= 0 {
        WriteStep::Failed(EXIT_SHORT_WRITE)
    } else if errno != EINTR {
        WriteStep::Failed(EXIT_WRITE)
    } else {
        WriteStep::Again
    }
}

/// Judges one write of a frame of this length; the frame is written whole or not at all.
pub fn write_one_frame(written: i64, length: usize, errno: i32) -> (r: WriteStep)
    ensures
        r == frame_written(written, length, errno),
{
    if written >= 0 && written as u64 == length as u64 {
        return WriteStep::Written;
    }
    if written >= 0 {
        return WriteStep::Failed(EXIT_SHORT_WRITE);
    }
    if errno != EINTR {
        return WriteStep::Failed(EXIT_WRITE);
    }
    WriteStep::Again
}

/// The exit status of a worker: zero where its result was written, else the status of the failure,
/// and zero in place of a negative one.
pub fn exit_status(outcome: Result<(), i32>) -> (r: i32)
    ensures
        r == (match outcome {
            Ok(()) => 0,
            Err(status) => if status < 0 {
                0
            } else {
                status as int
            },
        }),
{
    match outcome {
        Ok(()) => 0,
        Err(status) => {
            if status < 0 {
                0
            } else {
                status
            }
        },
    }
}

/// A worker never vouches by accident: its answer to a job is read back as a decision on exactly
/// that job, and as a validation only where the code was validated under an identity that is not
/// zero.
pub proof fn law_answer_is_bound_to_its_job(job: JobModel, valid: bool, code_identity: Seq<u8>)
    requires
        worker_frame::job_in_order(job),
        job.job_id.len() == 32,
        job.audit_identity.len() == 32,
        job.frame_digest.len() == 32,
        code_identity.len() == 32,
        !bytes::all_zero(code_identity),
    ensures
        ({
            let identity = if valid {
                code_identity
            } else {
                bytes::zeros(32)
            };
            &&& worker_frame::parsed_result(worker_frame::worker_result_bytes(job, identity))
                == Ok::<_, worker_frame::AuthWorkerWireError>(
                (job, identity),
            )
            &&& bytes::all_zero(identity) <==> !valid
        }),
{
    let identity = if valid {
        code_identity
    } else {
        bytes::zeros(32)
    };
    worker_frame::law_worker_result_round_trip(job, identity);
}

/// A worker takes a good job, and takes it as it was sent: where it stands in its directory, its
/// pipe brings one job and ends, the job is in time, and the token of the job says its user and
/// group. Any other start ends with the status of the first thing that is wrong.
pub proof fn law_good_job_is_taken(
    chdir: i32,
    frame: Option<Seq<u8>>,
    trailing: Option<usize>,
    clock: ClockSample,
    job: JobModel,
)
    requires
        worker_frame::job_in_order(job),
        job.job_id.len() == 32,
        job.audit_identity.len() == 32,
        job.frame_digest.len() == 32,
    ensures
        ({
            let taken = taken_job(chdir, frame, trailing, clock);
            let words = mach::token_words(job.audit_identity);
            let whole = chdir == 0 && frame == Some(worker_frame::job_bytes(job)) && trailing
                == Some(0usize);
            let in_time = SupervisorDeadline(job.deadline).local_instant(clock) is Ok;
            let credible = words[1] == job.effective_uid && words[2] == job.effective_gid;
            &&& whole && in_time && credible ==> taken == Ok::<JobModel, i32>(job)
            &&& whole && !in_time ==> taken == Err::<JobModel, i32>(85)
            &&& whole && in_time && !credible ==> taken == Err::<JobModel, i32>(77)
            &&& chdir != 0 ==> taken == Err::<JobModel, i32>(72)
            &&& chdir == 0 && frame is None ==> taken == Err::<JobModel, i32>(73)
            &&& chdir == 0 && frame is Some && trailing is None ==> taken == Err::<JobModel, i32>(
                74,
            )
            &&& chdir == 0 && frame is Some && (trailing matches Some(extra) && extra != 0)
                ==> taken == Err::<JobModel, i32>(75)
            &&& chdir == 0 && trailing == Some(0usize) && (frame matches Some(bytes)
                && worker_frame::parsed_job(bytes) is Err) ==> taken == Err::<JobModel, i32>(76)
        }),
{
    worker_frame::law_job_round_trip(job);
}

/// Each failure of the validation has a status of its own.
pub proof fn law_failures_have_their_own_status(one: SecurityFailure, other: SecurityFailure)
    ensures
        one != other ==> one.spec_status() != other.spec_status(),
        86 <= one.spec_status() <= 96,
        SecurityFailure::Data.spec_status() == 86,
        SecurityFailure::Attributes.spec_status() == 87,
        SecurityFailure::RequirementText.spec_status() == 88,
        SecurityFailure::RequirementParse.spec_status() == 89,
        SecurityFailure::RequirementMissing.spec_status() == 90,
        SecurityFailure::CoreFoundation.spec_status() == 93,
        SecurityFailure::Security.spec_status() == 94,
        SecurityFailure::AuditAttribute.spec_status() == 95,
        SecurityFailure::Symbol.spec_status() == 96,
{
}

/// A descriptor is adopted exactly where it is open, is a pipe, and has the access that is asked
/// for; any other ends the worker with its own status.
pub proof fn law_pipes_are_inspected(getfd: i32, fifo: Option<bool>, flags: i32, access: i32)
    ensures
        ({
            let inspected = pipe_inspected(getfd, fifo, flags, access);
            let good = flags >= 0 && flags & 3 == access;
            &&& inspected is Ok <==> getfd >= 0 && fifo == Some(true) && good
            &&& getfd < 0 ==> inspected == Err::<(), i32>(80)
            &&& getfd >= 0 && fifo is None ==> inspected == Err::<(), i32>(81)
            &&& getfd >= 0 && fifo == Some(false) ==> inspected == Err::<(), i32>(82)
            &&& getfd >= 0 && fifo == Some(true) && !good ==> inspected == Err::<(), i32>(83)
        }),
{
    if let Some(pipe) = fifo {
        assert(pipe || fifo == Some(false));
    }
}

/// A frame is written whole or not at all: a write is repeated exactly where it was interrupted,
/// and a short one is a failure of its own.
pub proof fn law_frames_are_written_whole(written: i64, length: usize, errno: i32)
    ensures
        ({
            let step = frame_written(written, length, errno);
            &&& step == WriteStep::Written <==> written == length
            &&& step == WriteStep::Again <==> written < 0 && errno == 4
            &&& written >= 0 && written != length ==> step == WriteStep::Failed(91)
            &&& written < 0 && errno != 4 ==> step == WriteStep::Failed(92)
        }),
{
}

/// The code of a caller is good exactly where it was found, its lookup succeeded and it is valid;
/// code that is not is no failure, and a failure is told.
pub proof fn law_code_is_validated(
    found: SecurityAnswer,
    failure: SecurityFailure,
)
    ensures
        code_validated(Ok(found)) == Ok::<bool, i32>(true) <==> found.code_found && found.lookup
            == 0 && found.validity == 0,
        code_validated(Ok(found)) is Ok,
        code_validated(Err(failure)) == Err::<bool, i32>(failure.spec_status()),
{
}

/// A worker answers its own job, in time, with the identity exactly where the code was validated:
/// read back, the answer is that job with that identity, or with none.
pub proof fn law_answer_is_read_back(
    job: JobModel,
    valid: bool,
    code_identity: Seq<u8>,
    clock: ClockSample,
    status: i32,
)
    requires
        worker_frame::job_in_order(job),
        job.job_id.len() == 32,
        job.audit_identity.len() == 32,
        job.frame_digest.len() == 32,
        code_identity.len() == 32,
    ensures
        ({
            let answer = answered(job, Ok(valid), code_identity, clock);
            &&& answer is Ok <==> SupervisorDeadline(job.deadline).local_instant(clock) is Ok
            &&& answer matches Ok(frame) ==> worker_frame::parsed_result(frame) == Ok::<
                (JobModel, Seq<u8>),
                worker_frame::AuthWorkerWireError,
            >(
                (
                    job,
                    if valid {
                        code_identity
                    } else {
                        Seq::new(32, |i: int| 0u8)
                    },
                ),
            )
            &&& answer is Err ==> answer == Err::<Seq<u8>, i32>(85)
            &&& answered(job, Err(status), code_identity, clock) == Err::<Seq<u8>, i32>(status)
        }),
{
    assert(bytes::zeros(32) =~= Seq::new(32, |i: int| 0u8));
    worker_frame::law_worker_result_round_trip(job, code_identity);
    worker_frame::law_worker_result_round_trip(job, bytes::zeros(32));
}

} // verus!
