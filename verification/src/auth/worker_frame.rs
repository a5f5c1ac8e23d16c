//! The fixed frames on the private pipes of an authentication worker.

use vstd::prelude::*;
use crate::bytes;
use crate::bytes::{
    array_at, is_all_zero, put_bytes, put_u16, put_u32, put_u64, put_zeros, same_bytes, starts_with,
    u16_at, u32_at, u64_at,
};

verus! {

/// Most workers of a service.
pub const MAX_AUTH_WORKERS: usize = 4;

/// `NIPCAWJ1`
pub const AUTH_WORKER_JOB_MAGIC: [u8; 8] = [0x4e, 0x49, 0x50, 0x43, 0x41, 0x57, 0x4a, 0x31];

/// `NIPCAWR1`
pub const AUTH_WORKER_RESULT_MAGIC: [u8; 8] = [0x4e, 0x49, 0x50, 0x43, 0x41, 0x57, 0x52, 0x31];

/// Version of both frames.
pub const AUTH_WORKER_WIRE_VERSION: u16 = 1;

/// Bytes of a job.
pub const AUTH_WORKER_JOB_BYTES: usize = 152;

/// Bytes of a result.
pub const AUTH_WORKER_RESULT_BYTES: usize = 200;

/// Where the job stands in a result.
pub const RESULT_JOB_OFFSET: usize = 16;

/// Where the code identity stands in a result.
pub const RESULT_CODE_IDENTITY_OFFSET: usize = 168;

/// Decision of a validated result.
pub const AUTH_WORKER_VALIDATED: u16 = 1;

/// Decision of a rejected result.
pub const AUTH_WORKER_REJECTED: u16 = 2;

/// Failure to decode one fixed worker frame.
#[derive(Clone, Copy, Debug, PartialEq, Eq, Structural)]
pub enum AuthWorkerWireError {
    /// The frame is not in the one canonical form.
    Malformed,
    /// An identity is zero, reserved, or outside the fixed bounds.
    InvalidIdentity,
    /// The decision and the code identity disagree.
    InvalidDecision,
}

/// One worker and its private reply endpoint: the slot it serves and its never-reused number.
#[derive(Clone, Copy, Debug, PartialEq, Eq, Structural)]
pub struct AuthWorkerIdentity {
    pub slot: u8,
    pub generation: u64,
}

/// Fixed worker input. It names no path, requirement, flag, signal, task or policy.
#[derive(Clone, Copy, Debug, PartialEq, Eq)]
pub struct AuthWorkerJob {
    pub worker: AuthWorkerIdentity,
    pub job_id: [u8; 32],
    pub audit_identity: [u8; 32],
    pub effective_uid: u32,
    pub effective_gid: u32,
    pub frame_digest: [u8; 32],
    pub deadline: u64,
}

/// What a job says.
#[verifier::ext_equal]
pub struct JobModel {
    pub worker: AuthWorkerIdentity,
    pub job_id: Seq<u8>,
    pub audit_identity: Seq<u8>,
    pub effective_uid: u32,
    pub effective_gid: u32,
    pub frame_digest: Seq<u8>,
    pub deadline: u64,
}

impl View for AuthWorkerJob {
    type V = JobModel;

    open spec fn view(&self) -> JobModel {
        JobModel {
            worker: self.worker,
            job_id: self.job_id@,
            audit_identity: self.audit_identity@,
            effective_uid: self.effective_uid,
            effective_gid: self.effective_gid,
            frame_digest: self.frame_digest@,
            deadline: self.deadline,
        }
    }
}

/// Whether every identity of a job is in range.
pub open spec fn job_in_order(job: JobModel) -> bool {
    &&& job.worker.slot < MAX_AUTH_WORKERS
    &&& job.worker.generation != 0
    &&& !bytes::all_zero(job.job_id)
    &&& !bytes::all_zero(job.audit_identity)
    &&& 0 < job.effective_uid < u32::MAX
    &&& 0 < job.effective_gid < u32::MAX
    &&& !bytes::all_zero(job.frame_digest)
    &&& job.deadline != 0
}

/// The first 32 bytes of a job.
pub open spec fn job_head(job: JobModel) -> Seq<u8> {
    AUTH_WORKER_JOB_MAGIC@ + bytes::le16(AUTH_WORKER_WIRE_VERSION) + bytes::le16(0)
        + bytes::le32(AUTH_WORKER_JOB_BYTES as u32) + seq![job.worker.slot] + bytes::zeros(7)
        + bytes::le64(job.worker.generation)
}

/// What follows the head of a job.
pub open spec fn job_tail(job: JobModel) -> Seq<u8> {
    job.job_id + bytes::le64(0) + job.audit_identity + bytes::le32(job.effective_uid)
        + bytes::le32(job.effective_gid) + job.frame_digest + bytes::le64(job.deadline)
}

/// The 152 bytes of a job.
pub open spec fn job_bytes(job: JobModel) -> Seq<u8> {
    job_head(job) + job_tail(job)
}

/// Whether bytes have the fixed form of a job.
pub open spec fn job_shaped(bytes: Seq<u8>) -> bool {
    &&& bytes.len() == AUTH_WORKER_JOB_BYTES
    &&& bytes.subrange(0, 8) == AUTH_WORKER_JOB_MAGIC@
    &&& bytes::le16_at(bytes, 8) == AUTH_WORKER_WIRE_VERSION
    &&& bytes::le16_at(bytes, 10) == 0
    &&& bytes::le32_at(bytes, 12) == AUTH_WORKER_JOB_BYTES
    &&& bytes::all_zero(bytes.subrange(17, 24))
    &&& bytes::le64_at(bytes, 64) == 0
}

/// The job that shaped bytes hold.
pub open spec fn job_in(bytes: Seq<u8>) -> JobModel {
    JobModel {
        worker: AuthWorkerIdentity { slot: bytes[16], generation: bytes::le64_at(bytes, 24) },
        job_id: bytes.subrange(32, 64),
        audit_identity: bytes.subrange(72, 104),
        effective_uid: bytes::le32_at(bytes, 104),
        effective_gid: bytes::le32_at(bytes, 108),
        frame_digest: bytes.subrange(112, 144),
        deadline: bytes::le64_at(bytes, 144),
    }
}

/// The job that a frame holds, or why it is refused.
pub open spec fn parsed_job(bytes: Seq<u8>) -> Result<JobModel, AuthWorkerWireError> {
    if !job_shaped(bytes) {
        Err(AuthWorkerWireError::Malformed)
    } else if !job_in_order(job_in(bytes)) {
        Err(AuthWorkerWireError::InvalidIdentity)
    } else {
        Ok(job_in(bytes))
    }
}

impl AuthWorkerJob {
    /// The worker that has the job.
    pub fn worker(&self) -> (r: AuthWorkerIdentity)
        ensures
            r == self.worker,
    {
        self.worker
    }

    /// The identifier of the job.
    pub fn job_id(&self) -> (r: [u8; 32])
        ensures
            r == self.job_id,
    {
        self.job_id
    }

    /// The audit token of the message.
    pub fn audit_identity(&self) -> (r: [u8; 32])
        ensures
            r == self.audit_identity,
    {
        self.audit_identity
    }

    /// The effective user of the sender.
    pub fn effective_uid(&self) -> (r: u32)
        ensures
            r == self.effective_uid,
    {
        self.effective_uid
    }

    /// The effective group of the sender.
    pub fn effective_gid(&self) -> (r: u32)
        ensures
            r == self.effective_gid,
    {
        self.effective_gid
    }

    /// The digest of the message.
    pub fn frame_digest(&self) -> (r: [u8; 32])
        ensures
            r == self.frame_digest,
    {
        self.frame_digest
    }

    /// When the authority of the job ends.
    pub fn deadline(&self) -> (r: u64)
        ensures
            r == self.deadline,
    {
        self.deadline
    }

    /// Writes the frame of the job.
    pub fn encode_pipe_frame(&self) -> (r: Vec<u8>)
        ensures
            r@ == job_bytes(self@),
            r@.len() == AUTH_WORKER_JOB_BYTES,
    {
        let mut bytes: Vec<u8> = Vec::new();
        put_bytes(&mut bytes, &AUTH_WORKER_JOB_MAGIC);
        put_u16(&mut bytes, AUTH_WORKER_WIRE_VERSION);
        put_u16(&mut bytes, 0);
        put_u32(&mut bytes, AUTH_WORKER_JOB_BYTES as u32);
        bytes.push(self.worker.slot);
        put_zeros(&mut bytes, 7);
        put_u64(&mut bytes, self.worker.generation);
        assert(bytes@ =~= job_head(self@));
        put_bytes(&mut bytes, &self.job_id);
        put_u64(&mut bytes, 0);
        put_bytes(&mut bytes, &self.audit_identity);
        put_u32(&mut bytes, self.effective_uid);
        put_u32(&mut bytes, self.effective_gid);
        put_bytes(&mut bytes, &self.frame_digest);
        put_u64(&mut bytes, self.deadline);
        assert(bytes@ =~= job_bytes(self@));
        proof {
            lemma_job_lengths(self@);
        }
        bytes
    }

    /// Reads the frame of a job.
    pub fn decode_pipe_frame(bytes: &[u8]) -> (r: Result<AuthWorkerJob, AuthWorkerWireError>)
        ensures
            match (r, parsed_job(bytes@)) {
                (Ok(job), Ok(model)) => job@ == model,
                (Err(error), Err(expected)) => error == expected,
                _ => false,
            },
    {
        if bytes.len() != AUTH_WORKER_JOB_BYTES || !starts_with(bytes, &AUTH_WORKER_JOB_MAGIC) {
            return Err(AuthWorkerWireError::Malformed);
        }
        let (version, reserved, length, route) = match (
            u16_at(bytes, 8),
            u16_at(bytes, 10),
            u32_at(bytes, 12),
            u64_at(bytes, 64),
        ) {
            (Some(a), Some(b), Some(c), Some(d)) => (a, b, c, d),
            _ => {
                return Err(AuthWorkerWireError::Malformed);
            },
        };
        if version != AUTH_WORKER_WIRE_VERSION || reserved != 0 || length as usize
            != AUTH_WORKER_JOB_BYTES || !is_all_zero(vstd::slice::slice_subrange(bytes, 17, 24))
            || route != 0 {
            return Err(AuthWorkerWireError::Malformed);
        }
        let slot: u8 = bytes[16];
        let (generation, effective_uid, effective_gid, deadline) = match (
            u64_at(bytes, 24),
            u32_at(bytes, 104),
            u32_at(bytes, 108),
            u64_at(bytes, 144),
        ) {
            (Some(a), Some(b), Some(c), Some(d)) => (a, b, c, d),
            _ => {
                return Err(AuthWorkerWireError::Malformed);
            },
        };
        let (job_id, audit_identity, frame_digest) = match (
            array_at(bytes, 32),
            array_at(bytes, 72),
            array_at(bytes, 112),
        ) {
            (Some(a), Some(b), Some(c)) => (a, b, c),
            _ => {
                return Err(AuthWorkerWireError::Malformed);
            },
        };
        if slot as usize >= MAX_AUTH_WORKERS || generation == 0 || is_all_zero(&job_id)
            || is_all_zero(&audit_identity) || effective_uid == 0 || effective_gid == 0
            || effective_uid == u32::MAX || effective_gid == u32::MAX || is_all_zero(&frame_digest)
            || deadline == 0 {
            return Err(AuthWorkerWireError::InvalidIdentity);
        }
        Ok(
            AuthWorkerJob {
                worker: AuthWorkerIdentity { slot, generation },
                job_id,
                audit_identity,
                effective_uid,
                effective_gid,
                frame_digest,
                deadline,
            },
        )
    }

    /// Whether two jobs are the same.
    pub fn same_job(&self, other: &AuthWorkerJob) -> (r: bool)
        ensures
            r == (self == other),
    {
        let same = self.worker.slot == other.worker.slot && self.worker.generation
            == other.worker.generation && same_bytes(&self.job_id, &other.job_id) && same_bytes(
            &self.audit_identity,
            &other.audit_identity,
        ) && self.effective_uid == other.effective_uid && self.effective_gid == other.effective_gid
            && same_bytes(&self.frame_digest, &other.frame_digest) && self.deadline
            == other.deadline;
        proof {
            if same {
                assert(self.job_id =~= other.job_id);
                assert(self.audit_identity =~= other.audit_identity);
                assert(self.frame_digest =~= other.frame_digest);
            }
        }
        same
    }
}

/// Lengths of the two parts of a job whose identities have 32 bytes.
proof fn lemma_job_lengths(job: JobModel)
    requires
        job.job_id.len() == 32,
        job.audit_identity.len() == 32,
        job.frame_digest.len() == 32,
    ensures
        job_head(job).len() == 32,
        job_tail(job).len() == 120,
{
    bytes::lemma_le16(AUTH_WORKER_WIRE_VERSION);
    bytes::lemma_le16(0);
    bytes::lemma_le32(AUTH_WORKER_JOB_BYTES as u32);
    bytes::lemma_le64(job.worker.generation);
    bytes::lemma_le64(0);
    bytes::lemma_le32(job.effective_uid);
    bytes::lemma_le32(job.effective_gid);
    bytes::lemma_le64(job.deadline);
}

/// A job reads back from its frame.
pub proof fn law_job_round_trip(job: JobModel)
    requires
        job_in_order(job),
        job.job_id.len() == 32,
        job.audit_identity.len() == 32,
        job.frame_digest.len() == 32,
    ensures
        parsed_job(job_bytes(job)) == Ok::<JobModel, AuthWorkerWireError>(job),
{
    let bytes = job_bytes(job);
    let head = job_head(job);
    let tail = job_tail(job);
    lemma_job_lengths(job);
    bytes::lemma_le16(AUTH_WORKER_WIRE_VERSION);
    bytes::lemma_le16(0);
    bytes::lemma_le32(AUTH_WORKER_JOB_BYTES as u32);
    bytes::lemma_le64(job.worker.generation);
    bytes::lemma_le64(0);
    bytes::lemma_le32(job.effective_uid);
    bytes::lemma_le32(job.effective_gid);
    bytes::lemma_le64(job.deadline);
    assert(bytes.subrange(0, 8) =~= AUTH_WORKER_JOB_MAGIC@) by {
        assert(bytes.subrange(0, 8) =~= head.subrange(0, 8));
    }
    assert(bytes.subrange(8, 10) =~= bytes::le16(AUTH_WORKER_WIRE_VERSION)) by {
        assert(bytes.subrange(8, 10) =~= head.subrange(8, 10));
    }
    assert(bytes.subrange(10, 12) =~= bytes::le16(0)) by {
        assert(bytes.subrange(10, 12) =~= head.subrange(10, 12));
    }
    assert(bytes.subrange(12, 16) =~= bytes::le32(AUTH_WORKER_JOB_BYTES as u32)) by {
        assert(bytes.subrange(12, 16) =~= head.subrange(12, 16));
    }
    assert(bytes[16] == job.worker.slot) by {
        assert(bytes[16] == head[16]);
    }
    assert(bytes.subrange(17, 24) =~= bytes::zeros(7)) by {
        assert(bytes.subrange(17, 24) =~= head.subrange(17, 24));
    }
    assert(bytes.subrange(24, 32) =~= bytes::le64(job.worker.generation)) by {
        assert(bytes.subrange(24, 32) =~= head.subrange(24, 32));
    }
    assert(bytes.subrange(32, 64) =~= job.job_id) by {
        assert(bytes.subrange(32, 64) =~= tail.subrange(0, 32));
    }
    assert(bytes.subrange(64, 72) =~= bytes::le64(0)) by {
        assert(bytes.subrange(64, 72) =~= tail.subrange(32, 40));
    }
    assert(bytes.subrange(72, 104) =~= job.audit_identity) by {
        assert(bytes.subrange(72, 104) =~= tail.subrange(40, 72));
    }
    assert(bytes.subrange(104, 108) =~= bytes::le32(job.effective_uid)) by {
        assert(bytes.subrange(104, 108) =~= tail.subrange(72, 76));
    }
    assert(bytes.subrange(108, 112) =~= bytes::le32(job.effective_gid)) by {
        assert(bytes.subrange(108, 112) =~= tail.subrange(76, 80));
    }
    assert(bytes.subrange(112, 144) =~= job.frame_digest) by {
        assert(bytes.subrange(112, 144) =~= tail.subrange(80, 112));
    }
    assert(bytes.subrange(144, 152) =~= bytes::le64(job.deadline)) by {
        assert(bytes.subrange(144, 152) =~= tail.subrange(112, 120));
    }
    bytes::lemma_field(bytes, 8);
    bytes::lemma_field(bytes, 10);
    bytes::lemma_field(bytes, 12);
    bytes::lemma_field(bytes, 24);
    bytes::lemma_field(bytes, 64);
    bytes::lemma_field(bytes, 104);
    bytes::lemma_field(bytes, 108);
    bytes::lemma_field(bytes, 144);
}

/// A frame that is accepted is the one form of its job.
pub proof fn law_job_is_canonical(bytes: Seq<u8>)
    requires
        job_shaped(bytes),
    ensures
        bytes == job_bytes(job_in(bytes)),
{
    let job = job_in(bytes);
    lemma_job_lengths(job);
    bytes::lemma_le16_at(bytes, 8);
    bytes::lemma_le16_at(bytes, 10);
    bytes::lemma_le32_at(bytes, 12);
    bytes::lemma_le64_at(bytes, 24);
    bytes::lemma_le64_at(bytes, 64);
    bytes::lemma_le32_at(bytes, 104);
    bytes::lemma_le32_at(bytes, 108);
    bytes::lemma_le64_at(bytes, 144);
    assert(bytes.subrange(17, 24) =~= bytes::zeros(7));
    assert(bytes.subrange(16, 17) =~= seq![job.worker.slot]);
    assert(bytes.subrange(0, 32) =~= bytes.subrange(0, 8) + bytes.subrange(8, 10) + bytes.subrange(
        10,
        12,
    ) + bytes.subrange(12, 16) + bytes.subrange(16, 17) + bytes.subrange(17, 24) + bytes.subrange(
        24,
        32,
    ));
    assert(bytes.subrange(32, 152) =~= bytes.subrange(32, 64) + bytes.subrange(64, 72)
        + bytes.subrange(72, 104) + bytes.subrange(104, 108) + bytes.subrange(108, 112)
        + bytes.subrange(112, 144) + bytes.subrange(144, 152));
    assert(bytes =~= bytes.subrange(0, 32) + bytes.subrange(32, 152));
}

/// Terminal decision of a worker on its job: the identity of the validated code, or zero.
#[derive(Clone, Copy, Debug, PartialEq, Eq)]
pub struct AuthWorkerResult {
    pub job: AuthWorkerJob,
    pub code_identity: [u8; 32],
}

/// The decision that a code identity stands for.
pub open spec fn decision_of(code_identity: Seq<u8>) -> u16 {
    if bytes::all_zero(code_identity) {
        AUTH_WORKER_REJECTED
    } else {
        AUTH_WORKER_VALIDATED
    }
}

/// The 16 bytes before the job in a result.
pub open spec fn result_head(code_identity: Seq<u8>) -> Seq<u8> {
    AUTH_WORKER_RESULT_MAGIC@ + bytes::le16(AUTH_WORKER_WIRE_VERSION)
        + bytes::le16(decision_of(code_identity)) + bytes::le32(AUTH_WORKER_RESULT_BYTES as u32)
}

/// The 200 bytes of a result.
pub open spec fn worker_result_bytes(job: JobModel, code_identity: Seq<u8>) -> Seq<u8> {
    result_head(code_identity) + job_bytes(job) + code_identity
}

/// Whether bytes have the fixed form of a result.
pub open spec fn result_shaped(bytes: Seq<u8>) -> bool {
    &&& bytes.len() == AUTH_WORKER_RESULT_BYTES
    &&& bytes.subrange(0, 8) == AUTH_WORKER_RESULT_MAGIC@
    &&& bytes::le16_at(bytes, 8) == AUTH_WORKER_WIRE_VERSION
    &&& bytes::le32_at(bytes, 12) == AUTH_WORKER_RESULT_BYTES
}

/// The job and the code identity that a frame holds, or why it is refused. The job is judged
/// before the decision.
pub open spec fn parsed_result(bytes: Seq<u8>) -> Result<(JobModel, Seq<u8>), AuthWorkerWireError> {
    let decision = bytes::le16_at(bytes, 10);
    let code_identity = bytes.subrange(168, 200);
    if !result_shaped(bytes) {
        Err(AuthWorkerWireError::Malformed)
    } else {
        match parsed_job(bytes.subrange(16, 168)) {
            Err(error) => Err(error),
            Ok(job) => if decision != AUTH_WORKER_VALIDATED && decision != AUTH_WORKER_REJECTED {
                Err(AuthWorkerWireError::Malformed)
            } else if decision != decision_of(code_identity) {
                Err(AuthWorkerWireError::InvalidDecision)
            } else {
                Ok((job, code_identity))
            },
        }
    }
}

impl AuthWorkerResult {
    /// Binds a decision to its job.
    pub fn from_security_validation(job: AuthWorkerJob, code_identity: [u8; 32]) -> (r:
        AuthWorkerResult)
        ensures
            r.job == job,
            r.code_identity == code_identity,
    {
        AuthWorkerResult { job, code_identity }
    }

    /// Writes the frame of the result. It never fails: the decision follows from the identity.
    pub fn encode_pipe_frame(&self) -> (r: Result<Vec<u8>, AuthWorkerWireError>)
        ensures
            r matches Ok(frame) && frame@ == worker_result_bytes(self.job@, self.code_identity@)
                && frame@.len() == AUTH_WORKER_RESULT_BYTES,
    {
        let decision = if is_all_zero(&self.code_identity) {
            AUTH_WORKER_REJECTED
        } else {
            AUTH_WORKER_VALIDATED
        };
        let mut bytes: Vec<u8> = Vec::new();
        put_bytes(&mut bytes, &AUTH_WORKER_RESULT_MAGIC);
        put_u16(&mut bytes, AUTH_WORKER_WIRE_VERSION);
        put_u16(&mut bytes, decision);
        put_u32(&mut bytes, AUTH_WORKER_RESULT_BYTES as u32);
        assert(bytes@ =~= result_head(self.code_identity@));
        let job = self.job.encode_pipe_frame();
        put_bytes(&mut bytes, &job);
        put_bytes(&mut bytes, &self.code_identity);
        assert(bytes@ =~= worker_result_bytes(self.job@, self.code_identity@));
        proof {
            bytes::lemma_le16(AUTH_WORKER_WIRE_VERSION);
            bytes::lemma_le16(decision);
            bytes::lemma_le32(AUTH_WORKER_RESULT_BYTES as u32);
        }
        Ok(bytes)
    }

    /// Reads the frame of a result.
    pub fn decode_pipe_frame(bytes: &[u8]) -> (r: Result<AuthWorkerResult, AuthWorkerWireError>)
        ensures
            match (r, parsed_result(bytes@)) {
                (Ok(result), Ok((job, code_identity))) => {
                    &&& result.job@ == job
                    &&& result.code_identity@ == code_identity
                },
                (Err(error), Err(expected)) => error == expected,
                _ => false,
            },
    {
        if bytes.len() != AUTH_WORKER_RESULT_BYTES || !starts_with(
            bytes,
            &AUTH_WORKER_RESULT_MAGIC,
        ) {
            return Err(AuthWorkerWireError::Malformed);
        }
        let (version, decision, length) = match (
            u16_at(bytes, 8),
            u16_at(bytes, 10),
            u32_at(bytes, 12),
        ) {
            (Some(a), Some(b), Some(c)) => (a, b, c),
            _ => {
                return Err(AuthWorkerWireError::Malformed);
            },
        };
        if version != AUTH_WORKER_WIRE_VERSION || length as usize != AUTH_WORKER_RESULT_BYTES {
            return Err(AuthWorkerWireError::Malformed);
        }
        let job = match AuthWorkerJob::decode_pipe_frame(
            vstd::slice::slice_subrange(bytes, RESULT_JOB_OFFSET, RESULT_CODE_IDENTITY_OFFSET),
        ) {
            Ok(job) => job,
            Err(error) => {
                return Err(error);
            },
        };
        let code_identity = match array_at(bytes, RESULT_CODE_IDENTITY_OFFSET) {
            Some(code_identity) => code_identity,
            None => {
                return Err(AuthWorkerWireError::Malformed);
            },
        };
        if decision != AUTH_WORKER_VALIDATED && decision != AUTH_WORKER_REJECTED {
            return Err(AuthWorkerWireError::Malformed);
        }
        if is_all_zero(&code_identity) != (decision == AUTH_WORKER_REJECTED) {
            return Err(AuthWorkerWireError::InvalidDecision);
        }
        Ok(AuthWorkerResult { job, code_identity })
    }
}

/// A result reads back from its frame.
pub proof fn law_worker_result_round_trip(job: JobModel, code_identity: Seq<u8>)
    requires
        job_in_order(job),
        job.job_id.len() == 32,
        job.audit_identity.len() == 32,
        job.frame_digest.len() == 32,
        code_identity.len() == 32,
    ensures
        parsed_result(worker_result_bytes(job, code_identity)) == Ok::<
            (JobModel, Seq<u8>),
            AuthWorkerWireError,
        >((job, code_identity)),
{
    let bytes = worker_result_bytes(job, code_identity);
    let head = result_head(code_identity);
    law_job_round_trip(job);
    lemma_job_lengths(job);
    bytes::lemma_le16(AUTH_WORKER_WIRE_VERSION);
    bytes::lemma_le16(decision_of(code_identity));
    bytes::lemma_le32(AUTH_WORKER_RESULT_BYTES as u32);
    assert(bytes.subrange(0, 8) =~= AUTH_WORKER_RESULT_MAGIC@);
    assert(bytes.subrange(8, 10) =~= bytes::le16(AUTH_WORKER_WIRE_VERSION));
    assert(bytes.subrange(10, 12) =~= bytes::le16(decision_of(code_identity)));
    assert(bytes.subrange(12, 16) =~= bytes::le32(AUTH_WORKER_RESULT_BYTES as u32));
    assert(bytes.subrange(16, 168) =~= job_bytes(job));
    assert(bytes.subrange(168, 200) =~= code_identity);
    bytes::lemma_field(bytes, 8);
    bytes::lemma_field(bytes, 10);
    bytes::lemma_field(bytes, 12);
}

/// A frame that is accepted is the one form of its result.
pub proof fn law_worker_result_is_canonical(bytes: Seq<u8>)
    requires
        parsed_result(bytes) is Ok,
    ensures
        parsed_result(bytes) matches Ok((job, code_identity)) && bytes == worker_result_bytes(
            job,
            code_identity,
        ),
{
    let (job, code_identity) = parsed_result(bytes)->Ok_0;
    law_job_is_canonical(bytes.subrange(16, 168));
    bytes::lemma_le16_at(bytes, 8);
    bytes::lemma_le16_at(bytes, 10);
    bytes::lemma_le32_at(bytes, 12);
    assert(bytes =~= bytes.subrange(0, 8) + bytes.subrange(8, 10) + bytes.subrange(10, 12)
        + bytes.subrange(12, 16) + bytes.subrange(16, 168) + bytes.subrange(168, 200));
}

/// A job is in order exactly where it names one of four workers with a number, its identifiers and
/// its digest are not zero, its user and group are ordinary ones, and it has a deadline.
pub proof fn law_jobs_in_order(job: JobModel)
    ensures
        job_in_order(job) <==> {
            &&& job.worker.slot <= 3 && job.worker.generation > 0 && job.deadline > 0
            &&& job.effective_uid != 0 && job.effective_uid != 0xffff_ffff
            &&& job.effective_gid != 0 && job.effective_gid != 0xffff_ffff
            &&& exists|i: int| 0 <= i < job.job_id.len() && job.job_id[i] != 0
            &&& exists|i: int| 0 <= i < job.audit_identity.len() && job.audit_identity[i] != 0
            &&& exists|i: int| 0 <= i < job.frame_digest.len() && job.frame_digest[i] != 0
        },
{
}

/// Each part of a job and of an answer stands at its own place; the answer says validated exactly
/// where it names a code identity.
pub proof fn law_worker_frames_layout(job: JobModel, code_identity: Seq<u8>)
    requires
        job.job_id.len() == 32,
        job.audit_identity.len() == 32,
        job.frame_digest.len() == 32,
        code_identity.len() == 32,
    ensures
        ({
            let frame = job_bytes(job);
            let answer = worker_result_bytes(job, code_identity);
            &&& frame.len() == 152
            &&& frame.subrange(0, 8) == seq![0x4eu8, 0x49, 0x50, 0x43, 0x41, 0x57, 0x4a, 0x31]
            &&& frame.subrange(8, 10) == bytes::le16(1)
            &&& frame.subrange(12, 16) == bytes::le32(152)
            &&& frame[16] == job.worker.slot
            &&& frame.subrange(24, 32) == bytes::le64(job.worker.generation)
            &&& frame.subrange(32, 64) == job.job_id
            &&& frame.subrange(72, 104) == job.audit_identity
            &&& frame.subrange(104, 108) == bytes::le32(job.effective_uid)
            &&& frame.subrange(108, 112) == bytes::le32(job.effective_gid)
            &&& frame.subrange(112, 144) == job.frame_digest
            &&& frame.subrange(144, 152) == bytes::le64(job.deadline)
            &&& answer.len() == 200
            &&& answer.subrange(0, 8) == seq![0x4eu8, 0x49, 0x50, 0x43, 0x41, 0x57, 0x52, 0x31]
            &&& answer.subrange(10, 12) == bytes::le16(
                if exists|i: int| 0 <= i < 32 && code_identity[i] != 0 {
                    1u16
                } else {
                    2u16
                },
            )
            &&& answer.subrange(16, 168) == frame
            &&& answer.subrange(168, 200) == code_identity
        }),
{
    let frame = job_bytes(job);
    let answer = worker_result_bytes(job, code_identity);
    bytes::lemma_le16(1);
    bytes::lemma_le16(0);
    bytes::lemma_le16(decision_of(code_identity));
    bytes::lemma_le32(152);
    bytes::lemma_le32(200);
    bytes::lemma_le64(job.worker.generation);
    bytes::lemma_le64(0);
    bytes::lemma_le32(job.effective_uid);
    bytes::lemma_le32(job.effective_gid);
    bytes::lemma_le64(job.deadline);
    assert(AUTH_WORKER_JOB_MAGIC@ =~= seq![0x4eu8, 0x49, 0x50, 0x43, 0x41, 0x57, 0x4a, 0x31]);
    assert(AUTH_WORKER_RESULT_MAGIC@ =~= seq![0x4eu8, 0x49, 0x50, 0x43, 0x41, 0x57, 0x52, 0x31]);
    assert(frame.subrange(0, 8) =~= AUTH_WORKER_JOB_MAGIC@);
    assert(frame.subrange(8, 10) =~= bytes::le16(1));
    assert(frame.subrange(12, 16) =~= bytes::le32(152));
    assert(frame.subrange(24, 32) =~= bytes::le64(job.worker.generation));
    assert(frame.subrange(32, 64) =~= job.job_id);
    assert(frame.subrange(72, 104) =~= job.audit_identity);
    assert(frame.subrange(104, 108) =~= bytes::le32(job.effective_uid));
    assert(frame.subrange(108, 112) =~= bytes::le32(job.effective_gid));
    assert(frame.subrange(112, 144) =~= job.frame_digest);
    assert(frame.subrange(144, 152) =~= bytes::le64(job.deadline));
    assert(answer.subrange(0, 8) =~= AUTH_WORKER_RESULT_MAGIC@);
    assert(answer.subrange(10, 12) =~= bytes::le16(decision_of(code_identity)));
    assert(answer.subrange(16, 168) =~= frame);
    assert(answer.subrange(168, 200) =~= code_identity);
    assert(bytes::all_zero(code_identity) <==> !(exists|i: int|
        0 <= i < 32 && code_identity[i] != 0));
}

} // verus!
