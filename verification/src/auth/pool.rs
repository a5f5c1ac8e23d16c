//! The fixed set of one-job workers, and what a worker's answer is worth.
//!
//! Nothing is queued, and nothing blocks: a record is given to an idle worker or refused. It is
//! authenticated only once the worker has answered for this exact record on its own endpoint and
//! has been reaped after a clean exit.

use vstd::prelude::*;
use crate::bytes;
use crate::bytes::{copy_bytes, is_all_zero, same_bytes};
use crate::digest;
use crate::auth::message;
use crate::auth::message::{
    read_request, AuthAdapterError, MachSendOnceRight, RawMachRecord, RecordModel,
};
use crate::mach;
use crate::auth::worker;
use crate::auth::worker::{
    AuthWorkerRetirement, ExactAuthWorker, ExactAuthWorkerAuthority, ReapedAuthWorker,
};
use crate::auth::worker_frame;
use crate::auth::worker_frame::{
    AuthWorkerIdentity, AuthWorkerJob, AuthWorkerResult, AuthWorkerWireError,
    AUTH_WORKER_JOB_BYTES, AUTH_WORKER_RESULT_BYTES, MAX_AUTH_WORKERS,
};
use crate::supervisor::deadline::{ClockSample, SupervisorDeadline, SupervisorWireError};
use crate::supervisor::record::MAX_SUPERVISOR_RECORD_BYTES;
use crate::wait_status::{EAGAIN, EINTR};

verus! {

/// Most records of one user that workers hold at a time.
pub const MAX_PENDING_PER_UID: usize = 2;

/// Fresh nonzero number of one worker process.
#[derive(Debug, PartialEq, Eq)]
pub struct FreshAuthWorkerGeneration {
    value: u64,
}

impl FreshAuthWorkerGeneration {
    /// The number.
    pub closed spec fn view(&self) -> u64 {
        self.value
    }

    #[verifier::type_invariant]
    spec fn nonzero(self) -> bool {
        self.value != 0
    }

    /// Takes a number that the service has not handed out before; zero is refused.
    pub fn from_unique_service_value<WorkerFailure>(value: u64) -> (r: Result<
        FreshAuthWorkerGeneration,
        AuthAdapterError<WorkerFailure>,
    >)
        ensures
            r matches Ok(generation) ==> generation@ == value && value != 0,
            r matches Err(error) ==> value == 0 && error
                == AuthAdapterError::<WorkerFailure>::InvalidReplacement,
    {
        if value == 0 {
            Err(AuthAdapterError::InvalidReplacement)
        } else {
            Ok(FreshAuthWorkerGeneration { value })
        }
    }

    /// The number, which is not zero.
    pub fn get(&self) -> (r: u64)
        ensures
            r == self@,
            r != 0,
    {
        proof {
            use_type_invariant(self);
        }
        self.value
    }
}

/// Fresh nonzero identifier of one authentication job.
#[derive(Debug, PartialEq, Eq)]
pub struct FreshAuthJobId {
    value: [u8; 32],
}

impl FreshAuthJobId {
    /// The bytes of the identifier.
    pub closed spec fn view(&self) -> Seq<u8> {
        self.value@
    }

    #[verifier::type_invariant]
    spec fn nonzero(self) -> bool {
        !bytes::all_zero(self.value@)
    }

    /// Takes fresh random bytes; zero is refused.
    pub fn from_fresh_random<WorkerFailure>(value: [u8; 32]) -> (r: Result<
        FreshAuthJobId,
        AuthAdapterError<WorkerFailure>,
    >)
        ensures
            r matches Ok(id) ==> id@ == value@ && !bytes::all_zero(value@),
            r matches Err(error) ==> bytes::all_zero(value@) && error == AuthAdapterError::<
                WorkerFailure,
            >::InvalidJobIdentity,
    {
        if is_all_zero(&value) {
            Err(AuthAdapterError::InvalidJobIdentity)
        } else {
            Ok(FreshAuthJobId { value })
        }
    }

    /// The bytes of the identifier, which are not all zero.
    pub fn get(&self) -> (r: [u8; 32])
        ensures
            r@ == self@,
            !bytes::all_zero(r@),
    {
        proof {
            use_type_invariant(self);
        }
        self.value
    }
}

/// Descriptors of the service's ends of one worker's two private pipes.
#[derive(Debug, PartialEq, Eq)]
pub struct AuthWorkerEndpoint {
    pub request: i32,
    pub result: i32,
}

/// What a worker has said of the record it holds.
#[derive(Clone, Copy, Debug, PartialEq, Eq)]
pub enum PendingOutcome {
    AwaitingResult,
    Validated([u8; 32]),
    Rejected,
}

/// The record that a worker holds.
#[derive(Debug, PartialEq, Eq)]
pub struct PendingRecord {
    pub raw: RawMachRecord,
    pub job: AuthWorkerJob,
    pub deadline: SupervisorDeadline,
    pub outcome: PendingOutcome,
}

/// Whether the identity facts of a record can belong to a client.
pub open spec fn record_in_order(record: RecordModel) -> bool {
    &&& record.bytes.len() <= MAX_SUPERVISOR_RECORD_BYTES
    &&& !bytes::all_zero(record.audit_identity)
    &&& 0 < record.effective_uid < u32::MAX
    &&& 0 < record.effective_gid < u32::MAX
}

impl PendingRecord {
    /// Whether the job is bound to this record, this worker and this deadline.
    pub open spec fn bound_to(self, worker: AuthWorkerIdentity) -> bool {
        &&& record_in_order(self.raw@)
        &&& self.job.worker == worker
        &&& self.job.audit_identity == self.raw.audit_identity
        &&& self.job.effective_uid == self.raw.effective_uid
        &&& self.job.effective_gid == self.raw.effective_gid
        &&& self.job.frame_digest@ == digest::sha256_of(message::digest_message(self.raw@))
        &&& self.job.deadline == self.deadline.0
        &&& !bytes::all_zero(self.job.job_id@)
        &&& self.outcome matches PendingOutcome::Validated(code) ==> !bytes::all_zero(code@)
    }
}

/// One worker: idle with its endpoint, or busy with a record.
pub struct WorkerSlot<Authority: ExactAuthWorkerAuthority> {
    pub identity: AuthWorkerIdentity,
    pub worker: ExactAuthWorker<Authority>,
    pub endpoint: Option<AuthWorkerEndpoint>,
    pub pending: Option<PendingRecord>,
}

/// The slots of a pool.
pub type Slots<Authority> = Seq<Option<WorkerSlot<Authority>>>;

/// Whether the worker at `at` holds a record.
pub open spec fn busy<A: ExactAuthWorkerAuthority>(slots: Slots<A>, at: int) -> bool {
    0 <= at < slots.len() && slots[at] is Some && slots[at]->0.pending is Some
}

/// Whether the worker at `at` can take a record.
pub open spec fn idle<A: ExactAuthWorkerAuthority>(slots: Slots<A>, at: int) -> bool {
    0 <= at < slots.len() && slots[at] is Some && slots[at]->0.pending is None
        && slots[at]->0.endpoint is Some
}

/// The record that a busy worker holds.
pub open spec fn held<A: ExactAuthWorkerAuthority>(slots: Slots<A>, at: int) -> PendingRecord {
    slots[at]->0.pending->0
}

/// Whether a job with this identifier is under way.
pub open spec fn live<A: ExactAuthWorkerAuthority>(slots: Slots<A>, job_id: Seq<u8>) -> bool {
    exists|at: int| #[trigger] busy(slots, at) && held(slots, at).job.job_id@ == job_id
}

/// Whether a slot holds a record of this user.
pub open spec fn serves<A: ExactAuthWorkerAuthority>(
    slot: Option<WorkerSlot<A>>,
    uid: u32,
) -> bool {
    slot is Some && slot->0.pending is Some && slot->0.pending->0.raw.effective_uid == uid
}

/// How many records of this user workers hold.
pub open spec fn load<A: ExactAuthWorkerAuthority>(slots: Slots<A>, uid: u32) -> nat
    decreases slots.len(),
{
    if slots.len() == 0 {
        0
    } else {
        load(slots.drop_last(), uid) + if serves(slots.last(), uid) {
            1nat
        } else {
            0nat
        }
    }
}

/// Whether one slot is in order.
pub open spec fn slot_in_order<A: ExactAuthWorkerAuthority>(
    slot: WorkerSlot<A>,
    at: int,
    last_worker_generation: u64,
) -> bool {
    &&& slot.identity.slot == at
    &&& 0 < slot.identity.generation <= last_worker_generation
    &&& slot.worker.armed
    &&& slot.endpoint is Some <==> slot.pending is None
    &&& slot.pending matches Some(pending) ==> pending.bound_to(slot.identity)
}

/// What slots and refusals gave up: rights and descriptors that nothing in the pool uses any more,
/// to be released by the owner of the pool.
#[derive(Debug, PartialEq, Eq)]
pub struct Released {
    pub rights: Vec<MachSendOnceRight>,
    pub endpoints: Vec<AuthWorkerEndpoint>,
}

/// What slots and refusals gave up.
#[verifier::ext_equal]
pub struct ReleasedModel {
    pub rights: Seq<MachSendOnceRight>,
    pub endpoints: Seq<AuthWorkerEndpoint>,
}

impl View for Released {
    type V = ReleasedModel;

    open spec fn view(&self) -> ReleasedModel {
        ReleasedModel { rights: self.rights@, endpoints: self.endpoints@ }
    }
}

/// The reply right of the record that a slot holds.
pub open spec fn reply_of<A: ExactAuthWorkerAuthority>(slot: WorkerSlot<A>) -> Option<
    MachSendOnceRight,
> {
    match slot.pending {
        Some(pending) => Some(pending.raw.reply),
        None => None,
    }
}

impl ReleasedModel {
    /// Nothing.
    pub open spec fn none() -> ReleasedModel {
        ReleasedModel { rights: Seq::empty(), endpoints: Seq::empty() }
    }

    /// With one more right and one more endpoint, where there is one.
    pub open spec fn with(
        self,
        reply: Option<MachSendOnceRight>,
        endpoint: Option<AuthWorkerEndpoint>,
    ) -> ReleasedModel {
        ReleasedModel {
            rights: match reply {
                Some(reply) => self.rights.push(reply),
                None => self.rights,
            },
            endpoints: match endpoint {
                Some(endpoint) => self.endpoints.push(endpoint),
                None => self.endpoints,
            },
        }
    }

    /// With what a slot holds.
    pub open spec fn with_slot<A: ExactAuthWorkerAuthority>(
        self,
        slot: WorkerSlot<A>,
    ) -> ReleasedModel {
        self.with(reply_of(slot), slot.endpoint)
    }
}

impl Released {
    /// Nothing.
    pub fn none() -> (r: Released)
        ensures
            r@ == ReleasedModel::none(),
    {
        Released { rights: Vec::new(), endpoints: Vec::new() }
    }

    fn add(&mut self, reply: Option<MachSendOnceRight>, endpoint: Option<AuthWorkerEndpoint>)
        ensures
            final(self)@ == old(self)@.with(reply, endpoint),
    {
        match reply {
            Some(reply) => self.rights.push(reply),
            None => {},
        }
        match endpoint {
            Some(endpoint) => self.endpoints.push(endpoint),
            None => {},
        }
    }

    /// Takes what a slot holds whose worker is reaped.
    fn add_slot<A: ExactAuthWorkerAuthority>(&mut self, slot: WorkerSlot<A>)
        ensures
            final(self)@ == old(self)@.with_slot(slot),
    {
        let reply = match slot.pending {
            Some(pending) => Some(pending.raw.reply),
            None => None,
        };
        self.add(reply, slot.endpoint);
    }
}

/// Fixed-capacity set of one-job workers.
pub struct AuthWorkerPool<Authority: ExactAuthWorkerAuthority> {
    pub slots: Vec<Option<WorkerSlot<Authority>>>,
    pub last_worker_generation: u64,
    pub released: Released,
}

/// What a pool holds.
#[verifier::ext_equal]
pub struct PoolModel<Authority: ExactAuthWorkerAuthority> {
    pub slots: Slots<Authority>,
    pub last_worker_generation: u64,
    pub released: ReleasedModel,
}

impl<Authority: ExactAuthWorkerAuthority> View for AuthWorkerPool<Authority> {
    type V = PoolModel<Authority>;

    open spec fn view(&self) -> PoolModel<Authority> {
        PoolModel {
            slots: self.slots@,
            last_worker_generation: self.last_worker_generation,
            released: self.released@,
        }
    }
}

/// Whether the slots of a pool are in order: every worker knows its place, no number and no job
/// identifier occurs twice, every held record is bound to its job, and no user has more than two.
pub open spec fn slots_in_order<A: ExactAuthWorkerAuthority>(slots: Slots<A>, last: u64) -> bool {
    &&& 0 < slots.len() <= MAX_AUTH_WORKERS
    &&& forall|i: int|
        0 <= i < slots.len() && (#[trigger] slots[i]) is Some ==> slot_in_order(
            slots[i]->0,
            i,
            last,
        )
    &&& forall|i: int, j: int|
        0 <= i < slots.len() && 0 <= j < slots.len() && i != j && (#[trigger] slots[i]) is Some && (
        #[trigger] slots[j]) is Some ==> slots[i]->0.identity.generation
            != slots[j]->0.identity.generation
    &&& forall|i: int, j: int| #[trigger]
        busy(slots, i) && #[trigger] busy(slots, j) && i != j ==> held(slots, i).job.job_id@
            != held(slots, j).job.job_id@
    &&& forall|uid: u32| #[trigger] load(slots, uid) <= MAX_PENDING_PER_UID
}

/// Changing one slot changes the load by what that slot holds before and after.
proof fn lemma_load_update<A: ExactAuthWorkerAuthority>(
    slots: Slots<A>,
    at: int,
    slot: Option<WorkerSlot<A>>,
    uid: u32,
)
    requires
        0 <= at < slots.len(),
    ensures
        load(slots.update(at, slot), uid) + (if serves(slots[at], uid) {
            1nat
        } else {
            0nat
        }) == load(slots, uid) + (if serves(slot, uid) {
            1nat
        } else {
            0nat
        }),
    decreases slots.len(),
{
    let updated = slots.update(at, slot);
    if at == slots.len() - 1 {
        assert(updated.drop_last() =~= slots.drop_last());
    } else {
        assert(updated.drop_last() =~= slots.drop_last().update(at, slot));
        lemma_load_update(slots.drop_last(), at, slot, uid);
    }
}

/// A pool stays in order when a slot is emptied, or when its worker keeps its identity and holds
/// at most the record that it held.
proof fn lemma_stays_in_order<A: ExactAuthWorkerAuthority>(
    slots: Slots<A>,
    last: u64,
    at: int,
    slot: Option<WorkerSlot<A>>,
)
    requires
        slots_in_order(slots, last),
        0 <= at < slots.len(),
        slot matches Some(new) ==> {
            &&& slots[at] matches Some(old)
            &&& slot_in_order(new, at, last)
            &&& new.identity == old.identity
            &&& new.pending matches Some(pending) ==> {
                &&& old.pending matches Some(before)
                &&& pending.job.job_id@ == before.job.job_id@
                &&& pending.raw.effective_uid == before.raw.effective_uid
            }
        },
    ensures
        slots_in_order(slots.update(at, slot), last),
{
    let updated = slots.update(at, slot);
    assert forall|i: int, j: int| #[trigger]
        busy(updated, i) && #[trigger] busy(updated, j) && i != j implies held(
        updated,
        i,
    ).job.job_id@ != held(updated, j).job.job_id@ by {
        assert(busy(slots, i) && busy(slots, j));
    }
    assert forall|uid: u32| #[trigger] load(updated, uid) <= MAX_PENDING_PER_UID by {
        lemma_load_update(slots, at, slot, uid);
        assert(load(slots, uid) <= MAX_PENDING_PER_UID);
    }
}

/// Why a record is not given to a worker, or the first worker that can take it.
pub open spec fn admission<A: ExactAuthWorkerAuthority>(
    slots: Slots<A>,
    record: RecordModel,
    job_id: Seq<u8>,
    deadline: SupervisorDeadline,
    clock: ClockSample,
    at: int,
) -> Result<(), AuthAdapterError<A::Failure>> {
    match deadline.local_instant(clock) {
        Err(error) => Err(AuthAdapterError::Protocol(error)),
        Ok(_) => if !record_in_order(record) {
            Err(AuthAdapterError::CapacityExceeded)
        } else if live(slots, job_id) {
            Err(AuthAdapterError::InvalidJobIdentity)
        } else if load(slots, record.effective_uid) >= MAX_PENDING_PER_UID {
            Err(AuthAdapterError::CapacityExceeded)
        } else if !idle(slots, at) {
            Err(AuthAdapterError::Saturated)
        } else {
            Ok(())
        },
    }
}

/// The job that a worker gets for a record.
pub open spec fn job_for(
    worker: AuthWorkerIdentity,
    record: RawMachRecord,
    job_id: [u8; 32],
    deadline: SupervisorDeadline,
    frame_digest: [u8; 32],
) -> AuthWorkerJob {
    AuthWorkerJob {
        worker,
        job_id,
        audit_identity: record.audit_identity,
        effective_uid: record.effective_uid,
        effective_gid: record.effective_gid,
        frame_digest,
        deadline: deadline.0,
    }
}

/// The job of a dispatched record, and what belongs to its worker's private endpoint.
pub struct DispatchedAuthJob {
    job: AuthWorkerJob,
    request: i32,
    reply_receipt: AuthWorkerReplyReceipt,
}

/// Linear receipt for the private reply endpoint of one job. A worker can neither supply nor
/// rebuild it.
pub struct AuthWorkerReplyReceipt {
    worker: AuthWorkerIdentity,
    job_id: [u8; 32],
    result: i32,
    deadline: SupervisorDeadline,
    bytes: Vec<u8>,
}

impl AuthWorkerReplyReceipt {
    #[verifier::type_invariant]
    spec fn holds_one_frame(self) -> bool {
        self.bytes@.len() <= AUTH_WORKER_RESULT_BYTES
    }

    /// The worker whose endpoint this is.
    pub closed spec fn spec_worker(self) -> AuthWorkerIdentity {
        self.worker
    }

    /// The job that was sent there.
    pub closed spec fn spec_job_id(self) -> [u8; 32] {
        self.job_id
    }

    /// The descriptor to read.
    pub closed spec fn spec_result(self) -> i32 {
        self.result
    }

    /// When the authority of the job ends.
    pub closed spec fn spec_deadline(self) -> SupervisorDeadline {
        self.deadline
    }

    /// What has been read.
    pub closed spec fn spec_bytes(self) -> Seq<u8> {
        self.bytes@
    }
}

impl DispatchedAuthJob {
    /// The job.
    pub closed spec fn spec_job(self) -> AuthWorkerJob {
        self.job
    }

    /// The descriptor to write the job to.
    pub closed spec fn spec_request(self) -> i32 {
        self.request
    }

    /// The receipt for the answer.
    pub closed spec fn spec_receipt(self) -> AuthWorkerReplyReceipt {
        self.reply_receipt
    }
}

impl<Authority: ExactAuthWorkerAuthority> AuthWorkerPool<Authority> {
    /// Whether the pool is in order.
    pub open spec fn in_order(self) -> bool {
        slots_in_order(self.slots@, self.last_worker_generation)
    }

    /// Sets up a pool of one to four workers with distinct numbers. Workers that make no pool are
    /// terminated and reaped; their endpoints stay with the caller.
    pub fn from_precreated_workers(
        workers: Vec<
            (FreshAuthWorkerGeneration, ExactAuthWorker<Authority>, AuthWorkerEndpoint),
        >,
    ) -> (r: Result<AuthWorkerPool<Authority>, AuthAdapterError<Authority::Failure>>)
        requires
            forall|i: int| 0 <= i < workers@.len() ==> (#[trigger] workers@[i]).1.armed,
        ensures
            match r {
                Ok(pool) => {
                    &&& pool.in_order()
                    &&& pool.released@ == ReleasedModel::none()
                    &&& 0 < workers@.len() <= MAX_AUTH_WORKERS
                    &&& distinct_numbers(workers@)
                    &&& pool.slots@.len() == workers@.len()
                    &&& forall|i: int|
                        0 <= i < workers@.len() ==> (#[trigger] pool.slots@[i]) == Some(
                            fresh_slot(i, workers@[i]),
                        )
                    &&& is_greatest(workers@, pool.last_worker_generation)
                },
                Err(error) => {
                    &&& if 0 < workers@.len() <= MAX_AUTH_WORKERS {
                        &&& error == AuthAdapterError::<Authority::Failure>::InvalidReplacement
                        &&& !distinct_numbers(workers@)
                    } else {
                        error == AuthAdapterError::<Authority::Failure>::CapacityExceeded
                    }
                    &&& forall|i: int|
                        0 <= i < workers@.len() ==> ended_at_all_costs(
                            (#[trigger] workers@[i]).1,
                        )
                },
            },
    {
        if workers.len() == 0 || workers.len() > MAX_AUTH_WORKERS {
            end_all(workers);
            return Err(AuthAdapterError::CapacityExceeded);
        }
        if !have_distinct_numbers(&workers) {
            end_all(workers);
            return Err(AuthAdapterError::InvalidReplacement);
        }
        let ghost all = workers@;
        let mut rest = workers;
        let mut slots: Vec<Option<WorkerSlot<Authority>>> = Vec::new();
        let mut last: u64 = 0;
        assert(rest@ =~= all.subrange(0, all.len() as int));
        while rest.len() > 0
            invariant
                all == workers@,
                0 < all.len() <= MAX_AUTH_WORKERS,
                slots@.len() + rest@.len() == all.len(),
                rest@ == all.subrange(slots@.len() as int, all.len() as int),
                forall|i: int|
                    0 <= i < slots@.len() ==> (#[trigger] slots@[i]) == Some(fresh_slot(i, all[i])),
                forall|i: int| 0 <= i < slots@.len() ==> 0 < (#[trigger] all[i]).0@ <= last,
                slots@.len() == 0 ==> last == 0,
                slots@.len() > 0 ==> exists|i: int|
                    0 <= i < slots@.len() && (#[trigger] all[i]).0@ == last,
            decreases rest@.len(),
        {
            let ghost n = slots@.len() as int;
            let (generation, worker, endpoint) = rest.remove(0);
            assert((generation, worker, endpoint) == all[n]);
            assert(rest@ =~= all.subrange(n + 1, all.len() as int));
            let number: u64 = generation.get();
            let ghost before = last;
            if number > last {
                last = number;
            }
            let identity = AuthWorkerIdentity { slot: slots.len() as u8, generation: number };
            slots.push(
                Some(WorkerSlot { identity, worker, endpoint: Some(endpoint), pending: None }),
            );
            proof {
                assert(all[n].0@ == number);
                if number > before {
                    assert(all[n].0@ == last);
                } else {
                    let i = choose|i: int| 0 <= i < n && (#[trigger] all[i]).0@ == before;
                    assert(all[i].0@ == last);
                }
            }
        }
        let pool = AuthWorkerPool {
            slots,
            last_worker_generation: last,
            released: Released::none(),
        };
        proof {
            assert forall|i: int| 0 <= i < pool.slots@.len() implies slot_in_order(
                (#[trigger] pool.slots@[i])->0,
                i,
                last,
            ) by {
                assert(all[i].1.armed);
            }
            assert forall|i: int, j: int|
                0 <= i < pool.slots@.len() && 0 <= j < pool.slots@.len() && i != j implies (
            #[trigger] pool.slots@[i])->0.identity.generation != (
            #[trigger] pool.slots@[j])->0.identity.generation by {
                assert(all[i].0@ != all[j].0@);
            }
            assert forall|uid: u32| #[trigger] load(pool.slots@, uid) <= MAX_PENDING_PER_UID by {
                lemma_idle_load(pool.slots@, uid);
            }
        }
        Ok(pool)
    }
}

/// Whether the authority of a worker was asked to terminate and reap it at all costs.
pub open spec fn ended_at_all_costs<A: ExactAuthWorkerAuthority>(
    worker: ExactAuthWorker<A>,
) -> bool {
    exists|asked: &mut A, reaped: ReapedAuthWorker|
        *asked == worker.authority && #[trigger] call_ensures(
            A::emergency_terminate_and_reap,
            (asked,),
            reaped,
        )
}

/// Whether a slot has a worker whose cleanup is owed.
pub open spec fn owes_cleanup<A: ExactAuthWorkerAuthority>(slot: Option<WorkerSlot<A>>) -> bool {
    slot is Some && slot->0.worker.armed
}

/// Terminates and reaps workers that make no pool.
fn end_all<A: ExactAuthWorkerAuthority>(
    workers: Vec<(FreshAuthWorkerGeneration, ExactAuthWorker<A>, AuthWorkerEndpoint)>,
)
    requires
        forall|i: int| 0 <= i < workers@.len() ==> (#[trigger] workers@[i]).1.armed,
    ensures
        forall|i: int| 0 <= i < workers@.len() ==> ended_at_all_costs((#[trigger] workers@[i]).1),
{
    let ghost all = workers@;
    let mut rest = workers;
    let ghost mut done: int = 0;
    assert(rest@ =~= all.subrange(0, all.len() as int));
    while rest.len() > 0
        invariant
            all == workers@,
            0 <= done,
            done + rest@.len() == all.len(),
            rest@ == all.subrange(done, all.len() as int),
            forall|i: int| 0 <= i < all.len() ==> (#[trigger] all[i]).1.armed,
            forall|i: int| 0 <= i < done ==> ended_at_all_costs((#[trigger] all[i]).1),
        decreases rest@.len(),
    {
        let (_generation, worker, _endpoint) = rest.remove(0);
        let mut worker = worker;
        assert(worker == all[done].1);
        worker.emergency_cleanup();
        proof {
            assert(rest@ =~= all.subrange(done + 1, all.len() as int));
            done = done + 1;
        }
    }
}

/// Whether no two workers have the same number.
fn have_distinct_numbers<A: ExactAuthWorkerAuthority>(
    workers: &Vec<(FreshAuthWorkerGeneration, ExactAuthWorker<A>, AuthWorkerEndpoint)>,
) -> (r: bool)
    ensures
        r == distinct_numbers(workers@),
{
    let mut i: usize = 0;
    while i < workers.len()
        invariant
            i <= workers@.len(),
            forall|a: int, b: int|
                0 <= a < b < i ==> (#[trigger] workers@[a]).0@ != (#[trigger] workers@[b]).0@,
        decreases workers@.len() - i,
    {
        let number: u64 = workers[i].0.get();
        let mut k: usize = 0;
        while k < i
            invariant
                k <= i < workers@.len(),
                number == workers@[i as int].0@,
                forall|a: int| 0 <= a < k ==> (#[trigger] workers@[a]).0@ != number,
            decreases i - k,
        {
            if workers[k].0.get() == number {
                assert(workers@[k as int].0@ == workers@[i as int].0@);
                return false;
            }
            k += 1;
        }
        i += 1;
    }
    true
}

/// The slot of a worker that has just been set up.
pub open spec fn fresh_slot<A: ExactAuthWorkerAuthority>(
    at: int,
    worker: (FreshAuthWorkerGeneration, ExactAuthWorker<A>, AuthWorkerEndpoint),
) -> WorkerSlot<A> {
    WorkerSlot {
        identity: AuthWorkerIdentity { slot: at as u8, generation: worker.0@ },
        worker: worker.1,
        endpoint: Some(worker.2),
        pending: None,
    }
}

/// Whether no two workers have the same number.
pub open spec fn distinct_numbers<A: ExactAuthWorkerAuthority>(
    workers: Seq<(FreshAuthWorkerGeneration, ExactAuthWorker<A>, AuthWorkerEndpoint)>,
) -> bool {
    forall|i: int, j: int|
        0 <= i < j < workers.len() ==> (#[trigger] workers[i]).0@ != (#[trigger] workers[j]).0@
}

/// Whether `last` is the greatest number of the workers.
pub open spec fn is_greatest<A: ExactAuthWorkerAuthority>(
    workers: Seq<(FreshAuthWorkerGeneration, ExactAuthWorker<A>, AuthWorkerEndpoint)>,
    last: u64,
) -> bool {
    &&& forall|i: int| 0 <= i < workers.len() ==> (#[trigger] workers[i]).0@ <= last
    &&& exists|i: int| 0 <= i < workers.len() && (#[trigger] workers[i]).0@ == last
}

/// Idle workers are no load.
proof fn lemma_idle_load<A: ExactAuthWorkerAuthority>(slots: Slots<A>, uid: u32)
    requires
        forall|i: int|
            0 <= i < slots.len() ==> (#[trigger] slots[i]) is Some && slots[i]->0.pending is None,
    ensures
        load(slots, uid) == 0,
    decreases slots.len(),
{
    if slots.len() > 0 {
        assert(slots[slots.len() - 1] is Some);
        assert forall|i: int| 0 <= i < slots.drop_last().len() implies (
        #[trigger] slots.drop_last()[i]) is Some && slots.drop_last()[i]->0.pending is None by {
            assert(slots[i] is Some);
        }
        lemma_idle_load(slots.drop_last(), uid);
    }
}

impl<Authority: ExactAuthWorkerAuthority> AuthWorkerPool<Authority> {
    /// Whether a job with this identifier is under way.
    fn is_live(&self, job_id: &[u8; 32]) -> (r: bool)
        ensures
            r == live(self.slots@, job_id@),
    {
        let mut i: usize = 0;
        while i < self.slots.len()
            invariant
                i <= self.slots@.len(),
                forall|k: int|
                    0 <= k < i && #[trigger] busy(self.slots@, k) ==> held(
                        self.slots@,
                        k,
                    ).job.job_id@ != job_id@,
            decreases self.slots@.len() - i,
        {
            match &self.slots[i] {
                Some(slot) => match &slot.pending {
                    Some(pending) => {
                        if same_bytes(&pending.job.job_id, job_id) {
                            assert(busy(self.slots@, i as int));
                            return true;
                        }
                    },
                    None => {},
                },
                None => {},
            }
            i += 1;
        }
        false
    }

    /// How many records of this user workers hold.
    fn user_load(&self, uid: u32) -> (r: usize)
        ensures
            r == load(self.slots@, uid),
    {
        let mut count: usize = 0;
        let mut i: usize = 0;
        assert(self.slots@.take(0) =~= seq![]);
        while i < self.slots.len()
            invariant
                i <= self.slots@.len(),
                count <= i,
                count == load(self.slots@.take(i as int), uid),
            decreases self.slots@.len() - i,
        {
            let serving = match &self.slots[i] {
                Some(slot) => match &slot.pending {
                    Some(pending) => pending.raw.effective_uid == uid,
                    None => false,
                },
                None => false,
            };
            proof {
                let next = self.slots@.take(i + 1);
                assert(next.drop_last() =~= self.slots@.take(i as int));
                assert(next.last() == self.slots@[i as int]);
                assert(serving == serves(self.slots@[i as int], uid));
            }
            if serving {
                count += 1;
            }
            i += 1;
        }
        assert(self.slots@.take(i as int) =~= self.slots@);
        count
    }

    /// The first worker that can take a record.
    fn first_idle(&self) -> (r: Option<usize>)
        ensures
            match r {
                Some(at) => {
                    &&& idle(self.slots@, at as int)
                    &&& forall|k: int| 0 <= k < at ==> !#[trigger] idle(self.slots@, k)
                },
                None => forall|k: int| !#[trigger] idle(self.slots@, k),
            },
    {
        let mut i: usize = 0;
        while i < self.slots.len()
            invariant
                i <= self.slots@.len(),
                forall|k: int| 0 <= k < i ==> !#[trigger] idle(self.slots@, k),
            decreases self.slots@.len() - i,
        {
            match &self.slots[i] {
                Some(slot) => {
                    if slot.pending.is_none() && slot.endpoint.is_some() {
                        return Some(i);
                    }
                },
                None => {},
            }
            i += 1;
        }
        None
    }

    /// Decides whether a record can be given to a worker, and to which: the first idle one.
    pub fn find_worker(
        &self,
        raw: &RawMachRecord,
        job_id: &FreshAuthJobId,
        deadline: SupervisorDeadline,
        clock: ClockSample,
    ) -> (r: Result<usize, AuthAdapterError<Authority::Failure>>)
        ensures
            match r {
                Ok(at) => {
                    &&& admission(self.slots@, raw@, job_id@, deadline, clock, at as int) is Ok
                    &&& forall|k: int| 0 <= k < at ==> !#[trigger] idle(self.slots@, k)
                },
                Err(error) => forall|k: int|
                    #[trigger] admission(self.slots@, raw@, job_id@, deadline, clock, k) == Err::<
                        (),
                        AuthAdapterError<Authority::Failure>,
                    >(error),
            },
    {
        match deadline.to_local_instant(clock) {
            Err(error) => {
                return Err(AuthAdapterError::Protocol(error));
            },
            Ok(_) => {},
        }
        if raw.bytes.len() > MAX_SUPERVISOR_RECORD_BYTES || is_all_zero(&raw.audit_identity)
            || raw.effective_uid == 0 || raw.effective_gid == 0 || raw.effective_uid == u32::MAX
            || raw.effective_gid == u32::MAX {
            return Err(AuthAdapterError::CapacityExceeded);
        }
        if self.is_live(&job_id.get()) {
            return Err(AuthAdapterError::InvalidJobIdentity);
        }
        if self.user_load(raw.effective_uid) >= MAX_PENDING_PER_UID {
            return Err(AuthAdapterError::CapacityExceeded);
        }
        match self.first_idle() {
            None => Err(AuthAdapterError::Saturated),
            Some(at) => Ok(at),
        }
    }

    /// Gives a record to the idle worker at `at`, with the digest of the record.
    pub fn assign(
        &mut self,
        at: usize,
        raw: RawMachRecord,
        job_id: FreshAuthJobId,
        deadline: SupervisorDeadline,
        frame_digest: [u8; 32],
    ) -> (r: DispatchedAuthJob)
        requires
            old(self).in_order(),
            idle(old(self).slots@, at as int),
            record_in_order(raw@),
            !live(old(self).slots@, job_id@),
            load(old(self).slots@, raw.effective_uid) < MAX_PENDING_PER_UID,
            frame_digest@ == digest::sha256_of(message::digest_message(raw@)),
        ensures
            final(self).in_order(),
            final(self).last_worker_generation == old(self).last_worker_generation,
            final(self).released@ == old(self).released@,
            r.spec_job() == job_for(
                old(self).slots@[at as int]->0.identity,
                raw,
                r.spec_job().job_id,
                deadline,
                frame_digest,
            ),
            r.spec_job().job_id@ == job_id@,
            final(self).slots@ == old(self).slots@.update(
                at as int,
                Some(
                    WorkerSlot {
                        endpoint: None,
                        pending: Some(
                            PendingRecord {
                                raw,
                                job: r.spec_job(),
                                deadline,
                                outcome: PendingOutcome::AwaitingResult,
                            },
                        ),
                        ..old(self).slots@[at as int]->0
                    },
                ),
            ),
            r.spec_request() == old(self).slots@[at as int]->0.endpoint->0.request,
            r.spec_receipt().spec_worker() == r.spec_job().worker,
            r.spec_receipt().spec_job_id() == r.spec_job().job_id,
            r.spec_receipt().spec_result() == old(self).slots@[at as int]->0.endpoint->0.result,
            r.spec_receipt().spec_deadline() == deadline,
            r.spec_receipt().spec_bytes() == Seq::<u8>::empty(),
    {
        let ghost before = self.slots@;
        let ghost record = raw@;
        let taken = self.slots[at].take();
        match taken {
            Some(slot) => {
                let job = AuthWorkerJob {
                    worker: slot.identity,
                    job_id: job_id.get(),
                    audit_identity: raw.audit_identity,
                    effective_uid: raw.effective_uid,
                    effective_gid: raw.effective_gid,
                    frame_digest,
                    deadline: deadline.wire_value(),
                };
                let pending = PendingRecord {
                    raw,
                    job,
                    deadline,
                    outcome: PendingOutcome::AwaitingResult,
                };
                let (request, result) = match slot.endpoint {
                    Some(endpoint) => (endpoint.request, endpoint.result),
                    None => (-1, -1),
                };
                self.slots[at] = Some(
                    WorkerSlot {
                        identity: slot.identity,
                        worker: slot.worker,
                        endpoint: None,
                        pending: Some(pending),
                    },
                );
                proof {
                    let new = self.slots@[at as int];
                    assert(self.slots@ =~= before.update(at as int, new));
                    lemma_assign_in_order(before, self.last_worker_generation, at as int, new);
                }
                DispatchedAuthJob {
                    job,
                    request,
                    reply_receipt: AuthWorkerReplyReceipt {
                        worker: job.worker,
                        job_id: job.job_id,
                        result,
                        deadline,
                        bytes: Vec::new(),
                    },
                }
            },
            None => {
                assert(false);
                vstd::pervasive::unreached()
            },
        }
    }
}

/// A pool stays in order when an idle worker gets a record whose job is new and whose user has
/// room.
proof fn lemma_assign_in_order<A: ExactAuthWorkerAuthority>(
    slots: Slots<A>,
    last: u64,
    at: int,
    slot: Option<WorkerSlot<A>>,
)
    requires
        slots_in_order(slots, last),
        idle(slots, at),
        slot matches Some(new) && {
            &&& slot_in_order(new, at, last)
            &&& new.identity == slots[at]->0.identity
            &&& new.pending matches Some(pending) && {
                &&& !live(slots, pending.job.job_id@)
                &&& load(slots, pending.raw.effective_uid) < MAX_PENDING_PER_UID
            }
        },
    ensures
        slots_in_order(slots.update(at, slot), last),
{
    let updated = slots.update(at, slot);
    assert forall|i: int, j: int| #[trigger]
        busy(updated, i) && #[trigger] busy(updated, j) && i != j implies held(
        updated,
        i,
    ).job.job_id@ != held(updated, j).job.job_id@ by {
        if i != at {
            assert(busy(slots, i));
        }
        if j != at {
            assert(busy(slots, j));
        }
    }
    assert forall|uid: u32| #[trigger] load(updated, uid) <= MAX_PENDING_PER_UID by {
        lemma_load_update(slots, at, slot, uid);
        assert(load(slots, uid) <= MAX_PENDING_PER_UID);
    }
}

/// An answer that came from the private endpoint of the receipt it consumed.
pub struct ReceivedAuthWorkerResult {
    receipt: AuthWorkerReplyReceipt,
    result: AuthWorkerResult,
}

impl ReceivedAuthWorkerResult {
    /// The worker whose endpoint delivered the answer.
    pub closed spec fn spec_worker(self) -> AuthWorkerIdentity {
        self.receipt.worker
    }

    /// The job that was sent there.
    pub closed spec fn spec_job_id(self) -> [u8; 32] {
        self.receipt.job_id
    }

    /// The answer.
    pub closed spec fn spec_result(self) -> AuthWorkerResult {
        self.result
    }

    /// The worker whose endpoint delivered the answer.
    pub fn worker(&self) -> (r: AuthWorkerIdentity)
        ensures
            r == self.spec_worker(),
    {
        self.receipt.worker
    }

    /// Reads the one complete frame that the endpoint of `receipt` delivered.
    pub fn from_private_pipe(receipt: AuthWorkerReplyReceipt, bytes: &[u8]) -> (r: Result<
        ReceivedAuthWorkerResult,
        AuthWorkerWireError,
    >)
        ensures
            match (r, worker_frame::parsed_result(bytes@)) {
                (Ok(received), Ok((job, code_identity))) => {
                    &&& received.spec_worker() == receipt.spec_worker()
                    &&& received.spec_job_id() == receipt.spec_job_id()
                    &&& received.spec_result().job@ == job
                    &&& received.spec_result().code_identity@ == code_identity
                },
                (Err(error), Err(expected)) => error == expected,
                _ => false,
            },
    {
        match AuthWorkerResult::decode_pipe_frame(bytes) {
            Err(error) => Err(error),
            Ok(result) => Ok(ReceivedAuthWorkerResult { receipt, result }),
        }
    }
}

/// A record that is authenticated: its worker vouched for it, and was reaped after a clean exit.
pub struct AuthenticatedMachRecord {
    raw: RawMachRecord,
    code_identity: [u8; 32],
    deadline: SupervisorDeadline,
}

impl AuthenticatedMachRecord {
    /// The record.
    pub closed spec fn spec_raw(self) -> RawMachRecord {
        self.raw
    }

    /// The identity of the sender's code.
    pub closed spec fn spec_code_identity(self) -> [u8; 32] {
        self.code_identity
    }

    /// When the authority of the record ends.
    pub closed spec fn spec_deadline(self) -> SupervisorDeadline {
        self.deadline
    }

    /// Gives the parts away.
    pub(crate) fn into_parts(self) -> (r: (RawMachRecord, [u8; 32], SupervisorDeadline))
        ensures
            r == (self.spec_raw(), self.spec_code_identity(), self.spec_deadline()),
    {
        (self.raw, self.code_identity, self.deadline)
    }

    /// The record.
    pub fn raw(&self) -> (r: &RawMachRecord)
        ensures
            *r == self.spec_raw(),
    {
        &self.raw
    }

    /// When the authority of the record ends.
    pub fn deadline(&self) -> (r: SupervisorDeadline)
        ensures
            r == self.spec_deadline(),
    {
        self.deadline
    }
}

/// Whether `worker` is the live worker at its slot.
pub open spec fn known<A: ExactAuthWorkerAuthority>(
    slots: Slots<A>,
    worker: AuthWorkerIdentity,
) -> bool {
    &&& worker.slot < slots.len()
    &&& slots[worker.slot as int] matches Some(slot) && slot.identity == worker
}

/// The slot with another outcome of the record that it holds.
pub open spec fn with_outcome<A: ExactAuthWorkerAuthority>(
    slot: WorkerSlot<A>,
    outcome: PendingOutcome,
) -> WorkerSlot<A> {
    WorkerSlot {
        pending: match slot.pending {
            Some(pending) => Some(PendingRecord { outcome, ..pending }),
            None => None,
        },
        ..slot
    }
}

/// Whether a slot is the same but for its worker's authority, whose cleanup is still owed.
pub open spec fn retained<A: ExactAuthWorkerAuthority>(
    before: WorkerSlot<A>,
    after: Option<WorkerSlot<A>>,
) -> bool {
    &&& after matches Some(slot) && slot == (WorkerSlot { worker: slot.worker, ..before })
        && slot.worker.armed
}

/// What an answer is worth before its worker is reaped.
pub enum Judgement<WorkerFailure> {
    /// It names no live worker.
    Unknown,
    /// It is refused for this reason, and its worker is terminated.
    Refused(AuthAdapterError<WorkerFailure>),
    /// It vouches for the record.
    Accepted,
}

/// Judges an answer: it has to come from the endpoint of a live worker, repeat the exact job that
/// this worker was given and has not answered yet, come in time, and carry an identity.
pub open spec fn judged<A: ExactAuthWorkerAuthority>(
    slots: Slots<A>,
    received: ReceivedAuthWorkerResult,
    clock: ClockSample,
) -> Judgement<A::Failure> {
    let at = received.spec_worker().slot as int;
    if !known(slots, received.spec_worker()) {
        Judgement::Unknown
    } else if !busy(slots, at) || received.spec_job_id() != held(slots, at).job.job_id || held(
        slots,
        at,
    ).outcome !is AwaitingResult || held(slots, at).job != received.spec_result().job {
        Judgement::Refused(AuthAdapterError::ResultMismatch)
    } else if held(slots, at).deadline.local_instant(clock) is Err {
        Judgement::Refused(AuthAdapterError::DeadlineExpired)
    } else if bytes::all_zero(received.spec_result().code_identity@) {
        Judgement::Refused(AuthAdapterError::AuthenticationRejected)
    } else {
        Judgement::Accepted
    }
}

/// The pool after the worker at `at` was told to end, and its authority answered so: gone once it
/// is reaped, and what its slot held released; else retained with its record rejected.
pub open spec fn told_to_end<A: ExactAuthWorkerAuthority>(
    before: PoolModel<A>,
    after: PoolModel<A>,
    at: int,
    answer: Result<Option<ReapedAuthWorker>, A::Failure>,
) -> bool {
    &&& after.last_worker_generation == before.last_worker_generation
    &&& after.slots == before.slots.update(at, after.slots[at])
    &&& if answer matches Ok(Some(_)) {
        &&& after.slots[at] is None
        &&& after.released == before.released.with_slot(before.slots[at]->0)
    } else {
        &&& retained(with_outcome(before.slots[at]->0, PendingOutcome::Rejected), after.slots[at])
        &&& after.released == before.released
    }
}

/// What is reported of a worker that was told to end.
pub open spec fn ended<F>(
    answer: Result<Option<ReapedAuthWorker>, F>,
    worker: AuthWorkerIdentity,
) -> Result<(), AuthAdapterError<F>> {
    match answer {
        Ok(Some(_)) => Ok(()),
        Ok(None) => Err(AuthAdapterError::WorkerRetirementPending(worker)),
        Err(failure) => Err(AuthAdapterError::WorkerCleanupFailed(failure)),
    }
}

/// What is reported of a record whose worker was told to end for this reason.
pub open spec fn refused_for<F>(
    ended: Result<(), AuthAdapterError<F>>,
    error: AuthAdapterError<F>,
) -> Result<AuthenticatedMachRecord, AuthAdapterError<F>> {
    match ended {
        Ok(()) => Err(error),
        Err(failure) => Err(failure),
    }
}

/// Whether a record is the one that a slot held and its worker vouched for.
pub open spec fn mints<A: ExactAuthWorkerAuthority>(
    record: AuthenticatedMachRecord,
    slot: WorkerSlot<A>,
) -> bool {
    &&& slot.pending matches Some(pending) && {
        &&& record.spec_raw() == pending.raw
        &&& record.spec_deadline() == pending.deadline
        &&& pending.outcome == PendingOutcome::Validated(record.spec_code_identity())
    }
}

/// Whether a validated answer was settled by what its worker's authority observed: a record only
/// after a clean exit, the slot gone once the worker is reaped, and otherwise retained. What an
/// emptied slot held is in the record, or released.
pub open spec fn settled<A: ExactAuthWorkerAuthority>(
    before: PoolModel<A>,
    after: PoolModel<A>,
    at: int,
    observed: Result<Option<ReapedAuthWorker>, A::Failure>,
    result: Result<AuthenticatedMachRecord, AuthAdapterError<A::Failure>>,
) -> bool {
    let slot = before.slots[at]->0;
    &&& after.last_worker_generation == before.last_worker_generation
    &&& after.slots == before.slots.update(at, after.slots[at])
    &&& match worker::retirement_of(observed) {
        Ok(AuthWorkerRetirement::Clean) => {
            &&& result matches Ok(record) && mints(record, slot)
            &&& after.slots[at] is None
            &&& after.released == before.released.with(None, slot.endpoint)
        },
        Ok(AuthWorkerRetirement::Rejected) => {
            &&& result == Err::<AuthenticatedMachRecord, _>(
                AuthAdapterError::<A::Failure>::WorkerExitedAbnormally,
            )
            &&& after.slots[at] is None
            &&& after.released == before.released.with_slot(slot)
        },
        Ok(AuthWorkerRetirement::Pending) => {
            &&& result == Err::<AuthenticatedMachRecord, _>(
                AuthAdapterError::<A::Failure>::WorkerRetirementPending(slot.identity),
            )
            &&& retained(slot, after.slots[at])
            &&& after.released == before.released
        },
        Err(failure) => {
            &&& result == Err::<AuthenticatedMachRecord, _>(
                AuthAdapterError::<A::Failure>::WorkerCleanupFailed(failure),
            )
            &&& retained(slot, after.slots[at])
            &&& after.released == before.released
        },
    }
}

/// The pool once the answer for the worker at `at` is found to vouch for its record.
pub open spec fn vouched<A: ExactAuthWorkerAuthority>(
    before: PoolModel<A>,
    at: int,
    code_identity: [u8; 32],
) -> PoolModel<A> {
    PoolModel {
        slots: before.slots.update(
            at,
            Some(with_outcome(before.slots[at]->0, PendingOutcome::Validated(code_identity))),
        ),
        ..before
    }
}

/// What is done about a worker that vouched for its record.
pub enum PollCourse<WorkerFailure> {
    /// Nothing: it is unknown, or has not vouched.
    Refused(AuthAdapterError<WorkerFailure>),
    /// Its time is up, and it is told to end.
    Expired,
    /// Its authority observes it once.
    Observed,
}

/// What is done about a worker that vouched for its record.
pub open spec fn poll_course<A: ExactAuthWorkerAuthority>(
    slots: Slots<A>,
    worker: AuthWorkerIdentity,
    clock: ClockSample,
) -> PollCourse<A::Failure> {
    let at = worker.slot as int;
    if !known(slots, worker) || !busy(slots, at) {
        PollCourse::Refused(AuthAdapterError::UnknownWorker)
    } else if held(slots, at).outcome !is Validated {
        PollCourse::Refused(AuthAdapterError::ResultMismatch)
    } else if held(slots, at).deadline.local_instant(clock) is Err {
        PollCourse::Expired
    } else {
        PollCourse::Observed
    }
}

impl<Authority: ExactAuthWorkerAuthority> AuthWorkerPool<Authority> {
    /// Gives a record to the first idle worker. Nothing else happens: no call into a framework,
    /// no process is started, and nothing is queued. The reply right of a record that is refused is
    /// released.
    pub fn dispatch(
        &mut self,
        raw: RawMachRecord,
        job_id: FreshAuthJobId,
        deadline: SupervisorDeadline,
        clock: ClockSample,
    ) -> (r: Result<DispatchedAuthJob, AuthAdapterError<Authority::Failure>>)
        requires
            old(self).in_order(),
        ensures
            final(self).in_order(),
            final(self).last_worker_generation == old(self).last_worker_generation,
            match r {
                Ok(dispatched) => {
                    let job = dispatched.spec_job();
                    let at = job.worker.slot as int;
                    &&& admission(old(self).slots@, raw@, job_id@, deadline, clock, at) is Ok
                    &&& forall|k: int| 0 <= k < at ==> !#[trigger] idle(old(self).slots@, k)
                    &&& job == job_for(
                        old(self).slots@[at]->0.identity,
                        raw,
                        job.job_id,
                        deadline,
                        job.frame_digest,
                    )
                    &&& job.job_id@ == job_id@
                    &&& job.frame_digest@ == digest::sha256_of(message::digest_message(raw@))
                    &&& final(self).slots@ == old(self).slots@.update(
                        at,
                        Some(
                            WorkerSlot {
                                endpoint: None,
                                pending: Some(
                                    PendingRecord {
                                        raw,
                                        job,
                                        deadline,
                                        outcome: PendingOutcome::AwaitingResult,
                                    },
                                ),
                                ..old(self).slots@[at]->0
                            },
                        ),
                    )
                    &&& dispatched.spec_request() == old(self).slots@[at]->0.endpoint->0.request
                    &&& dispatched.spec_receipt().spec_worker() == job.worker
                    &&& dispatched.spec_receipt().spec_job_id() == job.job_id
                    &&& dispatched.spec_receipt().spec_result() == old(
                        self,
                    ).slots@[at]->0.endpoint->0.result
                    &&& dispatched.spec_receipt().spec_deadline() == deadline
                    &&& dispatched.spec_receipt().spec_bytes() == Seq::<u8>::empty()
                    &&& final(self).released@ == old(self).released@
                },
                Err(error) => {
                    &&& final(self).slots@ == old(self).slots@
                    &&& final(self).released@ == old(self).released@.with(Some(raw.reply), None)
                    &&& forall|k: int|
                        #[trigger] admission(old(self).slots@, raw@, job_id@, deadline, clock, k)
                            == Err::<(), AuthAdapterError<Authority::Failure>>(error)
                },
            },
    {
        match self.find_worker(&raw, &job_id, deadline, clock) {
            Err(error) => {
                self.released.add(Some(raw.reply), None);
                Err(error)
            },
            Ok(at) => {
                let frame_digest = raw.frame_digest();
                Ok(self.assign(at, raw, job_id, deadline, frame_digest))
            },
        }
    }

    /// Rejects the record that the worker at `at` holds, if it holds one.
    fn mark_rejected(&mut self, at: usize)
        requires
            old(self).in_order(),
            at < old(self).slots@.len(),
            old(self).slots@[at as int] is Some,
        ensures
            final(self).in_order(),
            final(self).last_worker_generation == old(self).last_worker_generation,
            final(self).released@ == old(self).released@,
            final(self).slots@ == old(self).slots@.update(
                at as int,
                Some(with_outcome(old(self).slots@[at as int]->0, PendingOutcome::Rejected)),
            ),
    {
        let ghost before = self.slots@;
        let taken = self.slots[at].take();
        match taken {
            None => {},
            Some(slot) => {
                let pending = match slot.pending {
                    None => None,
                    Some(record) => Some(
                        PendingRecord {
                            raw: record.raw,
                            job: record.job,
                            deadline: record.deadline,
                            outcome: PendingOutcome::Rejected,
                        },
                    ),
                };
                self.slots[at] = Some(
                    WorkerSlot {
                        identity: slot.identity,
                        worker: slot.worker,
                        endpoint: slot.endpoint,
                        pending,
                    },
                );
                proof {
                    let new = self.slots@[at as int];
                    assert(self.slots@ =~= before.update(at as int, new));
                    lemma_stays_in_order(before, self.last_worker_generation, at as int, new);
                }
            },
        }
    }

    /// Records one step of terminating the worker of a slot that was taken out of `at`: the slot
    /// stays empty once the worker is reaped, and what it held is released; else it goes back.
    pub fn settle_termination(
        &mut self,
        at: usize,
        slot: WorkerSlot<Authority>,
        reaped: Result<bool, Authority::Failure>,
    ) -> (r: Result<(), AuthAdapterError<Authority::Failure>>)
        requires
            at < old(self).slots@.len(),
            old(self).slots@[at as int] is None,
        ensures
            final(self).last_worker_generation == old(self).last_worker_generation,
            match reaped {
                Err(failure) => {
                    &&& r == Err::<(), _>(
                        AuthAdapterError::<Authority::Failure>::WorkerCleanupFailed(failure),
                    )
                    &&& final(self).slots@ == old(self).slots@.update(at as int, Some(slot))
                    &&& final(self).released@ == old(self).released@
                },
                Ok(false) => {
                    &&& r == Err::<(), _>(
                        AuthAdapterError::<Authority::Failure>::WorkerRetirementPending(
                            slot.identity,
                        ),
                    )
                    &&& final(self).slots@ == old(self).slots@.update(at as int, Some(slot))
                    &&& final(self).released@ == old(self).released@
                },
                Ok(true) => {
                    &&& r == Ok::<(), AuthAdapterError<Authority::Failure>>(())
                    &&& final(self).slots@ == old(self).slots@
                    &&& final(self).released@ == old(self).released@.with_slot(slot)
                },
            },
    {
        match reaped {
            Err(failure) => {
                self.slots[at] = Some(slot);
                Err(AuthAdapterError::WorkerCleanupFailed(failure))
            },
            Ok(false) => {
                let identity = slot.identity;
                self.slots[at] = Some(slot);
                Err(AuthAdapterError::WorkerRetirementPending(identity))
            },
            Ok(true) => {
                self.released.add_slot(slot);
                Ok(())
            },
        }
    }

    /// Makes one step of terminating the worker at `at`, whose record is rejected.
    fn terminate_slot(&mut self, at: usize) -> (r: Result<(), AuthAdapterError<Authority::Failure>>)
        requires
            old(self).in_order(),
            at < old(self).slots@.len(),
            old(self).slots@[at as int] is Some,
        ensures
            final(self).in_order(),
            exists|
                asked: &mut Authority,
                answer: Result<Option<ReapedAuthWorker>, Authority::Failure>,
            |
                {
                    &&& *asked == old(self).slots@[at as int]->0.worker.authority
                    &&& final(self).slots@[at as int] matches Some(slot) ==> slot.worker.authority
                        == *final(asked)
                    &&& #[trigger] call_ensures(
                        Authority::try_terminate_and_reap,
                        (asked,),
                        answer,
                    )
                    &&& told_to_end(old(self)@, final(self)@, at as int, answer)
                    &&& r == ended(answer, old(self).slots@[at as int]->0.identity)
                },
    {
        let ghost before = self@;
        self.mark_rejected(at);
        let ghost marked = self.slots@;
        let taken = self.slots[at].take();
        match taken {
            None => Err(AuthAdapterError::UnknownWorker),
            Some(slot) => {
                let mut slot = slot;
                let ghost held_before = slot;
                let reaped = slot.worker.try_terminate_and_reap();
                assert(slot == (WorkerSlot { worker: slot.worker, ..held_before }));
                let r = self.settle_termination(at, slot, reaped);
                proof {
                    let new = self.slots@[at as int];
                    assert(self.slots@ =~= marked.update(at as int, new));
                    assert(self.slots@ =~= before.slots.update(at as int, new));
                    lemma_stays_in_order(marked, self.last_worker_generation, at as int, new);
                }
                r
            },
        }
    }

    /// Rejects the record at `at` and makes one step of terminating its worker; `error` is
    /// reported once the worker is reaped.
    fn reject(&mut self, at: usize, error: AuthAdapterError<Authority::Failure>) -> (r: Result<
        AuthenticatedMachRecord,
        AuthAdapterError<Authority::Failure>,
    >)
        requires
            old(self).in_order(),
            at < old(self).slots@.len(),
            old(self).slots@[at as int] is Some,
        ensures
            final(self).in_order(),
            exists|
                asked: &mut Authority,
                answer: Result<Option<ReapedAuthWorker>, Authority::Failure>,
            |
                {
                    &&& *asked == old(self).slots@[at as int]->0.worker.authority
                    &&& final(self).slots@[at as int] matches Some(slot) ==> slot.worker.authority
                        == *final(asked)
                    &&& #[trigger] call_ensures(
                        Authority::try_terminate_and_reap,
                        (asked,),
                        answer,
                    )
                    &&& told_to_end(old(self)@, final(self)@, at as int, answer)
                    &&& r == refused_for(
                        ended(answer, old(self).slots@[at as int]->0.identity),
                        error,
                    )
                },
    {
        match self.terminate_slot(at) {
            Ok(()) => Err(error),
            Err(failure) => Err(failure),
        }
    }

    /// Judges an answer.
    pub fn judge(&self, received: &ReceivedAuthWorkerResult, clock: ClockSample) -> (r: Judgement<
        Authority::Failure,
    >)
        ensures
            r == judged(self.slots@, *received, clock),
    {
        let worker = received.receipt.worker;
        let at: usize = worker.slot as usize;
        if at >= self.slots.len() {
            return Judgement::Unknown;
        }
        match &self.slots[at] {
            None => Judgement::Unknown,
            Some(slot) => {
                if slot.identity.slot != worker.slot || slot.identity.generation
                    != worker.generation {
                    return Judgement::Unknown;
                }
                match &slot.pending {
                    None => Judgement::Refused(AuthAdapterError::ResultMismatch),
                    Some(pending) => {
                        let awaiting = match pending.outcome {
                            PendingOutcome::AwaitingResult => true,
                            _ => false,
                        };
                        let same_id = same_bytes(&received.receipt.job_id, &pending.job.job_id);
                        proof {
                            if same_id {
                                assert(received.receipt.job_id =~= pending.job.job_id);
                            }
                        }
                        if !same_id || !awaiting || !pending.job.same_job(&received.result.job) {
                            return Judgement::Refused(AuthAdapterError::ResultMismatch);
                        }
                        if pending.deadline.to_local_instant(clock).is_err() {
                            return Judgement::Refused(AuthAdapterError::DeadlineExpired);
                        }
                        if is_all_zero(&received.result.code_identity) {
                            return Judgement::Refused(AuthAdapterError::AuthenticationRejected);
                        }
                        Judgement::Accepted
                    },
                }
            },
        }
    }

    /// Accepts an answer from the receipt of its exact endpoint. A record is minted only where one
    /// observation of the worker finds it reaped after a clean exit.
    pub fn complete(
        &mut self,
        received: ReceivedAuthWorkerResult,
        clock: ClockSample,
        poll_clock: ClockSample,
    ) -> (r: Result<AuthenticatedMachRecord, AuthAdapterError<Authority::Failure>>)
        requires
            old(self).in_order(),
        ensures
            final(self).in_order(),
            ({
                let at = received.spec_worker().slot as int;
                let accepted = vouched(old(self)@, at, received.spec_result().code_identity);
                match judged(old(self).slots@, received, clock) {
                    Judgement::Unknown => {
                        &&& r == Err::<AuthenticatedMachRecord, _>(
                            AuthAdapterError::<Authority::Failure>::UnknownWorker,
                        )
                        &&& final(self)@ == old(self)@
                    },
                    Judgement::Refused(error) => exists|
                            asked: &mut Authority,
                            answer: Result<Option<ReapedAuthWorker>, Authority::Failure>,
                        |
                            {
                                &&& *asked == old(self).slots@[at]->0.worker.authority
                                &&& final(self).slots@[at] matches Some(slot)
                                    ==> slot.worker.authority == *final(asked)
                                &&& #[trigger] call_ensures(
                                    Authority::try_terminate_and_reap,
                                    (asked,),
                                    answer,
                                )
                                &&& told_to_end(old(self)@, final(self)@, at, answer)
                                &&& r == refused_for(ended(answer, received.spec_worker()), error)
                            },
                    Judgement::Accepted => match poll_course(
                        accepted.slots,
                        received.spec_worker(),
                        poll_clock,
                    ) {
                        PollCourse::Refused(_) => false,
                        PollCourse::Expired => exists|
                            asked: &mut Authority,
                            answer: Result<Option<ReapedAuthWorker>, Authority::Failure>,
                        |
                            {
                                &&& *asked == old(self).slots@[at]->0.worker.authority
                                &&& final(self).slots@[at] matches Some(slot)
                                    ==> slot.worker.authority == *final(asked)
                                &&& #[trigger] call_ensures(
                                    Authority::try_terminate_and_reap,
                                    (asked,),
                                    answer,
                                )
                                &&& told_to_end(accepted, final(self)@, at, answer)
                                &&& r == refused_for(
                                    ended(answer, received.spec_worker()),
                                    AuthAdapterError::<Authority::Failure>::DeadlineExpired,
                                )
                            },
                        PollCourse::Observed => exists|
                            asked: &mut Authority,
                            answer: Result<Option<ReapedAuthWorker>, Authority::Failure>,
                        |
                            {
                                &&& *asked == old(self).slots@[at]->0.worker.authority
                                &&& final(self).slots@[at] matches Some(slot)
                                    ==> slot.worker.authority == *final(asked)
                                &&& #[trigger] call_ensures(
                                    Authority::try_reap_after_result,
                                    (asked,),
                                    answer,
                                )
                                &&& settled(accepted, final(self)@, at, answer, r)
                            },
                    },
                }
            }),
    {
        let ghost before = self.slots@;
        let worker = received.receipt.worker;
        let at: usize = worker.slot as usize;
        match self.judge(&received, clock) {
            Judgement::Unknown => Err(AuthAdapterError::UnknownWorker),
            Judgement::Refused(error) => self.reject(at, error),
            Judgement::Accepted => {
                let code_identity = received.result.code_identity;
                let taken = self.slots[at].take();
                match taken {
                    None => {},
                    Some(slot) => {
                        let pending = match slot.pending {
                            None => None,
                            Some(record) => Some(
                                PendingRecord {
                                    raw: record.raw,
                                    job: record.job,
                                    deadline: record.deadline,
                                    outcome: PendingOutcome::Validated(code_identity),
                                },
                            ),
                        };
                        self.slots[at] = Some(
                            WorkerSlot {
                                identity: slot.identity,
                                worker: slot.worker,
                                endpoint: slot.endpoint,
                                pending,
                            },
                        );
                    },
                }
                proof {
                    let new = self.slots@[at as int];
                    assert(self.slots@ =~= before.update(at as int, new));
                    lemma_stays_in_order(before, self.last_worker_generation, at as int, new);
                    assert(self@ =~= vouched(old(self)@, at as int, code_identity));
                }
                self.poll_completed(worker, poll_clock)
            },
        }
    }

    /// Records one observation of the worker of a validated slot that was taken out of `at`. What
    /// the slot held is in the record that is minted, or released, once the worker is reaped.
    pub fn settle_completed(
        &mut self,
        at: usize,
        slot: WorkerSlot<Authority>,
        observed: Result<AuthWorkerRetirement, Authority::Failure>,
    ) -> (r: Result<AuthenticatedMachRecord, AuthAdapterError<Authority::Failure>>)
        requires
            at < old(self).slots@.len(),
            old(self).slots@[at as int] is None,
            slot.pending matches Some(pending) && pending.outcome is Validated,
        ensures
            final(self).last_worker_generation == old(self).last_worker_generation,
            match observed {
                Err(failure) => {
                    &&& r == Err::<AuthenticatedMachRecord, _>(
                        AuthAdapterError::<Authority::Failure>::WorkerCleanupFailed(failure),
                    )
                    &&& final(self).slots@ == old(self).slots@.update(at as int, Some(slot))
                    &&& final(self).released@ == old(self).released@
                },
                Ok(AuthWorkerRetirement::Pending) => {
                    &&& r == Err::<AuthenticatedMachRecord, _>(
                        AuthAdapterError::<Authority::Failure>::WorkerRetirementPending(
                            slot.identity,
                        ),
                    )
                    &&& final(self).slots@ == old(self).slots@.update(at as int, Some(slot))
                    &&& final(self).released@ == old(self).released@
                },
                Ok(AuthWorkerRetirement::Rejected) => {
                    &&& r == Err::<AuthenticatedMachRecord, _>(
                        AuthAdapterError::<Authority::Failure>::WorkerExitedAbnormally,
                    )
                    &&& final(self).slots@ == old(self).slots@
                    &&& final(self).released@ == old(self).released@.with_slot(slot)
                },
                Ok(AuthWorkerRetirement::Clean) => {
                    &&& r matches Ok(record) && mints(record, slot)
                    &&& final(self).slots@ == old(self).slots@
                    &&& final(self).released@ == old(self).released@.with(None, slot.endpoint)
                },
            },
    {
        match observed {
            Err(failure) => {
                self.slots[at] = Some(slot);
                Err(AuthAdapterError::WorkerCleanupFailed(failure))
            },
            Ok(AuthWorkerRetirement::Pending) => {
                let identity = slot.identity;
                self.slots[at] = Some(slot);
                Err(AuthAdapterError::WorkerRetirementPending(identity))
            },
            Ok(AuthWorkerRetirement::Rejected) => {
                self.released.add_slot(slot);
                Err(AuthAdapterError::WorkerExitedAbnormally)
            },
            Ok(AuthWorkerRetirement::Clean) => {
                self.released.add(None, slot.endpoint);
                match slot.pending {
                    Some(pending) => match pending.outcome {
                        PendingOutcome::Validated(code_identity) => Ok(
                            AuthenticatedMachRecord {
                                raw: pending.raw,
                                code_identity,
                                deadline: pending.deadline,
                            },
                        ),
                        _ => Err(AuthAdapterError::ResultMismatch),
                    },
                    None => Err(AuthAdapterError::UnknownWorker),
                }
            },
        }
    }

    /// Makes one observation of the worker that vouched for its record: what its authority answers
    /// decides.
    pub fn poll_completed(&mut self, worker: AuthWorkerIdentity, clock: ClockSample) -> (r: Result<
        AuthenticatedMachRecord,
        AuthAdapterError<Authority::Failure>,
    >)
        requires
            old(self).in_order(),
        ensures
            final(self).in_order(),
            ({
                let at = worker.slot as int;
                match poll_course(old(self).slots@, worker, clock) {
                    PollCourse::Refused(error) => {
                        &&& r == Err::<AuthenticatedMachRecord, _>(error)
                        &&& final(self)@ == old(self)@
                    },
                    PollCourse::Expired => exists|
                            asked: &mut Authority,
                            answer: Result<Option<ReapedAuthWorker>, Authority::Failure>,
                        |
                            {
                                &&& *asked == old(self).slots@[at]->0.worker.authority
                                &&& final(self).slots@[at] matches Some(slot)
                                    ==> slot.worker.authority == *final(asked)
                                &&& #[trigger] call_ensures(
                                    Authority::try_terminate_and_reap,
                                    (asked,),
                                    answer,
                                )
                                &&& told_to_end(old(self)@, final(self)@, at, answer)
                                &&& r == refused_for(
                                    ended(answer, worker),
                                    AuthAdapterError::<Authority::Failure>::DeadlineExpired,
                                )
                            },
                    PollCourse::Observed => exists|
                            asked: &mut Authority,
                            answer: Result<Option<ReapedAuthWorker>, Authority::Failure>,
                        |
                            {
                                &&& *asked == old(self).slots@[at]->0.worker.authority
                                &&& final(self).slots@[at] matches Some(slot)
                                    ==> slot.worker.authority == *final(asked)
                                &&& #[trigger] call_ensures(
                                    Authority::try_reap_after_result,
                                    (asked,),
                                    answer,
                                )
                                &&& settled(old(self)@, final(self)@, at, answer, r)
                            },
                }
            }),
    {
        let ghost before = self.slots@;
        let at: usize = worker.slot as usize;
        if at >= self.slots.len() {
            return Err(AuthAdapterError::UnknownWorker);
        }
        let deadline = match &self.slots[at] {
            None => {
                return Err(AuthAdapterError::UnknownWorker);
            },
            Some(slot) => {
                if slot.identity.slot != worker.slot || slot.identity.generation
                    != worker.generation {
                    return Err(AuthAdapterError::UnknownWorker);
                }
                match &slot.pending {
                    None => {
                        return Err(AuthAdapterError::UnknownWorker);
                    },
                    Some(pending) => match pending.outcome {
                        PendingOutcome::Validated(_) => pending.deadline,
                        _ => {
                            return Err(AuthAdapterError::ResultMismatch);
                        },
                    },
                }
            },
        };
        if deadline.to_local_instant(clock).is_err() {
            return self.reject(at, AuthAdapterError::DeadlineExpired);
        }
        let taken = self.slots[at].take();
        match taken {
            None => Err(AuthAdapterError::UnknownWorker),
            Some(slot) => {
                let mut slot = slot;
                let ghost held_before = slot;
                let observed = slot.worker.try_reap_after_result();
                assert(slot == (WorkerSlot { worker: slot.worker, ..held_before }));
                let r = self.settle_completed(at, slot, observed);
                proof {
                    let new = self.slots@[at as int];
                    assert(self.slots@ =~= before.update(at as int, new));
                    lemma_stays_in_order(before, self.last_worker_generation, at as int, new);
                }
                r
            },
        }
    }

    /// Ends a wedged or misbehaving worker, whatever it holds: one step of terminating it is made.
    pub fn cancel(&mut self, worker: AuthWorkerIdentity) -> (r: Result<
        (),
        AuthAdapterError<Authority::Failure>,
    >)
        requires
            old(self).in_order(),
        ensures
            final(self).in_order(),
            ({
                let at = worker.slot as int;
                if known(old(self).slots@, worker) {
                    exists|
                            asked: &mut Authority,
                            answer: Result<Option<ReapedAuthWorker>, Authority::Failure>,
                        |
                            {
                                &&& *asked == old(self).slots@[at]->0.worker.authority
                                &&& final(self).slots@[at] matches Some(slot)
                                    ==> slot.worker.authority == *final(asked)
                                &&& #[trigger] call_ensures(
                                    Authority::try_terminate_and_reap,
                                    (asked,),
                                    answer,
                                )
                                &&& told_to_end(old(self)@, final(self)@, at, answer)
                                &&& r == ended(answer, worker)
                            }
                } else {
                    &&& r == Err::<(), _>(AuthAdapterError::<Authority::Failure>::UnknownWorker)
                    &&& final(self)@ == old(self)@
                }
            }),
    {
        let at: usize = worker.slot as usize;
        if at >= self.slots.len() {
            return Err(AuthAdapterError::UnknownWorker);
        }
        match &self.slots[at] {
            None => {
                return Err(AuthAdapterError::UnknownWorker);
            },
            Some(slot) => {
                if slot.identity.slot != worker.slot || slot.identity.generation
                    != worker.generation {
                    return Err(AuthAdapterError::UnknownWorker);
                }
            },
        }
        self.terminate_slot(at)
    }

    /// Puts a fresh worker into an empty slot. Its number has to be greater than every number
    /// that the pool has seen. A worker that is refused is terminated and reaped, and its endpoint
    /// released.
    pub fn install_replacement(
        &mut self,
        slot_index: u8,
        generation: FreshAuthWorkerGeneration,
        worker: ExactAuthWorker<Authority>,
        endpoint: AuthWorkerEndpoint,
    ) -> (r: Result<AuthWorkerIdentity, AuthAdapterError<Authority::Failure>>)
        requires
            old(self).in_order(),
            worker.armed,
        ensures
            final(self).in_order(),
            if slot_index < old(self).slots@.len() && old(self).slots@[slot_index as int] is None
                && generation@ > old(self).last_worker_generation {
                let identity = AuthWorkerIdentity { slot: slot_index, generation: generation@ };
                &&& r == Ok::<_, AuthAdapterError<Authority::Failure>>(identity)
                &&& final(self).last_worker_generation == generation@
                &&& final(self).released@ == old(self).released@
                &&& final(self).slots@ == old(self).slots@.update(
                    slot_index as int,
                    Some(
                        WorkerSlot { identity, worker, endpoint: Some(endpoint), pending: None },
                    ),
                )
            } else {
                &&& r == Err::<AuthWorkerIdentity, _>(
                    AuthAdapterError::<Authority::Failure>::InvalidReplacement,
                )
                &&& final(self).slots@ == old(self).slots@
                &&& final(self).last_worker_generation == old(self).last_worker_generation
                &&& final(self).released@ == old(self).released@.with(None, Some(endpoint))
                &&& ended_at_all_costs(worker)
            },
    {
        let ghost before = self.slots@;
        let index: usize = slot_index as usize;
        let number: u64 = generation.get();
        if index >= self.slots.len() || self.slots[index].is_some() || number
            <= self.last_worker_generation {
            let mut worker = worker;
            worker.emergency_cleanup();
            self.released.add(None, Some(endpoint));
            return Err(AuthAdapterError::InvalidReplacement);
        }
        let identity = AuthWorkerIdentity { slot: slot_index, generation: number };
        self.last_worker_generation = number;
        self.slots[index] = Some(
            WorkerSlot { identity, worker, endpoint: Some(endpoint), pending: None },
        );
        proof {
            let new = self.slots@[index as int];
            assert(self.slots@ =~= before.update(index as int, new));
            lemma_replacement_in_order(
                before,
                old(self).last_worker_generation,
                index as int,
                new,
                number,
            );
        }
        Ok(identity)
    }

    /// Cleans up every worker that is still owed it: the authority of each is asked to terminate
    /// and reap it. What the slots hold besides stays where it is.
    pub fn emergency_cleanup(&mut self)
        ensures
            final(self).last_worker_generation == old(self).last_worker_generation,
            final(self).released@ == old(self).released@,
            final(self).slots@.len() == old(self).slots@.len(),
            forall|i: int|
                #![trigger final(self).slots@[i]]
                0 <= i < old(self).slots@.len() ==> cleaned(
                    old(self).slots@[i],
                    final(self).slots@[i],
                ),
            forall|i: int|
                0 <= i < old(self).slots@.len() && owes_cleanup(#[trigger] old(self).slots@[i])
                    ==> exists|
                    asked: &mut Authority,
                    reaped: ReapedAuthWorker,
                |
                    {
                        &&& *asked == old(self).slots@[i]->0.worker.authority
                        &&& *final(asked) == final(self).slots@[i]->0.worker.authority
                        &&& #[trigger] call_ensures(
                            Authority::emergency_terminate_and_reap,
                            (asked,),
                            reaped,
                        )
                    },
    {
        let ghost before = self.slots@;
        let mut i: usize = 0;
        while i < self.slots.len()
            invariant
                before == old(self).slots@,
                i <= self.slots@.len() == before.len(),
                self.last_worker_generation == old(self).last_worker_generation,
                self.released@ == old(self).released@,
                forall|k: int| i <= k < before.len() ==> #[trigger] self.slots@[k] == before[k],
                forall|k: int|
                    0 <= k < i ==> cleaned(before[k], #[trigger] self.slots@[k]),
                forall|k: int|
                    0 <= k < i && owes_cleanup(#[trigger] before[k]) ==> exists|
                        asked: &mut Authority,
                        reaped: ReapedAuthWorker,
                    |
                        {
                            &&& *asked == before[k]->0.worker.authority
                            &&& *final(asked) == self.slots@[k]->0.worker.authority
                            &&& #[trigger] call_ensures(
                                Authority::emergency_terminate_and_reap,
                                (asked,),
                                reaped,
                            )
                        },
            decreases self.slots@.len() - i,
        {
            let taken = self.slots[i].take();
            match taken {
                None => {},
                Some(slot) => {
                    let mut slot = slot;
                    slot.worker.emergency_cleanup();
                    self.slots[i] = Some(slot);
                },
            }
            i += 1;
        }
    }

    /// Hands out what slots and refusals have given up so far.
    pub fn take_released(&mut self) -> (r: Released)
        ensures
            r@ == old(self).released@,
            final(self).released@ == ReleasedModel::none(),
            final(self).slots@ == old(self).slots@,
            final(self).last_worker_generation == old(self).last_worker_generation,
    {
        let mut taken = Released::none();
        std::mem::swap(&mut taken, &mut self.released);
        taken
    }
}

/// A slot whose worker, if there is one, is owed no cleanup any more; the rest of it is the same,
/// and so is the authority of a worker that was not armed.
pub open spec fn cleaned<A: ExactAuthWorkerAuthority>(
    before: Option<WorkerSlot<A>>,
    after: Option<WorkerSlot<A>>,
) -> bool {
    match (before, after) {
        (None, None) => true,
        (Some(old), Some(new)) => {
            &&& new == (WorkerSlot { worker: new.worker, ..old })
            &&& !new.worker.armed
            &&& !old.worker.armed ==> new.worker == old.worker
        },
        _ => false,
    }
}

/// A pool stays in order when an empty slot gets an idle worker with a greater number.
proof fn lemma_replacement_in_order<A: ExactAuthWorkerAuthority>(
    slots: Slots<A>,
    last: u64,
    at: int,
    slot: Option<WorkerSlot<A>>,
    number: u64,
)
    requires
        slots_in_order(slots, last),
        0 <= at < slots.len(),
        slots[at] is None,
        number > last,
        slot matches Some(new) && {
            &&& slot_in_order(new, at, number)
            &&& new.identity.generation == number
            &&& new.pending is None
        },
    ensures
        slots_in_order(slots.update(at, slot), number),
{
    let updated = slots.update(at, slot);
    assert forall|i: int, j: int| #[trigger]
        busy(updated, i) && #[trigger] busy(updated, j) && i != j implies held(
        updated,
        i,
    ).job.job_id@ != held(updated, j).job.job_id@ by {
        assert(busy(slots, i) && busy(slots, j));
    }
    assert forall|uid: u32| #[trigger] load(updated, uid) <= MAX_PENDING_PER_UID by {
        lemma_load_update(slots, at, slot, uid);
        assert(load(slots, uid) <= MAX_PENDING_PER_UID);
    }
}

/// A record is minted only for the exact answer to its own job, and only for a worker whose
/// authority observed that it was reaped after a clean exit: the sender's bytes and identity facts
/// are those that were dispatched, the digest in the job is theirs, the answer repeated that job
/// and carried the identity, and it was in time.
pub proof fn law_minted_records_are_bound<A: ExactAuthWorkerAuthority>(
    before: PoolModel<A>,
    after: PoolModel<A>,
    received: ReceivedAuthWorkerResult,
    clock: ClockSample,
    poll_clock: ClockSample,
    observed: Result<Option<ReapedAuthWorker>, A::Failure>,
    record: AuthenticatedMachRecord,
)
    requires
        slots_in_order(before.slots, before.last_worker_generation),
        judged(before.slots, received, clock) is Accepted,
        ({
            let at = received.spec_worker().slot as int;
            let accepted = vouched(before, at, received.spec_result().code_identity);
            &&& poll_course(accepted.slots, received.spec_worker(), poll_clock) is Observed
            &&& settled(
                accepted,
                after,
                at,
                observed,
                Ok::<AuthenticatedMachRecord, AuthAdapterError<A::Failure>>(record),
            )
        }),
    ensures
        ({
            let pending = held(before.slots, received.spec_worker().slot as int);
            &&& observed matches Ok(Some(proof)) && proof.spec_clean()
            &&& record.spec_raw() == pending.raw
            &&& record.spec_deadline() == pending.deadline
            &&& record.spec_code_identity() == received.spec_result().code_identity
            &&& !bytes::all_zero(record.spec_code_identity()@)
            &&& received.spec_result().job == pending.job
            &&& received.spec_result().job.frame_digest@ == digest::sha256_of(
                message::digest_message(record.spec_raw()@),
            )
            &&& record.spec_deadline().local_instant(clock) is Ok
            &&& record.spec_deadline().local_instant(poll_clock) is Ok
        }),
{
}

/// A record is minted at most once: afterwards its worker is unknown to the pool.
pub proof fn law_minting_retires_the_worker<A: ExactAuthWorkerAuthority>(
    before: PoolModel<A>,
    after: PoolModel<A>,
    worker: AuthWorkerIdentity,
    clock: ClockSample,
    observed: Result<Option<ReapedAuthWorker>, A::Failure>,
    result: Result<AuthenticatedMachRecord, AuthAdapterError<A::Failure>>,
)
    requires
        poll_course(before.slots, worker, clock) is Observed,
        settled(before, after, worker.slot as int, observed, result),
        result is Ok,
    ensures
        known(before.slots, worker),
        !known(after.slots, worker),
        forall|i: int|
            0 <= i < before.slots.len() && i != worker.slot ==> after.slots[i] == before.slots[i],
{
}

/// An observation mints a record exactly where it finds the worker reaped after a clean exit.
pub proof fn law_minting_needs_a_clean_exit<A: ExactAuthWorkerAuthority>(
    before: PoolModel<A>,
    after: PoolModel<A>,
    at: int,
    observed: Result<Option<ReapedAuthWorker>, A::Failure>,
    result: Result<AuthenticatedMachRecord, AuthAdapterError<A::Failure>>,
)
    requires
        settled(before, after, at, observed, result),
    ensures
        result is Ok <==> (observed matches Ok(Some(proof)) && proof.spec_clean()),
{
}

/// A job is free again once the slot of its worker is emptied.
pub proof fn law_emptied_slot_frees_its_job<A: ExactAuthWorkerAuthority>(
    before: PoolModel<A>,
    at: int,
)
    requires
        slots_in_order(before.slots, before.last_worker_generation),
        busy(before.slots, at),
    ensures
        !live(before.slots.update(at, None), held(before.slots, at).job.job_id@),
{
    let after = before.slots.update(at, None);
    assert forall|i: int| #[trigger] busy(after, i) implies held(after, i).job.job_id@ != held(
        before.slots,
        at,
    ).job.job_id@ by {
        assert(busy(before.slots, i) && busy(before.slots, at));
    }
}

/// No reply right is lost: after a step of ending the worker at `at`, or after one observation of
/// it, the right of the record that it held is still in its slot, or is released, or answers for
/// the record that was minted.
pub proof fn law_no_reply_right_is_lost<A: ExactAuthWorkerAuthority>(
    before: PoolModel<A>,
    after: PoolModel<A>,
    at: int,
    answer: Result<Option<ReapedAuthWorker>, A::Failure>,
    result: Result<AuthenticatedMachRecord, AuthAdapterError<A::Failure>>,
)
    requires
        busy(before.slots, at),
        told_to_end(before, after, at, answer) || settled(before, after, at, answer, result),
    ensures
        ({
            let reply = held(before.slots, at).raw.reply;
            ||| busy(after.slots, at) && held(after.slots, at).raw.reply == reply
            ||| after.released.rights == before.released.rights.push(reply)
            ||| result is Ok && result->Ok_0.spec_raw().reply == reply
        }),
{
}

/// The clock at the four moments of a receive: when the message was read, when the service's cap
/// was looked at, when the deadline was chosen, and when the record was dispatched.
#[derive(Clone, Copy, Debug, PartialEq, Eq, Structural)]
pub struct ReceiveClocks {
    pub received: ClockSample,
    pub capped: ClockSample,
    pub chosen: ClockSample,
    pub dispatched: ClockSample,
}

impl<Authority: ExactAuthWorkerAuthority> AuthWorkerPool<Authority> {
    /// Reads one delivered message and gives its record to the first idle worker, under the earlier
    /// of the service's cap and the deadline that the record itself carries. A message that is no
    /// canonical request in time is left whole, and the caller destroys what it carries; of any
    /// other that is refused the reply right is released. Nothing is taken from the bytes but how
    /// much the work is shortened: the record only waits for the answer of its worker.
    pub fn receive_and_dispatch_capped(
        &mut self,
        bytes: &[u8],
        receive_port: u32,
        job_id: FreshAuthJobId,
        receive_deadline: SupervisorDeadline,
        auth_cap: SupervisorDeadline,
        clocks: ReceiveClocks,
    ) -> (r: Result<DispatchedAuthJob, AuthAdapterError<Authority::Failure>>)
        requires
            old(self).in_order(),
        ensures
            final(self).in_order(),
            final(self).last_worker_generation == old(self).last_worker_generation,
            match r {
                Err(error) => {
                    &&& final(self).slots@ == old(self).slots@
                    &&& final(self).released@ == (if error.spec_leaves_message() {
                        old(self).released@
                    } else {
                        old(self).released@.with(
                            Some(MachSendOnceRight { name: message::request_in(bytes@).reply }),
                            None,
                        )
                    })
                },
                Ok(_) => final(self).released@ == old(self).released@,
            },
            ({
                let record = message::request_in(bytes@);
                let late = receive_deadline.local_instant(clocks.received) is Err;
                if late && bytes@.len() >= mach::MACH_HEADER_BYTES && mach::MachMsgHeader::spec_at(
                    bytes@,
                    0,
                ).bits < mach::MACH_MSGH_BITS_COMPLEX {
                    r matches Err(error) && error
                        == AuthAdapterError::<Authority::Failure>::DeadlineExpired
                } else if !message::canonical_request(bytes@, receive_port) {
                    r matches Err(error) && error
                        == AuthAdapterError::<Authority::Failure>::MalformedMachMessage
                } else {
                    match message::chosen_deadline(
                        record.bytes,
                        auth_cap,
                        clocks.capped,
                        clocks.chosen,
                    ) {
                        Err(expected) => r matches Err(error) && error
                            == AuthAdapterError::<Authority::Failure>::Protocol(expected),
                        Ok(deadline) => match r {
                            Err(error) => forall|k: int|
                                #[trigger] admission(
                                    old(self).slots@,
                                    record,
                                    job_id@,
                                    deadline,
                                    clocks.dispatched,
                                    k,
                                ) == Err::<(), AuthAdapterError<Authority::Failure>>(error),
                            Ok(dispatched) => {
                                let job = dispatched.spec_job()@;
                                let at = job.worker.slot as int;
                                &&& admission(
                                    old(self).slots@,
                                    record,
                                    job_id@,
                                    deadline,
                                    clocks.dispatched,
                                    at,
                                ) is Ok
                                &&& job == (worker_frame::JobModel {
                                    worker: old(self).slots@[at]->0.identity,
                                    job_id: job_id@,
                                    audit_identity: record.audit_identity,
                                    effective_uid: record.effective_uid,
                                    effective_gid: record.effective_gid,
                                    frame_digest: digest::sha256_of(
                                        message::digest_message(record),
                                    ),
                                    deadline: deadline.0,
                                })
                                &&& forall|k: int|
                                    0 <= k < at ==> !#[trigger] idle(old(self).slots@, k)
                                &&& final(self).slots@ == old(self).slots@.update(
                                    at,
                                    Some(
                                        WorkerSlot {
                                            endpoint: None,
                                            pending: Some(
                                                PendingRecord {
                                                    raw: held(final(self).slots@, at).raw,
                                                    job: dispatched.spec_job(),
                                                    deadline,
                                                    outcome: PendingOutcome::AwaitingResult,
                                                },
                                            ),
                                            ..old(self).slots@[at]->0
                                        },
                                    ),
                                )
                                &&& held(final(self).slots@, at).raw@ == record
                                &&& dispatched.spec_request() == old(
                                    self,
                                ).slots@[at]->0.endpoint->0.request
                                &&& dispatched.spec_receipt().spec_worker() == job.worker
                                &&& dispatched.spec_receipt().spec_job_id()@ == job.job_id
                                &&& dispatched.spec_receipt().spec_result() == old(
                                    self,
                                ).slots@[at]->0.endpoint->0.result
                                &&& dispatched.spec_receipt().spec_deadline() == deadline
                                &&& dispatched.spec_receipt().spec_bytes() == Seq::<u8>::empty()
                            },
                        },
                    }
                }
            }),
    {
        let raw: RawMachRecord = match read_request(
            bytes,
            receive_port,
            receive_deadline,
            clocks.received,
        ) {
            Ok(raw) => raw,
            Err(error) => {
                return Err(error);
            },
        };
        match raw.authentication_deadline(auth_cap, clocks.capped, clocks.chosen) {
            Err(error) => {
                self.released.add(Some(raw.reply), None);
                Err(AuthAdapterError::Protocol(error))
            },
            Ok(deadline) => {
                let r = self.dispatch(raw, job_id, deadline, clocks.dispatched);
                assert(r matches Err(error) ==> #[trigger] admission(
                    old(self).slots@,
                    raw@,
                    job_id@,
                    deadline,
                    clocks.dispatched,
                    0,
                ) == Err::<(), AuthAdapterError<Authority::Failure>>(error));
                r
            },
        }
    }
}

/// Failure on the private pipes of a worker.
#[derive(Clone, Copy, Debug, PartialEq, Eq, Structural)]
pub enum AuthWorkerPipeError {
    Native(i32),
    DeadlineExpired,
    ShortWrite,
    PrematureEof,
    ExtraResultBytes,
    InvalidResult(AuthWorkerWireError),
}

/// A pipe failure, and the worker that has to be cleaned up for it.
#[derive(Clone, Copy, Debug, PartialEq, Eq, Structural)]
pub struct AuthWorkerPipeFailure {
    pub worker: AuthWorkerIdentity,
    pub error: AuthWorkerPipeError,
}

impl AuthWorkerPipeFailure {
    /// The worker.
    pub fn worker(&self) -> (r: AuthWorkerIdentity)
        ensures
            r == self.worker,
    {
        self.worker
    }

    /// The failure.
    pub fn error(&self) -> (r: AuthWorkerPipeError)
        ensures
            r == self.error,
    {
        self.error
    }
}

impl DispatchedAuthJob {

    /// The worker, to be retained for cancellation.
    pub fn worker(&self) -> (r: AuthWorkerIdentity)
        ensures
            r == self.spec_job().worker,
    {
        self.job.worker
    }

    /// The descriptor to write the job to.
    pub fn request(&self) -> (r: i32)
        ensures
            r == self.spec_request(),
    {
        self.request
    }

    /// The descriptor that the answer comes from.
    pub fn result(&self) -> (r: i32)
        ensures
            r == self.spec_receipt().spec_result(),
    {
        self.reply_receipt.result
    }

    /// The one frame to write, unless the time is up.
    pub fn frame(&self, clock: ClockSample) -> (r: Result<Vec<u8>, AuthWorkerPipeFailure>)
        ensures
            match r {
                Ok(frame) => {
                    &&& SupervisorDeadline(self.spec_job().deadline).local_instant(clock) is Ok
                    &&& frame@ == worker_frame::job_bytes(self.spec_job()@)
                    &&& frame@.len() == AUTH_WORKER_JOB_BYTES
                },
                Err(failure) => {
                    &&& SupervisorDeadline(self.spec_job().deadline).local_instant(clock) is Err
                    &&& failure == (AuthWorkerPipeFailure {
                        worker: self.spec_job().worker,
                        error: AuthWorkerPipeError::DeadlineExpired,
                    })
                },
            },
    {
        if SupervisorDeadline::from_wire(self.job.deadline).to_local_instant(clock).is_err() {
            return Err(
                AuthWorkerPipeFailure {
                    worker: self.job.worker,
                    error: AuthWorkerPipeError::DeadlineExpired,
                },
            );
        }
        Ok(self.job.encode_pipe_frame())
    }

    /// Spends the job on one write of its frame: `written` and `error` as `write` gave them.
    pub fn submit(self, written: i64, error: i32) -> (r: Result<
        AuthWorkerReplyReceipt,
        AuthWorkerPipeFailure,
    >)
        ensures
            match r {
                Ok(receipt) => written == AUTH_WORKER_JOB_BYTES && receipt == self.spec_receipt(),
                Err(failure) => {
                    &&& written != AUTH_WORKER_JOB_BYTES
                    &&& failure.worker == self.spec_job().worker
                    &&& failure.error == (if written >= 0 {
                        AuthWorkerPipeError::ShortWrite
                    } else {
                        AuthWorkerPipeError::Native(error)
                    })
                },
            },
    {
        if written == AUTH_WORKER_JOB_BYTES as i64 {
            return Ok(self.reply_receipt);
        }
        let failure = if written >= 0 {
            AuthWorkerPipeError::ShortWrite
        } else {
            AuthWorkerPipeError::Native(error)
        };
        Err(AuthWorkerPipeFailure { worker: self.job.worker, error: failure })
    }

    /// Gives the parts away.
    pub fn into_parts(self) -> (r: (AuthWorkerJob, AuthWorkerReplyReceipt))
        ensures
            r == (self.spec_job(), self.spec_receipt()),
    {
        (self.job, self.reply_receipt)
    }
}

/// What one read from the result pipe gave.
pub enum PipeRead {
    /// These bytes, at least one.
    Bytes(Vec<u8>),
    /// The end of the pipe.
    End,
    /// An error.
    Error(i32),
}

/// What follows from one read.
pub enum AuthWorkerResultPoll {
    /// There is more to read at once.
    Continue(AuthWorkerReplyReceipt),
    /// Nothing is there yet.
    Pending(AuthWorkerReplyReceipt),
    /// The answer is complete.
    Complete(ReceivedAuthWorkerResult),
}

/// Whether nothing came, but something still may.
pub open spec fn transient(error: i32) -> bool {
    error == EINTR || error == EAGAIN
}

impl AuthWorkerReplyReceipt {
    /// The receipt with more bytes read.
    pub open spec fn advanced(self, other: AuthWorkerReplyReceipt, more: Seq<u8>) -> bool {
        &&& other.spec_worker() == self.spec_worker()
        &&& other.spec_job_id() == self.spec_job_id()
        &&& other.spec_result() == self.spec_result()
        &&& other.spec_deadline() == self.spec_deadline()
        &&& other.spec_bytes() == self.spec_bytes() + more
    }

    /// Whether one read from the result pipe had this outcome.
    pub open spec fn polled(
        self,
        read: PipeRead,
        outcome: Result<AuthWorkerResultPoll, AuthWorkerPipeFailure>,
    ) -> bool {
        &&& outcome matches Err(failure) ==> failure.worker == self.spec_worker()
        &&& match read {
            PipeRead::Error(error) => if transient(error) {
                outcome matches Ok(AuthWorkerResultPoll::Pending(receipt)) && receipt == self
            } else {
                outcome matches Err(failure) && failure.error == AuthWorkerPipeError::Native(error)
            },
            PipeRead::Bytes(more) => if self.spec_bytes().len() < AUTH_WORKER_RESULT_BYTES {
                outcome matches Ok(AuthWorkerResultPoll::Continue(receipt)) && self.advanced(
                    receipt,
                    more@,
                )
            } else {
                outcome matches Err(failure) && failure.error
                    == AuthWorkerPipeError::ExtraResultBytes
            },
            PipeRead::End => if self.spec_bytes().len() < AUTH_WORKER_RESULT_BYTES {
                outcome matches Err(failure) && failure.error == AuthWorkerPipeError::PrematureEof
            } else {
                match worker_frame::parsed_result(self.spec_bytes()) {
                    Ok((job, code_identity)) => outcome matches Ok(
                        AuthWorkerResultPoll::Complete(received),
                    ) && {
                        &&& received.spec_worker() == self.spec_worker()
                        &&& received.spec_job_id() == self.spec_job_id()
                        &&& received.spec_result().job@ == job
                        &&& received.spec_result().code_identity@ == code_identity
                    },
                    Err(error) => outcome matches Err(failure) && failure.error
                        == AuthWorkerPipeError::InvalidResult(error),
                }
            },
        }
    }

    /// The worker, to be retained for cancellation.
    pub fn worker(&self) -> (r: AuthWorkerIdentity)
        ensures
            r == self.spec_worker(),
    {
        self.worker
    }

    /// The descriptor to read.
    pub fn descriptor(&self) -> (r: i32)
        ensures
            r == self.spec_result(),
    {
        self.result
    }

    /// How many bytes the next read may ask for: the rest of the frame, or one byte that has to
    /// be missing. Refused once the time is up.
    pub fn next_read(&self, clock: ClockSample) -> (r: Result<usize, AuthWorkerPipeFailure>)
        ensures
            match r {
                Ok(count) => {
                    &&& self.spec_deadline().local_instant(clock) is Ok
                    &&& count == (if self.spec_bytes().len() < AUTH_WORKER_RESULT_BYTES {
                        AUTH_WORKER_RESULT_BYTES - self.spec_bytes().len()
                    } else {
                        1
                    })
                },
                Err(failure) => {
                    &&& self.spec_deadline().local_instant(clock) is Err
                    &&& failure == (AuthWorkerPipeFailure {
                        worker: self.spec_worker(),
                        error: AuthWorkerPipeError::DeadlineExpired,
                    })
                },
            },
    {
        proof {
            use_type_invariant(self);
        }
        if self.deadline.to_local_instant(clock).is_err() {
            return Err(self.failure(AuthWorkerPipeError::DeadlineExpired));
        }
        if self.bytes.len() < AUTH_WORKER_RESULT_BYTES {
            Ok(AUTH_WORKER_RESULT_BYTES - self.bytes.len())
        } else {
            Ok(1)
        }
    }

    /// Takes what one read gave. The frame has to be complete, and the pipe has to end there.
    pub fn poll(self, read: PipeRead) -> (r: Result<AuthWorkerResultPoll, AuthWorkerPipeFailure>)
        requires
            read matches PipeRead::Bytes(more) ==> 0 < more@.len() && (self.spec_bytes().len()
                < AUTH_WORKER_RESULT_BYTES ==> self.spec_bytes().len() + more@.len()
                <= AUTH_WORKER_RESULT_BYTES),
        ensures
            self.polled(read, r),
    {
        proof {
            use_type_invariant(&self);
        }
        let worker = self.worker;
        match read {
            PipeRead::Error(error) => {
                if error == EINTR || error == EAGAIN {
                    return Ok(AuthWorkerResultPoll::Pending(self));
                }
                Err(self.failure(AuthWorkerPipeError::Native(error)))
            },
            PipeRead::Bytes(more) => {
                if self.bytes.len() >= AUTH_WORKER_RESULT_BYTES {
                    return Err(self.failure(AuthWorkerPipeError::ExtraResultBytes));
                }
                let ghost before = self.bytes@;
                let ghost added = more@;
                let mut bytes = self.bytes;
                let mut more = more;
                bytes.append(&mut more);
                assert(bytes@ =~= before + added);
                Ok(
                    AuthWorkerResultPoll::Continue(
                        AuthWorkerReplyReceipt {
                            worker: self.worker,
                            job_id: self.job_id,
                            result: self.result,
                            deadline: self.deadline,
                            bytes,
                        },
                    ),
                )
            },
            PipeRead::End => {
                if self.bytes.len() < AUTH_WORKER_RESULT_BYTES {
                    return Err(self.failure(AuthWorkerPipeError::PrematureEof));
                }
                let frame = copy_bytes(&self.bytes);
                match ReceivedAuthWorkerResult::from_private_pipe(self, &frame) {
                    Ok(received) => Ok(AuthWorkerResultPoll::Complete(received)),
                    Err(error) => Err(
                        AuthWorkerPipeFailure {
                            worker,
                            error: AuthWorkerPipeError::InvalidResult(error),
                        },
                    ),
                }
            },
        }
    }

    fn failure(&self, error: AuthWorkerPipeError) -> (r: AuthWorkerPipeFailure)
        ensures
            r == (AuthWorkerPipeFailure { worker: self.spec_worker(), error }),
    {
        AuthWorkerPipeFailure { worker: self.worker, error }
    }
}

/// Whether a slot holds a record of this user that is not settled yet.
pub open spec fn works_for<A: ExactAuthWorkerAuthority>(
    slot: Option<WorkerSlot<A>>,
    uid: u32,
) -> bool {
    slot matches Some(slot) && slot.pending matches Some(pending) && pending.raw.effective_uid
        == uid
}

/// The load of a user is the number of slots that work for that user.
pub proof fn law_load_counts_the_work<A: ExactAuthWorkerAuthority>(slots: Slots<A>, uid: u32)
    ensures
        load(slots, uid) == slots.filter(
            |slot: Option<WorkerSlot<A>>| works_for(slot, uid),
        ).len(),
    decreases slots.len(),
{
    reveal(Seq::filter);
    if slots.len() > 0 {
        law_load_counts_the_work(slots.drop_last(), uid);
    }
}

/// A record is admitted exactly where its time is ahead, it is one whole record of an ordinary user
/// and group with an audit identity, no worker has a job of this identifier, fewer than two
/// workers work for the same user, and the worker is there, idle and with its pipes.
pub proof fn law_admission_is_exact<A: ExactAuthWorkerAuthority>(
    slots: Slots<A>,
    record: RecordModel,
    job_id: Seq<u8>,
    deadline: SupervisorDeadline,
    clock: ClockSample,
    at: int,
)
    ensures
        ({
            let admitted = admission(slots, record, job_id, deadline, clock, at);
            let sound = {
                &&& record.bytes.len() <= 65536
                &&& exists|i: int|
                    0 <= i < record.audit_identity.len() && record.audit_identity[i] != 0
                &&& record.effective_uid != 0 && record.effective_uid != 0xffff_ffff
                &&& record.effective_gid != 0 && record.effective_gid != 0xffff_ffff
            };
            let unused = forall|i: int|
                0 <= i < slots.len() && (#[trigger] slots[i]) is Some && slots[i]->0.pending is Some
                    ==> slots[i]->0.pending->0.job.job_id@ != job_id;
            let light = slots.filter(
                |slot: Option<WorkerSlot<A>>| works_for(slot, record.effective_uid),
            ).len() < 2;
            let free = 0 <= at < slots.len() && (slots[at] matches Some(slot) && slot.pending
                is None && slot.endpoint is Some);
            &&& admitted is Ok <==> deadline.local_instant(clock) is Ok && sound && unused && light
                && free
            &&& deadline.local_instant(clock) matches Err(error) ==> admitted == Err::<(), _>(
                AuthAdapterError::<A::Failure>::Protocol(error),
            )
            &&& deadline.local_instant(clock) is Ok && !sound ==> admitted == Err::<(), _>(
                AuthAdapterError::<A::Failure>::CapacityExceeded,
            )
            &&& deadline.local_instant(clock) is Ok && sound && !unused ==> admitted == Err::<
                (),
                _,
            >(AuthAdapterError::<A::Failure>::InvalidJobIdentity)
            &&& deadline.local_instant(clock) is Ok && sound && unused && !light ==> admitted
                == Err::<(), _>(AuthAdapterError::<A::Failure>::CapacityExceeded)
            &&& deadline.local_instant(clock) is Ok && sound && unused && light && !free
                ==> admitted == Err::<(), _>(AuthAdapterError::<A::Failure>::Saturated)
        }),
{
    law_load_counts_the_work(slots, record.effective_uid);
    assert(live(slots, job_id) <==> !(forall|i: int|
        0 <= i < slots.len() && (#[trigger] slots[i]) is Some && slots[i]->0.pending is Some
            ==> slots[i]->0.pending->0.job.job_id@ != job_id)) by {
        if live(slots, job_id) {
            let i = choose|i: int| #[trigger]
                busy(slots, i) && held(slots, i).job.job_id@ == job_id;
            assert(slots[i] is Some);
        }
        assert forall|i: int|
            0 <= i < slots.len() && (#[trigger] slots[i]) is Some && slots[i]->0.pending
                is Some implies busy(slots, i) by {}
    }
}

/// The job of a record says whose it is: the worker, the facts of the record, its digest and its
/// deadline, each as it is.
pub proof fn law_job_is_of_its_record(
    worker: AuthWorkerIdentity,
    record: RawMachRecord,
    job_id: [u8; 32],
    deadline: SupervisorDeadline,
    frame_digest: [u8; 32],
)
    ensures
        ({
            let job = job_for(worker, record, job_id, deadline, frame_digest);
            &&& job.worker == worker && job.job_id == job_id && job.deadline == deadline.0
            &&& job.audit_identity == record.audit_identity && job.frame_digest == frame_digest
            &&& job.effective_uid == record.effective_uid
            &&& job.effective_gid == record.effective_gid
        }),
{
}

/// A new worker starts idle in its own place under its own number, with its pipes.
pub proof fn law_new_workers_are_idle<A: ExactAuthWorkerAuthority>(
    at: int,
    worker: (FreshAuthWorkerGeneration, ExactAuthWorker<A>, AuthWorkerEndpoint),
)
    requires
        0 <= at < 4,
    ensures
        ({
            let slot = fresh_slot(at, worker);
            &&& slot.identity.slot == at && slot.identity.generation == worker.0@
            &&& slot.worker == worker.1 && slot.endpoint == Some(worker.2)
            &&& slot.pending is None
        }),
{
}

/// An answer vouches for its record exactly where its worker is the one in that slot, that worker
/// is still asked for exactly this job, the job is in time, and the answer names a code identity.
/// An answer of no worker is nobody's, and any other is refused for its own reason.
pub proof fn law_judgement_is_exact<A: ExactAuthWorkerAuthority>(
    slots: Slots<A>,
    received: ReceivedAuthWorkerResult,
    clock: ClockSample,
)
    ensures
        ({
            let judgement = judged(slots, received, clock);
            let at = received.spec_worker().slot as int;
            let there = at < slots.len() && slots[at] is Some && slots[at]->0.identity
                == received.spec_worker();
            let slot = slots[at]->0;
            let asked = slot.pending is Some && slot.pending->0.outcome is AwaitingResult
                && slot.pending->0.job.job_id == received.spec_job_id() && slot.pending->0.job
                == received.spec_result().job;
            let in_time = slot.pending->0.deadline.local_instant(clock) is Ok;
            let named = exists|i: int| 0 <= i < 32 && received.spec_result().code_identity@[i] != 0;
            &&& judgement is Unknown <==> !there
            &&& judgement is Accepted <==> there && asked && in_time && named
            &&& there && !asked ==> judgement == Judgement::<A::Failure>::Refused(
                AuthAdapterError::ResultMismatch,
            )
            &&& there && asked && !in_time ==> judgement == Judgement::<A::Failure>::Refused(
                AuthAdapterError::DeadlineExpired,
            )
            &&& there && asked && in_time && !named ==> judgement == Judgement::<
                A::Failure,
            >::Refused(AuthAdapterError::AuthenticationRejected)
        }),
{
    assert(received.spec_result().code_identity@.len() == 32);
}

/// Vouching keeps the record and everything else of the pool: it writes down the identity, and no
/// more.
pub proof fn law_vouching_keeps_the_record<A: ExactAuthWorkerAuthority>(
    before: PoolModel<A>,
    at: int,
    code_identity: [u8; 32],
)
    requires
        busy(before.slots, at),
    ensures
        ({
            let after = vouched(before, at, code_identity);
            let slot = before.slots[at]->0;
            let next = after.slots[at]->0;
            &&& after.slots.len() == before.slots.len()
            &&& forall|i: int|
                0 <= i < before.slots.len() && i != at ==> after.slots[i] == before.slots[i]
            &&& after.released == before.released
            &&& after.last_worker_generation == before.last_worker_generation
            &&& after.slots[at] is Some && next.pending is Some
            &&& next.identity == slot.identity && next.worker == slot.worker && next.endpoint
                == slot.endpoint
            &&& next.pending->0.raw == slot.pending->0.raw
            &&& next.pending->0.job == slot.pending->0.job
            &&& next.pending->0.deadline == slot.pending->0.deadline
            &&& next.pending->0.outcome == PendingOutcome::Validated(code_identity)
        }),
{
}

/// A worker is observed exactly where it is the one in its slot, vouched for its record, and is in
/// time; one that is late is told to end, and any other is left alone.
pub proof fn law_polling_is_exact<A: ExactAuthWorkerAuthority>(
    slots: Slots<A>,
    worker: AuthWorkerIdentity,
    clock: ClockSample,
)
    ensures
        ({
            let course = poll_course(slots, worker, clock);
            let at = worker.slot as int;
            let there = at < slots.len() && slots[at] is Some && slots[at]->0.identity == worker
                && slots[at]->0.pending is Some;
            let pending = slots[at]->0.pending->0;
            let vouched = pending.outcome is Validated;
            let in_time = pending.deadline.local_instant(clock) is Ok;
            &&& course is Observed <==> there && vouched && in_time
            &&& course is Expired <==> there && vouched && !in_time
            &&& !there ==> course == PollCourse::<A::Failure>::Refused(
                AuthAdapterError::UnknownWorker,
            )
            &&& there && !vouched ==> course == PollCourse::<A::Failure>::Refused(
                AuthAdapterError::ResultMismatch,
            )
        }),
{
}

/// A worker that vouched is settled by how it left: a clean exit gives its record and the identity
/// it vouched for; any other exit gives the reply right back; and while it runs, or its state is
/// unknown, its slot stays as it is.
pub proof fn law_settlement_is_exact<A: ExactAuthWorkerAuthority>(
    before: PoolModel<A>,
    after: PoolModel<A>,
    at: int,
    observed: Result<Option<ReapedAuthWorker>, A::Failure>,
    result: Result<AuthenticatedMachRecord, AuthAdapterError<A::Failure>>,
)
    requires
        busy(before.slots, at),
        held(before.slots, at).outcome is Validated,
        settled(before, after, at, observed, result),
    ensures
        ({
            let slot = before.slots[at]->0;
            let pending = slot.pending->0;
            &&& after.slots.len() == before.slots.len()
            &&& after.last_worker_generation == before.last_worker_generation
            &&& forall|i: int|
                0 <= i < before.slots.len() && i != at ==> after.slots[i] == before.slots[i]
            &&& match observed {
                Ok(Some(proof)) if proof.spec_clean() => {
                    &&& after.slots[at] is None
                    &&& after.released.rights == before.released.rights
                    &&& result matches Ok(record) && record.spec_raw() == pending.raw
                        && record.spec_deadline() == pending.deadline && PendingOutcome::Validated(
                        record.spec_code_identity(),
                    ) == pending.outcome
                },
                Ok(Some(_)) => {
                    &&& after.slots[at] is None
                    &&& after.released.rights == before.released.rights.push(pending.raw.reply)
                    &&& result == Err::<AuthenticatedMachRecord, _>(
                        AuthAdapterError::<A::Failure>::WorkerExitedAbnormally,
                    )
                },
                Ok(None) => {
                    &&& after.slots[at] matches Some(kept) && kept.pending == Some(pending)
                        && kept.identity == slot.identity && kept.worker.armed
                    &&& after.released == before.released
                    &&& result == Err::<AuthenticatedMachRecord, _>(
                        AuthAdapterError::<A::Failure>::WorkerRetirementPending(slot.identity),
                    )
                },
                Err(failure) => {
                    &&& after.slots[at] matches Some(kept) && kept.pending == Some(pending)
                        && kept.identity == slot.identity && kept.worker.armed
                    &&& after.released == before.released
                    &&& result == Err::<AuthenticatedMachRecord, _>(
                        AuthAdapterError::<A::Failure>::WorkerCleanupFailed(failure),
                    )
                },
            }
        }),
{
}

/// A worker that is told to end is gone once it is reaped, and what it held is given back; until
/// then it stays, its job is refused, and everybody else stays as they are.
pub proof fn law_ending_is_exact<A: ExactAuthWorkerAuthority>(
    before: PoolModel<A>,
    after: PoolModel<A>,
    at: int,
    answer: Result<Option<ReapedAuthWorker>, A::Failure>,
)
    requires
        0 <= at < before.slots.len(),
        before.slots[at] is Some,
        told_to_end(before, after, at, answer),
    ensures
        ({
            let slot = before.slots[at]->0;
            &&& after.slots.len() == before.slots.len()
            &&& after.last_worker_generation == before.last_worker_generation
            &&& forall|i: int|
                0 <= i < before.slots.len() && i != at ==> after.slots[i] == before.slots[i]
            &&& if answer matches Ok(Some(_)) {
                &&& after.slots[at] is None
                &&& slot.pending matches Some(pending) ==> after.released.rights
                    == before.released.rights.push(pending.raw.reply)
                &&& slot.pending is None ==> after.released.rights == before.released.rights
                &&& slot.endpoint matches Some(endpoint) ==> after.released.endpoints
                    == before.released.endpoints.push(endpoint)
                &&& slot.endpoint is None ==> after.released.endpoints == before.released.endpoints
            } else {
                &&& after.slots[at] matches Some(kept) && kept.identity == slot.identity
                    && kept.worker.armed && kept.endpoint == slot.endpoint && (slot.pending
                    matches Some(pending) ==> (kept.pending matches Some(refused)
                    && refused.outcome == PendingOutcome::Rejected && refused.raw == pending.raw
                    && refused.job == pending.job && refused.deadline == pending.deadline))
                &&& after.released == before.released
            }
        }),
{
}

/// The outcome of an ending is told: nothing once the worker is reaped, that it is still pending
/// while it runs, and the failure of its authority. Only where the ending went well is the reason
/// of the refusal told.
pub proof fn law_endings_are_told<F>(
    worker: AuthWorkerIdentity,
    proof: ReapedAuthWorker,
    failure: F,
    error: AuthAdapterError<F>,
    other: AuthAdapterError<F>,
)
    ensures
        ended::<F>(Ok(Some(proof)), worker) is Ok,
        ended::<F>(Ok(None), worker) == Err::<(), _>(
            AuthAdapterError::<F>::WorkerRetirementPending(worker),
        ),
        ended::<F>(Err(failure), worker) == Err::<(), _>(
            AuthAdapterError::<F>::WorkerCleanupFailed(failure),
        ),
        refused_for::<F>(Ok(()), error) == Err::<AuthenticatedMachRecord, _>(error),
        refused_for::<F>(Err(other), error) == Err::<AuthenticatedMachRecord, _>(other),
{
}

/// Reading goes on after an interruption and where nothing is there yet, and after no other error;
/// what was read before stays in front of what is read then.
pub proof fn law_reading_goes_on(
    error: i32,
    receipt: AuthWorkerReplyReceipt,
    second: AuthWorkerReplyReceipt,
    third: AuthWorkerReplyReceipt,
    more: Seq<u8>,
    most: Seq<u8>,
)
    ensures
        transient(error) <==> error == 4 || error == 35,
        receipt.advanced(second, more) && second.advanced(third, most) ==> receipt.advanced(
            third,
            more + most,
        ),
        receipt.advanced(second, more) ==> second.spec_worker() == receipt.spec_worker()
            && second.spec_job_id() == receipt.spec_job_id() && second.spec_deadline()
            == receipt.spec_deadline() && second.spec_bytes().len() == receipt.spec_bytes().len()
            + more.len() && second.spec_bytes().subrange(0, receipt.spec_bytes().len() as int)
            == receipt.spec_bytes(),
{
    if receipt.advanced(second, more) {
        assert(second.spec_bytes().subrange(0, receipt.spec_bytes().len() as int)
            =~= receipt.spec_bytes());
        if second.advanced(third, most) {
            assert(receipt.spec_bytes() + more + most =~= receipt.spec_bytes() + (more + most));
        }
    }
}

/// Reading an answer goes on until it is whole and the pipe ends: bytes are added until there are
/// two hundred, silence changes nothing, a pipe that ends early or goes on is refused, and the
/// answer that is complete is the one that was read.
pub proof fn law_answers_are_read_whole(
    receipt: AuthWorkerReplyReceipt,
    read: PipeRead,
    outcome: Result<AuthWorkerResultPoll, AuthWorkerPipeFailure>,
)
    requires
        receipt.polled(read, outcome),
    ensures
        ({
            let whole = receipt.spec_bytes().len() >= 200;
            &&& outcome matches Err(failure) ==> failure.worker == receipt.spec_worker()
            &&& outcome matches Ok(AuthWorkerResultPoll::Pending(kept)) ==> kept == receipt && (
            read matches PipeRead::Error(error) && (error == 4 || error == 35))
            &&& read matches PipeRead::Error(error) ==> (error == 4 || error == 35 <==> outcome
                is Ok)
            &&& read matches PipeRead::Bytes(more) ==> {
                &&& outcome is Ok <==> !whole
                &&& outcome matches Ok(poll) ==> (poll matches AuthWorkerResultPoll::Continue(next)
                    && next.spec_bytes() == receipt.spec_bytes() + more@ && next.spec_worker()
                    == receipt.spec_worker() && next.spec_job_id() == receipt.spec_job_id()
                    && next.spec_deadline() == receipt.spec_deadline())
            }
            &&& read is End && !whole ==> (outcome matches Err(failure) && failure.error
                == AuthWorkerPipeError::PrematureEof)
            &&& outcome matches Ok(AuthWorkerResultPoll::Complete(received)) ==> {
                &&& read is End && whole
                &&& received.spec_worker() == receipt.spec_worker()
                &&& received.spec_job_id() == receipt.spec_job_id()
                &&& worker_frame::parsed_result(receipt.spec_bytes()) == Ok::<
                    _,
                    AuthWorkerWireError,
                >((received.spec_result().job@, received.spec_result().code_identity@))
            }
            &&& read is End && whole && worker_frame::parsed_result(receipt.spec_bytes()) is Ok
                ==> (outcome matches Ok(poll) && poll is Complete)
        }),
{
}

/// In a pool in order each worker stands in its own slot under a number of its own, is looked
/// after, and either waits with its pipes or works on a record of its own; no user has more than
/// two workers, and no job is given twice.
pub proof fn law_pools_are_in_order<A: ExactAuthWorkerAuthority>(
    slots: Slots<A>,
    last: u64,
    uid: u32,
    i: int,
    j: int,
)
    requires
        slots_in_order(slots, last),
        0 <= i < slots.len(),
        0 <= j < slots.len(),
    ensures
        1 <= slots.len() <= 4,
        slots.filter(|slot: Option<WorkerSlot<A>>| works_for(slot, uid)).len() <= 2,
        slots[i] matches Some(slot) ==> {
            &&& slot.identity.slot == i && 1 <= slot.identity.generation <= last
            &&& slot.worker.armed
            &&& slot.endpoint is Some <==> slot.pending is None
            &&& slot.pending matches Some(pending) ==> {
                &&& pending.job.worker == slot.identity
                &&& pending.job.audit_identity == pending.raw.audit_identity
                &&& pending.job.effective_uid == pending.raw.effective_uid
                &&& pending.job.effective_gid == pending.raw.effective_gid
                &&& pending.job.deadline == pending.deadline.0
                &&& pending.job.frame_digest@ == digest::sha256_of(
                    message::digest_message(pending.raw@),
                )
                &&& exists|k: int| 0 <= k < 32 && pending.job.job_id@[k] != 0
            }
        },
        i != j && slots[i] is Some && slots[j] is Some ==> slots[i]->0.identity.generation
            != slots[j]->0.identity.generation,
        i != j && slots[i] is Some && slots[j] is Some && slots[i]->0.pending is Some
            && slots[j]->0.pending is Some ==> slots[i]->0.pending->0.job.job_id@
            != slots[j]->0.pending->0.job.job_id@,
{
    law_load_counts_the_work(slots, uid);
    assert(load(slots, uid) <= 2);
    if slots[i] is Some && slots[i]->0.pending is Some {
        assert(busy(slots, i));
        assert(slots[i]->0.pending->0.job.job_id@.len() == 32);
    }
    if slots[j] is Some && slots[j]->0.pending is Some {
        assert(busy(slots, j));
    }
}

/// A given record counts for its user and for nobody else, and an emptied slot counts no more.
pub proof fn law_work_is_counted_once<A: ExactAuthWorkerAuthority>(
    slots: Slots<A>,
    at: int,
    slot: Option<WorkerSlot<A>>,
    uid: u32,
)
    requires
        0 <= at < slots.len(),
    ensures
        load(slots.update(at, slot), uid) == load(slots, uid) - (if works_for(slots[at], uid) {
            1int
        } else {
            0
        }) + (if works_for(slot, uid) {
            1int
        } else {
            0
        }),
    decreases slots.len(),
{
    let next = slots.update(at, slot);
    if at == slots.len() - 1 {
        assert(next.drop_last() =~= slots.drop_last());
    } else {
        assert(next.drop_last() =~= slots.drop_last().update(at, slot));
        law_work_is_counted_once(slots.drop_last(), at, slot, uid);
    }
}

} // verus!
