//! The staging of one plan on the control stream, while the start pipe stays closed.

use vstd::prelude::*;
use crate::broker::gate;
use crate::broker::gate::{
    ensure_deadline_live, probe_dormant_gate, Activation, BrokerEntryError, BrokerGateExit,
    GateRead, GateStep,
};
use crate::bytes;
use crate::bytes::{copy_bytes, put_bytes, u32_at};
use crate::supervisor::broker_plan;
use crate::supervisor::broker_plan::{
    broker_plan_ack, parse_broker_plan_prefix, AcknowledgedBrokerLaunchPlan, BoundPlanModel,
    ExactParentBrokerLaunchPlan, PlanModel, ReceivedBrokerLaunchPlan, ACK_MAGIC, BROKER_ACK_BYTES,
    BROKER_PLAN_PREFIX_BYTES, HEADER_BYTES, MAX_BROKER_PLAN_BYTES, PLAN_MAGIC,
};
use crate::supervisor::deadline::{
    ClockSample, SupervisorDeadline, SupervisorDeadlineBinding, SupervisorWireError,
};

verus! {

/// Bytes of the length that comes before the frame.
pub const OUTER_BYTES: usize = 4;

/// Bytes of the length and the prefix of the frame.
pub const OUTER_AND_PREFIX_BYTES: usize = 28;

/// How far the staging of a plan is.
#[derive(Clone, Copy, Debug, PartialEq, Eq, Structural)]
pub enum StagingPhase {
    /// The length of the frame is being read.
    Length,
    /// The prefix of the frame is being read.
    Prefix,
    /// The rest of the frame is being read.
    Rest,
    /// The end of the stream is awaited.
    End,
    /// The acknowledgement is being written.
    Acknowledge,
    /// The plan is staged.
    Staged,
}

/// What has been staged.
#[verifier::ext_equal]
pub struct StagingModel {
    /// How far it is.
    pub phase: StagingPhase,
    /// Everything that was read.
    pub stream: Seq<u8>,
    /// The deadline that the prefix bound: on the shared clock, and locally.
    pub bound: Option<(SupervisorDeadline, u64)>,
    /// How much of the acknowledgement is written.
    pub written: int,
}

impl StagingModel {
    /// The length that the stream announces.
    pub open spec fn announced(self) -> int {
        bytes::le32_at(self.stream, 0) as int
    }

    /// The frame, once it is read.
    pub open spec fn frame(self) -> Seq<u8> {
        self.stream.subrange(OUTER_BYTES as int, self.stream.len() as int)
    }

    /// The acknowledgement of the frame.
    pub open spec fn ack(self) -> Seq<u8> {
        ACK_MAGIC@ + broker_plan::plan_digest(self.frame())
    }

    /// How many bytes may be read next.
    pub open spec fn wanted(self) -> int {
        match self.phase {
            StagingPhase::Length => OUTER_BYTES - self.stream.len(),
            StagingPhase::Prefix => OUTER_AND_PREFIX_BYTES - self.stream.len(),
            StagingPhase::Rest => OUTER_BYTES + self.announced() - self.stream.len(),
            StagingPhase::End => 1,
            StagingPhase::Acknowledge | StagingPhase::Staged => 0,
        }
    }

    /// The local deadline, once it is bound.
    pub open spec fn local(self) -> Option<u64> {
        match self.bound {
            Some((_, local)) => Some(local),
            None => None,
        }
    }

    /// The plan of the frame, under the bound deadline.
    pub open spec fn plan(self) -> Result<PlanModel, SupervisorWireError> {
        match self.bound {
            Some((wire, _)) => broker_plan::received_plan(self.frame(), wire),
            None => Err(SupervisorWireError::Malformed),
        }
    }

    /// Whether everything fits together.
    pub open spec fn in_order(self) -> bool {
        let length = self.stream.len();
        match self.phase {
            StagingPhase::Length => length < OUTER_BYTES && self.bound is None && self.written == 0,
            StagingPhase::Prefix => {
                &&& OUTER_BYTES <= length < OUTER_AND_PREFIX_BYTES
                &&& HEADER_BYTES <= self.announced() <= MAX_BROKER_PLAN_BYTES
                &&& self.bound is None && self.written == 0
            },
            StagingPhase::Rest => {
                &&& OUTER_AND_PREFIX_BYTES <= length < OUTER_BYTES + self.announced()
                &&& HEADER_BYTES <= self.announced() <= MAX_BROKER_PLAN_BYTES
                &&& self.bound is Some && self.written == 0
            },
            StagingPhase::End => {
                &&& length == OUTER_BYTES + self.announced()
                &&& HEADER_BYTES <= self.announced() <= MAX_BROKER_PLAN_BYTES
                &&& self.bound is Some && self.written == 0
            },
            StagingPhase::Acknowledge | StagingPhase::Staged => {
                &&& length == OUTER_BYTES + self.announced()
                &&& HEADER_BYTES <= self.announced() <= MAX_BROKER_PLAN_BYTES
                &&& self.bound is Some && self.plan() is Ok
                &&& 0 <= self.written <= BROKER_ACK_BYTES
                &&& self.phase == StagingPhase::Staged <==> self.written == BROKER_ACK_BYTES
            },
        }
    }

    /// The staging once `more` was read; nothing means that the stream has ended. The deadline of
    /// the frame counts from its prefix on, and the end of the stream has to follow the frame.
    pub open spec fn after_read(self, more: Seq<u8>, clock: ClockSample) -> Result<
        StagingModel,
        BrokerEntryError,
    > {
        let next = StagingModel { stream: self.stream + more, ..self };
        match self.phase {
            StagingPhase::Length => if more.len() == 0 {
                Err(BrokerEntryError::Control(0))
            } else if next.stream.len() < OUTER_BYTES {
                Ok(next)
            } else if next.announced() < HEADER_BYTES || next.announced() > MAX_BROKER_PLAN_BYTES {
                Err(BrokerEntryError::Plan(SupervisorWireError::LimitExceeded))
            } else {
                Ok(StagingModel { phase: StagingPhase::Prefix, ..next })
            },
            StagingPhase::Prefix => if more.len() == 0 {
                Err(BrokerEntryError::Control(0))
            } else if next.stream.len() < OUTER_AND_PREFIX_BYTES {
                Ok(next)
            } else {
                match broker_plan::parsed_prefix(
                    next.stream.subrange(OUTER_BYTES as int, OUTER_AND_PREFIX_BYTES as int),
                    PLAN_MAGIC@,
                    HEADER_BYTES as int,
                    next.announced(),
                    clock,
                ) {
                    Err(error) => Err(BrokerEntryError::Plan(error)),
                    Ok(bound) => Ok(
                        StagingModel { phase: StagingPhase::Rest, bound: Some(bound), ..next },
                    ),
                }
            },
            StagingPhase::Rest => if more.len() == 0 {
                Err(BrokerEntryError::Control(0))
            } else if next.stream.len() < OUTER_BYTES + next.announced() {
                Ok(next)
            } else {
                Ok(StagingModel { phase: StagingPhase::End, ..next })
            },
            StagingPhase::End => if more.len() != 0 {
                Err(BrokerEntryError::Plan(SupervisorWireError::Malformed))
            } else {
                match self.plan() {
                    Err(error) => Err(BrokerEntryError::Plan(error)),
                    Ok(_) => match gate::live_until(self.local(), clock.local_now) {
                        Err(error) => Err(error),
                        Ok(()) => Ok(
                            StagingModel { phase: StagingPhase::Acknowledge, ..self },
                        ),
                    },
                }
            },
            StagingPhase::Acknowledge | StagingPhase::Staged => Ok(self),
        }
    }

    /// The staging once `count` bytes of the acknowledgement were written. The plan is staged only
    /// with the whole of it, and in time.
    pub open spec fn after_write(self, count: int, now: u64) -> Result<
        StagingModel,
        BrokerEntryError,
    > {
        if count == 0 {
            Err(BrokerEntryError::Control(0))
        } else if self.written + count < BROKER_ACK_BYTES {
            Ok(StagingModel { written: self.written + count, ..self })
        } else {
            match gate::live_until(self.local(), now) {
                Err(error) => Err(error),
                Ok(()) => Ok(
                    StagingModel {
                        phase: StagingPhase::Staged,
                        written: self.written + count,
                        ..self
                    },
                ),
            }
        }
    }

    /// What has to hold before each operation: the start pipe is silent, and the deadline has not
    /// come.
    pub open spec fn may_continue(self, read: GateRead, now: u64) -> GateStep {
        match gate::probed(read, BrokerGateExit::ServiceGoneBeforeActivation) {
            GateStep::Live => match gate::live_until(self.local(), now) {
                Err(error) => GateStep::Failed(error),
                Ok(()) => GateStep::Live,
            },
            step => step,
        }
    }
}

/// The staging of one plan.
pub struct PlanStaging {
    phase: StagingPhase,
    stream: Vec<u8>,
    deadline: Option<SupervisorDeadlineBinding>,
    received: Option<ReceivedBrokerLaunchPlan>,
    ack: [u8; 40],
    written: usize,
}

impl View for PlanStaging {
    type V = StagingModel;

    closed spec fn view(&self) -> StagingModel {
        StagingModel {
            phase: self.phase,
            stream: self.stream@,
            bound: match self.deadline {
                Some(binding) => Some((binding.spec_wire(), binding.spec_local())),
                None => None,
            },
            written: self.written as int,
        }
    }
}

/// What a plan is bound to once its staging has come to the acknowledgement.
pub open spec fn bound_plan(staging: StagingModel) -> BoundPlanModel {
    BoundPlanModel {
        plan: staging.plan()->Ok_0,
        wire_deadline: (staging.bound->0).0,
        local_deadline: (staging.bound->0).1,
        digest: broker_plan::plan_digest(staging.frame()),
    }
}

impl PlanStaging {
    #[verifier::type_invariant]
    spec fn fits(self) -> bool {
        &&& self@.in_order()
        &&& self.received is Some <==> self.phase == StagingPhase::Acknowledge || self.phase
            == StagingPhase::Staged
        &&& self.received matches Some(received) ==> received@ == bound_plan(self@) && self.ack@
            == self@.ack()
    }

    /// Starts to stage a plan.
    pub fn begin() -> (r: PlanStaging)
        ensures
            r@ == (StagingModel {
                phase: StagingPhase::Length,
                stream: seq![],
                bound: None,
                written: 0,
            }),
    {
        PlanStaging {
            phase: StagingPhase::Length,
            stream: Vec::new(),
            deadline: None,
            received: None,
            ack: [0u8; 40],
            written: 0,
        }
    }

    /// How far it is.
    pub fn phase(&self) -> (r: StagingPhase)
        ensures
            r == self@.phase,
    {
        self.phase
    }

    /// The local deadline, once it is bound.
    pub fn deadline(&self) -> (r: Option<u64>)
        ensures
            r == self@.local(),
    {
        match &self.deadline {
            Some(binding) => Some(binding.local()),
            None => None,
        }
    }

    fn announced(&self) -> (r: usize)
        requires
            self@.stream.len() >= OUTER_BYTES,
        ensures
            r == self@.announced(),
    {
        match u32_at(&self.stream, 0) {
            Some(length) => length as usize,
            None => 0,
        }
    }

    /// How many bytes may be read next.
    pub fn wanted(&self) -> (r: usize)
        ensures
            r == self@.wanted(),
    {
        proof {
            use_type_invariant(self);
        }
        match self.phase {
            StagingPhase::Length => OUTER_BYTES - self.stream.len(),
            StagingPhase::Prefix => OUTER_AND_PREFIX_BYTES - self.stream.len(),
            StagingPhase::Rest => OUTER_BYTES + self.announced() - self.stream.len(),
            StagingPhase::End => 1,
            StagingPhase::Acknowledge | StagingPhase::Staged => 0,
        }
    }

    /// Whether the next operation may be made: `read` is what the start pipe gave.
    pub fn may_continue(&self, read: GateRead, now: u64) -> (r: GateStep)
        ensures
            r == self@.may_continue(read, now),
    {
        match probe_dormant_gate(read) {
            GateStep::Live => match ensure_deadline_live(self.deadline(), now) {
                Err(error) => GateStep::Failed(error),
                Ok(()) => GateStep::Live,
            },
            step => step,
        }
    }

    /// Takes what was read from the control stream; nothing means that it has ended.
    pub fn read(self, more: &[u8], clock: ClockSample) -> (r: Result<PlanStaging, BrokerEntryError>)
        requires
            more@.len() <= self@.wanted(),
        ensures
            match (r, self@.after_read(more@, clock)) {
                (Ok(next), Ok(expected)) => next@ == expected,
                (Err(error), Err(expected)) => error == expected,
                _ => false,
            },
    {
        proof {
            use_type_invariant(&self);
        }
        match self.phase {
            StagingPhase::Length => self.read_length(more),
            StagingPhase::Prefix => self.read_prefix(more, clock),
            StagingPhase::Rest => self.read_rest(more),
            StagingPhase::End => self.read_end(more, clock),
            StagingPhase::Acknowledge | StagingPhase::Staged => {
                assert(more@ =~= seq![]);
                Ok(self)
            },
        }
    }

    fn read_length(self, more: &[u8]) -> (r: Result<PlanStaging, BrokerEntryError>)
        requires
            self@.phase == StagingPhase::Length,
            more@.len() <= self@.wanted(),
        ensures
            forall|clock: ClockSample|
                #![trigger self@.after_read(more@, clock)]
                match (r, self@.after_read(more@, clock)) {
                    (Ok(next), Ok(expected)) => next@ == expected,
                    (Err(error), Err(expected)) => error == expected,
                    _ => false,
                },
    {
        proof {
            use_type_invariant(&self);
        }
        if more.len() == 0 {
            return Err(BrokerEntryError::Control(0));
        }
        let mut stream = self.stream;
        put_bytes(&mut stream, more);
        let phase = match u32_at(&stream, 0) {
            None => StagingPhase::Length,
            Some(length) => {
                if (length as usize) < HEADER_BYTES || length as usize > MAX_BROKER_PLAN_BYTES {
                    return Err(BrokerEntryError::Plan(SupervisorWireError::LimitExceeded));
                }
                StagingPhase::Prefix
            },
        };
        Ok(
            PlanStaging {
                phase,
                stream,
                deadline: None,
                received: None,
                ack: [0u8; 40],
                written: 0,
            },
        )
    }

    fn read_prefix(self, more: &[u8], clock: ClockSample) -> (r: Result<
        PlanStaging,
        BrokerEntryError,
    >)
        requires
            self@.phase == StagingPhase::Prefix,
            more@.len() <= self@.wanted(),
        ensures
            match (r, self@.after_read(more@, clock)) {
                (Ok(next), Ok(expected)) => next@ == expected,
                (Err(error), Err(expected)) => error == expected,
                _ => false,
            },
    {
        proof {
            use_type_invariant(&self);
        }
        if more.len() == 0 {
            return Err(BrokerEntryError::Control(0));
        }
        let announced: usize = self.announced();
        let ghost before = self.stream@;
        let mut stream = self.stream;
        put_bytes(&mut stream, more);
        proof {
            assert(stream@.subrange(0, before.len() as int) =~= before);
            bytes::lemma_le_at_subrange(stream@, 0, before.len() as int, 0);
        }
        if stream.len() < OUTER_AND_PREFIX_BYTES {
            return Ok(
                PlanStaging {
                    phase: StagingPhase::Prefix,
                    stream,
                    deadline: None,
                    received: None,
                    ack: [0u8; 40],
                    written: 0,
                },
            );
        }
        let mut prefix: [u8; 24] = [0u8; 24];
        let mut i: usize = 0;
        while i < BROKER_PLAN_PREFIX_BYTES
            invariant
                i <= BROKER_PLAN_PREFIX_BYTES,
                stream@.len() == OUTER_AND_PREFIX_BYTES,
                forall|k: int| 0 <= k < i ==> prefix@[k] == stream@[OUTER_BYTES + k],
            decreases BROKER_PLAN_PREFIX_BYTES - i,
        {
            prefix[i] = stream[OUTER_BYTES + i];
            i += 1;
        }
        assert(prefix@ =~= stream@.subrange(OUTER_BYTES as int, OUTER_AND_PREFIX_BYTES as int));
        match parse_broker_plan_prefix(&prefix, announced, clock) {
            Err(error) => Err(BrokerEntryError::Plan(error)),
            Ok(parsed) => Ok(
                PlanStaging {
                    phase: StagingPhase::Rest,
                    stream,
                    deadline: Some(parsed.deadline),
                    received: None,
                    ack: [0u8; 40],
                    written: 0,
                },
            ),
        }
    }

    fn read_rest(self, more: &[u8]) -> (r: Result<PlanStaging, BrokerEntryError>)
        requires
            self@.phase == StagingPhase::Rest,
            more@.len() <= self@.wanted(),
        ensures
            forall|clock: ClockSample|
                #![trigger self@.after_read(more@, clock)]
                match (r, self@.after_read(more@, clock)) {
                    (Ok(next), Ok(expected)) => next@ == expected,
                    (Err(error), Err(expected)) => error == expected,
                    _ => false,
                },
    {
        proof {
            use_type_invariant(&self);
        }
        if more.len() == 0 {
            return Err(BrokerEntryError::Control(0));
        }
        let announced: usize = self.announced();
        let deadline = self.deadline;
        let ghost before = self.stream@;
        let mut stream = self.stream;
        put_bytes(&mut stream, more);
        proof {
            assert(stream@.subrange(0, before.len() as int) =~= before);
            bytes::lemma_le_at_subrange(stream@, 0, before.len() as int, 0);
        }
        let phase = if stream.len() < OUTER_BYTES + announced {
            StagingPhase::Rest
        } else {
            StagingPhase::End
        };
        Ok(PlanStaging { phase, stream, deadline, received: None, ack: [0u8; 40], written: 0 })
    }

    fn read_end(self, more: &[u8], clock: ClockSample) -> (r: Result<PlanStaging, BrokerEntryError>)
        requires
            self@.phase == StagingPhase::End,
            more@.len() <= self@.wanted(),
        ensures
            match (r, self@.after_read(more@, clock)) {
                (Ok(next), Ok(expected)) => next@ == expected,
                (Err(error), Err(expected)) => error == expected,
                _ => false,
            },
    {
        proof {
            use_type_invariant(&self);
        }
        if more.len() != 0 {
            return Err(BrokerEntryError::Plan(SupervisorWireError::Malformed));
        }
        let binding = match self.deadline {
            Some(binding) => binding,
            None => {
                return Err(BrokerEntryError::Plan(SupervisorWireError::Malformed));
            },
        };
        let length: usize = self.stream.len();
        let frame = vstd::slice::slice_subrange(self.stream.as_slice(), OUTER_BYTES, length);
        let received = match ReceivedBrokerLaunchPlan::decode_with_deadline(frame, binding) {
            Ok(received) => received,
            Err(error) => {
                return Err(BrokerEntryError::Plan(error));
            },
        };
        match ensure_deadline_live(Some(binding.local()), clock.local_now) {
            Err(error) => {
                return Err(error);
            },
            Ok(()) => {},
        }
        let ack = broker_plan_ack(frame);
        Ok(
            PlanStaging {
                phase: StagingPhase::Acknowledge,
                stream: self.stream,
                deadline: Some(binding),
                received: Some(received),
                ack,
                written: 0,
            },
        )
    }

    /// What has to be written next: the rest of the acknowledgement.
    pub fn unwritten(&self) -> (r: Vec<u8>)
        ensures
            r@ == (if self@.phase == StagingPhase::Acknowledge {
                self@.ack().subrange(self@.written, BROKER_ACK_BYTES as int)
            } else {
                seq![]
            }),
    {
        proof {
            use_type_invariant(self);
        }
        match self.phase {
            StagingPhase::Acknowledge => copy_bytes(
                vstd::slice::slice_subrange(self.ack.as_slice(), self.written, BROKER_ACK_BYTES),
            ),
            _ => Vec::new(),
        }
    }

    /// Takes how much of the acknowledgement was written.
    pub fn wrote(self, count: usize, now: u64) -> (r: Result<PlanStaging, BrokerEntryError>)
        requires
            self@.phase == StagingPhase::Acknowledge,
            self@.written + count <= BROKER_ACK_BYTES,
        ensures
            match (r, self@.after_write(count as int, now)) {
                (Ok(next), Ok(expected)) => next@ == expected,
                (Err(error), Err(expected)) => error == expected,
                _ => false,
            },
    {
        proof {
            use_type_invariant(&self);
        }
        if count == 0 {
            return Err(BrokerEntryError::Control(0));
        }
        let written: usize = self.written + count;
        if written < BROKER_ACK_BYTES {
            let next = PlanStaging {
                phase: StagingPhase::Acknowledge,
                stream: self.stream,
                deadline: self.deadline,
                received: self.received,
                ack: self.ack,
                written,
            };
            return Ok(next);
        }
        match ensure_deadline_live(self.deadline(), now) {
            Err(error) => Err(error),
            Ok(()) => Ok(
                PlanStaging {
                    phase: StagingPhase::Staged,
                    stream: self.stream,
                    deadline: self.deadline,
                    received: self.received,
                    ack: self.ack,
                    written,
                },
            ),
        }
    }

    /// The acknowledged plan, once the whole acknowledgement is written.
    pub fn finish(self) -> (r: Option<AcknowledgedBrokerLaunchPlan>)
        ensures
            match r {
                Some(plan) => self@.phase == StagingPhase::Staged && self@.in_order() && plan@
                    == bound_plan(self@),
                None => self@.phase != StagingPhase::Staged,
            },
    {
        proof {
            use_type_invariant(&self);
        }
        match self.phase {
            StagingPhase::Staged => match self.received {
                Some(received) => Some(received.acknowledge_exact_parent()),
                None => None,
            },
            _ => None,
        }
    }
}

/// Gives a staged plan its authority once the broker is active, in time; `None` before that.
pub fn activate_staged(
    plan: AcknowledgedBrokerLaunchPlan,
    stage: Activation,
    now: u64,
) -> (r: Option<Result<ExactParentBrokerLaunchPlan, BrokerEntryError>>)
    ensures
        if stage != Activation::Active {
            r is None
        } else {
            match gate::live_until(Some(plan@.local_deadline), now) {
                Err(expected) => r matches Some(Err(error)) && error == expected,
                Ok(()) => r matches Some(Ok(active)) && active@ == plan@,
            }
        },
{
    match stage {
        Activation::Active => match ensure_deadline_live(Some(plan.deadline().local()), now) {
            Err(error) => Some(Err(error)),
            Ok(()) => Some(Ok(plan.activate())),
        },
        _ => None,
    }
}

/// What an operation on the control stream gave, where it did not go through.
#[derive(Clone, Copy, Debug, PartialEq, Eq, Structural)]
pub enum ControlFailure {
    /// It was interrupted.
    Interrupted,
    /// It would have had to wait.
    WouldBlock,
    /// It failed; zero where no error is known.
    Error(i32),
}

/// What to do then.
#[derive(Clone, Copy, Debug, PartialEq, Eq, Structural)]
pub enum ControlStep {
    /// Try again.
    Again,
    /// Wait for the stream and the start pipe.
    Poll,
    /// Stop.
    Failed(BrokerEntryError),
}

/// Judges an operation on the control stream that did not go through.
pub fn control_failed(failure: ControlFailure) -> (r: ControlStep)
    ensures
        r == (match failure {
            ControlFailure::Interrupted => ControlStep::Again,
            ControlFailure::WouldBlock => ControlStep::Poll,
            ControlFailure::Error(error) => ControlStep::Failed(BrokerEntryError::Control(error)),
        }),
{
    match failure {
        ControlFailure::Interrupted => ControlStep::Again,
        ControlFailure::WouldBlock => ControlStep::Poll,
        ControlFailure::Error(error) => ControlStep::Failed(BrokerEntryError::Control(error)),
    }
}

/// However the stream is cut into reads, the same bytes are staged, and the staging never reads
/// past the frame: a step adds exactly what was read, and each phase leaves room for what the next
/// one needs.
pub proof fn law_staging_reads_one_frame(
    staging: StagingModel,
    more: Seq<u8>,
    clock: ClockSample,
)
    requires
        staging.in_order(),
        more.len() <= staging.wanted(),
    ensures
        staging.after_read(more, clock) matches Ok(next) ==> {
            &&& next.in_order()
            &&& next.stream == staging.stream + more
            &&& next.phase == StagingPhase::End ==> next.frame().len() == next.announced()
        },
{
    let length = staging.stream.len() as int;
    let all = staging.stream + more;
    if length >= OUTER_BYTES {
        assert(all.subrange(0, length) =~= staging.stream);
        bytes::lemma_le_at_subrange(all, 0, length, 0);
    }
    if more.len() == 0 {
        assert(all =~= staging.stream);
    }
}

/// A staged plan is the acknowledged one: it comes from exactly one canonical frame that was read
/// to the end of the stream, its deadline is the one that its prefix bound, and the bytes that were
/// acknowledged are the digest of that frame.
pub proof fn law_staged_plan_is_bound(staging: StagingModel, count: int, now: u64)
    requires
        staging.in_order(),
        staging.phase == StagingPhase::Acknowledge,
        0 <= count,
        staging.written + count <= BROKER_ACK_BYTES,
    ensures
        staging.after_write(count, now) matches Ok(next) ==> {
            &&& next.in_order()
            &&& next.stream == staging.stream && next.bound == staging.bound
            &&& next.phase == StagingPhase::Staged ==> {
                &&& next.written == BROKER_ACK_BYTES
                &&& now < (next.bound->0).1
                &&& bound_plan(next).plan.launch.deadline == (next.bound->0).0
                &&& broker_plan::parsed_plan(next.frame()) == Ok::<PlanModel, SupervisorWireError>(
                    bound_plan(next).plan,
                )
            }
        },
{
}

/// However a stream is cut into reads, it is staged in the same way: a read that does not complete
/// what is wanted only adds to it, and two reads do what one of both would.
pub proof fn law_cuts_do_not_matter(
    staging: StagingModel,
    first: Seq<u8>,
    second: Seq<u8>,
    clock: ClockSample,
)
    requires
        staging.in_order(),
        staging.phase == StagingPhase::Length || staging.phase == StagingPhase::Prefix
            || staging.phase == StagingPhase::Rest,
        first.len() > 0,
        second.len() > 0,
        first.len() + second.len() <= staging.wanted(),
    ensures
        staging.after_read(first, clock) matches Ok(next) && {
            &&& next == (StagingModel { stream: staging.stream + first, ..staging })
            &&& next.after_read(second, clock) == staging.after_read(first + second, clock)
        },
{
    assert(staging.stream + first + second =~= staging.stream + (first + second));
    if staging.stream.len() >= 4 {
        let stream = staging.stream;
        assert((stream + first).subrange(0, 4) =~= stream.subrange(0, 4));
        bytes::lemma_le_at_subrange(stream + first, 0, 4, 0);
        bytes::lemma_le_at_subrange(stream, 0, 4, 0);
    }
}

/// A good plan is staged: its length, its frame and the end of the stream, read in time, lead to
/// the acknowledgement of exactly this plan under its own deadline, and the acknowledgement,
/// written in time, to a staged plan. Nothing of it is lost or changed.
pub proof fn law_good_plan_is_staged(
    plan: PlanModel,
    clock: ClockSample,
    later: ClockSample,
    now: u64,
)
    requires
        broker_plan::checked_plan(plan) is Ok,
        plan.session.len() == 32,
        plan.audit_identity.len() == 32,
        plan.code_identity.len() == 32,
        plan.target_identity.len() == 32,
        plan.client_nonce.len() == 32,
        plan.service_nonce.len() == 32,
        broker_plan::plan_bytes(plan).len() <= MAX_BROKER_PLAN_BYTES,
        plan.launch.deadline.local_instant(clock) is Ok,
        later.local_now < plan.launch.deadline.local_instant(clock)->Ok_0,
        now < plan.launch.deadline.local_instant(clock)->Ok_0,
    ensures
        ({
            let frame = broker_plan::plan_bytes(plan);
            let local = plan.launch.deadline.local_instant(clock)->Ok_0;
            let begun = StagingModel {
                phase: StagingPhase::Length,
                stream: seq![],
                bound: None,
                written: 0,
            };
            let sized = begun.after_read(bytes::le32(frame.len() as u32), clock)->Ok_0;
            let bound = sized.after_read(frame.subrange(0, 24), clock)->Ok_0;
            let whole = bound.after_read(
                frame.subrange(24, frame.len() as int),
                clock,
            )->Ok_0;
            let read = whole.after_read(seq![], later)->Ok_0;
            let staged = read.after_write(40, now)->Ok_0;
            &&& begun.wanted() == 4
            &&& begun.after_read(bytes::le32(frame.len() as u32), clock) is Ok
            &&& sized.wanted() == 24
            &&& sized.after_read(frame.subrange(0, 24), clock) is Ok
            &&& bound.bound == Some((plan.launch.deadline, local))
            &&& bound.wanted() == frame.len() - 24
            &&& bound.after_read(frame.subrange(24, frame.len() as int), clock) is Ok
            &&& whole.phase == StagingPhase::End && whole.wanted() == 1
            &&& whole.after_read(seq![], later) is Ok
            &&& read.phase == StagingPhase::Acknowledge
            &&& read.frame() == frame
            &&& read.after_write(40, now) is Ok
            &&& staged.phase == StagingPhase::Staged
            &&& bound_plan(staged) == (BoundPlanModel {
                plan,
                wire_deadline: plan.launch.deadline,
                local_deadline: local,
                digest: broker_plan::plan_digest(frame),
            })
        }),
{
    let frame = broker_plan::plan_bytes(plan);
    let size = bytes::le32(frame.len() as u32);
    broker_plan::law_received_plan_is_the_framed_one(plan, plan.launch.deadline, clock);
    bytes::lemma_le32(frame.len() as u32);
    let one = Seq::<u8>::empty() + size;
    let two = one + frame.subrange(0, 24);
    let three = two + frame.subrange(24, frame.len() as int);
    assert(one =~= size);
    assert(one.subrange(0, 4) =~= size);
    assert(two.subrange(0, 4) =~= size);
    assert(three.subrange(0, 4) =~= size);
    bytes::lemma_field(one, 0);
    bytes::lemma_field(two, 0);
    bytes::lemma_field(three, 0);
    assert(two.subrange(4, 28) =~= frame.subrange(0, 24));
    assert(three.subrange(4, three.len() as int) =~= frame);
    assert(three + Seq::<u8>::empty() =~= three);
}

/// Staging goes on exactly while the service is there and silent and the bound deadline, if there
/// is one yet, is ahead. Writing the acknowledgement goes on until all of its forty bytes are out,
/// and is late only where the deadline has come by then.
pub proof fn law_staging_goes_on(staging: StagingModel, read: GateRead, now: u64, count: int)
    requires
        staging.in_order(),
    ensures
        staging.may_continue(read, now) == GateStep::Live <==> read == GateRead::Failed(35) && (
        staging.bound matches Some((_, local)) ==> now < local),
        read == GateRead::Failed(4) ==> staging.may_continue(read, now) == GateStep::Again,
        read == GateRead::End ==> staging.may_continue(read, now) == GateStep::Exit(
            BrokerGateExit::ServiceGoneBeforeActivation,
        ),
        staging.phase == StagingPhase::Acknowledge && 0 < count <= 40 - staging.written ==> {
            let next = staging.after_write(count, now);
            &&& staging.written + count < 40 ==> next == Ok::<_, BrokerEntryError>(
                StagingModel { written: staging.written + count, ..staging },
            )
            &&& staging.written + count == 40 ==> (next is Ok <==> now < (staging.bound->0).1)
            &&& staging.written + count == 40 && next is Ok ==> next->Ok_0.phase
                == StagingPhase::Staged
        },
        staging.after_write(0, now) == Err::<StagingModel, _>(BrokerEntryError::Control(0)),
{
}

/// What is wrong on the stream is told: an end before the end, a length out of range, anything
/// behind the frame.
pub proof fn law_bad_streams_are_refused(staging: StagingModel, more: Seq<u8>, clock: ClockSample)
    requires
        staging.in_order(),
        more.len() <= staging.wanted(),
    ensures
        more.len() == 0 && (staging.phase == StagingPhase::Length || staging.phase
            == StagingPhase::Prefix || staging.phase == StagingPhase::Rest) ==> staging.after_read(
            more,
            clock,
        ) == Err::<StagingModel, _>(BrokerEntryError::Control(0)),
        staging.phase == StagingPhase::End && more.len() > 0 ==> staging.after_read(more, clock)
            == Err::<StagingModel, _>(BrokerEntryError::Plan(SupervisorWireError::Malformed)),
        staging.phase == StagingPhase::Length && staging.stream.len() + more.len() == 4 ==> (
        staging.after_read(more, clock) is Ok <==> more.len() > 0 && 256 <= bytes::le32_at(
            staging.stream + more,
            0,
        ) <= 81920),
{
}

} // verus!
