//! What a broker and its service say to each other about a held target: the report of its two
//! stops, and the commit to resume it. The loss of the service comes before either has an effect.

use vstd::prelude::*;
use crate::broker::entry::BROKER_RESUME_BYTE;
use crate::broker::gate;
use crate::broker::gate::{
    ensure_deadline_live, final_resume_gate_probe, finish_trace_report_before_authority,
    BrokerEntryError, BrokerGateExit, GateRead, GateStep,
};

verus! {

/// How far a report is.
#[derive(Clone, Copy, Debug, PartialEq, Eq, Structural)]
pub enum ReportPhase {
    /// Bytes are left to write.
    Writing,
    /// The broker's half of the stream has to be ended.
    Ending,
    /// The start pipe has to be looked at once more.
    Looking,
    /// The report is delivered to a service that is still there.
    Reported,
}

/// A report on its way.
#[verifier::ext_equal]
pub struct ReportModel {
    pub phase: ReportPhase,
    pub report: Seq<u8>,
    pub written: int,
    pub deadline: u64,
}

impl ReportModel {
    /// Whether everything fits together: whatever follows the writing comes after the whole report.
    pub open spec fn in_order(self) -> bool {
        &&& 0 <= self.written <= self.report.len()
        &&& self.phase == ReportPhase::Writing <==> self.written < self.report.len()
    }

    /// What has to hold before each write: the service is there and silent, and the deadline has
    /// not come.
    pub open spec fn may_write(self, read: GateRead, now: u64) -> GateStep {
        match gate::probed(read, BrokerGateExit::ServiceGone) {
            GateStep::Live => match gate::live_until(Some(self.deadline), now) {
                Err(error) => GateStep::Failed(error),
                Ok(()) => GateStep::Live,
            },
            step => step,
        }
    }
}

/// A report on its way.
pub struct TraceReport {
    phase: ReportPhase,
    report: Vec<u8>,
    written: usize,
    deadline: u64,
}

impl View for TraceReport {
    type V = ReportModel;

    closed spec fn view(&self) -> ReportModel {
        ReportModel {
            phase: self.phase,
            report: self.report@,
            written: self.written as int,
            deadline: self.deadline,
        }
    }
}

impl TraceReport {
    #[verifier::type_invariant]
    spec fn fits(self) -> bool {
        self@.in_order()
    }

    /// Starts to deliver a report, unless the deadline has come.
    pub fn begin(report: Vec<u8>, deadline: u64, now: u64) -> (r: Result<
        TraceReport,
        BrokerEntryError,
    >)
        ensures
            match (r, gate::live_until(Some(deadline), now)) {
                (Ok(started), Ok(())) => started@ == (ReportModel {
                    phase: if report@.len() == 0 {
                        ReportPhase::Ending
                    } else {
                        ReportPhase::Writing
                    },
                    report: report@,
                    written: 0,
                    deadline,
                }),
                (Err(error), Err(expected)) => error == expected,
                _ => false,
            },
    {
        match ensure_deadline_live(Some(deadline), now) {
            Err(error) => Err(error),
            Ok(()) => {
                let phase = if report.len() == 0 {
                    ReportPhase::Ending
                } else {
                    ReportPhase::Writing
                };
                Ok(TraceReport { phase, report, written: 0, deadline })
            },
        }
    }

    /// How far it is.
    pub fn phase(&self) -> (r: ReportPhase)
        ensures
            r == self@.phase,
    {
        self.phase
    }

    /// Judges whether the next part may be written.
    pub fn may_write(&self, read: GateRead, now: u64) -> (r: GateStep)
        ensures
            r == self@.may_write(read, now),
    {
        match finish_trace_report_before_authority(read) {
            GateStep::Live => match ensure_deadline_live(Some(self.deadline), now) {
                Err(error) => GateStep::Failed(error),
                Ok(()) => GateStep::Live,
            },
            step => step,
        }
    }

    /// What is left to write.
    pub fn rest(&self) -> (r: &[u8])
        ensures
            r@ == self@.report.subrange(self@.written, self@.report.len() as int),
    {
        proof {
            use_type_invariant(self);
        }
        vstd::slice::slice_subrange(self.report.as_slice(), self.written, self.report.len())
    }

    /// Takes how much was written; a stream that takes nothing has failed.
    pub fn wrote(self, count: usize) -> (r: Result<TraceReport, BrokerEntryError>)
        requires
            count <= self@.report.len() - self@.written,
        ensures
            if count == 0 {
                r matches Err(error) && error == BrokerEntryError::Control(0)
            } else {
                r matches Ok(next) && next@ == (ReportModel {
                    phase: if self@.written + count == self@.report.len() {
                        ReportPhase::Ending
                    } else {
                        ReportPhase::Writing
                    },
                    written: self@.written + count,
                    ..self@
                })
            },
    {
        proof {
            use_type_invariant(&self);
        }
        if count == 0 {
            return Err(BrokerEntryError::Control(0));
        }
        let length: usize = self.report.len();
        let written: usize = self.written + count;
        let phase = if written == length {
            ReportPhase::Ending
        } else {
            ReportPhase::Writing
        };
        Ok(TraceReport { phase, report: self.report, written, deadline: self.deadline })
    }

    /// Takes what came of ending the broker's half of the stream, once the report is written.
    pub fn ended(&mut self, outcome: Result<(), i32>) -> (r: Result<(), BrokerEntryError>)
        requires
            old(self)@.phase == ReportPhase::Ending,
        ensures
            match outcome {
                Err(error) => {
                    &&& r == Err::<(), _>(BrokerEntryError::Control(error))
                    &&& final(self)@ == old(self)@
                },
                Ok(()) => {
                    &&& r == Ok::<(), BrokerEntryError>(())
                    &&& final(self)@ == (ReportModel { phase: ReportPhase::Looking, ..old(self)@ })
                },
            },
    {
        proof {
            use_type_invariant(&*self);
        }
        match outcome {
            Err(error) => Err(BrokerEntryError::Control(error)),
            Ok(()) => {
                self.phase = ReportPhase::Looking;
                Ok(())
            },
        }
    }

    /// Takes the look at the start pipe that follows the whole report. Only a service that is still
    /// there has been told.
    pub fn looked(&mut self, read: GateRead) -> (r: GateStep)
        requires
            old(self)@.phase == ReportPhase::Looking,
        ensures
            r == gate::probed(read, BrokerGateExit::ServiceGone),
            final(self)@ == (ReportModel {
                phase: if r == GateStep::Live {
                    ReportPhase::Reported
                } else {
                    ReportPhase::Looking
                },
                ..old(self)@
            }),
    {
        proof {
            use_type_invariant(&*self);
        }
        let step = finish_trace_report_before_authority(read);
        if step == GateStep::Live {
            self.phase = ReportPhase::Reported;
        }
        step
    }
}

/// What is done next about a commit.
#[derive(Clone, Copy, Debug, PartialEq, Eq, Structural)]
pub enum CommitAction {
    /// Read its byte.
    ReadByte,
    /// Read once more, where the stream has to end.
    ReadEnd,
    /// Judge what came.
    Judge,
}

/// The commit that follows a report, as far as it was read. No deadline counts: the service has
/// answered its client already.
#[derive(Clone, Copy, Debug, PartialEq, Eq, Structural)]
pub struct ResumeCommit {
    pub action: CommitAction,
    pub byte: u8,
    pub trailing: usize,
}

impl ResumeCommit {
    /// Nothing was read yet.
    pub fn begin() -> (r: ResumeCommit)
        ensures
            r == (ResumeCommit { action: CommitAction::ReadByte, byte: 0, trailing: 0 }),
    {
        ResumeCommit { action: CommitAction::ReadByte, byte: 0, trailing: 0 }
    }

    /// Judges whether the next read may be made: the service is there and silent.
    pub fn may_read(&self, read: GateRead) -> (r: GateStep)
        ensures
            r == gate::probed(read, BrokerGateExit::ServiceGone),
    {
        final_resume_gate_probe(read)
    }

    /// The commit after one read of one byte: `count` is how many came. A stream that ends before
    /// the byte has failed; a wrong byte is judged at once.
    pub open spec fn after_read(self, count: usize, byte: u8) -> Result<
        ResumeCommit,
        BrokerEntryError,
    > {
        match self.action {
            CommitAction::ReadByte => if count == 0 {
                Err(BrokerEntryError::Control(0))
            } else if byte == BROKER_RESUME_BYTE {
                Ok(ResumeCommit { action: CommitAction::ReadEnd, byte, ..self })
            } else {
                Ok(ResumeCommit { action: CommitAction::Judge, byte, ..self })
            },
            CommitAction::ReadEnd => Ok(
                ResumeCommit { action: CommitAction::Judge, trailing: count, ..self },
            ),
            CommitAction::Judge => Ok(self),
        }
    }

    /// Takes one read of one byte.
    pub fn read(self, count: usize, byte: u8) -> (r: Result<ResumeCommit, BrokerEntryError>)
        ensures
            r == self.after_read(count, byte),
    {
        match self.action {
            CommitAction::ReadByte => {
                if count == 0 {
                    Err(BrokerEntryError::Control(0))
                } else if byte == BROKER_RESUME_BYTE {
                    Ok(
                        ResumeCommit {
                            action: CommitAction::ReadEnd,
                            byte,
                            trailing: self.trailing,
                        },
                    )
                } else {
                    Ok(ResumeCommit { action: CommitAction::Judge, byte, trailing: self.trailing })
                }
            },
            CommitAction::ReadEnd => Ok(
                ResumeCommit { action: CommitAction::Judge, byte: self.byte, trailing: count },
            ),
            CommitAction::Judge => Ok(self),
        }
    }
}

/// Two reads make a commit exactly where the first gives the one byte and the second the end of the
/// stream; a first read of another byte is refused as it stands.
pub proof fn law_commit_is_one_byte_and_the_end(first: usize, byte: u8, second: usize, other: u8)
    requires
        first > 0,
    ensures
        ({
            let begun = ResumeCommit { action: CommitAction::ReadByte, byte: 0, trailing: 0 };
            let once = begun.after_read(first, byte)->Ok_0;
            let twice = once.after_read(second, other)->Ok_0;
            &&& twice.action == CommitAction::Judge
            &&& crate::broker::launcher::resume_judged(twice.byte, twice.trailing) is Ok <==> byte
                == BROKER_RESUME_BYTE && second == 0
            &&& byte != BROKER_RESUME_BYTE ==> once.action == CommitAction::Judge && twice == once
        }),
{
}

/// A report may be written exactly while the service is there and silent and the deadline is ahead;
/// an interrupted look is repeated, and the loss of the service is told before the deadline.
pub proof fn law_report_goes_on(report: ReportModel, read: GateRead, now: u64)
    ensures
        report.may_write(read, now) == GateStep::Live <==> read == GateRead::Failed(35) && now
            < report.deadline,
        read == GateRead::Failed(4) ==> report.may_write(read, now) == GateStep::Again,
        read == GateRead::End ==> report.may_write(read, now) == GateStep::Exit(
            BrokerGateExit::ServiceGone,
        ),
        read == GateRead::Failed(35) && now >= report.deadline ==> report.may_write(read, now)
            == GateStep::Failed(
            BrokerEntryError::Plan(crate::supervisor::deadline::SupervisorWireError::LimitExceeded),
        ),
{
}

/// Each read of a commit takes what came: a missing byte is a failure, the right byte asks for the
/// end, and how many bytes follow is kept.
pub proof fn law_commit_keeps_what_came(commit: ResumeCommit, count: usize, byte: u8)
    ensures
        commit.action == CommitAction::ReadByte ==> {
            &&& count == 0 <==> commit.after_read(count, byte) == Err::<ResumeCommit, _>(
                BrokerEntryError::Control(0),
            )
            &&& count > 0 ==> (commit.after_read(count, byte) matches Ok(next) && next.byte == byte
                && next.trailing == commit.trailing && (next.action == CommitAction::ReadEnd
                <==> byte == 1))
        },
        commit.action == CommitAction::ReadEnd ==> (commit.after_read(count, byte) matches Ok(next)
            && next.trailing == count && next.byte == commit.byte && next.action
            == CommitAction::Judge),
{
}

} // verus!
