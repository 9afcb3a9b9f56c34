//! The transfer state machine: at most one bus operation in flight, the
//! frame buffer held for as long as a sequence runs.

use vstd::prelude::*;
use crate::frame::FrameBuffer;
use crate::panel::ErrorCode;
use crate::protocol::{next_step, sequence, Step, StepModel, STEP_COUNT};

verus! {

/// Where the scheduler stands.
#[derive(Debug, Clone, Copy, PartialEq, Eq, Structural)]
pub enum TransferState {
    /// No sequence runs.
    Idle,
    /// A bus operation was issued and its completion is awaited.
    AwaitingBusCompletion,
    /// The last step has completed and the buffer was handed back; the
    /// scheduler waits for [`TransferScheduler::reset`].
    SequenceComplete,
}

/// What the caller does after a completion.
#[derive(Debug, PartialEq, Eq)]
pub enum Progress {
    /// Issue this step on the bus.
    Next(Step),
    /// The sequence has ended: take the buffer back and report the outcome.
    Finished { buffer: FrameBuffer, outcome: Result<(), ErrorCode> },
}

/// What a [`Progress`] is, over sequences of bytes.
pub enum ProgressModel {
    Next(StepModel),
    Finished { buffer: Seq<u8>, outcome: Result<(), ErrorCode> },
}

impl View for Progress {
    type V = ProgressModel;

    open spec fn view(&self) -> ProgressModel {
        match self {
            Progress::Next(step) => ProgressModel::Next(step@),
            Progress::Finished { buffer, outcome } => ProgressModel::Finished {
                buffer: buffer@,
                outcome: *outcome,
            },
        }
    }
}

/// The scheduler as a value: its state, the index of the step in flight,
/// and the bytes of the buffer that it holds.
pub struct SchedulerModel {
    pub state: TransferState,
    pub step: nat,
    pub in_flight: Option<Seq<u8>>,
}

impl SchedulerModel {
    /// The scheduler at rest.
    pub open spec fn idle() -> Self {
        SchedulerModel { state: TransferState::Idle, step: 0, in_flight: None }
    }

    /// The buffer is held exactly while a completion is awaited, and the
    /// step in flight is one of the sequence.
    pub open spec fn wf(self) -> bool {
        match self.state {
            TransferState::Idle => self.in_flight is None && self.step == 0,
            TransferState::AwaitingBusCompletion => self.in_flight is Some && self.step
                < STEP_COUNT,
            TransferState::SequenceComplete => self.in_flight is None && self.step
                == STEP_COUNT,
        }
    }

    /// The scheduler after it has accepted `buffer` and issued the first
    /// step.
    pub open spec fn begin(self, buffer: Seq<u8>) -> Self {
        SchedulerModel {
            state: TransferState::AwaitingBusCompletion,
            step: 0,
            in_flight: Some(buffer),
        }
    }

    /// Whether a successful completion of the step in flight ends the
    /// sequence.
    pub open spec fn at_last_step(self) -> bool {
        self.step + 1 >= STEP_COUNT
    }

    /// The scheduler after the bus has reported `result`.
    pub open spec fn complete(self, result: Result<(), ErrorCode>) -> Self {
        if self.state != TransferState::AwaitingBusCompletion {
            self
        } else if result is Err {
            Self::idle()
        } else if self.at_last_step() {
            SchedulerModel {
                state: TransferState::SequenceComplete,
                step: STEP_COUNT as nat,
                in_flight: None,
            }
        } else {
            SchedulerModel { step: self.step + 1, ..self }
        }
    }

    /// What the scheduler asks for when the bus has reported `result`:
    /// nothing where no completion was awaited.
    pub open spec fn progress(self, result: Result<(), ErrorCode>) -> Option<ProgressModel> {
        if self.state != TransferState::AwaitingBusCompletion || self.in_flight is None {
            None
        } else if result is Ok && !self.at_last_step() {
            Some(ProgressModel::Next(sequence()[self.step as int + 1]))
        } else {
            Some(ProgressModel::Finished { buffer: self.in_flight.unwrap(), outcome: result })
        }
    }

    /// The scheduler after a reset.
    pub open spec fn reset(self) -> Self {
        if self.state == TransferState::SequenceComplete {
            Self::idle()
        } else {
            self
        }
    }
}

/// Owns the step index and, while a sequence runs, the frame buffer.
#[derive(Debug)]
pub struct TransferScheduler {
    state: TransferState,
    step: usize,
    in_flight: Option<FrameBuffer>,
}

impl View for TransferScheduler {
    type V = SchedulerModel;

    closed spec fn view(&self) -> SchedulerModel {
        SchedulerModel {
            state: self.state,
            step: self.step as nat,
            in_flight: match self.in_flight {
                Some(b) => Some(b@),
                None => None,
            },
        }
    }
}

impl TransferScheduler {
    /// See [`SchedulerModel::wf`].
    pub open spec fn wf(&self) -> bool {
        self@.wf()
    }

    /// A scheduler at rest.
    pub fn new() -> (r: Self)
        ensures
            r@ == SchedulerModel::idle(),
            r.wf(),
    {
        TransferScheduler { state: TransferState::Idle, step: 0, in_flight: None }
    }

    /// The current state.
    pub fn state(&self) -> (r: TransferState)
        ensures
            r == self@.state,
    {
        self.state
    }

    /// Index of the step in flight.
    pub fn step_index(&self) -> (r: usize)
        ensures
            r == self@.step,
    {
        self.step
    }

    /// The buffer that the scheduler holds, if any.
    pub fn in_flight(&self) -> (r: Option<&FrameBuffer>)
        ensures
            r matches Some(b) ==> self@.in_flight == Some(b@),
            r is None ==> self@.in_flight is None,
    {
        self.in_flight.as_ref()
    }

    /// Starts a sequence on `buffer`. While idle, the scheduler keeps the
    /// buffer, and the first step of the sequence is returned to be issued.
    /// Otherwise nothing changes and the buffer comes back with
    /// [`ErrorCode::Busy`].
    pub fn begin_sequence(
        &mut self,
        buffer: FrameBuffer,
    ) -> (r: Result<Step, (ErrorCode, FrameBuffer)>)
        requires
            old(self).wf(),
        ensures
            final(self).wf(),
            r is Ok <==> old(self)@.state == TransferState::Idle,
            r matches Ok(step) ==> step@ == sequence()[0] && final(self)@ == old(self)@.begin(
                buffer@,
            ),
            r matches Err((e, b)) ==> e == ErrorCode::Busy && b@ == buffer@ && final(self)@
                == old(self)@,
    {
        match (self.state, next_step(0)) {
            (TransferState::Idle, Some(step)) => {
                self.in_flight = Some(buffer);
                self.step = 0;
                self.state = TransferState::AwaitingBusCompletion;
                Ok(step)
            },
            _ => Err((ErrorCode::Busy, buffer)),
        }
    }

    /// Takes the completion of the step in flight. On success the next step
    /// is returned to be issued; after the last step, and on any failure,
    /// the buffer is handed back with the outcome. A success of the last
    /// step leaves the scheduler in `SequenceComplete`, a failure in `Idle`.
    /// Where no completion was awaited, nothing changes and `None` is
    /// returned.
    pub fn on_bus_complete(&mut self, result: Result<(), ErrorCode>) -> (r: Option<Progress>)
        requires
            old(self).wf(),
        ensures
            final(self).wf(),
            final(self)@ == old(self)@.complete(result),
            r matches Some(p) ==> old(self)@.progress(result) == Some(p@),
            r is None ==> old(self)@.progress(result) is None,
    {
        match self.state {
            TransferState::AwaitingBusCompletion => {},
            _ => {
                return None;
            },
        }
        let next: usize = self.step + 1;
        if result.is_ok() {
            if let Some(step) = next_step(next) {
                self.step = next;
                return Some(Progress::Next(step));
            }
        }
        match self.in_flight.take() {
            Some(buffer) => {
                if result.is_ok() {
                    self.state = TransferState::SequenceComplete;
                    self.step = STEP_COUNT;
                } else {
                    self.state = TransferState::Idle;
                    self.step = 0;
                }
                Some(Progress::Finished { buffer, outcome: result })
            },
            None => None,
        }
    }

    /// Returns from `SequenceComplete` to `Idle`; in any other state nothing
    /// changes.
    pub fn reset(&mut self)
        ensures
            final(self)@ == old(self)@.reset(),
            old(self).wf() ==> final(self).wf(),
    {
        match self.state {
            TransferState::SequenceComplete => {
                self.state = TransferState::Idle;
                self.step = 0;
                self.in_flight = None;
            },
            _ => {},
        }
    }
}

} // verus!
