//! The display capability surface of the ED037TC1 panel.
//!
//! The driver decides; its caller acts. `write` and `on_bus_complete` hand
//! back what to do next: a step to issue on the bus, or the outcome to report
//! to the registered client.

use vstd::prelude::*;
use crate::frame::{loaded, FrameBufferManager};
use crate::panel::{
    ErrorCode, InitError, ScreenPixelFormat, ScreenRotation, BUF_LEN, HEIGHT, WIDTH,
};
use crate::protocol::{sequence, Step, StepModel};
use crate::scheduler::{Progress, SchedulerModel, TransferScheduler, TransferState};

verus! {

/// What the caller does after a completion.
#[derive(Debug, PartialEq, Eq)]
pub enum Action {
    /// Issue this step on the bus and report its completion.
    Issue(Step),
    /// The sequence has ended: report this outcome to the registered client.
    Notify(Result<(), ErrorCode>),
}

/// What an [`Action`] is, over sequences of bytes.
pub enum ActionModel {
    Issue(StepModel),
    Notify(Result<(), ErrorCode>),
}

impl View for Action {
    type V = ActionModel;

    open spec fn view(&self) -> ActionModel {
        match self {
            Action::Issue(step) => ActionModel::Issue(step@),
            Action::Notify(outcome) => ActionModel::Notify(*outcome),
        }
    }
}

/// The driver as a value.
pub struct DriverModel<C> {
    /// The frame's bytes while the frame buffer manager holds the buffer.
    pub held: Option<Seq<u8>>,
    /// Length of the region that the driver was made with.
    pub capacity: nat,
    /// The transfer scheduler, with the frame's bytes while it holds the
    /// buffer.
    pub scheduler: SchedulerModel,
    /// The registered client.
    pub client: Option<C>,
}

impl<C> DriverModel<C> {
    /// The driver right after construction on `region`.
    pub open spec fn fresh(region: Seq<u8>) -> Self {
        DriverModel {
            held: Some(region),
            capacity: region.len(),
            scheduler: SchedulerModel::idle(),
            client: None,
        }
    }

    /// The buffer has one owner: the manager while the scheduler is idle,
    /// the scheduler while a completion is awaited. It is the region that
    /// the driver was made with, and that region can hold a frame.
    pub open spec fn wf(self) -> bool {
        &&& self.capacity >= BUF_LEN
        &&& self.scheduler.wf()
        &&& self.scheduler.state != TransferState::SequenceComplete
        &&& self.held is Some <==> self.scheduler.state == TransferState::Idle
        &&& self.held matches Some(bytes) ==> bytes.len() == self.capacity
        &&& self.scheduler.in_flight matches Some(bytes) ==> bytes.len() == self.capacity
    }

    /// Whether `len` bytes of `pixels` are one full frame.
    pub open spec fn valid_write(pixels: Seq<u8>, len: nat) -> bool {
        len == BUF_LEN && len <= pixels.len()
    }

    /// What a write of the first `len` bytes of `pixels` returns: the first
    /// step of the sequence, `Invalid` where the bytes are not one full
    /// frame, else `Busy` where a sequence is in flight.
    pub open spec fn write_outcome(self, pixels: Seq<u8>, len: nat) -> Result<
        StepModel,
        ErrorCode,
    > {
        if !Self::valid_write(pixels, len) {
            Err(ErrorCode::Invalid)
        } else if self.scheduler.state != TransferState::Idle || self.held is None {
            Err(ErrorCode::Busy)
        } else {
            Ok(sequence()[0])
        }
    }

    /// The driver after a write of the first `len` bytes of `pixels`:
    /// unchanged where the write is turned down, else awaiting the first
    /// step's completion with the pixels loaded into the frame.
    pub open spec fn write(self, pixels: Seq<u8>, len: nat) -> Self {
        if self.write_outcome(pixels, len) is Err {
            self
        } else {
            DriverModel {
                held: None,
                scheduler: self.scheduler.begin(loaded(self.held.unwrap(), pixels, len)),
                ..self
            }
        }
    }

    /// Whether the completion `result` ends the sequence in flight.
    pub open spec fn ends_sequence(self, result: Result<(), ErrorCode>) -> bool {
        result is Err || self.scheduler.at_last_step()
    }

    /// The driver after the bus has reported `result`: unchanged where no
    /// completion was awaited; at the next step after a success that does
    /// not end the sequence; else idle, the buffer back with the manager.
    pub open spec fn complete(self, result: Result<(), ErrorCode>) -> Self {
        if self.scheduler.state != TransferState::AwaitingBusCompletion {
            self
        } else if self.ends_sequence(result) {
            DriverModel { held: self.scheduler.in_flight, scheduler: SchedulerModel::idle(), ..self }
        } else {
            DriverModel { scheduler: self.scheduler.complete(result), ..self }
        }
    }

    /// What the driver asks for when the bus has reported `result`: nothing
    /// where no completion was awaited; the next step after a success that
    /// does not end the sequence; else to report `result` to the client.
    pub open spec fn action(self, result: Result<(), ErrorCode>) -> Option<ActionModel> {
        if self.scheduler.state != TransferState::AwaitingBusCompletion {
            None
        } else if self.ends_sequence(result) {
            Some(ActionModel::Notify(result))
        } else {
            Some(ActionModel::Issue(sequence()[self.scheduler.step as int + 1]))
        }
    }

    /// The driver after `client` has taken the place of the registered
    /// client.
    pub open spec fn set_client(self, client: Option<C>) -> Self {
        DriverModel { client, ..self }
    }
}

/// Driver of one ED037TC1 panel, for clients of type `C`.
#[derive(Debug)]
pub struct ED037TC1<C> {
    frames: FrameBufferManager,
    scheduler: TransferScheduler,
    client: Option<C>,
}

impl<C> View for ED037TC1<C> {
    type V = DriverModel<C>;

    closed spec fn view(&self) -> DriverModel<C> {
        DriverModel {
            held: self.frames.held(),
            capacity: self.frames.capacity(),
            scheduler: self.scheduler@,
            client: self.client,
        }
    }
}

impl<C> ED037TC1<C> {
    /// See [`DriverModel::wf`].
    pub open spec fn wf(&self) -> bool {
        self@.wf()
    }

    /// Makes a driver on `frame_buffer`, idle and without a client. Fails
    /// where the region holds fewer than [`BUF_LEN`] bytes.
    pub fn new(frame_buffer: Vec<u8>) -> (r: Result<Self, InitError>)
        ensures
            r is Err <==> frame_buffer@.len() < BUF_LEN,
            r matches Err(e) ==> e == InitError::BufferTooSmall,
            r matches Ok(d) ==> d.wf() && d@ == DriverModel::<C>::fresh(frame_buffer@),
    {
        match FrameBufferManager::new(frame_buffer) {
            Ok(frames) => Ok(
                ED037TC1 { frames, scheduler: TransferScheduler::new(), client: None },
            ),
            Err(e) => Err(e),
        }
    }

    /// Width and height of the panel in pixels.
    pub fn get_resolution(&self) -> (r: (usize, usize))
        ensures
            r == (WIDTH, HEIGHT),
            r == (280usize, 480usize),
    {
        (WIDTH, HEIGHT)
    }

    /// The panel stores one bit per pixel.
    pub fn get_pixel_format(&self) -> (r: ScreenPixelFormat)
        ensures
            r == ScreenPixelFormat::Mono,
    {
        ScreenPixelFormat::Mono
    }

    /// The panel shows the image unrotated.
    pub fn get_rotation(&self) -> (r: ScreenRotation)
        ensures
            r == ScreenRotation::Normal,
    {
        ScreenRotation::Normal
    }

    /// The current transfer state.
    pub fn state(&self) -> (r: TransferState)
        ensures
            r == self@.scheduler.state,
    {
        self.scheduler.state()
    }

    /// Index of the step in flight.
    pub fn step_index(&self) -> (r: usize)
        ensures
            r == self@.scheduler.step,
    {
        self.scheduler.step_index()
    }

    /// The registered client.
    pub fn client(&self) -> (r: Option<&C>)
        ensures
            r matches Some(c) ==> self@.client == Some(*c),
            r is None ==> self@.client is None,
    {
        self.client.as_ref()
    }

    /// The frame bytes that `step` sends: for a data step of a sequence in
    /// flight, the range of the frame that it names; else `None`.
    pub fn step_data(&self, step: &Step) -> (r: Option<&[u8]>)
        ensures
            r is Some <==> (step@ matches StepModel::CommandWithData { offset, len, .. }
                && self@.scheduler.in_flight matches Some(frame) && offset + len <= frame.len()),
            r matches Some(s) ==> (step@ matches StepModel::CommandWithData { offset, len, .. }
                && self@.scheduler.in_flight matches Some(frame) && s@ == frame.subrange(
                offset as int,
                offset as int + len as int,
            )),
    {
        match (step, self.scheduler.in_flight()) {
            (Step::CommandWithData { offset, len, .. }, Some(frame)) => frame.chunk(*offset, *len),
            _ => None,
        }
    }

    /// Windowed writes are not supported: the panel takes full frames only.
    pub fn set_write_frame(
        &self,
        _x: usize,
        _y: usize,
        _width: usize,
        _height: usize,
    ) -> (r: Result<(), ErrorCode>)
        ensures
            r == Err::<(), ErrorCode>(ErrorCode::NoSupport),
    {
        Err(ErrorCode::NoSupport)
    }

    /// Starts the write of one full frame, the first `len` bytes of
    /// `buffer`. Where `len` is not [`BUF_LEN`] or `buffer` is shorter, the
    /// write is turned down with `Invalid`; else, where a sequence is in
    /// flight, with `Busy`; either way the driver is unchanged. Otherwise the
    /// pixels are loaded into the frame, the scheduler takes the frame
    /// buffer, and the first step is returned to be issued on the bus.
    pub fn write(&mut self, buffer: &[u8], len: usize) -> (r: Result<Step, ErrorCode>)
        requires
            old(self).wf(),
        ensures
            final(self).wf(),
            final(self)@ == old(self)@.write(buffer@, len as nat),
            r matches Ok(step) ==> old(self)@.write_outcome(buffer@, len as nat) == Ok::<
                StepModel,
                ErrorCode,
            >(step@),
            r matches Err(e) ==> old(self)@.write_outcome(buffer@, len as nat) == Err::<
                StepModel,
                ErrorCode,
            >(e),
    {
        if len != BUF_LEN || buffer.len() < len {
            return Err(ErrorCode::Invalid);
        }
        match self.scheduler.state() {
            TransferState::Idle => {},
            _ => {
                return Err(ErrorCode::Busy);
            },
        }
        match self.frames.acquire() {
            Some(frame) => {
                let mut frame = frame;
                let _ = frame.load(buffer, len);
                match self.scheduler.begin_sequence(frame) {
                    Ok(step) => Ok(step),
                    Err((e, frame)) => {
                        self.frames.release(frame);
                        Err(e)
                    },
                }
            },
            None => Err(ErrorCode::Busy),
        }
    }

    /// Continues a write. The panel does not tell a first chunk from a
    /// later one: this is [`write`](Self::write).
    pub fn write_continue(&mut self, buffer: &[u8], len: usize) -> (r: Result<Step, ErrorCode>)
        requires
            old(self).wf(),
        ensures
            final(self).wf(),
            final(self)@ == old(self)@.write(buffer@, len as nat),
            r matches Ok(step) ==> old(self)@.write_outcome(buffer@, len as nat) == Ok::<
                StepModel,
                ErrorCode,
            >(step@),
            r matches Err(e) ==> old(self)@.write_outcome(buffer@, len as nat) == Err::<
                StepModel,
                ErrorCode,
            >(e),
    {
        self.write(buffer, len)
    }

    /// Takes the completion of the bus operation in flight. After a success
    /// that does not end the sequence, the next step is returned to be
    /// issued. After the last step's success, and after any failure, the
    /// frame buffer goes back to the manager, the driver is idle, and the
    /// outcome is returned to be reported to the client. Where no completion
    /// was awaited, nothing changes and `None` is returned.
    pub fn on_bus_complete(&mut self, result: Result<(), ErrorCode>) -> (r: Option<Action>)
        requires
            old(self).wf(),
        ensures
            final(self).wf(),
            final(self)@ == old(self)@.complete(result),
            r matches Some(a) ==> old(self)@.action(result) == Some(a@),
            r is None ==> old(self)@.action(result) is None,
    {
        match self.scheduler.on_bus_complete(result) {
            None => None,
            Some(Progress::Next(step)) => Some(Action::Issue(step)),
            Some(Progress::Finished { buffer, outcome }) => {
                self.frames.release(buffer);
                self.scheduler.reset();
                Some(Action::Notify(outcome))
            },
        }
    }

    /// Registers `client` in place of the one registered before, or clears
    /// the registration.
    pub fn set_client(&mut self, client: Option<C>)
        ensures
            final(self)@ == old(self)@.set_client(client),
            old(self).wf() ==> final(self).wf(),
    {
        self.client = client;
    }

    /// The panel has no power switch.
    pub fn set_power(&self, _enable: bool) -> (r: Result<(), ErrorCode>)
        ensures
            r == Err::<(), ErrorCode>(ErrorCode::NoSupport),
    {
        Err(ErrorCode::NoSupport)
    }

    /// The panel has no backlight.
    pub fn set_brightness(&self, _brightness: usize) -> (r: Result<(), ErrorCode>)
        ensures
            r == Err::<(), ErrorCode>(ErrorCode::NoSupport),
    {
        Err(ErrorCode::NoSupport)
    }

    /// Inversion is not supported.
    pub fn set_invert(&self, _inverted: bool) -> (r: Result<(), ErrorCode>)
        ensures
            r == Err::<(), ErrorCode>(ErrorCode::NoSupport),
    {
        Err(ErrorCode::NoSupport)
    }
}

} // verus!
