//! Carrying out an update against a device.
//!
//! The library does no I/O: a `Session` says what to do next (`Action`),
//! the caller does it and reports how it went (`Event`). Sleeping for the
//! device's poll timeout, the USB control transfers and opening or closing
//! the device handle all happen on the caller's side.

use vstd::prelude::*;
use vstd::pervasive::unreached;
use vstd::arithmetic::div_mod::lemma_add_mod_noop;

use crate::device::{
    padded, DeviceStatusResponse, Error as DeviceError,
    Request, UsbError,
};
use crate::dfuse::{
    erase_page_request, erase_recovers, is_command_request, set_address_request,
    stm32h7_erase_workaround, CMD_ERASE_PAGE, CMD_SET_ADDRESS_PTR,
};
use crate::info::DeviceInfo;
use crate::states::{DeviceStateCode, DeviceStatusCode};
use crate::update::{
    chunk_bytes, chunk_fits, element_lengths_fit, lemma_plan_fits, ops_fit, phase_ops, phase_plan, Chunk, Content,
    DeviceUpdateStep, Error, Op, Progress,
};

verus! {

/// Number of times a failed status poll is retried.
pub const NUM_POLLING_RETRIES: u8 = 5;

/// What the caller is asked to do next.
pub enum Action {
    /// Find the device by its identity and open it.
    Open,
    /// Close the device handle.
    Close,
    /// Carry out a control request on the open device.
    Send(Request),
    /// Wait this many milliseconds.
    Sleep(u64),
    /// Pass progress of the current phase on to the observer.
    Report(Progress),
    /// The phase is over, with this result; nothing more is asked.
    Done(Result<(), Error>),
}

/// How the last action went.
pub enum Event {
    /// It completed (a write request, or an action that is no request).
    Completed,
    /// A read request returned these bytes.
    Data(Vec<u8>),
    /// The transport failed, or the device could not be found or opened.
    Failed(UsbError),
}

/// Where a session stands: the action it last asked for.
#[derive(Debug, Clone, Copy, PartialEq, Eq)]
pub enum Stage {
    /// Nothing asked yet.
    Start,
    /// Asked to open the device.
    Opening,
    /// Asked for DFU_ABORT before the phase starts.
    ResetAbort,
    /// Asked for DFU_GETSTATUS, to clear any error status.
    ResetStatus,
    /// Asked for DFU_CLRSTATUS.
    ResetClear,
    /// Between two operations.
    Ready,
    /// Asked for DFU_ABORT before a DfuSe command.
    CmdAbort,
    /// Asked for DFU_GETSTATUS to see the device idle before a DfuSe
    /// command (after this many polls). A device that is neither idle nor
    /// download-idle is polled again after its poll timeout, at most
    /// `NUM_POLLING_RETRIES` times.
    CmdIdle(u8),
    /// Asked to sleep before polling the idle state again.
    CmdIdleSleep(u8),
    /// Asked to send the DfuSe command.
    CmdSent,
    /// Asked for the first DFU_GETSTATUS after a download, which must report busy.
    BusyCheck,
    /// Asked to sleep the poll timeout (retries so far, poll timeout).
    WaitSleep(u8, u32),
    /// Asked for DFU_GETSTATUS, which must report download-idle.
    WaitStatus(u8, u32),
    /// Asked for the first DFU_CLRSTATUS of the erase workaround.
    Recover1,
    /// Asked for the second DFU_CLRSTATUS of the erase workaround.
    Recover2,
    /// Asked for DFU_ABORT after setting the address pointer.
    CmdFinalAbort,
    /// Asked to download a chunk.
    ChunkSent,
    /// Asked to upload a chunk.
    ChunkRead,
    /// Asked to report progress.
    Reported,
    /// Asked for the DFU_ABORT that ends the phase.
    EndAbort,
    /// Asked to close the device; the phase ends with this result.
    Closing(Result<(), Error>),
    /// The phase is over.
    Finished(Result<(), Error>),
}

/// One phase of an update in progress.
pub struct Session {
    /// The phase.
    pub step: DeviceUpdateStep,
    /// The image.
    pub content: Content,
    /// The device.
    pub info: DeviceInfo,
    /// The operations of the phase.
    pub ops: Vec<Op>,
    /// Index of the current operation.
    pub pc: usize,
    /// What was last asked.
    pub stage: Stage,
    /// Whether the device handle is open.
    pub open: bool,
}

/// The operation at the current index, which the stage is working on.
pub open spec fn current(s: Session) -> Op {
    s.ops@[s.pc as int]
}

/// Whether an operation is a DfuSe command.
pub open spec fn is_command(op: Op) -> bool {
    op is ErasePage || op is SetAddress
}

/// Whether the device handle is open in a stage.
pub open spec fn open_in(stage: Stage) -> bool {
    !(stage is Start || stage is Opening || stage is Finished)
}

/// Whether `k` is where two byte strings first differ: the first index at
/// which they hold different bytes, or the end of the shorter one.
pub open spec fn first_difference_at(a: Seq<u8>, b: Seq<u8>, k: int) -> bool {
    &&& 0 <= k <= a.len()
    &&& k <= b.len()
    &&& forall|j: int| 0 <= j < k ==> a[j] == b[j]
    &&& (k < a.len() && k < b.len() && a[k] != b[k]) || (a.len() != b.len() && (k == a.len()
        || k == b.len()))
}

/// The index at which two byte strings first differ, if they differ.
pub fn first_difference(a: &Vec<u8>, b: &Vec<u8>) -> (r: Option<usize>)
    ensures
        r is None <==> a@ == b@,
        r is Some ==> first_difference_at(a@, b@, r->0 as int),
{
    let mut i: usize = 0;
    while i < a.len() && i < b.len()
        invariant
            i <= a@.len(),
            i <= b@.len(),
            forall|j: int| 0 <= j < i ==> a@[j] == b@[j],
        decreases a@.len() - i,
    {
        if a[i] != b[i] {
            return Some(i);
        }
        i = i + 1;
    }
    if a.len() == b.len() {
        assert(a@ =~= b@);
        None
    } else {
        Some(i)
    }
}

/// What starting the operation at index `pc` asks for, and the stage it
/// leads to (on an open device); past the last operation the phase ends
/// with DFU_ABORT.
pub open spec fn starts_op(ops: Seq<Op>, content: Content, pc: int, r: Action, stage: Stage) -> bool {
    if pc >= ops.len() {
        r == Action::Send(Request::Abort) && stage == Stage::EndAbort
    } else {
        match ops[pc] {
            Op::ErasePage(_) => r == Action::Send(Request::Abort) && stage == Stage::CmdAbort,
            Op::SetAddress(_) => r == Action::Send(Request::Abort) && stage == Stage::CmdAbort,
            Op::Write(c) => stage == Stage::ChunkSent && match r {
                Action::Send(Request::Download { block_num, data }) => block_num == c.block_num
                    && Some(data@) == chunk_bytes(content, c),
                _ => false,
            },
            Op::Check(c) => r == Action::Send(Request::Upload { block_num: c.block_num, length: c.length })
                && stage == Stage::ChunkRead,
            Op::Report(p) => r == Action::Report(p) && stage == Stage::Reported,
            Op::Fail(e) => r == Action::Close && stage == Stage::Closing(Err(e)),
        }
    }
}

/// The DfuSe command byte of a command operation.
pub open spec fn command_byte(op: Op) -> u8 {
    match op {
        Op::ErasePage(_) => CMD_ERASE_PAGE,
        _ => CMD_SET_ADDRESS_PTR,
    }
}

/// The address of a command operation.
pub open spec fn command_address(op: Op) -> u32 {
    match op {
        Op::ErasePage(a) => a,
        Op::SetAddress(a) => a,
        _ => 0,
    }
}

/// Whether a status response shows the device idle, ready for a DfuSe command.
pub open spec fn is_idle(st: DeviceStatusResponse) -> bool {
    st.bState == DeviceStateCode::dfuIDLE || st.bState == DeviceStateCode::dfuDNLOAD_IDLE
}

impl Session {
    /// Whether the session's fields agree with one another.
    pub open spec fn wf(&self) -> bool {
        &&& self.pc <= self.ops@.len()
        &&& self.open == open_in(self.stage)
        &&& ops_fit(self.ops@, self.content)
        &&& match self.stage {
            Stage::CmdAbort | Stage::CmdIdle(_) | Stage::CmdIdleSleep(_) | Stage::CmdSent =>
                self.pc < self.ops@.len() && is_command(current(*self)),
            Stage::BusyCheck | Stage::WaitSleep(_, _) | Stage::WaitStatus(_, _) => self.pc
                < self.ops@.len() && (is_command(current(*self)) || current(*self) is Write),
            Stage::Recover1 | Stage::Recover2 => self.pc < self.ops@.len() && current(*self) is ErasePage,
            Stage::CmdFinalAbort => self.pc < self.ops@.len() && current(*self) is SetAddress,
            Stage::ChunkSent => self.pc < self.ops@.len() && current(*self) is Write,
            Stage::ChunkRead => self.pc < self.ops@.len() && current(*self) is Check,
            Stage::Reported => self.pc < self.ops@.len() && current(*self) is Report,
            _ => true,
        }
        &&& match self.stage {
            Stage::CmdIdle(n) | Stage::CmdIdleSleep(n) => n <= NUM_POLLING_RETRIES,
            Stage::WaitSleep(n, _) | Stage::WaitStatus(n, _) => n <= NUM_POLLING_RETRIES,
            _ => true,
        }
    }

    /// A session for one phase of the update of `info`'s device with `content`.
    pub fn new(step: DeviceUpdateStep, content: Content, info: DeviceInfo) -> (r: Self)
        ensures
            r.wf(),
            r.step == step,
            r.content == content,
            r.info == info,
            r.ops@ == phase_ops(step, content, info),
            r.pc == 0,
            r.stage == Stage::Start,
    {
        let ops = phase_plan(step, &content, &info);
        element_lengths_fit(&content);
        proof {
            lemma_plan_fits(step, content, info);
        }
        Session { step, content, info, ops, pc: 0, stage: Stage::Start, open: false }
    }

    /// Gives the image and the device information back.
    pub fn into_parts(self) -> (r: (Content, DeviceInfo))
        ensures
            r == (self.content, self.info),
    {
        (self.content, self.info)
    }

    fn chunk_data(&self, c: Chunk) -> (r: Option<Vec<u8>>)
        ensures
            r is None <==> chunk_bytes(self.content, c) is None,
            r is Some ==> r->0@ == chunk_bytes(self.content, c)->0,
    {
        match &self.content {
            Content::Plain => None,
            Content::DfuSe(targets) => {
                if c.target < targets.len() && c.element < targets[c.target].elements.len() {
                    let data = &targets[c.target].elements[c.element].data;
                    if c.offset <= data.len() && c.length <= data.len() - c.offset {
                        let mut out: Vec<u8> = Vec::new();
                        let mut i: usize = 0;
                        let n = data.len();
                        while i < c.length
                            invariant
                                i <= c.length,
                                n == data@.len(),
                                c.offset + c.length <= data@.len(),
                                out@ == data@.subrange(c.offset as int, c.offset + i),
                            decreases c.length - i,
                        {
                            out.push(data[c.offset + i]);
                            i = i + 1;
                            assert(out@ =~= data@.subrange(c.offset as int, c.offset + i));
                        }
                        Some(out)
                    } else {
                        None
                    }
                } else {
                    None
                }
            },
        }
    }

    /// Ends the phase with `result`, closing the device first if it is open.
    fn finish(&mut self, result: Result<(), Error>) -> (r: Action)
        requires
            old(self).wf(),
            !(old(self).stage is Finished),
        ensures
            final(self).wf(),
            final(self).ops == old(self).ops,
            final(self).content == old(self).content,
            final(self).info == old(self).info,
            final(self).pc == old(self).pc,
            old(self).open ==> final(self).stage == Stage::Closing(result) && r == Action::Close,
            !old(self).open ==> final(self).stage == Stage::Finished(result) && r == Action::Done(result),
    {
        if self.open {
            self.stage = Stage::Closing(result);
            Action::Close
        } else {
            self.stage = Stage::Finished(result);
            Action::Done(result)
        }
    }

    /// Starts the current operation, or ends the phase when none is left.
    fn dispatch(&mut self) -> (r: Action)
        requires
            old(self).wf(),
            old(self).open,
            !(old(self).stage is Finished),
        ensures
            final(self).wf(),
            final(self).ops == old(self).ops,
            final(self).content == old(self).content,
            final(self).info == old(self).info,
            final(self).pc == old(self).pc,
            r is Send ==> final(self).open,
            starts_op(old(self).ops@, old(self).content, old(self).pc as int, r, final(self).stage),
    {
        if self.pc >= self.ops.len() {
            self.stage = Stage::EndAbort;
            return Action::Send(Request::Abort);
        }
        match self.ops[self.pc] {
            Op::ErasePage(_) | Op::SetAddress(_) => {
                self.stage = Stage::CmdAbort;
                Action::Send(Request::Abort)
            },
            Op::Write(c) => {
                match self.chunk_data(c) {
                    Some(data) => {
                        self.stage = Stage::ChunkSent;
                        Action::Send(Request::Download { block_num: c.block_num, data })
                    },
                    None => unreached(),
                }
            },
            Op::Check(c) => {
                self.stage = Stage::ChunkRead;
                Action::Send(Request::Upload { block_num: c.block_num, length: c.length })
            },
            Op::Report(p) => {
                self.stage = Stage::Reported;
                Action::Report(p)
            },
            Op::Fail(e) => self.finish(Err(e)),
        }
    }

    /// Moves on to the next operation.
    fn advance(&mut self) -> (r: Action)
        requires
            old(self).wf(),
            old(self).open,
            old(self).pc < old(self).ops@.len(),
            !(old(self).stage is Finished),
        ensures
            final(self).wf(),
            final(self).ops == old(self).ops,
            final(self).content == old(self).content,
            final(self).info == old(self).info,
            final(self).pc == old(self).pc + 1,
            r is Send ==> final(self).open,
            starts_op(old(self).ops@, old(self).content, old(self).pc + 1, r, final(self).stage),
    {
        let n = self.ops.len();
        assert(self.pc < n);
        self.pc = self.pc + 1;
        self.stage = Stage::Ready;
        self.dispatch()
    }
}

/// The status response that a reply to DFU_GETSTATUS carries, if the
/// transfer succeeded.
pub open spec fn event_status(event: Event) -> Option<DeviceStatusResponse> {
    match event {
        Event::Data(b) => Some(crate::device::status_response_of(padded(b@, 6))),
        Event::Completed => Some(crate::device::status_response_of(padded(Seq::empty(), 6))),
        Event::Failed(_) => None,
    }
}

/// The bytes that a reply to DFU_UPLOAD carries, if the transfer succeeded.
pub open spec fn event_bytes(event: Event) -> Option<Seq<u8>> {
    match event {
        Event::Data(b) => Some(b@),
        Event::Completed => Some(Seq::empty()),
        Event::Failed(_) => None,
    }
}

/// The error that ends a wait for download-idle, given the stage and the
/// reply to its DFU_GETSTATUS: a state other than download-idle, or a
/// failed poll after all retries.
pub open spec fn wait_error(stage: Stage, event: Event) -> Option<DeviceError> {
    match stage {
        Stage::WaitStatus(n, _) => match event_status(event) {
            Some(st) => if st.bState != DeviceStateCode::dfuDNLOAD_IDLE {
                Some(DeviceError::InvalidDeviceState(st.bState))
            } else {
                None
            },
            None => if n >= NUM_POLLING_RETRIES {
                Some(DeviceError::TooManyGetStatusRetries)
            } else {
                None
            },
        },
        _ => None,
    }
}

/// Address `offset` bytes after `address`, modulo 2^32.
pub open spec fn address_after(address: u32, offset: int) -> u32 {
    ((address + offset) % 0x1_0000_0000) as u32
}

fn read_status(event: &Event) -> (r: Option<DeviceStatusResponse>)
    ensures
        r == event_status(*event),
{
    match event {
        Event::Data(b) => Some(DeviceStatusResponse::from_reply(b)),
        Event::Completed => {
            let empty: Vec<u8> = Vec::new();
            Some(DeviceStatusResponse::from_reply(&empty))
        },
        Event::Failed(_) => None,
    }
}

/// Whether a step finishes the current operation and moves on to the next:
/// after a progress report, after a chunk read back that matches the image,
/// after the wait that ends an erase or a chunk write, and after the last
/// request of the erase workaround or of setting the address pointer.
/// Every other step stays with the current operation.
pub open spec fn moves_on(s0: Session, event: Event) -> bool {
    match s0.stage {
        Stage::Reported => true,
        Stage::ChunkRead => event_bytes(event) is Some && chunk_bytes(s0.content, current(s0)->Check_0)
            == Some(event_bytes(event)->0),
        Stage::WaitStatus(_, _) => event_status(event) is Some && event_status(event)->0.bState
            == DeviceStateCode::dfuDNLOAD_IDLE && !(current(s0) is SetAddress),
        Stage::Recover2 | Stage::CmdFinalAbort => !(event is Failed),
        _ => false,
    }
}

/// What one step of a session does: `s0` is the session before, `event`
/// the outcome of the last action, `s1` the session after and `r` the
/// next action.
pub open spec fn step_post(s0: Session, event: Event, s1: Session, r: Action) -> bool {
    &&& s1.wf()
    &&& s1.ops == s0.ops
    &&& s1.content == s0.content
    &&& s1.info == s0.info
    &&& r is Send ==> s1.open
    &&& s0.stage is Finished ==> r == Action::Done(s0.stage->Finished_0) && s1 == s0
    &&& s0.stage is Closing ==> r == Action::Done(s0.stage->Closing_0) && s1.stage == Stage::Finished(s0.stage->Closing_0)
    &&& s0.stage == Stage::BusyCheck && event_status(event) is Some && event_status(
                event,
            )->0.bState != DeviceStateCode::dfuDNBUSY ==> r == Action::Close && s1.stage
                == Stage::Closing(
                Err(Error::Device(DeviceError::InvalidDeviceState(event_status(event)->0.bState))),
            )
    &&& s0.stage is WaitStatus && wait_error(s0.stage, event) is Some
                && current(s0) is ErasePage && erase_recovers(
                s0.info,
                wait_error(s0.stage, event)->0,
            ) ==> s1.stage == Stage::Recover1 && r == Action::Send(Request::ClearStatus)
    &&& s0.stage is WaitStatus && wait_error(s0.stage, event) is Some && !(
            current(s0) is ErasePage && erase_recovers(
                s0.info,
                wait_error(s0.stage, event)->0,
            )) ==> s1.stage == Stage::Closing(
                Err(Error::Device(wait_error(s0.stage, event)->0)),
            ) && r == Action::Close
    &&& s0.stage == Stage::ChunkRead && event_bytes(event) is Some && chunk_bytes(
                s0.content,
                current(s0)->Check_0,
            ) is Some && event_bytes(event)->0 != chunk_bytes(
                s0.content,
                current(s0)->Check_0,
            )->0 ==> exists|k: int|
                first_difference_at(
                    event_bytes(event)->0,
                    chunk_bytes(s0.content, current(s0)->Check_0)->0,
                    k,
                ) && s1.stage == Stage::Closing(
                    Err(
                        Error::VerificationFailed(
                            address_after(current(s0)->Check_0.address, k),
                        ),
                    ),
                ) && r == Action::Close
    &&& s0.stage == Stage::Start ==> r == Action::Open && s1.stage == Stage::Opening
    &&& s0.stage == Stage::Opening && event is Failed ==> r == Action::Done(Err(Error::Usb(event->Failed_0))) && s1.stage == Stage::Finished(Err(Error::Usb(event->Failed_0)))
    &&& s0.stage == Stage::Opening && !(event is Failed) ==> r == Action::Send(Request::Abort) && s1.stage == Stage::ResetAbort && s1.open
    &&& s0.stage == Stage::ResetStatus && (event_status(event) is None || event_status(event)->0.bStatus == DeviceStatusCode::OK) ==> s1.pc == s0.pc && starts_op(s0.ops@, s0.content, s0.pc as int, r, s1.stage)
    &&& s0.stage == Stage::ResetStatus && event_status(event) is Some && event_status(event)->0.bStatus != DeviceStatusCode::OK ==> r == Action::Send(Request::ClearStatus) && s1.stage == Stage::ResetClear
    &&& s0.stage is CmdIdle && event_status(event) is Some && is_idle(event_status(event)->0) ==> s1.stage == Stage::CmdSent && r is Send && is_command_request(r->Send_0, command_byte(current(s0)), command_address(current(s0)))
    &&& s0.stage == Stage::BusyCheck && event_status(event) is Some && event_status(event)->0.bState == DeviceStateCode::dfuDNBUSY ==> r == Action::Sleep(event_status(event)->0.bwPollTimeout as u64) && s1.stage == Stage::WaitSleep(0, event_status(event)->0.bwPollTimeout)
    &&& forall|n: u8, t: u32| s0.stage == Stage::WaitStatus(n, t) && event is Failed && n < NUM_POLLING_RETRIES ==> r == Action::Sleep(t as u64) && s1.stage == Stage::WaitSleep((n + 1) as u8, t)
    &&& s0.stage is WaitStatus && event_status(event) is Some && event_status(event)->0.bState == DeviceStateCode::dfuDNLOAD_IDLE && current(s0) is SetAddress ==> r == Action::Send(Request::Abort) && s1.stage == Stage::CmdFinalAbort
    &&& s0.stage is WaitStatus && event_status(event) is Some && event_status(event)->0.bState == DeviceStateCode::dfuDNLOAD_IDLE && !(current(s0) is SetAddress) ==> s1.pc == s0.pc + 1 && starts_op(s0.ops@, s0.content, s0.pc + 1, r, s1.stage)
    &&& s0.stage == Stage::Reported ==> s1.pc == s0.pc + 1 && starts_op(s0.ops@, s0.content, s0.pc + 1, r, s1.stage)
    &&& s0.stage == Stage::ChunkRead && event_bytes(event) is Some && chunk_bytes(s0.content, current(s0)->Check_0) == Some(event_bytes(event)->0) ==> s1.pc == s0.pc + 1 && starts_op(s0.ops@, s0.content, s0.pc + 1, r, s1.stage)
    &&& s0.stage == Stage::EndAbort && !(event is Failed) ==> r == Action::Close && s1.stage == Stage::Closing(Ok(()))
    &&& (s0.stage == Stage::ResetAbort || s0.stage == Stage::ResetClear) && !(event is Failed) ==> r == Action::Send(Request::GetStatus) && s1.stage == Stage::ResetStatus
    &&& (s0.stage == Stage::ResetAbort || s0.stage == Stage::ResetClear) && event is Failed ==> r == Action::Close && s1.stage == Stage::Closing(Err(Error::Usb(event->Failed_0)))
    &&& s0.stage == Stage::CmdAbort && !(event is Failed) ==> r == Action::Send(Request::GetStatus) && s1.stage == Stage::CmdIdle(0)
    &&& forall|n: u8| s0.stage == Stage::CmdIdle(n) && event_status(event) is Some && !is_idle(event_status(event)->0) && n < NUM_POLLING_RETRIES ==> r == Action::Sleep(event_status(event)->0.bwPollTimeout as u64) && s1.stage == Stage::CmdIdleSleep((n + 1) as u8)
    &&& forall|n: u8| s0.stage == Stage::CmdIdle(n) && event_status(event) is Some && !is_idle(event_status(event)->0) && n >= NUM_POLLING_RETRIES ==> r == Action::Close && s1.stage == Stage::Closing(Err(Error::Device(DeviceError::InvalidDeviceState(event_status(event)->0.bState))))
    &&& forall|n: u8| s0.stage == Stage::CmdIdleSleep(n) ==> r == Action::Send(Request::GetStatus) && s1.stage == Stage::CmdIdle(n)
    &&& s0.stage == Stage::CmdSent && !(event is Failed) ==> r == Action::Send(Request::GetStatus) && s1.stage == Stage::BusyCheck
    &&& (s0.stage == Stage::CmdAbort || s0.stage is CmdIdle || s0.stage == Stage::CmdSent) && event is Failed ==> r == Action::Close && s1.stage == Stage::Closing(Err(Error::Usb(event->Failed_0)))
    &&& s0.stage == Stage::BusyCheck && event is Failed ==> r == Action::Close && s1.stage == Stage::Closing(Err(Error::Usb(event->Failed_0)))
    &&& forall|n: u8, t: u32| s0.stage == Stage::WaitSleep(n, t) ==> r == Action::Send(Request::GetStatus) && s1.stage == Stage::WaitStatus(n, t)
    &&& s0.stage == Stage::Recover1 ==> r == Action::Send(Request::ClearStatus) && s1.stage == Stage::Recover2
    &&& (s0.stage == Stage::Recover2 || s0.stage == Stage::CmdFinalAbort) && !(event is Failed) ==> s1.pc == s0.pc + 1 && starts_op(s0.ops@, s0.content, s0.pc + 1, r, s1.stage)
    &&& (s0.stage == Stage::Recover2 || s0.stage == Stage::CmdFinalAbort) && event is Failed ==> r == Action::Close && s1.stage == Stage::Closing(Err(Error::Usb(event->Failed_0)))
    &&& s0.stage == Stage::ChunkSent && !(event is Failed) ==> r == Action::Send(Request::GetStatus) && s1.stage == Stage::BusyCheck
    &&& (s0.stage == Stage::ChunkSent || s0.stage == Stage::ChunkRead || s0.stage == Stage::EndAbort) && event is Failed ==> r == Action::Close && s1.stage == Stage::Closing(Err(Error::Usb(event->Failed_0)))
    &&& s0.stage == Stage::Ready ==> s1.pc == s0.pc && starts_op(s0.ops@, s0.content, s0.pc as int, r, s1.stage)
    &&& moves_on(s0, event) ==> s1.pc == s0.pc + 1
    &&& !moves_on(s0, event) ==> s1.pc == s0.pc
}

impl Session {
    fn wait_failed(&mut self, err: DeviceError) -> (r: Action)
        requires
            old(self).wf(),
            old(self).stage is WaitStatus,
        ensures
            final(self).wf(),
            final(self).ops == old(self).ops,
            final(self).content == old(self).content,
            final(self).info == old(self).info,
            r is Send ==> final(self).open,
            final(self).pc == old(self).pc,
            current(*old(self)) is ErasePage && erase_recovers(old(self).info, err) ==> final(self).stage
                == Stage::Recover1 && r == Action::Send(Request::ClearStatus),
            !(current(*old(self)) is ErasePage && erase_recovers(old(self).info, err)) ==> final(self).stage == Stage::Closing(Err(Error::Device(err))) && r == Action::Close,
    {
        let erase = match self.ops[self.pc] {
            Op::ErasePage(_) => true,
            _ => false,
        };
        if erase && stm32h7_erase_workaround(&self.info, err) {
            self.stage = Stage::Recover1;
            Action::Send(Request::ClearStatus)
        } else {
            self.finish(Err(Error::Device(err)))
        }
    }

    /// Opens the device and clears its status.
    fn step_reset(&mut self, event: Event) -> (r: Action)
        requires
            old(self).wf(),
            old(self).stage is Start || old(self).stage is Opening || old(self).stage is ResetAbort || old(self).stage is ResetStatus || old(self).stage is ResetClear || old(self).stage is Ready,
        ensures
            final(self).wf(),
            final(self).ops == old(self).ops,
            final(self).content == old(self).content,
            final(self).info == old(self).info,
            r is Send ==> final(self).open,
            old(self).stage == Stage::Start ==> r == Action::Open && final(self).stage == Stage::Opening,
            old(self).stage == Stage::Opening && event is Failed ==> r == Action::Done(Err(Error::Usb(event->Failed_0))) && final(self).stage == Stage::Finished(Err(Error::Usb(event->Failed_0))),
            old(self).stage == Stage::Opening && !(event is Failed) ==> r == Action::Send(Request::Abort) && final(self).stage == Stage::ResetAbort && final(self).open,
            old(self).stage == Stage::ResetStatus && (event_status(event) is None || event_status(event)->0.bStatus == DeviceStatusCode::OK) ==> final(self).pc == old(self).pc && starts_op(old(self).ops@, old(self).content, old(self).pc as int, r, final(self).stage),
            old(self).stage == Stage::ResetStatus && event_status(event) is Some && event_status(event)->0.bStatus != DeviceStatusCode::OK ==> r == Action::Send(Request::ClearStatus) && final(self).stage == Stage::ResetClear,
            (old(self).stage == Stage::ResetAbort || old(self).stage == Stage::ResetClear) && !(event is Failed) ==> r == Action::Send(Request::GetStatus) && final(self).stage == Stage::ResetStatus,
            (old(self).stage == Stage::ResetAbort || old(self).stage == Stage::ResetClear) && event is Failed ==> r == Action::Close && final(self).stage == Stage::Closing(Err(Error::Usb(event->Failed_0))),
            old(self).stage == Stage::Ready ==> final(self).pc == old(self).pc && starts_op(old(self).ops@, old(self).content, old(self).pc as int, r, final(self).stage),
            moves_on(*old(self), event) ==> final(self).pc == old(self).pc + 1,
            !moves_on(*old(self), event) ==> final(self).pc == old(self).pc,
    {
        match self.stage {
            Stage::Start => {
                self.stage = Stage::Opening;
                Action::Open
            },
            Stage::Opening => match event {
                Event::Failed(e) => self.finish(Err(Error::Usb(e))),
                _ => {
                    self.open = true;
                    self.stage = Stage::ResetAbort;
                    Action::Send(Request::Abort)
                },
            },
            Stage::ResetAbort => match event {
                Event::Failed(e) => self.finish(Err(Error::Usb(e))),
                _ => {
                    self.stage = Stage::ResetStatus;
                    Action::Send(Request::GetStatus)
                },
            },
            Stage::ResetStatus => match read_status(&event) {
                None => {
                    self.stage = Stage::Ready;
                    self.dispatch()
                },
                Some(st) => {
                    if st.bStatus == DeviceStatusCode::OK {
                        self.stage = Stage::Ready;
                        self.dispatch()
                    } else {
                        self.stage = Stage::ResetClear;
                        Action::Send(Request::ClearStatus)
                    }
                },
            },
            Stage::ResetClear => match event {
                Event::Failed(e) => self.finish(Err(Error::Usb(e))),
                _ => {
                    self.stage = Stage::ResetStatus;
                    Action::Send(Request::GetStatus)
                },
            },
            Stage::Ready => self.dispatch(),
            _ => unreached(),
        }
    }

    /// Runs a DfuSe command up to its download.
    fn step_command(&mut self, event: Event) -> (r: Action)
        requires
            old(self).wf(),
            old(self).stage is CmdAbort || old(self).stage is CmdIdle || old(self).stage is CmdIdleSleep || old(self).stage is CmdSent,
        ensures
            final(self).wf(),
            final(self).ops == old(self).ops,
            final(self).content == old(self).content,
            final(self).info == old(self).info,
            r is Send ==> final(self).open,
            old(self).stage is CmdIdle && event_status(event) is Some && is_idle(event_status(event)->0) ==> final(self).stage == Stage::CmdSent && r is Send && is_command_request(r->Send_0, command_byte(current(*old(self))), command_address(current(*old(self)))),
            old(self).stage == Stage::CmdAbort && !(event is Failed) ==> r == Action::Send(Request::GetStatus) && final(self).stage == Stage::CmdIdle(0),
            forall|n: u8| old(self).stage == Stage::CmdIdle(n) && event_status(event) is Some && !is_idle(event_status(event)->0) && n < NUM_POLLING_RETRIES ==> r == Action::Sleep(event_status(event)->0.bwPollTimeout as u64) && final(self).stage == Stage::CmdIdleSleep((n + 1) as u8),
            forall|n: u8| old(self).stage == Stage::CmdIdle(n) && event_status(event) is Some && !is_idle(event_status(event)->0) && n >= NUM_POLLING_RETRIES ==> r == Action::Close && final(self).stage == Stage::Closing(Err(Error::Device(DeviceError::InvalidDeviceState(event_status(event)->0.bState)))),
            forall|n: u8| old(self).stage == Stage::CmdIdleSleep(n) ==> r == Action::Send(Request::GetStatus) && final(self).stage == Stage::CmdIdle(n),
            old(self).stage == Stage::CmdSent && !(event is Failed) ==> r == Action::Send(Request::GetStatus) && final(self).stage == Stage::BusyCheck,
            (old(self).stage == Stage::CmdAbort || old(self).stage is CmdIdle || old(self).stage == Stage::CmdSent) && event is Failed ==> r == Action::Close && final(self).stage == Stage::Closing(Err(Error::Usb(event->Failed_0))),
            moves_on(*old(self), event) ==> final(self).pc == old(self).pc + 1,
            !moves_on(*old(self), event) ==> final(self).pc == old(self).pc,
    {
        match self.stage {
            Stage::CmdAbort => match event {
                Event::Failed(e) => self.finish(Err(Error::Usb(e))),
                _ => {
                    self.stage = Stage::CmdIdle(0);
                    Action::Send(Request::GetStatus)
                },
            },
            Stage::CmdIdle(n) => match event {
                Event::Failed(e) => self.finish(Err(Error::Usb(e))),
                _ => {
                    let st = match read_status(&event) {
                        Some(st) => st,
                        None => unreached(),
                    };
                    if st.bState == DeviceStateCode::dfuIDLE || st.bState
                        == DeviceStateCode::dfuDNLOAD_IDLE {
                        let request = match self.ops[self.pc] {
                            Op::ErasePage(a) => erase_page_request(a),
                            Op::SetAddress(a) => set_address_request(a),
                            _ => unreached(),
                        };
                        self.stage = Stage::CmdSent;
                        Action::Send(request)
                    } else if n < NUM_POLLING_RETRIES {
                        self.stage = Stage::CmdIdleSleep(n + 1);
                        Action::Sleep(st.bwPollTimeout as u64)
                    } else {
                        self.finish(Err(Error::Device(DeviceError::InvalidDeviceState(st.bState))))
                    }
                },
            },
            Stage::CmdIdleSleep(n) => {
                self.stage = Stage::CmdIdle(n);
                Action::Send(Request::GetStatus)
            },
            Stage::CmdSent => match event {
                Event::Failed(e) => self.finish(Err(Error::Usb(e))),
                _ => {
                    self.stage = Stage::BusyCheck;
                    Action::Send(Request::GetStatus)
                },
            },
            _ => unreached(),
        }
    }

    /// Checks that the device is busy after a download.
    fn step_busy(&mut self, event: Event) -> (r: Action)
        requires
            old(self).wf(),
            old(self).stage is BusyCheck,
        ensures
            final(self).wf(),
            final(self).ops == old(self).ops,
            final(self).content == old(self).content,
            final(self).info == old(self).info,
            r is Send ==> final(self).open,
            old(self).stage == Stage::BusyCheck && event_status(event) is Some && event_status(
                event,
            )->0.bState != DeviceStateCode::dfuDNBUSY ==> r == Action::Close && final(self).stage
                == Stage::Closing(
                Err(Error::Device(DeviceError::InvalidDeviceState(event_status(event)->0.bState))),
            ),
            old(self).stage == Stage::BusyCheck && event_status(event) is Some && event_status(event)->0.bState == DeviceStateCode::dfuDNBUSY ==> r == Action::Sleep(event_status(event)->0.bwPollTimeout as u64) && final(self).stage == Stage::WaitSleep(0, event_status(event)->0.bwPollTimeout),
            old(self).stage == Stage::BusyCheck && event is Failed ==> r == Action::Close && final(self).stage == Stage::Closing(Err(Error::Usb(event->Failed_0))),
            moves_on(*old(self), event) ==> final(self).pc == old(self).pc + 1,
            !moves_on(*old(self), event) ==> final(self).pc == old(self).pc,
    {
        match self.stage {
            Stage::BusyCheck => match event {
                Event::Failed(e) => self.finish(Err(Error::Usb(e))),
                _ => {
                    let st = match read_status(&event) {
                        Some(st) => st,
                        None => unreached(),
                    };
                    if st.bState != DeviceStateCode::dfuDNBUSY {
                        self.finish(Err(Error::Device(DeviceError::InvalidDeviceState(st.bState))))
                    } else {
                        self.stage = Stage::WaitSleep(0, st.bwPollTimeout);
                        Action::Sleep(st.bwPollTimeout as u64)
                    }
                },
            },
            _ => unreached(),
        }
    }

    /// Waits for the device to finish a download.
    fn step_wait(&mut self, event: Event) -> (r: Action)
        requires
            old(self).wf(),
            old(self).stage is WaitSleep || old(self).stage is WaitStatus,
        ensures
            final(self).wf(),
            final(self).ops == old(self).ops,
            final(self).content == old(self).content,
            final(self).info == old(self).info,
            r is Send ==> final(self).open,
            old(self).stage is WaitStatus && wait_error(old(self).stage, event) is Some
                && current(*old(self)) is ErasePage && erase_recovers(
                old(self).info,
                wait_error(old(self).stage, event)->0,
            ) ==> final(self).stage == Stage::Recover1 && r == Action::Send(Request::ClearStatus),
            old(self).stage is WaitStatus && wait_error(old(self).stage, event) is Some && !(
            current(*old(self)) is ErasePage && erase_recovers(
                old(self).info,
                wait_error(old(self).stage, event)->0,
            )) ==> final(self).stage == Stage::Closing(
                Err(Error::Device(wait_error(old(self).stage, event)->0)),
            ) && r == Action::Close,
            forall|n: u8, t: u32| old(self).stage == Stage::WaitStatus(n, t) && event is Failed && n < NUM_POLLING_RETRIES ==> r == Action::Sleep(t as u64) && final(self).stage == Stage::WaitSleep((n + 1) as u8, t),
            old(self).stage is WaitStatus && event_status(event) is Some && event_status(event)->0.bState == DeviceStateCode::dfuDNLOAD_IDLE && current(*old(self)) is SetAddress ==> r == Action::Send(Request::Abort) && final(self).stage == Stage::CmdFinalAbort,
            old(self).stage is WaitStatus && event_status(event) is Some && event_status(event)->0.bState == DeviceStateCode::dfuDNLOAD_IDLE && !(current(*old(self)) is SetAddress) ==> final(self).pc == old(self).pc + 1 && starts_op(old(self).ops@, old(self).content, old(self).pc + 1, r, final(self).stage),
            forall|n: u8, t: u32| old(self).stage == Stage::WaitSleep(n, t) ==> r == Action::Send(Request::GetStatus) && final(self).stage == Stage::WaitStatus(n, t),
            moves_on(*old(self), event) ==> final(self).pc == old(self).pc + 1,
            !moves_on(*old(self), event) ==> final(self).pc == old(self).pc,
    {
        match self.stage {
            Stage::WaitSleep(n, t) => {
                self.stage = Stage::WaitStatus(n, t);
                Action::Send(Request::GetStatus)
            },
            Stage::WaitStatus(n, t) => match event {
                Event::Failed(_) => {
                    if n >= NUM_POLLING_RETRIES {
                        self.wait_failed(DeviceError::TooManyGetStatusRetries)
                    } else {
                        self.stage = Stage::WaitSleep(n + 1, t);
                        Action::Sleep(t as u64)
                    }
                },
                _ => {
                    let st = match read_status(&event) {
                        Some(st) => st,
                        None => unreached(),
                    };
                    if st.bState != DeviceStateCode::dfuDNLOAD_IDLE {
                        self.wait_failed(DeviceError::InvalidDeviceState(st.bState))
                    } else {
                        match self.ops[self.pc] {
                            Op::SetAddress(_) => {
                                self.stage = Stage::CmdFinalAbort;
                                Action::Send(Request::Abort)
                            },
                            _ => self.advance(),
                        }
                    }
                },
            },
            _ => unreached(),
        }
    }

    /// Finishes the erase workaround or the address pointer command.
    fn step_recover(&mut self, event: Event) -> (r: Action)
        requires
            old(self).wf(),
            old(self).stage is Recover1 || old(self).stage is Recover2 || old(self).stage is CmdFinalAbort,
        ensures
            final(self).wf(),
            final(self).ops == old(self).ops,
            final(self).content == old(self).content,
            final(self).info == old(self).info,
            r is Send ==> final(self).open,
            old(self).stage == Stage::Recover1 ==> r == Action::Send(Request::ClearStatus) && final(self).stage == Stage::Recover2,
            (old(self).stage == Stage::Recover2 || old(self).stage == Stage::CmdFinalAbort) && !(event is Failed) ==> final(self).pc == old(self).pc + 1 && starts_op(old(self).ops@, old(self).content, old(self).pc + 1, r, final(self).stage),
            (old(self).stage == Stage::Recover2 || old(self).stage == Stage::CmdFinalAbort) && event is Failed ==> r == Action::Close && final(self).stage == Stage::Closing(Err(Error::Usb(event->Failed_0))),
            moves_on(*old(self), event) ==> final(self).pc == old(self).pc + 1,
            !moves_on(*old(self), event) ==> final(self).pc == old(self).pc,
    {
        match self.stage {
            Stage::Recover1 => {
                self.stage = Stage::Recover2;
                Action::Send(Request::ClearStatus)
            },
            Stage::Recover2 | Stage::CmdFinalAbort => match event {
                Event::Failed(e) => self.finish(Err(Error::Usb(e))),
                _ => self.advance(),
            },
            _ => unreached(),
        }
    }

    /// Transfers a chunk, reports progress, or ends the phase.
    fn step_chunk(&mut self, event: Event) -> (r: Action)
        requires
            old(self).wf(),
            old(self).stage is ChunkSent || old(self).stage is ChunkRead || old(self).stage is Reported || old(self).stage is EndAbort,
        ensures
            final(self).wf(),
            final(self).ops == old(self).ops,
            final(self).content == old(self).content,
            final(self).info == old(self).info,
            r is Send ==> final(self).open,
            old(self).stage == Stage::ChunkRead && event_bytes(event) is Some && chunk_bytes(
                old(self).content,
                current(*old(self))->Check_0,
            ) is Some && event_bytes(event)->0 != chunk_bytes(
                old(self).content,
                current(*old(self))->Check_0,
            )->0 ==> exists|k: int|
                first_difference_at(
                    event_bytes(event)->0,
                    chunk_bytes(old(self).content, current(*old(self))->Check_0)->0,
                    k,
                ) && final(self).stage == Stage::Closing(
                    Err(
                        Error::VerificationFailed(
                            address_after(current(*old(self))->Check_0.address, k),
                        ),
                    ),
                ) && r == Action::Close,
            old(self).stage == Stage::Reported ==> final(self).pc == old(self).pc + 1 && starts_op(old(self).ops@, old(self).content, old(self).pc + 1, r, final(self).stage),
            old(self).stage == Stage::ChunkRead && event_bytes(event) is Some && chunk_bytes(old(self).content, current(*old(self))->Check_0) == Some(event_bytes(event)->0) ==> final(self).pc == old(self).pc + 1 && starts_op(old(self).ops@, old(self).content, old(self).pc + 1, r, final(self).stage),
            old(self).stage == Stage::EndAbort && !(event is Failed) ==> r == Action::Close && final(self).stage == Stage::Closing(Ok(())),
            old(self).stage == Stage::ChunkSent && !(event is Failed) ==> r == Action::Send(Request::GetStatus) && final(self).stage == Stage::BusyCheck,
            (old(self).stage == Stage::ChunkSent || old(self).stage == Stage::ChunkRead || old(self).stage == Stage::EndAbort) && event is Failed ==> r == Action::Close && final(self).stage == Stage::Closing(Err(Error::Usb(event->Failed_0))),
            moves_on(*old(self), event) ==> final(self).pc == old(self).pc + 1,
            !moves_on(*old(self), event) ==> final(self).pc == old(self).pc,
    {
        match self.stage {
            Stage::ChunkSent => match event {
                Event::Failed(e) => self.finish(Err(Error::Usb(e))),
                _ => {
                    self.stage = Stage::BusyCheck;
                    Action::Send(Request::GetStatus)
                },
            },
            Stage::ChunkRead => {
                let c = match self.ops[self.pc] {
                    Op::Check(c) => c,
                    _ => unreached(),
                };
                match event {
                    Event::Failed(e) => self.finish(Err(Error::Usb(e))),
                    _ => {
                        let got = match event {
                            Event::Data(b) => b,
                            _ => Vec::new(),
                        };
                        match self.chunk_data(c) {
                            None => unreached(),
                            Some(expected) => match first_difference(&got, &expected) {
                                None => self.advance(),
                                Some(k) => {
                                    let address = ((c.address as u64 + (k as u64 % 0x1_0000_0000u64))
                                        % 0x1_0000_0000u64) as u32;
                                    proof {
                                        vstd::arithmetic::div_mod::lemma_add_mod_noop(
                                            c.address as int,
                                            k as int,
                                            0x1_0000_0000,
                                        );
                                        assert((c.address as int) % 0x1_0000_0000 == c.address as int);
                                    }
                                    self.finish(Err(Error::VerificationFailed(address)))
                                },
                            },
                        }
                    },
                }
            },
            Stage::Reported => self.advance(),
            Stage::EndAbort => match event {
                Event::Failed(e) => self.finish(Err(Error::Usb(e))),
                _ => {
                    self.stage = Stage::Closing(Ok(()));
                    Action::Close
                },
            },
            _ => unreached(),
        }
    }

    /// Takes the outcome of the last action and says what to do next.
    pub fn step(&mut self, event: Event) -> (r: Action)
        requires
            old(self).wf(),
        ensures
            step_post(*old(self), event, *final(self), r),
    {
        match self.stage {
            Stage::Finished(res) => Action::Done(res),
            Stage::Closing(res) => {
                self.open = false;
                self.stage = Stage::Finished(res);
                Action::Done(res)
            },
            Stage::Start | Stage::Opening | Stage::ResetAbort | Stage::ResetStatus
            | Stage::ResetClear | Stage::Ready => self.step_reset(event),
            Stage::CmdAbort | Stage::CmdIdle(_) | Stage::CmdIdleSleep(_) | Stage::CmdSent => self.step_command(event),
            Stage::BusyCheck => self.step_busy(event),
            Stage::WaitSleep(_, _) | Stage::WaitStatus(_, _) => self.step_wait(event),
            Stage::Recover1 | Stage::Recover2 | Stage::CmdFinalAbort => self.step_recover(event),
            Stage::ChunkSent | Stage::ChunkRead | Stage::Reported | Stage::EndAbort => self.step_chunk(event),
        }
    }
}

/// A verify step that reads back a chunk differing from the image fails the
/// phase with `VerificationFailed` at the device address of the first
/// differing byte: the element's address plus the chunk's offset plus the
/// index of the first difference (modulo 2^32). The session asks to close
/// the device, then ends with that error and asks for nothing more: no
/// chunk after it is read.
pub proof fn lemma_verify_mismatch(
    s0: Session,
    event: Event,
    s1: Session,
    r1: Action,
    e2: Event,
    s2: Session,
    r2: Action,
    e3: Event,
    s3: Session,
    r3: Action,
)
    requires
        s0.wf(),
        s0.stage == Stage::ChunkRead,
        event_bytes(event) is Some,
        Some(event_bytes(event)->0) != chunk_bytes(s0.content, current(s0)->Check_0),
        step_post(s0, event, s1, r1),
        step_post(s1, e2, s2, r2),
        step_post(s2, e3, s3, r3),
    ensures
        r1 == Action::Close,
        ({
            let c = current(s0)->Check_0;
            let el = s0.content->DfuSe_0@[c.target as int].elements@[c.element as int];
            exists|k: int|
                first_difference_at(event_bytes(event)->0, chunk_bytes(s0.content, c)->0, k)
                    && r2 == Action::Done(
                    Err(Error::VerificationFailed(((el.address + c.offset + k) % 0x1_0000_0000) as u32)),
                )
        }),
        s2.stage is Finished,
        r3 == r2,
        s3.stage is Finished,
{
    let c = current(s0)->Check_0;
    let el = s0.content->DfuSe_0@[c.target as int].elements@[c.element as int];
    assert(match s0.ops@[s0.pc as int] {
        Op::Check(c) => chunk_fits(s0.content, c),
        _ => true,
    });
    let bytes = chunk_bytes(s0.content, c)->0;
    let got = event_bytes(event)->0;
    let k = choose|k: int|
        first_difference_at(got, bytes, k) && s1.stage == Stage::Closing(
            Err(Error::VerificationFailed(address_after(c.address, k))),
        ) && r1 == Action::Close;
    let m: int = 0x1_0000_0000;
    lemma_add_mod_noop(el.address + c.offset, k, m);
    assert((k % m) % m == k % m) by {
        vstd::arithmetic::div_mod::lemma_mod_twice(k, m);
    }
    lemma_add_mod_noop((el.address + c.offset) % m, k, m);
    vstd::arithmetic::div_mod::lemma_mod_twice(el.address + c.offset, m);
    assert(0 <= (el.address + c.offset) % m < m) by {
        vstd::arithmetic::div_mod::lemma_mod_bound(el.address + c.offset, m);
    }
    assert(address_after(c.address, k) == ((el.address + c.offset + k) % m) as u32);
}

/// What the observer of an update is told.
#[derive(Debug, Clone, Copy, PartialEq, Eq)]
pub enum Notice {
    /// The update started.
    Started,
    /// A phase started.
    Step(DeviceUpdateStep),
    /// Progress within a phase.
    Progress(DeviceUpdateStep, Progress),
    /// All three phases succeeded.
    Finished,
    /// The update stopped with this error.
    Failed(Error),
}

/// What the caller of a full update is asked to do next.
pub enum UpdateAction {
    /// A device action of the current phase (never `Report` or `Done`).
    Device(Action),
    /// Tell the observer; sending is best effort and its outcome is ignored.
    Notify(Notice),
    /// The update is over, with this result.
    Stop(Result<(), Error>),
}

/// Where a full update stands.
#[derive(Debug, Clone, Copy, PartialEq, Eq)]
pub enum UpdateStage {
    /// Nothing done yet.
    Begin,
    /// The start was announced; the first phase is announced next.
    Announced,
    /// A phase is running.
    Running,
    /// The update is over.
    Over(Result<(), Error>),
}

/// The phase after `step`, if any.
pub open spec fn next_step(step: DeviceUpdateStep) -> Option<DeviceUpdateStep> {
    match step {
        DeviceUpdateStep::Erase => Some(DeviceUpdateStep::Program),
        DeviceUpdateStep::Program => Some(DeviceUpdateStep::Verify),
        DeviceUpdateStep::Verify => None,
    }
}

/// A full update: erase, then program, then verify, each phase opening
/// the device afresh; the first failure ends it.
pub struct Update {
    /// The phase in progress (absent once the update is over).
    pub session: Option<Session>,
    /// Where the update stands.
    pub stage: UpdateStage,
}

/// Whether `s` is a fresh session for phase `step` of `content` on the
/// device of `info`: nothing done yet.
pub open spec fn fresh(s: Session, step: DeviceUpdateStep, content: Content, info: DeviceInfo) -> bool {
    &&& s.step == step
    &&& s.content == content
    &&& s.info == info
    &&& s.ops@ == phase_ops(step, content, info)
    &&& s.pc == 0
    &&& s.stage == Stage::Start
}

/// What a running update does with the action `a` that its session `s`
/// asked for: `r` is what the caller is asked and `u` the update after.
/// Progress goes to the observer; the end of a phase starts the next one
/// with the same image and device, or ends the update after the verify
/// phase; a failed phase ends the update with its error; any other action
/// is passed on to the caller.
pub open spec fn absorb_post(s: Session, a: Action, r: UpdateAction, u: Update) -> bool {
    match a {
        Action::Report(p) => r == UpdateAction::Notify(Notice::Progress(s.step, p))
            && u.stage == UpdateStage::Running && u.session == Some(s),
        Action::Done(Err(e)) => r == UpdateAction::Notify(Notice::Failed(e)) && u.stage
            == UpdateStage::Over(Err(e)) && u.session is None,
        Action::Done(Ok(())) => match next_step(s.step) {
            Some(n) => r == UpdateAction::Notify(Notice::Step(n)) && u.stage == UpdateStage::Running
                && u.session is Some && fresh(u.session->0, n, s.content, s.info),
            None => r == UpdateAction::Notify(Notice::Finished) && u.stage == UpdateStage::Over(
                Ok(()),
            ) && u.session is None,
        },
        _ => r == UpdateAction::Device(a) && u.stage == UpdateStage::Running && u.session == Some(s),
    }
}

impl Update {
    /// Whether the update's fields agree with one another.
    pub open spec fn wf(&self) -> bool {
        &&& (self.stage is Over) == (self.session is None)
        &&& self.session is Some ==> self.session->0.wf()
        &&& self.stage is Begin || self.stage is Announced ==> fresh(
            self.session->0,
            DeviceUpdateStep::Erase,
            self.session->0.content,
            self.session->0.info,
        )
    }

    /// An update of `info`'s device with `content`.
    pub fn new(content: Content, info: DeviceInfo) -> (r: Self)
        ensures
            r.wf(),
            r.stage == UpdateStage::Begin,
            r.session is Some,
            fresh(r.session->0, DeviceUpdateStep::Erase, content, info),
    {
        Update { session: Some(Session::new(DeviceUpdateStep::Erase, content, info)), stage: UpdateStage::Begin }
    }

    /// Hands on the action that the running phase's session `s` asked for.
    pub fn absorb(&mut self, s: Session, a: Action) -> (r: UpdateAction)
        requires
            old(self).stage == UpdateStage::Running,
            s.wf(),
        ensures
            final(self).wf(),
            absorb_post(s, a, r, *final(self)),
    {
        match a {
            Action::Report(p) => {
                let step = s.step;
                self.session = Some(s);
                UpdateAction::Notify(Notice::Progress(step, p))
            },
            Action::Done(Err(e)) => {
                self.session = None;
                self.stage = UpdateStage::Over(Err(e));
                UpdateAction::Notify(Notice::Failed(e))
            },
            Action::Done(Ok(())) => {
                let next = match s.step {
                    DeviceUpdateStep::Erase => Some(DeviceUpdateStep::Program),
                    DeviceUpdateStep::Program => Some(DeviceUpdateStep::Verify),
                    DeviceUpdateStep::Verify => None,
                };
                match next {
                    Some(n) => {
                        let (content, info) = s.into_parts();
                        self.session = Some(Session::new(n, content, info));
                        UpdateAction::Notify(Notice::Step(n))
                    },
                    None => {
                        self.session = None;
                        self.stage = UpdateStage::Over(Ok(()));
                        UpdateAction::Notify(Notice::Finished)
                    },
                }
            },
            other => {
                self.session = Some(s);
                UpdateAction::Device(other)
            },
        }
    }

    /// Takes the outcome of the last action and says what to do next: the
    /// start is announced, then the erase phase, and from then on the
    /// running phase's session takes the event and its action is handed on
    /// as `absorb` describes.
    pub fn step(&mut self, event: Event) -> (r: UpdateAction)
        requires
            old(self).wf(),
        ensures
            final(self).wf(),
            old(self).stage is Over ==> r == UpdateAction::Stop(old(self).stage->Over_0) && *final(self) == *old(self),
            old(self).stage == UpdateStage::Begin ==> r == UpdateAction::Notify(Notice::Started)
                && final(self).stage == UpdateStage::Announced && final(self).session == old(self).session,
            old(self).stage == UpdateStage::Announced ==> r == UpdateAction::Notify(Notice::Step(DeviceUpdateStep::Erase))
                && final(self).stage == UpdateStage::Running && final(self).session == old(self).session,
            old(self).stage == UpdateStage::Running ==> !(r is Stop) && exists|s: Session, a: Action|
                step_post(old(self).session->0, event, s, a) && absorb_post(s, a, r, *final(self)),
    {
        match self.stage {
            UpdateStage::Over(res) => UpdateAction::Stop(res),
            UpdateStage::Begin => {
                self.stage = UpdateStage::Announced;
                UpdateAction::Notify(Notice::Started)
            },
            UpdateStage::Announced => {
                self.stage = UpdateStage::Running;
                UpdateAction::Notify(Notice::Step(DeviceUpdateStep::Erase))
            },
            UpdateStage::Running => {
                let mut session = self.session.take().unwrap();
                let ghost s0 = session;
                let action = session.step(event);
                let ghost s1 = session;
                let ghost a1 = action;
                let r = self.absorb(session, action);
                assert(step_post(s0, event, s1, a1));
                r
            },
        }
    }
}

} // verus!
