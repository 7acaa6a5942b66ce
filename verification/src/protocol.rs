//! What passes between a session and the driver that performs its I/O:
//! the actions a session asks for and the events that answer them.

use vstd::prelude::*;
use crate::failure::Failure;
use crate::layout::word_bytes;

verus! {

/// Path of the tracing device; it is opened for reading and writing.
pub const KCOV: &'static str = "/sys/kernel/debug/kcov";

/// Tag shared by the three control requests: the letter `c`.
pub const KCOV_MAGIC: u8 = 0x63;

/// A control request to the tracing device.
#[derive(Clone, Copy, Debug, PartialEq, Eq)]
pub enum Control {
    /// Negotiates the size of the trace buffer, in words. It comes before
    /// the buffer is mapped and before tracing is enabled.
    InitTrace { capacity: usize },
    /// Starts recording for the calling thread.
    Enable,
    /// Stops recording; what was recorded stays in the buffer.
    Disable,
}

impl Control {
    /// The operation code that tells the requests apart.
    pub open spec fn code_of(self) -> u8 {
        match self {
            Control::InitTrace { .. } => 1,
            Control::Enable => 100,
            Control::Disable => 101,
        }
    }

    /// The word handed to the device along with the request.
    pub open spec fn argument_of(self) -> usize {
        match self {
            Control::InitTrace { capacity } => capacity,
            Control::Enable => 0,
            Control::Disable => 0,
        }
    }

    /// The tag of the request family.
    pub fn magic(&self) -> (tag: u8)
        ensures
            tag == KCOV_MAGIC,
    {
        KCOV_MAGIC
    }

    /// The operation code that tells the requests apart.
    pub fn code(&self) -> (code: u8)
        ensures
            code == self.code_of(),
    {
        match self {
            Control::InitTrace { .. } => 1,
            Control::Enable => 100,
            Control::Disable => 101,
        }
    }

    /// The word handed to the device along with the request: the capacity
    /// for `InitTrace`, zero for the others.
    pub fn argument(&self) -> (word: usize)
        ensures
            word == self.argument_of(),
    {
        match self {
            Control::InitTrace { capacity } => *capacity,
            Control::Enable => 0,
            Control::Disable => 0,
        }
    }

    /// Whether the request is of the kind that is encoded with the size of
    /// a machine word: only `InitTrace` is, the others carry no size.
    pub fn sized(&self) -> (yes: bool)
        ensures
            yes <==> self is InitTrace,
    {
        match self {
            Control::InitTrace { .. } => true,
            Control::Enable => false,
            Control::Disable => false,
        }
    }
}

/// Two requests with one operation code are requests of one kind.
pub proof fn codes_are_distinct(first: Control, second: Control)
    requires
        first.code_of() == second.code_of(),
    ensures
        first is InitTrace <==> second is InitTrace,
        first is Enable <==> second is Enable,
        first is Disable <==> second is Disable,
{
}

/// A mapped trace buffer: where it lies and how many bytes it spans.
#[derive(Clone, Copy, Debug, PartialEq, Eq)]
pub struct Region {
    pub addr: usize,
    pub len: usize,
}

impl Region {
    /// Words in the region.
    pub open spec fn words(self) -> nat {
        self.len as nat / word_bytes()
    }
}

/// What a session needs done next.
#[derive(Clone, Copy, Debug, PartialEq, Eq)]
pub enum Action {
    /// Open the tracing device `KCOV` for reading and writing.
    OpenDevice,
    /// Issue a control request on the open device.
    Control { fd: i32, request: Control },
    /// Map `len` bytes of the device, shared, for reading and writing, at
    /// offset zero.
    MapBuffer { fd: i32, len: usize },
    /// Nothing is pending: a collection or the teardown can be started.
    Rest,
    /// Tracing is on: run the work, then release the guard.
    Run,
    /// Unmap the trace buffer.
    UnmapBuffer { region: Region },
    /// Close the device.
    CloseDevice { fd: i32 },
    /// Report the failure, then the second one where there is one, and
    /// terminate the process.
    Abort { failure: Failure, also: Option<Failure> },
    /// The session is over; nothing is left to do.
    Stop,
}

/// The outcome of an action, as the driver reports it.
#[derive(Clone, Copy, Debug, PartialEq, Eq)]
pub enum Event {
    /// The device was opened.
    Opened { fd: i32 },
    /// The buffer was mapped at `addr`.
    Mapped { addr: usize },
    /// A control request, an unmap or a close succeeded.
    Done,
    /// The action failed with this system error code.
    Failed { errno: i32 },
}

/// Whether `event` is a possible outcome of `action`. Only actions that
/// reach the system have outcomes.
pub open spec fn answers(action: Action, event: Event) -> bool {
    match action {
        Action::OpenDevice => event is Opened || event is Failed,
        Action::MapBuffer { .. } => event is Mapped || event is Failed,
        Action::Control { .. } | Action::UnmapBuffer { .. } | Action::CloseDevice { .. } => event
            is Done || event is Failed,
        Action::Rest | Action::Run | Action::Abort { .. } | Action::Stop => false,
    }
}

/// The event that reports a finished system call: done on success, failed
/// with the error code otherwise.
pub fn settled(result: Result<i32, i32>) -> (event: Event)
    ensures
        event == match result {
            Ok(_) => Event::Done,
            Err(errno) => Event::Failed { errno },
        },
{
    match result {
        Ok(_) => Event::Done,
        Err(errno) => Event::Failed { errno },
    }
}

} // verus!
