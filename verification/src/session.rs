//! The lifecycle of a tracing session.
//!
//! A session performs no I/O itself. It tells its driver which action is
//! pending, the driver performs the action and reports the outcome, and
//! the session moves on. The order in which the device is opened, sized,
//! mapped, enabled, disabled, unmapped and closed is thereby decided here,
//! whatever the driver looks like.
//!
//! A step that fails ends the session: its failure is to be reported and
//! the process to terminate. The teardown alone goes on after a failure.
//! When the buffer cannot be unmapped the device is closed all the same,
//! and only then the session ends; it then reports the failed unmap and,
//! if the close failed too, the failed close after it.
//!
//! A handle also remembers, for the proofs alone, everything that has
//! happened to it; the laws of `history` speak of that run.
//!
//! A handle supports one collection at a time: `collect` clears the count
//! of the trace buffer, so starting a second collection while one is
//! running would corrupt the first. `collect` therefore demands an idle
//! session, and while a `Guard` is held the handle cannot be reached.

use vstd::prelude::*;
use crate::failure::{Failure, Step};
use crate::history::{performed, tracing_is_bracketed};
use crate::layout;
use crate::layout::{
    capacity_words, cleared, count_slot, entry_capacity, recorded, well_formed, KCOV_BUF_LEN,
};
use crate::protocol::{answers, Action, Control, Event, Region};

verus! {

/// Where a session stands in its lifecycle, with the resources it owns
/// there.
#[derive(Clone, Copy, Debug, PartialEq, Eq)]
pub enum State {
    /// Nothing is owned yet; the device is to be opened.
    Start,
    /// The device is open; the buffer size is to be negotiated.
    Opened { fd: i32 },
    /// The buffer size is negotiated; the buffer is to be mapped.
    Negotiated { fd: i32 },
    /// Device and buffer are owned and tracing is off.
    Idle { fd: i32, region: Region },
    /// The count was cleared; tracing is to be enabled.
    Arming { fd: i32, region: Region },
    /// Tracing is on and the work runs.
    Tracing { fd: i32, region: Region },
    /// The work has ended; tracing is to be disabled.
    Disarming { fd: i32, region: Region },
    /// The buffer is to be unmapped.
    Unmapping { fd: i32, region: Region },
    /// The buffer is unmapped; the device is to be closed.
    Closing { fd: i32 },
    /// The buffer could not be unmapped. The device is to be closed all
    /// the same, before the failure is reported.
    ClosingAfterFailure { fd: i32, failure: Failure },
    /// Buffer and device are released.
    Released,
    /// A step failed, and the session is over: `failure` is reported and
    /// the process terminates. Nothing more is attempted; a failed unmap
    /// is the one failure that gets here only after a further step, the
    /// close. Where that close failed as well, `also` holds its failure,
    /// which is reported after the first.
    Failed { failure: Failure, also: Option<Failure> },
}

impl State {
    /// The action the driver has to perform in this state.
    pub open spec fn pending(self) -> Action {
        match self {
            State::Start => Action::OpenDevice,
            State::Opened { fd } => Action::Control {
                fd,
                request: Control::InitTrace { capacity: capacity_words() as usize },
            },
            State::Negotiated { fd } => Action::MapBuffer { fd, len: KCOV_BUF_LEN },
            State::Idle { .. } => Action::Rest,
            State::Arming { fd, .. } => Action::Control { fd, request: Control::Enable },
            State::Tracing { .. } => Action::Run,
            State::Disarming { fd, .. } => Action::Control { fd, request: Control::Disable },
            State::Unmapping { region, .. } => Action::UnmapBuffer { region },
            State::Closing { fd } => Action::CloseDevice { fd },
            State::ClosingAfterFailure { fd, .. } => Action::CloseDevice { fd },
            State::Released => Action::Stop,
            State::Failed { failure, also } => Action::Abort { failure, also },
        }
    }

    /// The step that the pending action performs, where that action
    /// reaches the system.
    pub open spec fn step(self) -> Option<Step> {
        match self {
            State::Start => Some(Step::OpenDevice),
            State::Opened { .. } => Some(Step::InitTrace),
            State::Negotiated { .. } => Some(Step::MapBuffer),
            State::Arming { .. } => Some(Step::Enable),
            State::Disarming { .. } => Some(Step::Disable),
            State::Unmapping { .. } => Some(Step::UnmapBuffer),
            State::Closing { .. } => Some(Step::CloseDevice),
            State::ClosingAfterFailure { .. } => Some(Step::CloseDevice),
            _ => None,
        }
    }

    /// The state after the pending step succeeded with `event`: the next
    /// stage of the lifecycle, with what the event brought.
    pub open spec fn succeeded(self, event: Event) -> State {
        match (self, event) {
            (State::Start, Event::Opened { fd }) => State::Opened { fd },
            (State::Opened { fd }, Event::Done) => State::Negotiated { fd },
            (State::Negotiated { fd }, Event::Mapped { addr }) => State::Idle {
                fd,
                region: Region { addr, len: KCOV_BUF_LEN },
            },
            (State::Arming { fd, region }, Event::Done) => State::Tracing { fd, region },
            (State::Disarming { fd, region }, Event::Done) => State::Idle { fd, region },
            (State::Unmapping { fd, .. }, Event::Done) => State::Closing { fd },
            (State::Closing { .. }, Event::Done) => State::Released,
            (State::ClosingAfterFailure { failure, .. }, Event::Done) => State::Failed {
                failure,
                also: None,
            },
            _ => self,
        }
    }

    /// The state after the pending step failed with `errno`. A failure
    /// ends the session, with one exception: after a failed unmap the
    /// device is still to be closed. The session then ends when the close
    /// is answered, with the failed unmap to report and, where the close
    /// failed too, the failed close after it.
    pub open spec fn failed(self, errno: i32) -> State {
        match self {
            State::Unmapping { fd, .. } => State::ClosingAfterFailure {
                fd,
                failure: Failure { step: Step::UnmapBuffer, errno },
            },
            State::ClosingAfterFailure { failure, .. } => State::Failed {
                failure,
                also: Some(Failure { step: Step::CloseDevice, errno }),
            },
            _ => State::Failed { failure: Failure { step: self.step()->0, errno }, also: None },
        }
    }

    /// The state after the driver reported `event`. An event that is no
    /// outcome of the pending action changes nothing.
    pub open spec fn advanced(self, event: Event) -> State {
        if !answers(self.pending(), event) {
            self
        } else {
            match event {
                Event::Failed { errno } => self.failed(errno),
                _ => self.succeeded(event),
            }
        }
    }

    /// The state after a collection was started: an idle session gets ready
    /// to enable tracing, any other is unchanged.
    pub open spec fn collecting(self) -> State {
        match self {
            State::Idle { fd, region } => State::Arming { fd, region },
            _ => self,
        }
    }

    /// The state after the work has ended: a tracing session gets ready to
    /// disable tracing, any other is unchanged.
    pub open spec fn finished(self) -> State {
        match self {
            State::Tracing { fd, region } => State::Disarming { fd, region },
            _ => self,
        }
    }

    /// The state after the teardown was started: an idle session gets ready
    /// to unmap its buffer, any other is unchanged.
    pub open spec fn torn_down(self) -> State {
        match self {
            State::Idle { fd, region } => State::Unmapping { fd, region },
            _ => self,
        }
    }

    /// The trace buffer, while the session owns one.
    pub open spec fn region(self) -> Option<Region> {
        match self {
            State::Idle { region, .. }
            | State::Arming { region, .. }
            | State::Tracing { region, .. }
            | State::Disarming { region, .. }
            | State::Unmapping { region, .. } => Some(region),
            _ => None,
        }
    }
}

/// One thing that happens to a session.
pub enum Input {
    /// An outcome is reported to `advance`.
    Report(Event),
    /// `collect` is called.
    Collect,
    /// A guard is released.
    Finish,
    /// `teardown` is called.
    Teardown,
}

/// The state after one input.
pub open spec fn next(state: State, input: Input) -> State {
    match input {
        Input::Report(event) => state.advanced(event),
        Input::Collect => state.collecting(),
        Input::Finish => state.finished(),
        Input::Teardown => state.torn_down(),
    }
}

/// The state a fresh session is in after a run of inputs.
pub open spec fn after(inputs: Seq<Input>) -> State
    decreases inputs.len(),
{
    if inputs.len() == 0 {
        State::Start
    } else {
        next(after(inputs.drop_last()), inputs.last())
    }
}

/// One more input leads from the state after a run to the next state.
pub proof fn run_extends(inputs: Seq<Input>, input: Input)
    ensures
        after(inputs.push(input)) == next(after(inputs), input),
{
    assert(inputs.push(input).drop_last() == inputs);
}

/// A tracing session: the handle through which the device and the trace
/// buffer are acquired, used and released.
pub struct CovHandle {
    state: State,
    run: Ghost<Seq<Input>>,
}

/// Held while tracing is on. It borrows the handle for as long as the work
/// runs, so that nothing else can touch the session in between, and is
/// given up by `release`, which is the only way out of the tracing state.
pub struct Guard<'a> {
    /// The session that is tracing. The field is open so that contracts
    /// can speak of the session behind the borrow. A guard put together by
    /// hand around a session that is not tracing stands for no tracing
    /// window, and giving it up changes nothing.
    pub inner: &'a mut CovHandle,
}

impl View for CovHandle {
    type V = State;

    closed spec fn view(&self) -> State {
        self.state
    }
}

/// A session at the start of its life: nothing is owned, and the device is
/// to be opened.
pub fn open() -> (handle: CovHandle)
    ensures
        handle@ == State::Start,
        handle.run() == Seq::<Input>::empty(),
{
    CovHandle { state: State::Start, run: Ghost(Seq::empty()) }
}

impl CovHandle {
    #[verifier::type_invariant]
    spec fn inv(&self) -> bool {
        self.state == after(self.run@)
    }

    /// Everything that has happened to the session since `open` made it,
    /// in order.
    pub closed spec fn run(&self) -> Seq<Input> {
        self.run@
    }

    /// Where the session stands: where its run has led it.
    pub fn state(&self) -> (state: State)
        ensures
            state == self@,
            state == after(self.run()),
    {
        proof {
            use_type_invariant(self);
        }
        self.state
    }

    /// The action the driver has to perform now.
    pub fn pending(&self) -> (action: Action)
        ensures
            action == self@.pending(),
    {
        match self.state {
            State::Start => Action::OpenDevice,
            State::Opened { fd } => Action::Control {
                fd,
                request: Control::InitTrace { capacity: layout::capacity() },
            },
            State::Negotiated { fd } => Action::MapBuffer { fd, len: KCOV_BUF_LEN },
            State::Idle { .. } => Action::Rest,
            State::Arming { fd, .. } => Action::Control { fd, request: Control::Enable },
            State::Tracing { .. } => Action::Run,
            State::Disarming { fd, .. } => Action::Control { fd, request: Control::Disable },
            State::Unmapping { region, .. } => Action::UnmapBuffer { region },
            State::Closing { fd } => Action::CloseDevice { fd },
            State::ClosingAfterFailure { fd, .. } => Action::CloseDevice { fd },
            State::Released => Action::Stop,
            State::Failed { failure, also } => Action::Abort { failure, also },
        }
    }

    /// Takes the outcome of the pending action and moves on. Tells whether
    /// the event was an outcome of the pending action; if not, nothing
    /// changes. A failure ends the session, but for a failed unmap, after
    /// which the close is still pending.
    pub fn advance(&mut self, event: Event) -> (accepted: bool)
        ensures
            final(self)@ == old(self)@.advanced(event),
            final(self).run() == old(self).run().push(Input::Report(event)),
            accepted == answers(old(self)@.pending(), event),
    {
        proof {
            use_type_invariant(&*self);
            run_extends(self.run@, Input::Report(event));
        }
        let moved = match (self.state, event) {
            (State::Start, Event::Opened { fd }) => Some(State::Opened { fd }),
            (State::Start, Event::Failed { errno }) => Some(
                State::Failed { failure: Failure { step: Step::OpenDevice, errno }, also: None },
            ),
            (State::Opened { fd }, Event::Done) => Some(State::Negotiated { fd }),
            (State::Opened { .. }, Event::Failed { errno }) => Some(
                State::Failed { failure: Failure { step: Step::InitTrace, errno }, also: None },
            ),
            (State::Negotiated { fd }, Event::Mapped { addr }) => Some(
                State::Idle { fd, region: Region { addr, len: KCOV_BUF_LEN } },
            ),
            (State::Negotiated { .. }, Event::Failed { errno }) => Some(
                State::Failed { failure: Failure { step: Step::MapBuffer, errno }, also: None },
            ),
            (State::Arming { fd, region }, Event::Done) => Some(State::Tracing { fd, region }),
            (State::Arming { .. }, Event::Failed { errno }) => Some(
                State::Failed { failure: Failure { step: Step::Enable, errno }, also: None },
            ),
            (State::Disarming { fd, region }, Event::Done) => Some(State::Idle { fd, region }),
            (State::Disarming { .. }, Event::Failed { errno }) => Some(
                State::Failed { failure: Failure { step: Step::Disable, errno }, also: None },
            ),
            (State::Unmapping { fd, .. }, Event::Done) => Some(State::Closing { fd }),
            (State::Unmapping { fd, .. }, Event::Failed { errno }) => Some(
                State::ClosingAfterFailure {
                    fd,
                    failure: Failure { step: Step::UnmapBuffer, errno },
                },
            ),
            (State::Closing { .. }, Event::Done) => Some(State::Released),
            (State::Closing { .. }, Event::Failed { errno }) => Some(
                State::Failed { failure: Failure { step: Step::CloseDevice, errno }, also: None },
            ),
            (State::ClosingAfterFailure { failure, .. }, Event::Done) => Some(
                State::Failed { failure, also: None },
            ),
            (State::ClosingAfterFailure { failure, .. }, Event::Failed { errno }) => Some(
                State::Failed {
                    failure,
                    also: Some(Failure { step: Step::CloseDevice, errno }),
                },
            ),
            _ => None,
        };
        let (state, accepted) = match moved {
            Some(state) => (state, true),
            None => (self.state, false),
        };
        *self = CovHandle { state, run: Ghost(self.run@.push(Input::Report(event))) };
        accepted
    }

    /// Starts a collection on the words of the trace buffer: the count is
    /// cleared, whatever an earlier collection left there, and only then
    /// the session gets ready to enable tracing. Until something is
    /// recorded the buffer reports no address, so work that the kernel
    /// does not trace yields an empty view.
    pub fn collect(&mut self, words: &mut [usize])
        requires
            old(self)@ is Idle,
            old(words)@.len() == capacity_words(),
        ensures
            final(self)@ == old(self)@.collecting(),
            final(self)@ is Arming,
            final(self).run() == old(self).run().push(Input::Collect),
            final(words)@ == cleared(old(words)@),
            final(words)@.len() == old(words)@.len(),
            count_slot(final(words)@) == 0,
            well_formed(final(words)@),
            recorded(final(words)@) == Seq::<usize>::empty(),
    {
        proof {
            use_type_invariant(&*self);
            run_extends(self.run@, Input::Collect);
            layout::buffer_is_whole_words();
        }
        layout::clear(words);
        let state = match self.state {
            State::Idle { fd, region } => State::Arming { fd, region },
            state => state,
        };
        *self = CovHandle { state, run: Ghost(self.run@.push(Input::Collect)) };
    }

    /// The addresses recorded by the collection that has just ended: the
    /// first `count` entries of the trace buffer, never more than the
    /// buffer has room for. They are taken with tracing off: whenever the
    /// session is idle, each enabling of its run has been undone. The view
    /// borrows the buffer and the handle, so while it is in use no
    /// collection can clear the count and no teardown can begin.
    pub fn covers<'a>(&'a self, words: &'a [usize]) -> (view: &'a [usize])
        requires
            self@ is Idle,
            words@.len() == capacity_words(),
            well_formed(words@),
        ensures
            view@ == recorded(words@),
            view@.len() == count_slot(words@),
            view@.len() <= entry_capacity(),
            performed(self.run(), Step::Enable, true) == performed(
                self.run(),
                Step::Disable,
                true,
            ),
    {
        proof {
            use_type_invariant(self);
            tracing_is_bracketed(self.run@);
            layout::buffer_is_whole_words();
        }
        layout::covers(words)
    }

    /// The guard of the running collection: there is one exactly while
    /// tracing is on.
    pub fn guard(&mut self) -> (guard: Option<Guard<'_>>)
        ensures
            guard is Some <==> old(self)@ is Tracing,
            guard is None ==> *final(self) == *old(self),
            guard matches Some(g) ==> *g.inner == *old(self) && *final(self) == *final(g.inner),
    {
        match self.state {
            State::Tracing { .. } => Some(Guard { inner: self }),
            _ => None,
        }
    }

    /// Starts the teardown of an idle session: the buffer is to be
    /// unmapped, then the device closed. Tells whether the teardown began;
    /// a session that is not idle is left as it is.
    pub fn teardown(&mut self) -> (begun: bool)
        ensures
            final(self)@ == old(self)@.torn_down(),
            final(self).run() == old(self).run().push(Input::Teardown),
            begun == (old(self)@ is Idle),
    {
        proof {
            use_type_invariant(&*self);
            run_extends(self.run@, Input::Teardown);
        }
        let (state, begun) = match self.state {
            State::Idle { fd, region } => (State::Unmapping { fd, region }, true),
            state => (state, false),
        };
        *self = CovHandle { state, run: Ghost(self.run@.push(Input::Teardown)) };
        begun
    }
}

impl<'a> Guard<'a> {
    /// Ends the tracing window, however the work ended: the session gets
    /// ready to disable tracing, and the handle is handed back. On a
    /// session that is not tracing nothing changes.
    pub fn release(self) -> (handle: &'a mut CovHandle)
        ensures
            handle@ == old(self.inner)@.finished(),
            handle.run() == old(self.inner).run().push(Input::Finish),
            *final(self.inner) == *final(handle),
    {
        let Guard { inner } = self;
        proof {
            use_type_invariant(&*inner);
            run_extends(inner.run@, Input::Finish);
        }
        let state = match inner.state {
            State::Tracing { fd, region } => State::Disarming { fd, region },
            state => state,
        };
        *inner = CovHandle { state, run: Ghost(inner.run@.push(Input::Finish)) };
        inner
    }
}

} // verus!
