//! What holds of every run of a session, whatever its driver does.
//!
//! A run is the sequence of things that happen to a session from the moment
//! `open` made it: outcomes reported to `advance`, collections started with
//! `collect`, guards given up with `release`, and a `teardown`. The laws
//! below quantify over all such sequences, also over those no sensible
//! driver would produce.

use vstd::prelude::*;
use crate::failure::{Failure, Step};
use crate::layout::{capacity_words, KCOV_BUF_LEN};
use crate::protocol::{answers, Action, Event, Region};
use crate::session::{after, run_extends, Input, State};

verus! {

/// Whether `input`, taken in `state`, reports that `step` was performed,
/// with success or without.
pub open spec fn performs(state: State, input: Input, step: Step, success: bool) -> bool {
    input matches Input::Report(event) && answers(state.pending(), event) && state.step()
        == Some(step) && success == !(event is Failed)
}

/// How often along a run `step` was performed with the given outcome.
pub open spec fn performed(inputs: Seq<Input>, step: Step, success: bool) -> nat
    decreases inputs.len(),
{
    if inputs.len() == 0 {
        0
    } else {
        let earlier = inputs.drop_last();
        performed(earlier, step, success) + if performs(
            after(earlier),
            inputs.last(),
            step,
            success,
        ) {
            1nat
        } else {
            0nat
        }
    }
}

/// How often along a run `step` was performed, whatever came of it.
pub open spec fn attempts(inputs: Seq<Input>, step: Step) -> nat {
    performed(inputs, step, true) + performed(inputs, step, false)
}

/// How often along a run a collection was started, and with it the count
/// of the trace buffer cleared.
pub open spec fn collections(inputs: Seq<Input>) -> nat
    decreases inputs.len(),
{
    if inputs.len() == 0 {
        0
    } else {
        let earlier = inputs.drop_last();
        collections(earlier) + if inputs.last() is Collect && after(earlier) is Idle {
            1nat
        } else {
            0nat
        }
    }
}

/// How often along a run a guard was released while tracing was on.
pub open spec fn releases(inputs: Seq<Input>) -> nat
    decreases inputs.len(),
{
    if inputs.len() == 0 {
        0
    } else {
        let earlier = inputs.drop_last();
        releases(earlier) + if inputs.last() is Finish && after(earlier) is Tracing {
            1nat
        } else {
            0nat
        }
    }
}

/// Whether a failure of `step` is on the record of the session: as the
/// failure that ended it, as the failed close that came after a failed
/// unmap, or as the failed unmap after which the close is still pending.
pub open spec fn failed_at(state: State, step: Step) -> bool {
    match state {
        State::Failed { failure, also } => failure.step == step || (also matches Some(second)
            && second.step == step),
        State::ClosingAfterFailure { failure, .. } => failure.step == step,
        _ => false,
    }
}

/// Whether the session is over: it has failed or has released what it
/// owned.
pub open spec fn ended(state: State) -> bool {
    state is Failed || state is Released
}

/// Whether the kernel may be recording: tracing was enabled and has not
/// been disabled with success since.
pub open spec fn tracing(state: State) -> bool {
    state is Tracing || state is Disarming || failed_at(state, Step::Disable)
}

/// Whether the session has tried to give its buffer back, with success or
/// without.
pub open spec fn buffer_released(state: State) -> bool {
    state is Closing || state is Released || failed_at(state, Step::UnmapBuffer) || failed_at(
        state,
        Step::CloseDevice,
    )
}

/// Whether the session has tried to give its device back, with success or
/// without: it is released, or it ended after the unmap was tried.
pub open spec fn device_released(state: State) -> bool {
    state is Released || (state is Failed && buffer_released(state))
}

/// Whatever happens to a session, a buffer it owns has the configured size:
/// `KCOV_BUF_LEN` bytes, which is the negotiated capacity in words.
pub proof fn region_has_configured_size(inputs: Seq<Input>)
    ensures
        after(inputs).region() matches Some(region) ==> region.len == KCOV_BUF_LEN
            && region.words() == capacity_words(),
    decreases inputs.len(),
{
    if inputs.len() > 0 {
        region_has_configured_size(inputs.drop_last());
    }
}

/// Whatever happens to a session, the device is opened before the buffer
/// is sized and the buffer is sized before it is mapped: each of the three
/// is tried at most once, the size negotiation only after the opening
/// succeeded, the mapping only after the size negotiation succeeded. A
/// session that owns a buffer has all three behind it.
pub proof fn acquires_in_order(inputs: Seq<Input>)
    ensures
        attempts(inputs, Step::OpenDevice) <= 1,
        attempts(inputs, Step::InitTrace) <= performed(inputs, Step::OpenDevice, true),
        attempts(inputs, Step::MapBuffer) <= performed(inputs, Step::InitTrace, true),
        after(inputs).region() is Some ==> performed(inputs, Step::MapBuffer, true) == 1,
{
    ledger(inputs);
    second_failure_is_the_close(inputs);
}

/// Whatever happens to a session, every request to enable tracing follows
/// a clearing of the count that no other such request has used.
pub proof fn enable_follows_reset(inputs: Seq<Input>)
    ensures
        attempts(inputs, Step::Enable) + (if after(inputs) is Arming {
            1nat
        } else {
            0nat
        }) == collections(inputs),
    decreases inputs.len(),
{
    if inputs.len() > 0 {
        enable_follows_reset(inputs.drop_last());
    }
}

/// Whatever happens to a session, tracing is on only between a successful
/// enable and the next successful disable, and these alternate. So a
/// session that is idle again, however many collections it has been
/// through, has disabled tracing as often as it enabled it.
pub proof fn tracing_is_bracketed(inputs: Seq<Input>)
    ensures
        performed(inputs, Step::Enable, true) == performed(inputs, Step::Disable, true) + (
        if tracing(after(inputs)) {
            1nat
        } else {
            0nat
        }),
        after(inputs) is Idle ==> performed(inputs, Step::Enable, true) == performed(
            inputs,
            Step::Disable,
            true,
        ),
    decreases inputs.len(),
{
    if inputs.len() > 0 {
        tracing_is_bracketed(inputs.drop_last());
    }
}

/// Whatever happens to a session, the guard of a tracing window is
/// released once, and each release is followed by one request to disable
/// tracing: as many windows were left as were entered, but for the one
/// that is open, and as many disables were requested as windows were left,
/// but for the one that is about to be.
pub proof fn guard_is_released_once(inputs: Seq<Input>)
    ensures
        releases(inputs) + (if after(inputs) is Tracing {
            1nat
        } else {
            0nat
        }) == performed(inputs, Step::Enable, true),
        attempts(inputs, Step::Disable) + (if after(inputs) is Disarming {
            1nat
        } else {
            0nat
        }) == releases(inputs),
    decreases inputs.len(),
{
    if inputs.len() > 0 {
        guard_is_released_once(inputs.drop_last());
    }
}

/// Whatever happens to a session, it tries to unmap its buffer at most
/// once and to close its device at most once, the latter only after the
/// former was tried, and neither while tracing may be on. Both are tried
/// even if the first fails: a session that is over and has tried the unmap
/// has tried the close, whatever came of the unmap.
pub proof fn releases_at_most_once(inputs: Seq<Input>)
    ensures
        attempts(inputs, Step::UnmapBuffer) <= 1,
        attempts(inputs, Step::CloseDevice) <= 1,
        attempts(inputs, Step::CloseDevice) <= attempts(inputs, Step::UnmapBuffer),
        attempts(inputs, Step::UnmapBuffer) == 1 <==> buffer_released(after(inputs)),
        attempts(inputs, Step::CloseDevice) == 1 <==> device_released(after(inputs)),
        ended(after(inputs)) && attempts(inputs, Step::UnmapBuffer) == 1 ==> attempts(
            inputs,
            Step::CloseDevice,
        ) == 1,
        buffer_released(after(inputs)) ==> !tracing(after(inputs)),
{
    ledger(inputs);
    second_failure_is_the_close(inputs);
}

/// When the unmap fails the close is still asked for, on the same device,
/// and the session ends only when the close is answered: with the failed
/// unmap to report, and after it the failed close where the close failed
/// as well.
pub proof fn failed_unmap_still_closes(inputs: Seq<Input>, unmap: i32, close: i32)
    requires
        after(inputs) is Unmapping,
    ensures
        after(inputs.push(Input::Report(Event::Failed { errno: unmap }))).pending() == (
        Action::CloseDevice { fd: after(inputs)->Unmapping_fd }),
        after(
            inputs.push(Input::Report(Event::Failed { errno: unmap })).push(
                Input::Report(Event::Done),
            ),
        ) == (State::Failed {
            failure: Failure { step: Step::UnmapBuffer, errno: unmap },
            also: None,
        }),
        after(
            inputs.push(Input::Report(Event::Failed { errno: unmap })).push(
                Input::Report(Event::Failed { errno: close }),
            ),
        ) == (State::Failed {
            failure: Failure { step: Step::UnmapBuffer, errno: unmap },
            also: Some(Failure { step: Step::CloseDevice, errno: close }),
        }),
{
    let failed = inputs.push(Input::Report(Event::Failed { errno: unmap }));
    run_extends(inputs, Input::Report(Event::Failed { errno: unmap }));
    run_extends(failed, Input::Report(Event::Done));
    run_extends(failed, Input::Report(Event::Failed { errno: close }));
}

/// Whatever happens to a session, a second failure is on its record only
/// as the failed close that came after a failed unmap.
pub proof fn second_failure_is_the_close(inputs: Seq<Input>)
    ensures
        after(inputs) matches State::Failed { failure, also: Some(second) } ==> failure.step
            == Step::UnmapBuffer && second.step == Step::CloseDevice,
        after(inputs) matches State::ClosingAfterFailure { failure, .. } ==> failure.step
            == Step::UnmapBuffer,
    decreases inputs.len(),
{
    if inputs.len() > 0 {
        second_failure_is_the_close(inputs.drop_last());
    }
}

/// A session that is over stays as it is, whatever happens to it: nothing
/// is attempted once a failure has ended it, and nothing is released
/// twice.
pub proof fn end_is_final(inputs: Seq<Input>, input: Input)
    requires
        ended(after(inputs)),
    ensures
        after(inputs.push(input)) == after(inputs),
{
    run_extends(inputs, input);
}

/// When the device opens, the size is accepted and the buffer maps, the
/// session is idle and owns that device and a buffer of the configured
/// size at the address the mapping gave.
pub proof fn open_succeeds(fd: i32, addr: usize)
    ensures
        after(
            seq![
                Input::Report(Event::Opened { fd }),
                Input::Report(Event::Done),
                Input::Report(Event::Mapped { addr }),
            ],
        ) == (State::Idle { fd, region: Region { addr, len: KCOV_BUF_LEN } }),
{
    let opened = Seq::<Input>::empty().push(Input::Report(Event::Opened { fd }));
    let negotiated = opened.push(Input::Report(Event::Done));
    let mapped = negotiated.push(Input::Report(Event::Mapped { addr }));
    run_extends(Seq::<Input>::empty(), Input::Report(Event::Opened { fd }));
    run_extends(opened, Input::Report(Event::Done));
    run_extends(negotiated, Input::Report(Event::Mapped { addr }));
    assert(mapped == seq![
        Input::Report(Event::Opened { fd }),
        Input::Report(Event::Done),
        Input::Report(Event::Mapped { addr }),
    ]);
}

/// A collection whose two requests succeed leaves an idle session exactly
/// as it found it, ready for the next one.
pub proof fn collection_returns_to_idle(inputs: Seq<Input>)
    requires
        after(inputs) is Idle,
    ensures
        after(
            inputs.push(Input::Collect).push(Input::Report(Event::Done)).push(Input::Finish).push(
                Input::Report(Event::Done),
            ),
        ) == after(inputs),
{
    let cleared = inputs.push(Input::Collect);
    let enabled = cleared.push(Input::Report(Event::Done));
    let finished = enabled.push(Input::Finish);
    run_extends(inputs, Input::Collect);
    run_extends(cleared, Input::Report(Event::Done));
    run_extends(enabled, Input::Finish);
    run_extends(finished, Input::Report(Event::Done));
}

/// A teardown whose two requests succeed releases an idle session.
pub proof fn teardown_releases(inputs: Seq<Input>)
    requires
        after(inputs) is Idle,
    ensures
        after(
            inputs.push(Input::Teardown).push(Input::Report(Event::Done)).push(
                Input::Report(Event::Done),
            ),
        ) == State::Released,
{
    let started = inputs.push(Input::Teardown);
    let unmapped = started.push(Input::Report(Event::Done));
    run_extends(inputs, Input::Teardown);
    run_extends(started, Input::Report(Event::Done));
    run_extends(unmapped, Input::Report(Event::Done));
}

/// How many of the steps that a session takes once have succeeded for it,
/// in their order: the opening, the size negotiation, the mapping, the
/// unmapping, the closing.
spec fn progress(state: State) -> nat {
    match state {
        State::Start => 0,
        State::Opened { .. } => 1,
        State::Negotiated { .. } => 2,
        State::Idle { .. }
        | State::Arming { .. }
        | State::Tracing { .. }
        | State::Disarming { .. }
        | State::Unmapping { .. }
        | State::ClosingAfterFailure { .. } => 3,
        State::Closing { .. } => 4,
        State::Released => 5,
        State::Failed { failure, .. } => match failure.step {
            Step::OpenDevice => 0,
            Step::InitTrace => 1,
            Step::MapBuffer => 2,
            Step::Enable | Step::Disable | Step::UnmapBuffer => 3,
            Step::CloseDevice => 4,
        },
    }
}

/// The place of a step among those that a session takes once.
spec fn rank(step: Step) -> nat {
    match step {
        Step::OpenDevice => 0,
        Step::InitTrace => 1,
        Step::MapBuffer => 2,
        Step::UnmapBuffer => 3,
        Step::CloseDevice => 4,
        Step::Enable | Step::Disable => 5,
    }
}

/// Whether the close has succeeded for the session: it is released, or it
/// ended with a failed unmap alone.
spec fn close_succeeded(state: State) -> bool {
    state is Released || (state matches State::Failed { failure, also } && failure.step
        == Step::UnmapBuffer && also is None)
}

/// The books of a run, as the state reached tells them. A step up to the
/// unmap has succeeded once if the session is past it and never otherwise.
/// The close, which is also tried after a failed unmap, has succeeded once
/// if the session is released or ended with the failed unmap alone. A step
/// has failed once if its failure is on the record and never otherwise.
proof fn ledger(inputs: Seq<Input>)
    ensures
        forall|step: Step|
            rank(step) < 4 ==> #[trigger] performed(inputs, step, true) == (if rank(step)
                < progress(after(inputs)) {
                1nat
            } else {
                0nat
            }),
        performed(inputs, Step::CloseDevice, true) == (if close_succeeded(after(inputs)) {
            1nat
        } else {
            0nat
        }),
        forall|step: Step| #[trigger]
            performed(inputs, step, false) == (if failed_at(after(inputs), step) {
                1nat
            } else {
                0nat
            }),
    decreases inputs.len(),
{
    second_failure_is_the_close(inputs);
    if inputs.len() > 0 {
        let earlier = inputs.drop_last();
        ledger(earlier);
        second_failure_is_the_close(earlier);
        assert forall|step: Step| rank(step) < 4 implies #[trigger] performed(inputs, step, true)
            == (if rank(step) < progress(after(inputs)) {
            1nat
        } else {
            0nat
        }) by {
            assert(performed(earlier, step, true) == (if rank(step) < progress(after(earlier)) {
                1nat
            } else {
                0nat
            }));
        }
        assert forall|step: Step| #[trigger]
            performed(inputs, step, false) == (if failed_at(after(inputs), step) {
                1nat
            } else {
                0nat
            }) by {
            assert(performed(earlier, step, false) == (if failed_at(after(earlier), step) {
                1nat
            } else {
                0nat
            }));
        }
    }
}

} // verus!
