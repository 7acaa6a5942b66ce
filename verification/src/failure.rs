//! The steps that can fail, and how a failure is reported.
//!
//! Every failure is fatal to the session: it is reported with a message
//! that names the step and the system error, and the process terminates.
//! Where the unmap and the close that follows it both fail, both are
//! reported, the unmap first, and the process terminates once.

use nix::errno::Errno;
use vstd::prelude::*;
use vstd::string::StringExecFns;
use crate::protocol::{settled, Event};

verus! {

/// The steps of a session that reach the system.
#[derive(Clone, Copy, Debug, PartialEq, Eq)]
pub enum Step {
    /// Opening the tracing device.
    OpenDevice,
    /// Negotiating the size of the trace buffer.
    InitTrace,
    /// Mapping the trace buffer.
    MapBuffer,
    /// Enabling tracing.
    Enable,
    /// Disabling tracing.
    Disable,
    /// Unmapping the trace buffer.
    UnmapBuffer,
    /// Closing the tracing device.
    CloseDevice,
}

/// A step that failed, with the system error code it failed with.
#[derive(Clone, Copy, Debug, PartialEq, Eq)]
pub struct Failure {
    pub step: Step,
    pub errno: i32,
}

impl Step {
    /// The words that name the failing step in a report.
    pub open spec fn label_of(self) -> Seq<char> {
        match self {
            Step::OpenDevice => "Fail to open /sys/kernel/debug/kcov"@,
            Step::InitTrace => "Fail to init kcov trace"@,
            Step::MapBuffer => "Fail to map kcov"@,
            Step::Enable => "Fail to enable kcov trace"@,
            Step::Disable => "Fail to disable kcov trace"@,
            Step::UnmapBuffer => "Fail to munmap kcov"@,
            Step::CloseDevice => "Fail to close"@,
        }
    }

    /// The words that name the failing step in a report.
    pub fn label(&self) -> (text: &'static str)
        ensures
            text@ == self.label_of(),
    {
        match self {
            Step::OpenDevice => "Fail to open /sys/kernel/debug/kcov",
            Step::InitTrace => "Fail to init kcov trace",
            Step::MapBuffer => "Fail to map kcov",
            Step::Enable => "Fail to enable kcov trace",
            Step::Disable => "Fail to disable kcov trace",
            Step::UnmapBuffer => "Fail to munmap kcov",
            Step::CloseDevice => "Fail to close",
        }
    }
}

/// The report of a failed step: its label, a colon and a space, and the
/// text that describes the system error.
pub open spec fn report_of(step: Step, detail: Seq<char>) -> Seq<char> {
    step.label_of() + ": "@ + detail
}

/// Builds the report of a failed step from the text that describes the
/// system error.
pub fn report(step: Step, detail: &str) -> (text: String)
    ensures
        text@ == report_of(step, detail@),
{
    let mut text = String::from_str(step.label());
    text.append(": ");
    text.append(detail);
    text
}

/// `nix::errno::Errno::result` on a C `int`: -1 is the value that signals
/// failure, any other value is handed back as the success. The error is the
/// calling thread's errno at the moment of the call, as its number; nothing
/// is claimed of which number that is.
#[verifier::external_body]
fn errno_result(status: i32) -> (result: Result<i32, i32>)
    ensures
        status == -1 ==> result is Err,
        status != -1 ==> result.ok() == Some(status),
{
    match Errno::result(status) {
        Ok(value) => Ok(value),
        Err(errno) => Err(errno as i32),
    }
}

/// The shape in which nix prints a system error: the name of the error, a
/// colon and a space, and its description.
pub open spec fn names_an_error(text: Seq<char>) -> bool {
    exists|name: Seq<char>, description: Seq<char>|
        text == #[trigger] (name + ": "@ + description)
}

/// `nix::errno::Errno::from_raw` and the `Display` of the `Errno` it gives:
/// the text nix prints for a system error code. That `Display` writes the
/// name of the error, a colon and a space, and the description, and this
/// shape is all that is claimed. Which name and which description belong
/// to a number is not: nix reads them from a table that it keeps for each
/// target system, over the numbers that libc gives the errors there, so
/// one number does not have one text wherever the crate is built.
#[verifier::external_body]
fn errno_text(errno: i32) -> (text: String)
    ensures
        names_an_error(text@),
{
    format!("{}", Errno::from_raw(errno))
}

/// The event that reports a control request from the status the system
/// call returned: done unless the status is -1, failed otherwise, with the
/// thread's current error code. It is to be called right after the system
/// call, before anything else can change that code.
pub fn outcome(status: i32) -> (event: Event)
    ensures
        status != -1 ==> event == Event::Done,
        status == -1 ==> event is Failed,
{
    settled(errno_result(status))
}

impl Failure {
    /// The report of this failure: the label of the step, a colon and a
    /// space, then the name and the description that nix has for the
    /// error code.
    ///
    /// The contract fixes the label, the separator and the shape of what
    /// follows them, a name and a description, and leaves open which name
    /// and which description these are. They come from nix's table of
    /// error codes, which differs from one target system to the next, so
    /// they are no function of the code alone and no contract can name
    /// them. What is made of the text once it is there is stated in full
    /// by `report`.
    pub fn message(&self) -> (text: String)
        ensures
            exists|detail: Seq<char>|
                names_an_error(detail) && text@ == #[trigger] report_of(self.step, detail),
    {
        let detail = errno_text(self.errno);
        report(self.step, detail.as_str())
    }
}

} // verus!
