//! Kernel code coverage through the kcov device: the session that decides
//! what is done to the device, and in which order.
//!
//! The kernel records, for one thread at a time, the program counters it
//! passes through, in a buffer it shares with the process. A `CovHandle`
//! leads a driver through the life of such a recording. It makes no system
//! call itself: the driver asks `pending` for the next action, performs
//! it, and hands the outcome to `advance`.
//!
//! - `open` makes a session. Its first actions open the device, negotiate
//!   the buffer size and map the buffer, in that order.
//! - `collect` starts a collection: it clears the count of the buffer, and
//!   the next action enables tracing. While the work runs a `Guard` stands
//!   for the tracing window; releasing it makes disabling the next action.
//! - `covers` hands out the addresses that were recorded.
//! - `teardown` makes unmapping the buffer and closing the device the last
//!   actions.
//!
//! Any step that fails ends the session with a `Failure` to report. Only
//! a failed unmap does not end it at once: the device is closed first.

pub mod failure;
pub mod history;
pub mod layout;
pub mod protocol;
pub mod session;

pub use layout::KCOV_BUF_LEN;
pub use protocol::KCOV;
pub use session::{open, CovHandle, Guard};
