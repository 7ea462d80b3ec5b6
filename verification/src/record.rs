//! The shape of one log event as the routing engine sees it.

use vstd::prelude::*;
use crate::level::Level;

verus! {

/// One log event: a severity level, the rendered message payload, and an
/// opaque identifier of the emitting thread (metadata captured by the caller
/// at emit time).
pub struct LogRecord {
    /// The event's severity.
    pub level: Level,
    /// The rendered message.
    pub message: String,
    /// An opaque identifier of the thread that produced the event.
    pub thread: String,
}

} // verus!
