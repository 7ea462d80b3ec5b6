//! One formatting step bound to its five per-level appender lists.

use vstd::prelude::*;
use crate::appender::Appender;
use crate::format::FormatStep;
use crate::level::{Level, get_idx_for_level, level_idx};
use crate::record::LogRecord;

verus! {

/// The uniform capability a finalized dispatch table works with: decide
/// enablement per level, and format-and-fan-out one event.
pub trait Handler: Sized {
    /// Whether this handler consumes events of the given level.
    spec fn enabled_at(&self, level: Level) -> bool;

    /// Decide enablement for one level.
    fn is_enabled(&self, level: Level) -> (r: bool)
        ensures
            r == self.enabled_at(level),
    ;

    /// Format one event and hand the payload to every appender registered for
    /// the event's level, in registration order.
    fn log(&self, now_millis: u64, record: &LogRecord);
}

/// One formatting step paired with one appender list per level.
pub struct HandlerImpl<F: FormatStep, A: Appender<F::Out>> {
    format: F,
    appender: Vec<Vec<A>>,
}

impl<F: FormatStep, A: Appender<F::Out>> HandlerImpl<F, A> {
    /// The appender lists, one sequence per level in dense level order.
    pub closed spec fn lists(&self) -> Seq<Seq<A>> {
        self.appender@.map_values(|v: Vec<A>| v@)
    }

    /// The formatting step this handler runs.
    pub closed spec fn step(&self) -> F {
        self.format
    }

    /// A handler holds exactly one appender list per level.
    pub open spec fn wf(&self) -> bool {
        self.lists().len() == 5
    }

    /// Pair a formatting step with its per-level appender lists.
    pub fn new(format: F, appender: Vec<Vec<A>>) -> (r: Self)
        requires
            appender@.len() == 5,
        ensures
            r.wf(),
            r.step() == format,
            r.lists() == appender@.map_values(|v: Vec<A>| v@),
    {
        HandlerImpl { format, appender }
    }
}

impl<F: FormatStep, A: Appender<F::Out>> Handler for HandlerImpl<F, A> {
    open spec fn enabled_at(&self, level: Level) -> bool {
        level_idx(level) < self.lists().len() && self.lists()[level_idx(level)].len() > 0
    }

    fn is_enabled(&self, level: Level) -> (r: bool) {
        let idx = get_idx_for_level(level);
        idx < self.appender.len() && self.appender[idx].len() > 0
    }

    fn log(&self, now_millis: u64, record: &LogRecord) {
        let idx = get_idx_for_level(record.level);
        if idx >= self.appender.len() {
            return ;
        }
        let list = &self.appender[idx];
        if list.len() == 0 {
            return ;
        }
        if let Some(payload) = self.format.format(now_millis, record) {
            let mut i: usize = 0;
            while i < list.len()
                invariant
                    i <= list@.len(),
                decreases list@.len() - i,
            {
                list[i].append_log_message(&payload);
                i = i + 1;
            }
        }
    }
}

} // verus!
