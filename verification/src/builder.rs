//! The staged builder: accumulates, per level, the appenders bound to one
//! formatting step, finishes whole handlers, and installs the finalized
//! dispatch table into an engine.

use vstd::prelude::*;
use std::sync::Arc;
use crate::appender::Appender;
use crate::appender::arc_share;
use crate::compound::HandlerCompound;
use crate::engine::Engine;
use crate::engine::facade_set_threshold;
use crate::error::Error;
use crate::format::{DefaultFormat, FormatStep};
use crate::handler::HandlerImpl;
use crate::level::{Level, LevelFilter, filter_low, get_idx_for_level, level_idx};
use crate::threshold::get_level_for_handlers;

verus! {

/// Accumulates finished handlers plus one open group: the formatting step
/// being configured and its five per-level appender lists. Every appender
/// registered here is held through a shared handle, so one appender may serve
/// several levels.
pub struct Builder<F: FormatStep, A: Appender<F::Out>> {
    handlers: Vec<HandlerImpl<F, Arc<A>>>,
    format: F,
    appender: Vec<Vec<Arc<A>>>,
}

impl<F: FormatStep, A: Appender<F::Out>> Builder<F, A> {
    /// The handlers finished so far, in registration order.
    pub closed spec fn groups(&self) -> Seq<HandlerImpl<F, Arc<A>>> {
        self.handlers@
    }

    /// The open group's appender lists, one per level in dense level order.
    pub closed spec fn current(&self) -> Seq<Seq<Arc<A>>> {
        self.appender@.map_values(|v: Vec<Arc<A>>| v@)
    }

    /// The open group's formatting step.
    pub closed spec fn current_format(&self) -> F {
        self.format
    }

    /// A builder holds one appender list per level, and every finished
    /// handler is well-formed.
    pub open spec fn wf(&self) -> bool {
        &&& self.current().len() == 5
        &&& forall|g: int| 0 <= g < self.groups().len() ==> self.groups()[g].wf()
    }

    /// Whether the open group has any appender registered at any level.
    pub open spec fn has_current_appenders(&self) -> bool {
        exists|l: int| 0 <= l < self.current().len() && self.current()[l].len() > 0
    }

    /// A fresh builder: no finished handlers, and an open group with the
    /// given formatting step and no appenders yet.
    pub fn new(format: F) -> (r: Self)
        ensures
            r.wf(),
            r.groups().len() == 0,
            r.current_format() == format,
            forall|l: int| 0 <= l < 5 ==> r.current()[l].len() == 0,
    {
        let mut appender: Vec<Vec<Arc<A>>> = Vec::new();
        let mut l: usize = 0;
        while l < 5
            invariant
                l <= 5,
                appender@.len() == l,
                forall|j: int| 0 <= j < l ==> appender@[j]@.len() == 0,
            decreases 5 - l,
        {
            let empty: Vec<Arc<A>> = Vec::new();
            appender.push(empty);
            l = l + 1;
        }
        Builder { handlers: Vec::new(), format, appender }
    }

    /// Close the open group: if any of its per-level lists is non-empty, pair
    /// the formatting step with the lists as one more handler; a group whose
    /// every per-level list is empty is dropped, so no dead handler ever
    /// reaches a compound.
    pub fn finish_handler(self) -> (r: Vec<HandlerImpl<F, Arc<A>>>)
        requires
            self.wf(),
        ensures
            forall|g: int| 0 <= g < r@.len() ==> r@[g].wf(),
            self.has_current_appenders() ==> r@.len() == self.groups().len() + 1 && r@.take(
                self.groups().len() as int,
            ) == self.groups() && r@.last().step() == self.current_format()
                && r@.last().lists() == self.current(),
            !self.has_current_appenders() ==> r@ == self.groups(),
    {
        let mut is_empty = true;
        let mut l: usize = 0;
        while l < 5
            invariant
                self.wf(),
                l <= 5,
                self.appender@.len() == 5,
                is_empty == !(exists|j: int| 0 <= j < l && self.appender@[j]@.len() > 0),
            decreases 5 - l,
        {
            if self.appender[l].len() > 0 {
                is_empty = false;
            }
            l = l + 1;
        }
        proof {
            assert forall|j: int| 0 <= j < 5 implies #[trigger] self.current()[j]
                == self.appender@[j]@ by {}
            if self.has_current_appenders() {
                let j = choose|j: int|
                    0 <= j < self.current().len() && self.current()[j].len() > 0;
                assert(self.appender@[j]@.len() > 0);
            }
            if exists|j: int| 0 <= j < 5 && self.appender@[j]@.len() > 0 {
                let j = choose|j: int| 0 <= j < 5 && self.appender@[j]@.len() > 0;
                assert(self.current()[j].len() > 0);
            }
        }
        let Builder { handlers: mut finished, format, appender } = self;
        if is_empty {
            return finished;
        }
        let handler = HandlerImpl::new(format, appender);
        proof {
            assert(handler.lists() =~= self.current());
        }
        finished.push(handler);
        proof {
            assert(finished@.take(self.groups().len() as int) =~= self.groups());
        }
        finished
    }

    /// Close the open group as `finish_handler` does, then start a new open
    /// group under the given formatting step, with no appenders yet.
    pub fn format(self, format_step: F) -> (r: Self)
        requires
            self.wf(),
        ensures
            r.wf(),
            r.current_format() == format_step,
            forall|l: int| 0 <= l < 5 ==> r.current()[l].len() == 0,
            self.has_current_appenders() ==> r.groups().len() == self.groups().len() + 1
                && r.groups().take(self.groups().len() as int) == self.groups()
                && r.groups().last().step() == self.current_format() && r.groups().last().lists()
                == self.current(),
            !self.has_current_appenders() ==> r.groups() == self.groups(),
    {
        let handlers = self.finish_handler();
        let mut appender: Vec<Vec<Arc<A>>> = Vec::new();
        let mut l: usize = 0;
        while l < 5
            invariant
                l <= 5,
                appender@.len() == l,
                forall|j: int| 0 <= j < l ==> appender@[j]@.len() == 0,
            decreases 5 - l,
        {
            let empty: Vec<Arc<A>> = Vec::new();
            appender.push(empty);
            l = l + 1;
        }
        Builder { handlers, format: format_step, appender }
    }

    /// Register one shared appender handle for every level of the inclusive
    /// range `[from, to]`; with `from` more severe than `to` the range is
    /// empty and nothing is registered, by design.
    pub fn appender_range(self, from: Level, to: Level, appender: A) -> (r: Self)
        requires
            self.wf(),
        ensures
            r.wf(),
            r.groups() == self.groups(),
            r.current_format() == self.current_format(),
            forall|l: int|
                0 <= l < 5 && level_idx(from) <= l <= level_idx(to) ==> (r.current()[l].len()
                    == self.current()[l].len() + 1 && r.current()[l].last() == appender
                    && r.current()[l].take(self.current()[l].len() as int) == self.current()[l]),
            forall|l: int|
                0 <= l < 5 && !(level_idx(from) <= l <= level_idx(to)) ==> r.current()[l]
                    == self.current()[l],
    {
        let ghost orig = self.current();
        let ghost orig_groups = self.groups();
        let ghost orig_format = self.current_format();
        proof {
            assert forall|j: int| 0 <= j < 5 implies #[trigger] orig[j]
                == self.appender@[j]@ by {}
        }
        let mut this = self;
        let wrap: Arc<A> = Arc::new(appender);
        let start = get_idx_for_level(from);
        let end = get_idx_for_level(to);
        let mut i: usize = start;
        while i <= end
            invariant
                start == level_idx(from),
                end == level_idx(to),
                end < 5,
                start <= i <= 5,
                i == start || i <= end + 1,
                wrap == appender,
                orig.len() == 5,
                this.appender@.len() == 5,
                this.handlers@ == orig_groups,
                this.format == orig_format,
                forall|l: int|
                    0 <= l < 5 && start <= l < i ==> this.appender@[l]@ == orig[l].push(wrap),
                forall|l: int|
                    0 <= l < 5 && !(start <= l < i) ==> this.appender@[l]@ == orig[l],
            decreases end + 1 - i,
        {
            let handle = arc_share(&wrap);
            this.appender[i].push(handle);
            i = i + 1;
        }
        proof {
            assert forall|l: int| 0 <= l < 5 implies #[trigger] this.current()[l]
                == this.appender@[l]@ by {}
            assert forall|l: int| 0 <= l < 5 && start <= l < i implies #[trigger] this.current()[l].take(orig[l].len() as int) == orig[l] by {
                assert(this.current()[l] == orig[l].push(wrap));
                assert(orig[l].push(wrap).take(orig[l].len() as int) =~= orig[l]);
            }
        }
        this
    }

    /// Register one shared appender handle for exactly one level.
    pub fn appender(self, level: Level, appender: A) -> (r: Self)
        requires
            self.wf(),
        ensures
            r.wf(),
            r.groups() == self.groups(),
            r.current_format() == self.current_format(),
            forall|l: int|
                0 <= l < 5 && l == level_idx(level) ==> (r.current()[l].len() == self.current()[l].len() + 1 && r.current()[l].last() == appender && r.current()[l].take(
                    self.current()[l].len() as int,
                ) == self.current()[l]),
            forall|l: int|
                0 <= l < 5 && l != level_idx(level) ==> r.current()[l] == self.current()[l],
    {
        self.appender_range(level, level, appender)
    }

    /// Register one shared appender handle for every level the threshold
    /// admits: the inclusive range from the filter's least severe admitted
    /// level up to `Error`, and no level at all for `Off`.
    pub fn appender_filter(self, filter: LevelFilter, appender: A) -> (r: Self)
        requires
            self.wf(),
        ensures
            r.wf(),
            r.groups() == self.groups(),
            r.current_format() == self.current_format(),
            forall|l: int|
                0 <= l < 5 && filter_low(filter) <= l ==> (r.current()[l].len() == self.current()[l].len() + 1 && r.current()[l].last() == appender && r.current()[l].take(
                    self.current()[l].len() as int,
                ) == self.current()[l]),
            forall|l: int|
                0 <= l < 5 && l < filter_low(filter) ==> r.current()[l] == self.current()[l],
    {
        match filter {
            LevelFilter::Off => self,
            LevelFilter::Error => self.appender(Level::Error, appender),
            LevelFilter::Warn => self.appender_range(Level::Warn, Level::Error, appender),
            LevelFilter::Info => self.appender_range(Level::Info, Level::Error, appender),
            LevelFilter::Debug => self.appender_range(Level::Debug, Level::Error, appender),
            LevelFilter::Trace => self.appender_range(Level::Trace, Level::Error, appender),
        }
    }

    /// Finalize and install: close the open group, derive the global severity
    /// threshold, and, when this engine owns the facade registration, hand
    /// the threshold to the facade and atomically replace the engine's slot —
    /// with the finalized compound, or with nothing when the threshold is
    /// `Off`. When a different backend owns the facade, fail without touching
    /// any state.
    pub fn init(self, engine: &Engine<HandlerImpl<F, Arc<A>>>, owns_facade: bool) -> (r: Result<
        (),
        Error,
    >)
        requires
            self.wf(),
        ensures
            r is Ok <==> owns_facade,
            !owns_facade ==> r == Err::<(), Error>(Error::AlreadyInitialized),
    {
        if !owns_facade {
            return Err(Error::AlreadyInitialized);
        }
        let handlers = self.finish_handler();
        let level = get_level_for_handlers(&handlers);
        facade_set_threshold(level);
        if level == LevelFilter::Off {
            engine.clear();
        } else {
            engine.install(HandlerCompound::new(handlers));
        }
        Ok(())
    }
}

/// A fresh builder whose open group uses the default text format.
pub fn builder<A: Appender<String>>() -> (r: Builder<DefaultFormat, A>)
    ensures
        r.wf(),
        r.groups().len() == 0,
        r.current_format() == DefaultFormat,
        forall|l: int| 0 <= l < 5 ==> r.current()[l].len() == 0,
{
    Builder::new(DefaultFormat)
}

} // verus!
