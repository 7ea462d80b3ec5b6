//! The finalized, read-only dispatch table: per level, the precomputed list
//! of handler indices enabled for that level.

use vstd::prelude::*;
use crate::handler::Handler;
use crate::level::{Level, get_idx_for_level, get_level_for_idx, level_idx, level_of_idx};
use crate::record::LogRecord;

verus! {

/// The indices, ascending, of the handlers of `hs` enabled at `level`.
pub open spec fn enabled_indices<H: Handler>(hs: Seq<H>, level: Level) -> Seq<usize>
    decreases hs.len(),
{
    if hs.len() == 0 {
        Seq::empty()
    } else {
        let prefix = enabled_indices(hs.drop_last(), level);
        if hs.last().enabled_at(level) {
            prefix.push((hs.len() - 1) as usize)
        } else {
            prefix
        }
    }
}

/// The naive linear enablement scan: whether at least one handler of `hs` is
/// enabled at `level`.
pub open spec fn some_handler_enabled<H: Handler>(hs: Seq<H>, level: Level) -> bool {
    exists|i: int| 0 <= i < hs.len() && hs[i].enabled_at(level)
}

/// A level's precomputed index list is non-empty exactly when the naive
/// linear scan finds at least one handler enabled at that level.
pub proof fn lemma_enabled_iff_some_handler<H: Handler>(hs: Seq<H>, level: Level)
    ensures
        enabled_indices(hs, level).len() > 0 <==> some_handler_enabled(hs, level),
    decreases hs.len(),
{
    if hs.len() > 0 {
        lemma_enabled_iff_some_handler(hs.drop_last(), level);
        if hs.last().enabled_at(level) {
            assert(hs[hs.len() - 1].enabled_at(level));
        } else {
            assert(some_handler_enabled(hs, level) ==> some_handler_enabled(
                hs.drop_last(),
                level,
            )) by {
                if some_handler_enabled(hs, level) {
                    let i = choose|i: int| 0 <= i < hs.len() && hs[i].enabled_at(level);
                    assert(i < hs.len() - 1);
                    assert(hs.drop_last()[i].enabled_at(level));
                }
            }
        }
    }
}

/// The finalized dispatch table over all handlers, indexed by level.
pub struct HandlerCompound<H: Handler> {
    handlers: Vec<H>,
    handler_indices: Vec<Vec<usize>>,
}

impl<H: Handler> HandlerCompound<H> {
    /// The handlers, in registration order.
    pub closed spec fn handlers_view(&self) -> Seq<H> {
        self.handlers@
    }

    /// The precomputed index lists, one per level in dense level order.
    pub closed spec fn indices_view(&self) -> Seq<Seq<usize>> {
        self.handler_indices@.map_values(|v: Vec<usize>| v@)
    }

    /// The central invariant: an index appears in a level's list iff the
    /// corresponding handler is enabled at that level, ascending.
    pub open spec fn wf(&self) -> bool {
        &&& self.indices_view().len() == 5
        &&& forall|l: int|
            0 <= l < 5 ==> self.indices_view()[l] == enabled_indices(
                self.handlers_view(),
                level_of_idx(l),
            )
    }

    /// Precompute, for each of the five levels, the indices of the handlers
    /// enabled at that level, scanning in registration order.
    pub fn new(handlers: Vec<H>) -> (r: Self)
        ensures
            r.wf(),
            r.handlers_view() == handlers@,
    {
        let mut handler_indices: Vec<Vec<usize>> = Vec::new();
        let mut l: usize = 0;
        while l < 5
            invariant
                l <= 5,
                handler_indices@.len() == l,
                forall|j: int|
                    0 <= j < l ==> handler_indices@[j]@ == enabled_indices(
                        Seq::<H>::empty(),
                        level_of_idx(j),
                    ),
            decreases 5 - l,
        {
            let empty: Vec<usize> = Vec::new();
            handler_indices.push(empty);
            l = l + 1;
        }
        let ghost all = handlers@;
        let mut idx: usize = 0;
        while idx < handlers.len()
            invariant
                idx <= all.len(),
                handlers@ == all,
                handler_indices@.len() == 5,
                forall|j: int|
                    0 <= j < 5 ==> handler_indices@[j]@ == enabled_indices(
                        all.take(idx as int),
                        level_of_idx(j),
                    ),
            decreases all.len() - idx,
        {
            let mut l: usize = 0;
            while l < 5
                invariant
                    idx < all.len(),
                    l <= 5,
                    handlers@ == all,
                    handler_indices@.len() == 5,
                    forall|j: int|
                        l <= j < 5 ==> handler_indices@[j]@ == enabled_indices(
                            all.take(idx as int),
                            level_of_idx(j),
                        ),
                    forall|j: int|
                        0 <= j < l ==> handler_indices@[j]@ == enabled_indices(
                            all.take(idx as int + 1),
                            level_of_idx(j),
                        ),
                decreases 5 - l,
            {
                let level = get_level_for_idx(l);
                proof {
                    assert(all.take(idx as int + 1).drop_last() =~= all.take(idx as int));
                    assert(all.take(idx as int + 1).last() == all[idx as int]);
                }
                if handlers[idx].is_enabled(level) {
                    handler_indices[l].push(idx);
                }
                l = l + 1;
            }
            idx = idx + 1;
        }
        proof {
            assert(all.take(all.len() as int) =~= all);
        }
        HandlerCompound { handlers, handler_indices }
    }

    /// How many handlers the compound holds.
    pub fn handler_count(&self) -> (r: usize)
        ensures
            r == self.handlers_view().len(),
    {
        self.handlers.len()
    }

    /// True iff the level's precomputed index list is non-empty: the facade
    /// uses this to skip event construction when nothing would consume it.
    pub fn is_enabled(&self, level: Level) -> (r: bool)
        ensures
            r == (level_idx(level) < self.indices_view().len() && self.indices_view()[level_idx(
                level,
            )].len() > 0),
            self.wf() ==> r == some_handler_enabled(self.handlers_view(), level),
    {
        proof {
            if self.wf() {
                let li = level_idx(level);
                assert(level_of_idx(li) == level);
                assert(self.indices_view()[li] == enabled_indices(self.handlers_view(), level));
                lemma_enabled_iff_some_handler(self.handlers_view(), level);
            }
        }
        let idx = get_idx_for_level(level);
        idx < self.handler_indices.len() && self.handler_indices[idx].len() > 0
    }

    /// Dispatch one event: for each handler index precomputed for the event's
    /// level, in order, let that handler format and fan out the event.
    pub fn log(&self, now_millis: u64, record: &LogRecord) {
        let idx = get_idx_for_level(record.level);
        if idx >= self.handler_indices.len() {
            return ;
        }
        let indices = &self.handler_indices[idx];
        let mut i: usize = 0;
        while i < indices.len()
            invariant
                i <= indices@.len(),
            decreases indices@.len() - i,
        {
            let h = indices[i];
            if h < self.handlers.len() {
                self.handlers[h].log(now_millis, record);
            }
            i = i + 1;
        }
    }
}

} // verus!
