//! Deriving the global severity threshold from a set of handlers.

use vstd::prelude::*;
use crate::compound::some_handler_enabled;
use crate::handler::Handler;
use crate::level::{Level, LevelFilter, get_level_for_idx, level_of_idx};

verus! {

/// The least restrictive level at which at least one handler is enabled
/// (`Trace` is least restrictive, `Error` most), or `Off` if no handler is
/// enabled at any level.
pub open spec fn derived_threshold<H: Handler>(hs: Seq<H>) -> LevelFilter {
    if some_handler_enabled(hs, Level::Trace) {
        LevelFilter::Trace
    } else if some_handler_enabled(hs, Level::Debug) {
        LevelFilter::Debug
    } else if some_handler_enabled(hs, Level::Info) {
        LevelFilter::Info
    } else if some_handler_enabled(hs, Level::Warn) {
        LevelFilter::Warn
    } else if some_handler_enabled(hs, Level::Error) {
        LevelFilter::Error
    } else {
        LevelFilter::Off
    }
}

/// The derived threshold is `Off` exactly when no handler is enabled at any
/// level: only then does finalization install no dispatch table at all.
pub proof fn lemma_threshold_off_iff_none_enabled<H: Handler>(hs: Seq<H>)
    ensures
        derived_threshold(hs) is Off <==> forall|l: int|
            0 <= l < 5 ==> !some_handler_enabled(hs, level_of_idx(l)),
{
    assert(level_of_idx(0) == Level::Trace);
    assert(level_of_idx(1) == Level::Debug);
    assert(level_of_idx(2) == Level::Info);
    assert(level_of_idx(3) == Level::Warn);
    assert(level_of_idx(4) == Level::Error);
}

/// The dense index of the least restrictive level at which `h` is enabled,
/// or 5 if `h` is enabled at no level.
fn min_enabled_idx<H: Handler>(h: &H) -> (r: usize)
    ensures
        r <= 5,
        forall|j: int| 0 <= j < r ==> !h.enabled_at(level_of_idx(j)),
        r < 5 ==> h.enabled_at(level_of_idx(r as int)),
{
    let mut l: usize = 0;
    while l < 5
        invariant
            l <= 5,
            forall|j: int| 0 <= j < l ==> !h.enabled_at(level_of_idx(j)),
        decreases 5 - l,
    {
        if h.is_enabled(get_level_for_idx(l)) {
            return l;
        }
        l = l + 1;
    }
    5
}

/// Derive the global threshold by the full scan: for each handler take the
/// least restrictive level at which it is enabled, and keep the least
/// restrictive of those overall, short-circuiting once `Trace` is reached.
pub fn get_level_for_handlers<H: Handler>(handlers: &Vec<H>) -> (r: LevelFilter)
    ensures
        r == derived_threshold(handlers@),
{
    let ghost all = handlers@;
    let mut best: usize = 5;
    let mut i: usize = 0;
    while i < handlers.len()
        invariant
            i <= all.len(),
            handlers@ == all,
            best <= 5,
            forall|j: int, l: int|
                0 <= j < i && 0 <= l < best ==> !all[j].enabled_at(level_of_idx(l)),
            best < 5 ==> exists|j: int|
                0 <= j < i && all[j].enabled_at(level_of_idx(best as int)),
        decreases all.len() - i,
    {
        let m = min_enabled_idx(&handlers[i]);
        if m < best {
            best = m;
        }
        if best == 0 {
            assert(some_handler_enabled(all, Level::Trace));
            return LevelFilter::Trace;
        }
        i = i + 1;
    }
    proof {
        if best < 5 {
            let j = choose|j: int| 0 <= j < all.len() && all[j].enabled_at(
                level_of_idx(best as int),
            );
            assert(some_handler_enabled(all, level_of_idx(best as int)));
        }
        assert forall|l: int| 0 <= l < best implies !some_handler_enabled(
            all,
            level_of_idx(l),
        ) by {
            if some_handler_enabled(all, level_of_idx(l)) {
                let j = choose|j: int| 0 <= j < all.len() && all[j].enabled_at(level_of_idx(l));
                assert(!all[j].enabled_at(level_of_idx(l)));
            }
        }
        assert(level_of_idx(0) == Level::Trace);
        assert(level_of_idx(1) == Level::Debug);
        assert(level_of_idx(2) == Level::Info);
        assert(level_of_idx(3) == Level::Warn);
        assert(level_of_idx(4) == Level::Error);
    }
    if best == 0 {
        LevelFilter::Trace
    } else if best == 1 {
        LevelFilter::Debug
    } else if best == 2 {
        LevelFilter::Info
    } else if best == 3 {
        LevelFilter::Warn
    } else if best == 4 {
        LevelFilter::Error
    } else {
        LevelFilter::Off
    }
}

} // verus!
