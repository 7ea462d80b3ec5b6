//! The five ordered severity levels and the `Off`-extended threshold type.

use vstd::prelude::*;

verus! {

/// One of five ordered severities, `Trace` (most verbose) through `Error`
/// (most severe).
#[derive(Clone, Copy, Debug, PartialEq, Eq, Structural)]
pub enum Level {
    Trace,
    Debug,
    Info,
    Warn,
    Error,
}

/// A threshold over [`Level`] plus an `Off` bottom meaning "nothing passes".
#[derive(Clone, Copy, Debug, PartialEq, Eq, Structural)]
pub enum LevelFilter {
    Off,
    Error,
    Warn,
    Info,
    Debug,
    Trace,
}

/// The dense array index of a level: `Trace` is 0, `Error` is 4.
pub open spec fn level_idx(level: Level) -> int {
    match level {
        Level::Trace => 0,
        Level::Debug => 1,
        Level::Info => 2,
        Level::Warn => 3,
        Level::Error => 4,
    }
}

/// The level whose dense index is `i`.
pub open spec fn level_of_idx(i: int) -> Level {
    if i == 0 {
        Level::Trace
    } else if i == 1 {
        Level::Debug
    } else if i == 2 {
        Level::Info
    } else if i == 3 {
        Level::Warn
    } else {
        Level::Error
    }
}

/// The dense index of the least severe level a threshold admits: a filter
/// admits every level from this index up to `Error` (index 4), so `Off`,
/// which admits nothing, maps to the empty range starting at 5.
pub open spec fn filter_low(filter: LevelFilter) -> int {
    match filter {
        LevelFilter::Trace => 0,
        LevelFilter::Debug => 1,
        LevelFilter::Info => 2,
        LevelFilter::Warn => 3,
        LevelFilter::Error => 4,
        LevelFilter::Off => 5,
    }
}

/// Maps the five severity levels to a dense array index (0..5).
pub fn get_idx_for_level(level: Level) -> (i: usize)
    ensures
        i == level_idx(level),
{
    match level {
        Level::Trace => 0,
        Level::Debug => 1,
        Level::Info => 2,
        Level::Warn => 3,
        Level::Error => 4,
    }
}

/// The level at dense index `i`.
pub fn get_level_for_idx(i: usize) -> (level: Level)
    requires
        i < 5,
    ensures
        level == level_of_idx(i as int),
        level_idx(level) == i,
{
    if i == 0 {
        Level::Trace
    } else if i == 1 {
        Level::Debug
    } else if i == 2 {
        Level::Info
    } else if i == 3 {
        Level::Warn
    } else {
        Level::Error
    }
}

} // verus!
