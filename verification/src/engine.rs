//! The engine slot: a synchronized cell holding at most one finalized
//! dispatch table, readable concurrently with reconfiguration.
//!
//! The read path never blocks: when reconfiguration holds the lock, the event
//! is silently dropped, and a lock poisoned by a panic elsewhere is recovered
//! in place, so logging stays usable for the rest of the process.

use vstd::prelude::*;
use std::sync::RwLock;
use std::sync::RwLockReadGuard;
use std::sync::TryLockError;
use crate::compound::HandlerCompound;
use crate::handler::Handler;
use crate::level::{Level, LevelFilter};
use crate::record::LogRecord;

verus! {

#[verifier::external_type_specification]
#[verifier::external_body]
#[verifier::reject_recursive_types(T)]
pub struct ExRwLock<T: ?Sized>(RwLock<T>);

#[verifier::external_type_specification]
#[verifier::external_body]
#[verifier::reject_recursive_types(T)]
pub struct ExRwLockReadGuard<'a, T: ?Sized>(RwLockReadGuard<'a, T>);

/// Relies on `std::sync::RwLock::new`: a fresh lock holding `value`.
#[verifier::external_body]
fn lock_new<T>(value: T) -> RwLock<T> {
    RwLock::new(value)
}

/// Relies on `std::sync::RwLock::write`: exclusive, blocking access. A lock
/// poisoned by a panic elsewhere is recovered (`clear_poison`, `into_inner`)
/// instead of propagating the panic; the held value is then replaced either
/// way.
#[verifier::external_body]
fn lock_store<T>(lock: &RwLock<T>, value: T) {
    let mut guard = match lock.write() {
        Ok(guard) => guard,
        Err(poison) => {
            lock.clear_poison();
            poison.into_inner()
        },
    };
    *guard = value;
}

/// Relies on `std::sync::RwLock::try_read`: shared access without blocking.
/// Contention (a writer holding the lock) yields `None`; a poisoned lock is
/// recovered (`clear_poison`, `into_inner`) rather than propagated.
#[verifier::external_body]
fn lock_try_read<'a, T>(lock: &'a RwLock<T>) -> Option<RwLockReadGuard<'a, T>> {
    match lock.try_read() {
        Ok(guard) => Some(guard),
        Err(TryLockError::Poisoned(poison)) => {
            lock.clear_poison();
            Some(poison.into_inner())
        },
        Err(TryLockError::WouldBlock) => None,
    }
}

/// Relies on `RwLockReadGuard`'s `Deref`: borrow the guarded value.
#[verifier::external_body]
fn guard_borrow<'a, 'b, T>(guard: &'b RwLockReadGuard<'a, T>) -> &'b T {
    &**guard
}

/// Relies on `std::time::SystemTime::now` and `duration_since`: the
/// wall-clock time, as milliseconds since the UNIX epoch; a clock before the
/// epoch reads as zero. Nothing is promised of the value.
#[verifier::external_body]
fn now_millis() -> u64 {
    match std::time::SystemTime::now().duration_since(std::time::UNIX_EPOCH) {
        Ok(elapsed) => u64::try_from(elapsed.as_millis()).unwrap_or(u64::MAX),
        Err(_) => 0,
    }
}

/// Relies on `log::set_max_level`: replaces the facade's severity threshold,
/// below which the facade skips events entirely.
#[verifier::external_body]
pub(crate) fn facade_set_threshold(threshold: LevelFilter) {
    log::set_max_level(
        match threshold {
            LevelFilter::Off => log::LevelFilter::Off,
            LevelFilter::Error => log::LevelFilter::Error,
            LevelFilter::Warn => log::LevelFilter::Warn,
            LevelFilter::Info => log::LevelFilter::Info,
            LevelFilter::Debug => log::LevelFilter::Debug,
            LevelFilter::Trace => log::LevelFilter::Trace,
        },
    )
}

/// The routing engine: a synchronized slot holding at most one finalized
/// dispatch table. Independently constructible, so the engine stays free of
/// hidden singletons; a process-wide instance lives at the boundary layer.
#[verifier::reject_recursive_types(H)]
pub struct Engine<H: Handler> {
    slot: RwLock<Option<HandlerCompound<H>>>,
}

impl<H: Handler> Engine<H> {
    /// A fresh engine with an empty slot: `enabled` is false everywhere and
    /// `log` is a no-op until a compound is installed.
    pub fn new() -> Self {
        Engine { slot: lock_new(None) }
    }

    /// Atomically replace the slot's contents with `compound`, dropping the
    /// previous compound, if any.
    pub fn install(&self, compound: HandlerCompound<H>) {
        lock_store(&self.slot, Some(compound));
    }

    /// Atomically empty the slot: the engine becomes a no-op sink.
    pub fn clear(&self) {
        lock_store(&self.slot, None);
    }

    /// Whether the installed compound enables the level. False when the slot
    /// is empty, and false when reconfiguration concurrently holds the slot
    /// (availability over completeness: never block the caller).
    pub fn enabled(&self, level: Level) -> bool {
        match lock_try_read(&self.slot) {
            None => false,
            Some(guard) => match guard_borrow(&guard) {
                None => false,
                Some(compound) => compound.is_enabled(level),
            },
        }
    }

    /// Dispatch one event through the installed compound, capturing the
    /// wall-clock timestamp once. A no-op when the slot is empty, and when
    /// reconfiguration concurrently holds the slot the event is silently
    /// dropped rather than blocking the emitting thread.
    pub fn log(&self, record: &LogRecord) {
        if let Some(guard) = lock_try_read(&self.slot) {
            match guard_borrow(&guard) {
                None => (),
                Some(compound) => {
                    let now = now_millis();
                    compound.log(now, record);
                },
            }
        }
    }
}

/// Atomically empty the engine's slot: any later log call results in zero
/// appender invocations until a new compound is installed. Facade
/// registration, which happens at most once per process, is unaffected.
pub fn free<H: Handler>(engine: &Engine<H>) {
    engine.clear();
}

} // verus!
