//! The one recoverable error the engine can signal.

use vstd::prelude::*;

verus! {

/// Configuration failed because the logging facade already has a different
/// active backend.
#[derive(Debug, PartialEq, Eq, Structural)]
pub enum Error {
    /// The facade has already been claimed by another backend.
    AlreadyInitialized,
}

impl Error {
    /// A human-readable description of the error.
    pub fn message(&self) -> (r: &'static str)
        ensures
            r@ == "`log` has already been initialized by another crate"@,
    {
        "`log` has already been initialized by another crate"
    }
}

} // verus!
