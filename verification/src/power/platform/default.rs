//! Fallback backend for platforms without power-management support.
//!
//! Construction itself fails with `UnsupportedPlatform`: there is nothing
//! to inhibit with, and no lock is ever produced. This is a legitimate
//! terminal state, not a crash — idle simulation still works without it.

use vstd::prelude::*;

use crate::power::LockTypeSet;

verus! {

/// Inhibition manager for platforms without a backend.
#[derive(Debug)]
pub struct InhibitionManager {
    _private: (),
}

impl InhibitionManager {
    /// There is no backend, so construction always fails.
    pub fn new() -> (r: Result<InhibitionManager, Error>)
        ensures
            r matches Err(Error::UnsupportedPlatform),
    {
        Err(Error::UnsupportedPlatform)
    }
}

impl crate::power::InhibitionManager for InhibitionManager {
    type Error = Error;

    type Lock = Lock;

    /// No lock can be produced on an unsupported platform.
    fn lock(&self, _types: LockTypeSet) -> (r: Result<Lock, Error>)
        ensures
            r matches Err(Error::UnsupportedPlatform),
    {
        Err(Error::UnsupportedPlatform)
    }
}

/// Failure of the fallback backend.
#[derive(Clone, Copy, Debug)]
pub enum Error {
    /// No power-management backend exists for the current platform.
    UnsupportedPlatform,
}

impl Error {
    /// A human-readable description of the error.
    pub fn message(&self) -> (m: &'static str)
        ensures
            m@ == "unsupported platform"@,
    {
        "unsupported platform"
    }
}

/// A lock of the fallback backend. No value of this type is ever produced.
#[derive(Debug)]
pub struct Lock {
    _private: (),
}

impl crate::power::Lock for Lock {

}

} // verus!
