//! Backend model for platforms with a single named sleep-prevention
//! assertion.
//!
//! One OS call establishes the whole request; failure is not distinguished
//! by kind, so acquisition is all-or-nothing. The library wraps the opaque
//! assertion identifier the OS handed back and guarantees it is released
//! at most once.

use vstd::prelude::*;

verus! {

/// Failure of the single-assertion backend: the one OS call did not
/// succeed. The platform call does not report per-kind granularity, so
/// the whole request fails at once; the OS return code is carried.
#[derive(Clone, Copy, Debug)]
pub enum Error {
    AssertionFailed(i32),
}

/// A held sleep-prevention assertion, identified by the opaque id the OS
/// returned.
#[derive(Debug)]
pub struct Lock {
    id: u32,
    released: bool,
}

impl Lock {
    /// The all-or-nothing acquire decision: a lock wrapping the assertion
    /// id if and only if the OS call reported success (a zero return
    /// code), else the error carrying the code.
    pub fn from_acquire(ret: i32, id: u32) -> (r: Result<Lock, Error>)
        ensures
            ret == 0 ==> (r matches Ok(l) && l.spec_id() == id && !l.spec_released()),
            ret != 0 ==> (r matches Err(Error::AssertionFailed(c)) && c == ret),
            (r is Ok) == (ret == 0),
    {
        if ret == 0 {
            Ok(Lock::new(id))
        } else {
            Err(Error::AssertionFailed(ret))
        }
    }
}

impl Lock {
    /// The assertion id this lock wraps.
    pub closed spec fn spec_id(&self) -> u32 {
        self.id
    }

    /// Whether the lock has been released.
    pub closed spec fn spec_released(&self) -> bool {
        self.released
    }

    /// Wraps the assertion id the OS call handed back.
    pub fn new(id: u32) -> (l: Lock)
        ensures
            l.spec_id() == id,
            !l.spec_released(),
    {
        Lock { id, released: false }
    }

    /// The assertion to release now: its id on the first call, nothing on
    /// any later call. Release is idempotent — the id is handed out once,
    /// so the OS resource is never freed twice.
    pub fn release(&mut self) -> (r: Option<u32>)
        ensures
            final(self).spec_released(),
            final(self).spec_id() == old(self).spec_id(),
            !old(self).spec_released() ==> r == Some(old(self).spec_id()),
            old(self).spec_released() ==> r is None,
    {
        if self.released {
            None
        } else {
            self.released = true;
            Some(self.id)
        }
    }
}

impl crate::power::Lock for Lock {

}

} // verus!
