//! Power-management inhibition.
//!
//! One capability — "hold the system awake for a set of lock kinds until
//! released" — behind a uniform interface, with platform-specific backends
//! under [`platform`].

use vstd::prelude::*;

pub mod platform;

verus! {

/// A kind of power-management suspension that a lock can inhibit.
#[derive(Clone, Copy, Debug, PartialEq, Eq, Structural)]
pub enum LockType {
    /// Automatic suspension (managed by the system idle timer).
    AutomaticSuspend,
    /// Manual suspension.
    ManualSuspend,
    /// Display suspension.
    DisplaySuspend,
}

/// A set of lock kinds, requested together in one acquisition.
#[derive(Clone, Copy, Debug, PartialEq, Eq, Structural)]
pub struct LockTypeSet {
    pub automatic: bool,
    pub manual: bool,
    pub display: bool,
}

impl LockTypeSet {
    /// Whether the set holds `t`.
    pub open spec fn spec_contains(&self, t: LockType) -> bool {
        match t {
            LockType::AutomaticSuspend => self.automatic,
            LockType::ManualSuspend => self.manual,
            LockType::DisplaySuspend => self.display,
        }
    }

    /// The kinds of the set in the fixed acquisition order: automatic,
    /// manual, display.
    pub open spec fn ordered_seq(&self) -> Seq<LockType> {
        (if self.automatic {
            seq![LockType::AutomaticSuspend]
        } else {
            Seq::<LockType>::empty()
        }) + (if self.manual {
            seq![LockType::ManualSuspend]
        } else {
            Seq::<LockType>::empty()
        }) + (if self.display {
            seq![LockType::DisplaySuspend]
        } else {
            Seq::<LockType>::empty()
        })
    }

    /// The empty set.
    pub fn empty() -> (s: LockTypeSet)
        ensures
            s == (LockTypeSet { automatic: false, manual: false, display: false }),
    {
        LockTypeSet { automatic: false, manual: false, display: false }
    }

    /// The set extended with `t`.
    pub fn with(self, t: LockType) -> (s: LockTypeSet)
        ensures
            s.spec_contains(t),
            forall|u: LockType| u != t ==> #[trigger] s.spec_contains(u) == self.spec_contains(u),
    {
        match t {
            LockType::AutomaticSuspend => LockTypeSet { automatic: true, ..self },
            LockType::ManualSuspend => LockTypeSet { manual: true, ..self },
            LockType::DisplaySuspend => LockTypeSet { display: true, ..self },
        }
    }

    /// Whether the set holds `t`.
    pub fn contains(&self, t: LockType) -> (b: bool)
        ensures
            b == self.spec_contains(t),
    {
        match t {
            LockType::AutomaticSuspend => self.automatic,
            LockType::ManualSuspend => self.manual,
            LockType::DisplaySuspend => self.display,
        }
    }

    /// The kinds of the set in acquisition order.
    pub fn ordered(&self) -> (v: Vec<LockType>)
        ensures
            v@ == self.ordered_seq(),
    {
        let mut v: Vec<LockType> = Vec::new();
        if self.automatic {
            v.push(LockType::AutomaticSuspend);
        }
        if self.manual {
            v.push(LockType::ManualSuspend);
        }
        if self.display {
            v.push(LockType::DisplaySuspend);
        }
        proof {
            assert(v@ =~= self.ordered_seq());
        }
        v
    }
}

/// Common interface of the platform-specific inhibition managers: produce a
/// [`Lock`] that inhibits the requested kinds of suspension.
pub trait InhibitionManager {
    type Error;

    type Lock: Lock;

    /// Produces a new lock that inhibits the given kinds.
    fn lock(&self, types: LockTypeSet) -> Result<Self::Lock, Self::Error>;
}

/// Inhibits power-management suspension until released. A lock owns the OS
/// resources it established and must release exactly what it established,
/// once, wherever teardown happens — so it must not be tied to the stack
/// frame that created it.
pub trait Lock: Send {

}

/// The reason text handed to the OS alongside a power request or
/// assertion, shown by system tools that list active inhibitions.
pub fn power_default_message() -> (m: &'static str)
    ensures
        m@ == "StayAwake program is running"@,
{
    "StayAwake program is running"
}

/// Constructs the inhibition manager for the current platform. On a
/// platform without a backend this fails with `UnsupportedPlatform`; the
/// caller should continue without a lock and surface the degraded
/// guarantee.
pub fn manager() -> (r: Result<platform::InhibitionManager, platform::Error>)
    ensures
        r matches Err(platform::Error::UnsupportedPlatform),
{
    platform::InhibitionManager::new()
}

} // verus!
