//! Backend model for platforms with a shared power-request handle and one
//! request flag per lock kind.
//!
//! Acquisition is incremental and ordered: the handle is created first,
//! then the flag of each requested kind is set one at a time in the fixed
//! acquisition order. If setting a flag fails, every flag set earlier in
//! the same call is cleared again (rollback) before the error is surfaced,
//! so a partially acquired lock is never observable.
//!
//! The OS calls themselves happen outside the library. [`Acquisition`] is
//! the verified driver of one acquire call: [`Acquisition::next_action`]
//! names the one OS call to make next, the `on_*` methods record its
//! outcome, and [`Acquisition::finish`] returns the lock or the error.

use vstd::prelude::*;

use crate::power::{LockType, LockTypeSet};

verus! {

/// Failure of a multi-flag power-request acquisition.
#[derive(Clone, Copy, Debug)]
pub enum Error {
    /// The shared power-request handle could not be created; holds the OS
    /// error code.
    FailedToCreateRequest(u32),
    /// Setting the flag of one kind was denied; names the kind and the OS
    /// error code.
    FailedToLock { lock_type: LockType, err_code: u32 },
}

impl Error {
    /// A human-readable description of the error.
    pub fn message(&self) -> (m: &'static str)
        ensures
            *self is FailedToCreateRequest ==> m@ == "failed to create power request"@,
            *self is FailedToLock ==> m@ == "failed lock operation"@,
    {
        match self {
            Error::FailedToCreateRequest(_) => "failed to create power request",
            Error::FailedToLock { .. } => "failed lock operation",
        }
    }
}

/// The one OS call the caller must make next on behalf of an acquisition,
/// or the signal that the acquisition has run to completion.
#[derive(Clone, Copy, Debug, PartialEq, Eq, Structural)]
pub enum Action {
    /// Create the shared power-request handle.
    CreateRequest,
    /// Set the request flag of this kind.
    SetFlag(LockType),
    /// Clear the request flag of this kind (rollback).
    ClearFlag(LockType),
    /// Nothing remains to be done; `finish` returns the outcome.
    Complete,
}

/// Phase of an acquisition, as in its state machine: creating the handle,
/// acquiring kind after kind, held, or rolling back toward failure.
#[derive(Clone, Copy, Debug, PartialEq, Eq, Structural)]
pub enum Phase {
    /// Waiting for the power-request handle.
    Creating,
    /// The handle exists; the kinds before `granted` in the acquisition
    /// order are set, and the kind at `granted` is requested next.
    Acquiring { granted: usize },
    /// The kind at `granted` was denied with `code`; the flags in
    /// `cleared..granted` are still set and are cleared one at a time.
    RollingBack { granted: usize, cleared: usize, failed: LockType, code: u32 },
    /// Every requested kind is set.
    Held,
    /// The handle could not be created.
    FailedCreate { code: u32 },
    /// The kind `failed` was denied with `code`, and every flag set before
    /// it has been cleared again.
    Failed { failed: LockType, code: u32 },
}

/// The phase after the handle-creation outcome is recorded.
pub open spec fn phase_after_created(order: Seq<LockType>, ok: bool, code: u32) -> Phase {
    if ok {
        if order.len() == 0 {
            Phase::Held
        } else {
            Phase::Acquiring { granted: 0 }
        }
    } else {
        Phase::FailedCreate { code }
    }
}

/// The phase after the outcome of setting the pending flag is recorded.
pub open spec fn phase_after_flag_set(phase: Phase, order: Seq<LockType>, ok: bool, code: u32) -> Phase {
    match phase {
        Phase::Acquiring { granted } => {
            if ok {
                if granted + 1 == order.len() {
                    Phase::Held
                } else {
                    Phase::Acquiring { granted: (granted + 1) as usize }
                }
            } else {
                if granted == 0 {
                    Phase::Failed { failed: order[granted as int], code }
                } else {
                    Phase::RollingBack { granted, cleared: 0, failed: order[granted as int], code }
                }
            }
        },
        _ => phase,
    }
}

/// The phase after the pending rollback flag is cleared.
pub open spec fn phase_after_flag_cleared(phase: Phase) -> Phase {
    match phase {
        Phase::RollingBack { granted, cleared, failed, code } => {
            if cleared + 1 == granted {
                Phase::Failed { failed, code }
            } else {
                Phase::RollingBack { granted, cleared: (cleared + 1) as usize, failed, code }
            }
        },
        _ => phase,
    }
}

/// The one OS call to make next in `phase`, over the acquisition order.
pub open spec fn next_action_spec(phase: Phase, order: Seq<LockType>) -> Action {
    match phase {
        Phase::Creating => Action::CreateRequest,
        Phase::Acquiring { granted } => Action::SetFlag(order[granted as int]),
        Phase::RollingBack { cleared, .. } => Action::ClearFlag(order[cleared as int]),
        Phase::Held => Action::Complete,
        Phase::FailedCreate { .. } => Action::Complete,
        Phase::Failed { .. } => Action::Complete,
    }
}

/// The request flags currently set in the OS when the acquisition is in
/// `phase`: every completed `SetFlag` not yet matched by a `ClearFlag`.
pub open spec fn flags_set_spec(phase: Phase, order: Seq<LockType>) -> Seq<LockType> {
    match phase {
        Phase::Creating => Seq::<LockType>::empty(),
        Phase::Acquiring { granted } => order.subrange(0, granted as int),
        Phase::RollingBack { granted, cleared, .. } => order.subrange(
            cleared as int,
            granted as int,
        ),
        Phase::Held => order,
        Phase::FailedCreate { .. } => Seq::<LockType>::empty(),
        Phase::Failed { .. } => Seq::<LockType>::empty(),
    }
}

/// One incremental, ordered acquisition of a set of lock kinds over a
/// shared power-request handle.
pub struct Acquisition {
    order: Vec<LockType>,
    phase: Phase,
}

impl Acquisition {
    /// The requested kinds, in acquisition order.
    pub closed spec fn spec_order(&self) -> Seq<LockType> {
        self.order@
    }

    /// The current phase.
    pub closed spec fn spec_phase(&self) -> Phase {
        self.phase
    }

    /// Counters stay within the acquisition order.
    pub open spec fn wf(&self) -> bool {
        match self.spec_phase() {
            Phase::Acquiring { granted } => granted < self.spec_order().len(),
            Phase::RollingBack { granted, cleared, .. } => cleared < granted
                < self.spec_order().len(),
            _ => true,
        }
    }

    /// The request flags currently set in the OS on behalf of this
    /// acquisition.
    pub open spec fn flags_set(&self) -> Seq<LockType> {
        flags_set_spec(self.spec_phase(), self.spec_order())
    }

    /// Begins an acquisition of `types` over one shared power request.
    pub fn start(types: &LockTypeSet) -> (a: Acquisition)
        ensures
            a.wf(),
            a.spec_order() == types.ordered_seq(),
            a.spec_phase() == Phase::Creating,
    {
        Acquisition { order: types.ordered(), phase: Phase::Creating }
    }

    /// The one OS call to make next, or `Complete` when the acquisition
    /// has run to completion.
    pub fn next_action(&self) -> (act: Action)
        requires
            self.wf(),
        ensures
            act == next_action_spec(self.spec_phase(), self.spec_order()),
    {
        match self.phase {
            Phase::Creating => Action::CreateRequest,
            Phase::Acquiring { granted } => Action::SetFlag(self.order[granted]),
            Phase::RollingBack { cleared, .. } => Action::ClearFlag(self.order[cleared]),
            Phase::Held => Action::Complete,
            Phase::FailedCreate { .. } => Action::Complete,
            Phase::Failed { .. } => Action::Complete,
        }
    }

    /// Records the outcome of `CreateRequest`: created, or denied with the
    /// OS error `code`.
    pub fn on_request_created(&mut self, ok: bool, code: u32)
        requires
            old(self).wf(),
            old(self).spec_phase() is Creating,
        ensures
            final(self).wf(),
            final(self).spec_order() == old(self).spec_order(),
            final(self).spec_phase() == phase_after_created(old(self).spec_order(), ok, code),
    {
        if ok {
            if self.order.len() == 0 {
                self.phase = Phase::Held;
            } else {
                self.phase = Phase::Acquiring { granted: 0 };
            }
        } else {
            self.phase = Phase::FailedCreate { code };
        }
    }

    /// Records the outcome of `SetFlag` for the pending kind: set, or
    /// denied with the OS error `code`. A denial starts the rollback of
    /// every flag set earlier in this acquisition.
    pub fn on_flag_set(&mut self, ok: bool, code: u32)
        requires
            old(self).wf(),
            old(self).spec_phase() is Acquiring,
        ensures
            final(self).wf(),
            final(self).spec_order() == old(self).spec_order(),
            final(self).spec_phase() == phase_after_flag_set(
                old(self).spec_phase(),
                old(self).spec_order(),
                ok,
                code,
            ),
    {
        match self.phase {
            Phase::Acquiring { granted } => {
                let n = self.order.len();
                if ok {
                    if granted + 1 == n {
                        self.phase = Phase::Held;
                    } else {
                        self.phase = Phase::Acquiring { granted: granted + 1 };
                    }
                } else {
                    let failed = self.order[granted];
                    if granted == 0 {
                        self.phase = Phase::Failed { failed, code };
                    } else {
                        self.phase = Phase::RollingBack { granted, cleared: 0, failed, code };
                    }
                }
            },
            _ => {
            },
        }
    }

    /// Records that the pending rollback `ClearFlag` was issued. Clearing
    /// is best-effort: the OS outcome has no receiver, so none is taken.
    pub fn on_flag_cleared(&mut self)
        requires
            old(self).wf(),
            old(self).spec_phase() is RollingBack,
        ensures
            final(self).wf(),
            final(self).spec_order() == old(self).spec_order(),
            final(self).spec_phase() == phase_after_flag_cleared(old(self).spec_phase()),
    {
        match self.phase {
            Phase::RollingBack { granted, cleared, failed, code } => {
                if cleared + 1 == granted {
                    self.phase = Phase::Failed { failed, code };
                } else {
                    self.phase = Phase::RollingBack { granted, cleared: cleared + 1, failed, code };
                }
            },
            _ => {
            },
        }
    }

    /// The outcome of a completed acquisition: a lock owning exactly the
    /// requested kinds, or the error naming what failed — the handle, or
    /// the first denied kind with its OS code.
    pub fn finish(self) -> (r: Result<Lock, Error>)
        requires
            self.wf(),
            next_action_spec(self.spec_phase(), self.spec_order()) is Complete,
        ensures
            self.spec_phase() is Held ==> (r matches Ok(l) && l.spec_owned() == self.spec_order()
                && !l.spec_released()),
            self.spec_phase() matches Phase::Failed { failed, code } ==> (r matches Err(
                Error::FailedToLock { lock_type, err_code },
            ) && lock_type == failed && err_code == code),
            self.spec_phase() matches Phase::FailedCreate { code } ==> (r matches Err(
                Error::FailedToCreateRequest(c),
            ) && c == code),
            r is Ok <==> self.spec_phase() is Held,
    {
        match self.phase {
            Phase::Held => Ok(Lock { owned: self.order, released: false }),
            Phase::Failed { failed, code } => Err(
                Error::FailedToLock { lock_type: failed, err_code: code },
            ),
            Phase::FailedCreate { code } => Err(Error::FailedToCreateRequest(code)),
            _ => unreached(),
        }
    }
}

/// A held lock owning the kinds a successful acquisition established.
#[derive(Debug)]
pub struct Lock {
    owned: Vec<LockType>,
    released: bool,
}

impl Lock {
    /// The kinds this lock owns, in acquisition order.
    pub closed spec fn spec_owned(&self) -> Seq<LockType> {
        self.owned@
    }

    /// Whether the lock has been released.
    pub closed spec fn spec_released(&self) -> bool {
        self.released
    }

    /// The flags to clear now: every owned kind on the first call, nothing
    /// on any later call. Release is idempotent — a second release finds
    /// nothing left to clear, so no OS resource is ever freed twice.
    /// Clearing is best-effort; an OS-level failure to clear one flag has
    /// no receiver and does not disturb the rest.
    pub fn release(&mut self) -> (to_clear: Vec<LockType>)
        ensures
            final(self).spec_released(),
            final(self).spec_owned() == old(self).spec_owned(),
            !old(self).spec_released() ==> to_clear@ == old(self).spec_owned(),
            old(self).spec_released() ==> to_clear@.len() == 0,
    {
        if self.released {
            Vec::new()
        } else {
            self.released = true;
            let mut v: Vec<LockType> = Vec::new();
            let mut i: usize = 0;
            while i < self.owned.len()
                invariant
                    i <= self.owned.len(),
                    v@ == self.owned@.subrange(0, i as int),
                decreases self.owned.len() - i,
            {
                v.push(self.owned[i]);
                proof {
                    assert(v@ =~= self.owned@.subrange(0, i + 1));
                }
                i = i + 1;
            }
            proof {
                assert(v@ =~= self.owned@);
            }
            v
        }
    }
}

impl crate::power::Lock for Lock {

}

/// The phase after the handle is created and the first `i` kinds granted.
pub open spec fn phase_after_grants(order: Seq<LockType>, i: int) -> Phase
    decreases i,
{
    if i <= 0 {
        phase_after_created(order, true, 0)
    } else {
        phase_after_flag_set(phase_after_grants(order, i - 1), order, true, 0)
    }
}

/// The phase after `j` rollback flags are cleared, starting from `phase`.
pub open spec fn phase_after_clears(phase: Phase, j: int) -> Phase
    decreases j,
{
    if j <= 0 {
        phase
    } else {
        phase_after_flag_cleared(phase_after_clears(phase, j - 1))
    }
}

proof fn lemma_phase_after_grants(order: Seq<LockType>, i: int)
    requires
        0 <= i < order.len() <= usize::MAX,
    ensures
        phase_after_grants(order, i) == (Phase::Acquiring { granted: i as usize }),
    decreases i,
{
    if i > 0 {
        lemma_phase_after_grants(order, i - 1);
    }
}

proof fn lemma_phase_after_clears(order: Seq<LockType>, k: int, code: u32, j: int)
    requires
        0 < k < order.len() <= usize::MAX,
        0 <= j < k,
    ensures
        phase_after_clears(
            Phase::RollingBack { granted: k as usize, cleared: 0, failed: order[k], code },
            j,
        ) == (Phase::RollingBack {
            granted: k as usize,
            cleared: j as usize,
            failed: order[k],
            code,
        }),
    decreases j,
{
    if j > 0 {
        lemma_phase_after_clears(order, k, code, j - 1);
    }
}

/// Rollback atomicity, for a denial at any position: in an acquisition of
/// the kinds `order` whose first `k` kinds are granted and whose kind at
/// `k` is then denied with `code`, the run requests exactly the kinds up
/// to and including `k`, each exactly once and in order — so no kind after
/// `k` is ever requested — then clears exactly the `k` kinds granted
/// before the denial, in order; it ends in the failure naming the denied
/// kind and the OS code, with no flag left set, and `finish` returns that
/// error and no lock.
pub proof fn lemma_rollback_atomicity_any(order: Seq<LockType>, k: int, code: u32)
    requires
        0 <= k < order.len() <= usize::MAX,
    ensures
        ({
            let denied = phase_after_flag_set(phase_after_grants(order, k), order, false, code);
            let done = phase_after_clears(denied, k);
            &&& forall|i: int|
                0 <= i <= k ==> next_action_spec(#[trigger] phase_after_grants(order, i), order)
                    == Action::SetFlag(order[i])
            &&& forall|j: int|
                0 <= j < k ==> next_action_spec(#[trigger] phase_after_clears(denied, j), order)
                    == Action::ClearFlag(order[j])
            &&& done == (Phase::Failed { failed: order[k], code })
            &&& next_action_spec(done, order) == Action::Complete
            &&& flags_set_spec(done, order).len() == 0
        }),
{
    let denied = phase_after_flag_set(phase_after_grants(order, k), order, false, code);
    assert forall|i: int| 0 <= i <= k implies next_action_spec(
        #[trigger] phase_after_grants(order, i),
        order,
    ) == Action::SetFlag(order[i]) by {
        lemma_phase_after_grants(order, i);
    };
    lemma_phase_after_grants(order, k);
    if k > 0 {
        assert(denied == (Phase::RollingBack {
            granted: k as usize,
            cleared: 0,
            failed: order[k],
            code,
        }));
        assert forall|j: int| 0 <= j < k implies next_action_spec(
            #[trigger] phase_after_clears(denied, j),
            order,
        ) == Action::ClearFlag(order[j]) by {
            if j > 0 {
                lemma_phase_after_clears(order, k, code, j);
            }
        };
        lemma_phase_after_clears(order, k, code, k - 1);
    }
}

/// Rollback atomicity: in an acquisition of all three kinds whose first
/// kind is granted and whose second is denied with `code`, the run makes
/// exactly the calls create-request, set the first kind, set the second,
/// clear the first — so after the call the first kind is released again,
/// the third was never requested, no flag remains set — and it ends in the
/// failure naming the denied kind and the OS code, from which `finish`
/// returns the error and no lock.
pub proof fn lemma_rollback_atomicity(types: LockTypeSet, code: u32)
    requires
        types.automatic,
        types.manual,
        types.display,
    ensures
        ({
            let order = types.ordered_seq();
            let p1 = phase_after_created(order, true, 0);
            let p2 = phase_after_flag_set(p1, order, true, 0);
            let p3 = phase_after_flag_set(p2, order, false, code);
            let p4 = phase_after_flag_cleared(p3);
            &&& next_action_spec(Phase::Creating, order) == Action::CreateRequest
            &&& next_action_spec(p1, order) == Action::SetFlag(LockType::AutomaticSuspend)
            &&& next_action_spec(p2, order) == Action::SetFlag(LockType::ManualSuspend)
            &&& next_action_spec(p3, order) == Action::ClearFlag(LockType::AutomaticSuspend)
            &&& flags_set_spec(p3, order) == seq![LockType::AutomaticSuspend]
            &&& next_action_spec(p4, order) == Action::Complete
            &&& p4 == (Phase::Failed { failed: LockType::ManualSuspend, code })
            &&& flags_set_spec(p4, order).len() == 0
        }),
{
    let order = types.ordered_seq();
    assert(order =~= seq![
        LockType::AutomaticSuspend,
        LockType::ManualSuspend,
        LockType::DisplaySuspend,
    ]);
    let p3 = phase_after_flag_set(
        phase_after_flag_set(phase_after_created(order, true, 0), order, true, 0),
        order,
        false,
        code,
    );
    assert(flags_set_spec(p3, order) =~= seq![LockType::AutomaticSuspend]);
}

} // verus!
