use stayawake::power::platform::assertion;
use stayawake::power::platform::request::{Acquisition, Action, Error};
use stayawake::power::{manager, LockType, LockTypeSet};

fn all_three() -> LockTypeSet {
    LockTypeSet::empty()
        .with(LockType::AutomaticSuspend)
        .with(LockType::ManualSuspend)
        .with(LockType::DisplaySuspend)
}

#[test]
fn unsupported_platform_produces_no_manager() {
    let result = manager();
    assert!(result.is_err());
    let err = result.unwrap_err();
    assert!(matches!(
        err,
        stayawake::power::platform::Error::UnsupportedPlatform
    ));
    assert_eq!(err.message(), "unsupported platform");
}

#[test]
fn unsupported_platform_new_fails_directly() {
    assert!(matches!(
        stayawake::power::platform::InhibitionManager::new(),
        Err(stayawake::power::platform::Error::UnsupportedPlatform)
    ));
}

#[test]
fn acquisition_of_three_kinds_succeeds_in_order() {
    let mut acq = Acquisition::start(&all_three());
    assert_eq!(acq.next_action(), Action::CreateRequest);
    acq.on_request_created(true, 0);
    assert_eq!(acq.next_action(), Action::SetFlag(LockType::AutomaticSuspend));
    acq.on_flag_set(true, 0);
    assert_eq!(acq.next_action(), Action::SetFlag(LockType::ManualSuspend));
    acq.on_flag_set(true, 0);
    assert_eq!(acq.next_action(), Action::SetFlag(LockType::DisplaySuspend));
    acq.on_flag_set(true, 0);
    assert_eq!(acq.next_action(), Action::Complete);

    let mut lock = acq.finish().unwrap();
    let cleared = lock.release();
    assert_eq!(
        cleared,
        vec![
            LockType::AutomaticSuspend,
            LockType::ManualSuspend,
            LockType::DisplaySuspend
        ]
    );
}

#[test]
fn rollback_releases_the_first_kind_and_never_touches_the_third() {
    let mut acq = Acquisition::start(&all_three());
    assert_eq!(acq.next_action(), Action::CreateRequest);
    acq.on_request_created(true, 0);

    // The first kind is granted.
    assert_eq!(acq.next_action(), Action::SetFlag(LockType::AutomaticSuspend));
    acq.on_flag_set(true, 0);

    // The second kind is denied by the OS with code 5.
    assert_eq!(acq.next_action(), Action::SetFlag(LockType::ManualSuspend));
    acq.on_flag_set(false, 5);

    // Rollback: the first kind is cleared again; the third kind is never
    // requested, because the only actions left are the clear and the end.
    assert_eq!(acq.next_action(), Action::ClearFlag(LockType::AutomaticSuspend));
    acq.on_flag_cleared();
    assert_eq!(acq.next_action(), Action::Complete);

    let result = acq.finish();
    assert!(matches!(
        result,
        Err(Error::FailedToLock {
            lock_type: LockType::ManualSuspend,
            err_code: 5
        })
    ));
}

#[test]
fn denial_of_the_first_kind_needs_no_rollback() {
    let mut acq = Acquisition::start(&all_three());
    acq.on_request_created(true, 0);
    assert_eq!(acq.next_action(), Action::SetFlag(LockType::AutomaticSuspend));
    acq.on_flag_set(false, 3);
    assert_eq!(acq.next_action(), Action::Complete);
    assert!(matches!(
        acq.finish(),
        Err(Error::FailedToLock {
            lock_type: LockType::AutomaticSuspend,
            err_code: 3
        })
    ));
}

#[test]
fn failure_to_create_the_request_carries_the_code() {
    let mut acq = Acquisition::start(&all_three());
    assert_eq!(acq.next_action(), Action::CreateRequest);
    acq.on_request_created(false, 7);
    assert_eq!(acq.next_action(), Action::Complete);
    assert!(matches!(acq.finish(), Err(Error::FailedToCreateRequest(7))));
}

#[test]
fn empty_request_sets_no_flags() {
    let mut acq = Acquisition::start(&LockTypeSet::empty());
    assert_eq!(acq.next_action(), Action::CreateRequest);
    acq.on_request_created(true, 0);
    assert_eq!(acq.next_action(), Action::Complete);
    let mut lock = acq.finish().unwrap();
    assert_eq!(lock.release(), vec![]);
}

#[test]
fn releasing_a_lock_twice_clears_nothing_the_second_time() {
    let types = LockTypeSet::empty().with(LockType::AutomaticSuspend);
    let mut acq = Acquisition::start(&types);
    acq.on_request_created(true, 0);
    acq.on_flag_set(true, 0);
    let mut lock = acq.finish().unwrap();

    let first = lock.release();
    assert_eq!(first, vec![LockType::AutomaticSuspend]);
    let second = lock.release();
    assert_eq!(second, vec![]);
    let third = lock.release();
    assert_eq!(third, vec![]);
}

#[test]
fn assertion_lock_hands_out_its_id_once() {
    let mut lock = assertion::Lock::new(42);
    assert_eq!(lock.release(), Some(42));
    assert_eq!(lock.release(), None);
    assert_eq!(lock.release(), None);
}

#[test]
fn assertion_acquire_is_all_or_nothing() {
    // A zero return code means the OS granted the assertion.
    let mut lock = assertion::Lock::from_acquire(0, 42).unwrap();
    assert_eq!(lock.release(), Some(42));

    // Any other code means the whole request failed; no lock exists.
    let result = assertion::Lock::from_acquire(-536870195, 42);
    assert!(matches!(
        result,
        Err(assertion::Error::AssertionFailed(-536870195))
    ));
}

#[test]
fn power_message_names_the_program() {
    assert_eq!(
        stayawake::power::power_default_message(),
        "StayAwake program is running"
    );
}

#[test]
fn request_error_messages_name_the_failure() {
    assert_eq!(
        Error::FailedToCreateRequest(7).message(),
        "failed to create power request"
    );
    assert_eq!(
        Error::FailedToLock {
            lock_type: LockType::ManualSuspend,
            err_code: 5
        }
        .message(),
        "failed lock operation"
    );
}

#[test]
fn lock_type_set_reports_its_members() {
    let types = LockTypeSet::empty().with(LockType::ManualSuspend);
    assert!(types.contains(LockType::ManualSuspend));
    assert!(!types.contains(LockType::AutomaticSuspend));
    assert!(!types.contains(LockType::DisplaySuspend));
    assert_eq!(types.ordered(), vec![LockType::ManualSuspend]);
    assert_eq!(
        all_three().ordered(),
        vec![
            LockType::AutomaticSuspend,
            LockType::ManualSuspend,
            LockType::DisplaySuspend
        ]
    );
}
