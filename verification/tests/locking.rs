use adaptive_mutex::lock::{resolve_exclusive, resolve_take, resolve_try, resolve_wait, should_escalate};
use adaptive_mutex::lock::{TakeOutcome, TryOutcome, WaitOutcome};
use adaptive_mutex::{AdaptiveMutex, TryLockError};

#[test]
fn lock() {
    let mutex = AdaptiveMutex::new(0);
    let mut guard = mutex.lock().ok().unwrap();
    let v: i32 = *guard.get();
    guard.set(v + 1);

    assert!(mutex.try_lock().is_err());
}

#[test]
fn no_lost_update() {
    let mutex = AdaptiveMutex::new(0);
    {
        let mut guard = mutex.lock().ok().unwrap();
        guard.set(1);
        match mutex.try_lock() {
            Err(TryLockError::WouldBlock) => {}
            Err(TryLockError::Poisoned(_)) => {
                panic!("an acquisition while a guard is live must report WouldBlock, not poison")
            }
            Ok(_) => panic!("an acquisition while a guard is live must fail"),
        }
    }
    let guard = mutex.lock().ok().unwrap();
    let v: i32 = *guard.get();
    assert_eq!(v, 1);
}

#[test]
fn try_lock_succeeds_once_released() {
    let mutex = AdaptiveMutex::new(5);
    {
        let guard = mutex.try_lock().ok().unwrap();
        let v: i32 = *guard.get();
        assert_eq!(v, 5);
    }
    assert!(mutex.try_lock().is_ok());
}

#[test]
fn fresh_lock_is_not_poisoned() {
    let mutex = AdaptiveMutex::new(0);
    assert!(!mutex.is_poisoned());
}

#[test]
fn into_inner_returns_last_written_value() {
    let mutex = AdaptiveMutex::new(7);
    {
        let mut guard = mutex.lock().ok().unwrap();
        guard.set(9);
    }
    assert_eq!(mutex.into_inner().ok(), Some(9));
}

#[test]
fn get_mut_reaches_value_directly() {
    let mut mutex = AdaptiveMutex::new(5);
    match mutex.get_mut() {
        Ok(v) => {
            *v = 6;
        }
        Err(_) => panic!("an unpoisoned lock must hand out direct access"),
    }
    assert_eq!(mutex.into_inner().ok(), Some(6));
}

#[test]
fn from_wraps_value() {
    let mutex: AdaptiveMutex<i32> = AdaptiveMutex::from(3);
    assert_eq!(mutex.into_inner().ok(), Some(3));
}

#[test]
fn default_wraps_default_value() {
    let mutex: AdaptiveMutex<i32> = AdaptiveMutex::default();
    assert_eq!(mutex.into_inner().ok(), Some(0));
}

#[test]
fn busy_attempt_reports_would_block() {
    let outcome: TryOutcome<'static, i32> = TryOutcome::Busy;
    match resolve_try(outcome) {
        Err(TryLockError::WouldBlock) => {}
        _ => panic!("a busy attempt must report WouldBlock"),
    }
}

#[test]
fn poisoned_attempt_reports_poison_not_would_block() {
    let backing = std::sync::Mutex::new(3);
    let raw = backing.lock().ok().unwrap();
    match resolve_try(TryOutcome::Poisoned(raw)) {
        Err(TryLockError::Poisoned(e)) => {
            let guard = e.into_inner();
            let v: i32 = *guard.get();
            assert_eq!(v, 3);
        }
        Err(TryLockError::WouldBlock) => {
            panic!("a poisoned attempt must report Poisoned, never WouldBlock")
        }
        Ok(_) => panic!("a poisoned attempt must not succeed silently"),
    };
}

#[test]
fn poisoned_wait_still_hands_out_the_guard() {
    let backing = std::sync::Mutex::new(11);
    let raw = backing.lock().ok().unwrap();
    match resolve_wait(WaitOutcome::Poisoned(raw)) {
        Err(e) => {
            let guard = e.into_inner();
            let v: i32 = *guard.get();
            assert_eq!(v, 11);
        }
        Ok(_) => panic!("a poisoned wait must report the poison"),
    };
}

#[test]
fn clean_take_yields_the_value() {
    assert_eq!(resolve_take::<i32>(TakeOutcome::Clean(5)).ok(), Some(5));
}

#[test]
fn poisoned_take_keeps_the_value_reachable() {
    match resolve_take::<i32>(TakeOutcome::Poisoned(7)) {
        Err(e) => {
            let v: i32 = e.into_inner();
            assert_eq!(v, 7);
        }
        Ok(_) => panic!("a poisoned take must report the poison"),
    }
}

#[test]
fn escalation_threshold() {
    assert!(should_escalate(10, 5));
    assert!(!should_escalate(9, 5));
    assert!(!should_escalate(0, 1));
    assert!(should_escalate(1, 0));
    assert!(should_escalate(1, -5));
}

#[test]
fn exclusive_access_reports_poison_exactly() {
    let mut clean: i32 = 4;
    match resolve_exclusive(false, &mut clean) {
        Ok(v) => {
            *v = 5;
        }
        Err(_) => panic!("an unpoisoned flag must yield the access directly"),
    }
    assert_eq!(clean, 5);

    let mut tainted: i32 = 6;
    match resolve_exclusive(true, &mut tainted) {
        Err(e) => {
            let v: &mut i32 = e.into_inner();
            *v = 7;
        }
        Ok(_) => panic!("a poisoned flag must be reported, with the access in the payload"),
    }
    assert_eq!(tainted, 7);
}
