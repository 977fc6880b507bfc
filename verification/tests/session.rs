use deadbolt::{AdvisoryLock, LockError};

fn runtime() -> tokio::runtime::Runtime {
    tokio::runtime::Runtime::new().expect("Failed to create tokio runtime")
}

#[test]
fn accessors_reflect_construction() {
    let lock = AdvisoryLock::new(
        42,
        String::from("db.example.com"),
        String::from("appdb"),
        Some(String::from("alice")),
        Some(String::from("hunter2")),
        6432,
    );
    assert_eq!(lock.lock_id(), 42);
    assert_eq!(lock.host(), "db.example.com");
    assert_eq!(lock.port(), 6432);
    assert_eq!(lock.database(), "appdb");
    assert_eq!(lock.user(), Some("alice"));
    assert_eq!(lock.password(), Some("hunter2"));
    assert!(!lock.is_locked());
}

#[test]
fn absent_user_and_password_stay_absent() {
    let lock = AdvisoryLock::new(7, String::from("h"), String::from("d"), None, None, 5432);
    assert_eq!(lock.user(), None);
    assert_eq!(lock.password(), None);
}

#[test]
fn negative_lock_id_is_valid() {
    let lock = AdvisoryLock::new(
        i64::MIN,
        String::from("h"),
        String::from("d"),
        None,
        None,
        5432,
    );
    assert_eq!(lock.lock_id(), i64::MIN);
}

#[test]
fn exit_without_hold_is_a_noop_twice() {
    let rt = runtime();
    let mut lock = AdvisoryLock::new(7, String::from("h"), String::from("d"), None, None, 5432);
    let first = lock.exit(rt.handle());
    assert!(matches!(first, Ok(false)));
    assert!(!lock.is_locked());
    let second = lock.exit(rt.handle());
    assert!(matches!(second, Ok(false)));
    assert!(!lock.is_locked());
}

#[test]
fn failed_connection_leaves_session_unlocked() {
    let rt = runtime();
    // Nothing listens on this port, so connecting is refused outright.
    let mut lock = AdvisoryLock::new(
        42,
        String::from("127.0.0.1"),
        String::from("mydb"),
        None,
        None,
        1,
    );
    let result = lock.enter(rt.handle());
    match result {
        Err(LockError::ConnectionFailed(_)) => {}
        other => panic!("expected a connection failure, got {:?}", describe(&other)),
    }
    assert!(!lock.is_locked());
    // Exiting after the failed attempt is still a no-op, not an error.
    assert!(matches!(lock.exit(rt.handle()), Ok(false)));
    assert!(!lock.is_locked());
}

fn describe(r: &Result<(), LockError>) -> String {
    match r {
        Ok(()) => String::from("Ok"),
        Err(e) => e.message(),
    }
}

#[test]
fn unreachable_host_raises_and_stays_unlocked() {
    let rt = runtime();
    let mut lock = AdvisoryLock::new(
        3,
        String::from("nonexistent-host"),
        String::from("mydb"),
        None,
        None,
        5432,
    );
    assert!(matches!(
        lock.enter(rt.handle()),
        Err(LockError::ConnectionFailed(_))
    ));
    assert!(!lock.is_locked());
}

#[test]
fn connection_failure_message_names_the_cause() {
    let rt = runtime();
    let mut lock = AdvisoryLock::new(
        1,
        String::from("127.0.0.1"),
        String::from("mydb"),
        None,
        None,
        1,
    );
    match lock.enter(rt.handle()) {
        Err(e) => {
            let message = e.message();
            assert!(message.starts_with("Connection failed: "));
        }
        Ok(()) => panic!("connecting to a closed port succeeded unexpectedly"),
    }
}

#[test]
fn error_messages_are_exact() {
    let connection = LockError::ConnectionFailed(String::from("boom"));
    assert_eq!(connection.message(), "Connection failed: boom");
    let acquire = LockError::AcquireFailed(String::from("boom"));
    assert_eq!(acquire.message(), "Lock acquisition failed: boom");
    let release = LockError::ReleaseFailed(String::from("boom"));
    assert_eq!(release.message(), "Lock release failed: boom");
    let held = LockError::AlreadyHeld;
    assert_eq!(held.message(), "Lock already held by this session");
}
