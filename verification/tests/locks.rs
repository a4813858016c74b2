use molyuuctl::errors::LockError;
use molyuuctl::lock::{read_lock_payload, Lock, LockEntry, LockSpace};

#[test]
fn second_handle_fails_while_first_holds() {
    let mut space = LockSpace::empty();
    let mut h1 = Lock::new("startup", Some("one".to_string()));
    h1.lock(&mut space).unwrap();
    let mut h2 = Lock::new("startup", Some("two".to_string()));
    assert!(matches!(h2.lock(&mut space), Err(LockError::FileIsLocked)));
    // After the holder releases, a third handle acquires, and the
    // lock-state file carries exactly that handle's payload.
    h1.release(&mut space);
    let mut h3 = Lock::new("startup", Some("three".to_string()));
    h3.lock(&mut space).unwrap();
    assert_eq!(read_lock_payload(&space, "startup").as_deref(), Some("three"));
    h3.release(&mut space);
}

#[test]
fn handle_that_holds_reports_locked_without_probing() {
    let mut space = LockSpace::empty();
    let mut h = Lock::new("n", None);
    assert!(!h.is_locked(&space));
    h.lock(&mut space).unwrap();
    assert!(h.is_locked(&space));
}

#[test]
fn stale_file_does_not_count_as_held() {
    let mut space = LockSpace { entries: Vec::new() };
    space.entries.push(LockEntry {
        name: "n".to_string(),
        content: "leftover".to_string(),
        held: false,
    });
    let probe = Lock::new("n", None);
    assert!(!probe.is_locked(&space));
    // A fresh acquisition recreates the file with the new payload.
    let mut h = Lock::new("n", Some("fresh".to_string()));
    h.lock(&mut space).unwrap();
    assert_eq!(read_lock_payload(&space, "n").as_deref(), Some("fresh"));
    h.release(&mut space);
    assert_eq!(read_lock_payload(&space, "n"), None);
}

#[test]
fn lock_without_payload_writes_empty_file() {
    let mut space = LockSpace::empty();
    let mut h = Lock::new("n", None);
    h.lock(&mut space).unwrap();
    assert_eq!(read_lock_payload(&space, "n").as_deref(), Some(""));
}

#[test]
fn release_without_holding_changes_nothing() {
    let mut space = LockSpace::empty();
    let mut h1 = Lock::new("n", Some("p".to_string()));
    h1.lock(&mut space).unwrap();
    let mut h2 = Lock::new("n", None);
    h2.release(&mut space);
    assert!(h1.is_locked(&space));
    assert_eq!(read_lock_payload(&space, "n").as_deref(), Some("p"));
}

#[test]
fn unlock_releases_the_lock_but_not_the_handle() {
    let mut space = LockSpace::empty();
    let mut h = Lock::new("n", Some("p".to_string()));
    h.lock(&mut space).unwrap();
    h.unlock(&mut space).unwrap();
    // The handle still counts itself as a holder, but the OS-level lock is
    // gone: an independent handle sees the name as free.
    assert!(h.is_locked(&space));
    let other = Lock::new("n", None);
    assert!(!other.is_locked(&space));
    // The lock-state file survives an unlock; only release removes it.
    assert_eq!(read_lock_payload(&space, "n").as_deref(), Some("p"));
}

#[test]
fn errno_classification_is_exact() {
    assert_eq!(LockError::from(9), LockError::BadFileDescriptor);
    assert_eq!(LockError::from(4), LockError::InterruptError);
    assert_eq!(LockError::from(22), LockError::InvalidOperation);
    assert_eq!(LockError::from(37), LockError::NoMemoryForLock);
    assert_eq!(LockError::from(11), LockError::FileIsLocked);
    assert_eq!(LockError::from(999), LockError::UnknownError);
}

#[test]
fn lock_error_descriptions() {
    assert_eq!(
        LockError::FileIsLocked.get_description(),
        "The file is locked and the LOCK_NB flag was selected."
    );
    assert_eq!(LockError::UnknownError.get_description(), "Unknown Error");
    assert_eq!(
        LockError::NoMemoryForLock.get_description(),
        "The kernel ran out of memory for allocating lock records."
    );
}
