use streamr::spinlock::Spinlock;

#[test]
fn test_lock_unlock() {
    let mut lock = Spinlock::new();

    lock.lock();
    assert!(lock.is_locked());

    lock.unlock();
    assert!(!lock.is_locked());
}

#[test]
fn test_double_lock() {
    let mut lock = Spinlock::new();

    lock.lock();
    assert!(lock.is_locked());

    lock.unlock();
    assert!(!lock.is_locked());

    lock.lock();
    assert!(lock.is_locked());

    lock.unlock();
    assert!(!lock.is_locked());
}

#[test]
fn test_lock_unlock_multiple() {
    let mut lock = Spinlock::new();

    for _ in 0..10 {
        lock.lock();
        assert!(lock.is_locked());

        lock.unlock();
        assert!(!lock.is_locked());
    }
}

#[test]
fn test_new_lock_is_free() {
    let lock = Spinlock::new();
    assert!(!lock.is_locked());
}
