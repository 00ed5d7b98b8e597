use xshell::lock::{Interest, LockCache, LockMisuse, Ticket};

#[test]
fn write_read() {
    let mut cache = LockCache::new();
    let w = cache.acquire_write().unwrap();
    let r = cache.acquire_read().unwrap();
    assert_eq!(w, Ticket::WriteOuter);
    assert_eq!(r, Ticket::Passive);
    cache.release(r).unwrap();
    cache.release(w).unwrap();
    assert_eq!(cache.interest(), Interest::Idle);
}

#[test]
fn read_write() {
    let mut cache = LockCache::new();
    let r = cache.acquire_read().unwrap();
    assert_eq!(cache.acquire_write(), Err(LockMisuse::WriteWhileReading));
    assert_eq!(cache.interest(), Interest::Reading(1));
    cache.release(r).unwrap();
}

#[test]
fn read_drop_write() {
    let mut cache = LockCache::new();
    let r1 = cache.acquire_read().unwrap();
    cache.release(r1).unwrap();
    let w1 = cache.acquire_write().unwrap();
    assert_eq!(w1, Ticket::WriteOuter);
    cache.release(w1).unwrap();
    assert_eq!(cache.interest(), Interest::Idle);
}

#[test]
fn read_2_drop_write() {
    let mut cache = LockCache::new();
    let r1 = cache.acquire_read().unwrap();
    let r2 = cache.acquire_read().unwrap();
    cache.release(r2).unwrap();
    cache.release(r1).unwrap();
    let w1 = cache.acquire_write().unwrap();
    assert_eq!(w1, Ticket::WriteOuter);
    cache.release(w1).unwrap();
    assert_eq!(cache.interest(), Interest::Idle);
}

#[test]
fn nested_reads_touch_primitive_only_at_the_ends() {
    let mut cache = LockCache::new();
    let r1 = cache.acquire_read().unwrap();
    let r2 = cache.acquire_read().unwrap();
    assert!(xshell::lock::ticket_touches_primitive(r1));
    assert!(!xshell::lock::ticket_touches_primitive(r2));
    assert_eq!(cache.interest(), Interest::Reading(2));
    cache.release(r2).unwrap();
    assert_eq!(cache.interest(), Interest::Reading(1));
    cache.release(r1).unwrap();
    assert_eq!(cache.interest(), Interest::Idle);
}

#[test]
fn reads_released_out_of_order_are_refused() {
    let mut cache = LockCache::new();
    let r1 = cache.acquire_read().unwrap();
    let r2 = cache.acquire_read().unwrap();
    assert_eq!(cache.release(r1), Err(LockMisuse::OutOfOrder));
    assert_eq!(cache.interest(), Interest::Reading(2));
    cache.release(r2).unwrap();
    cache.release(r1).unwrap();
}

#[test]
fn nested_write_is_passive() {
    let mut cache = LockCache::new();
    let w1 = cache.acquire_write().unwrap();
    let w2 = cache.acquire_write().unwrap();
    assert_eq!(w2, Ticket::Passive);
    cache.release(w2).unwrap();
    assert_eq!(cache.interest(), Interest::Writing);
    cache.release(w1).unwrap();
    assert_eq!(cache.interest(), Interest::Idle);
}

#[test]
fn write_released_while_idle_is_refused() {
    let mut cache = LockCache::new();
    assert_eq!(cache.release(Ticket::WriteOuter), Err(LockMisuse::OutOfOrder));
    assert_eq!(cache.release(Ticket::ReadNested), Err(LockMisuse::OutOfOrder));
    assert_eq!(cache.interest(), Interest::Idle);
}
