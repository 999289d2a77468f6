use global_weak::GlobalWeak;
use global_weak::WeakRef;

use std::cell::Cell;
use std::sync::atomic::AtomicUsize;
use std::sync::atomic::Ordering;
use std::sync::Arc;

struct Complex {
    a: String,
}

#[test]
fn test_constructs() {
    let handle = GlobalWeak::new(|| Complex { a: "klop".to_string() });
    assert_eq!(handle.upgrade().unwrap().a, "klop");
}

#[test]
fn test_converts_weak() {
    let handle = GlobalWeak::new(|| Complex { a: "klop".to_string() });
    let _arc = handle.upgrade().unwrap();
    let weak: WeakRef<Complex> = handle.to_weak();
    assert_eq!(weak.strong_count(), 1);
    assert!(weak.weak_count() > 1);
    let _arc2 = weak.upgrade().unwrap();
    assert_eq!(weak.strong_count(), 2);
    let _arc3 = handle.upgrade().unwrap();
    assert_eq!(weak.strong_count(), 3);
}

#[test]
fn fresh_handle_has_nothing_live() {
    let calls = Cell::new(0usize);
    let handle = GlobalWeak::new(|| {
        calls.set(calls.get() + 1);
        Complex { a: "klop".to_string() }
    });
    assert_eq!(calls.get(), 0);
    let weak = handle.to_weak();
    assert!(weak.upgrade().is_none());
    assert_eq!(weak.strong_count(), 0);
    assert_eq!(calls.get(), 0);
}

#[test]
fn rebuilds_after_expiry() {
    let calls = Cell::new(0usize);
    let handle = GlobalWeak::new(|| {
        calls.set(calls.get() + 1);
        Complex { a: "klop".to_string() }
    });
    let first = handle.upgrade().unwrap();
    assert_eq!(calls.get(), 1);
    drop(first);
    let second = handle.upgrade().unwrap();
    assert_eq!(calls.get(), 2);
    assert_eq!(second.a, "klop");
}

#[test]
fn keeps_generation_while_strong_reference_lives() {
    let calls = Cell::new(0usize);
    let handle = GlobalWeak::new(|| {
        calls.set(calls.get() + 1);
        Complex { a: "klop".to_string() }
    });
    let first = handle.upgrade().unwrap();
    let again = handle.upgrade().unwrap();
    let third = handle.upgrade().unwrap();
    assert_eq!(calls.get(), 1);
    assert!(Arc::ptr_eq(&first, &again));
    assert!(Arc::ptr_eq(&first, &third));
}

#[test]
fn borrowing_and_consuming_leave_strong_count_alone() {
    let handle = GlobalWeak::new(|| Complex { a: "klop".to_string() });
    let strong = handle.upgrade().unwrap();
    let borrowed = handle.to_weak();
    assert_eq!(borrowed.strong_count(), 1);
    let strong2 = handle.upgrade().unwrap();
    assert_eq!(borrowed.strong_count(), 2);
    drop(strong2);
    let consumed = handle.into_weak();
    assert_eq!(consumed.strong_count(), 1);
    assert!(Arc::ptr_eq(&consumed.upgrade().unwrap(), &strong));
}

struct Payload {
    tag: usize,
}

#[test]
fn fifty_callers_share_one_generation() {
    let calls = Arc::new(AtomicUsize::new(0));
    let seen = Arc::clone(&calls);
    let handle = GlobalWeak::new(move || {
        seen.fetch_add(1, Ordering::SeqCst);
        Payload { tag: 17 }
    });
    let mut strongs: Vec<Arc<Payload>> = Vec::new();
    for _ in 0..50 {
        strongs.push(handle.upgrade().unwrap());
    }
    assert_eq!(calls.load(Ordering::SeqCst), 1);
    for strong in &strongs {
        assert!(Arc::ptr_eq(strong, &strongs[0]));
        assert_eq!(strong.tag, 17);
    }
}
