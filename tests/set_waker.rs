use set_waker::{SetWaker, SetWakerInner};
use std::collections::HashSet;
use std::sync::atomic::{AtomicUsize, Ordering};
use std::sync::Arc;
use std::task::{Wake, Waker};

type Notifier<K> = SetWaker<parking_lot::RawMutex, K>;

struct Counter {
    hits: AtomicUsize,
}

impl Wake for Counter {
    fn wake(self: Arc<Self>) {
        self.hits.fetch_add(1, Ordering::SeqCst);
    }
}

fn counter() -> (Arc<Counter>, Waker) {
    let c = Arc::new(Counter { hits: AtomicUsize::new(0) });
    let w = Waker::from(c.clone());
    (c, w)
}

fn set_of<K: std::hash::Hash + Eq + Clone>(items: &[K]) -> HashSet<K> {
    items.iter().cloned().collect()
}

#[test]
fn drain_reports_two_distinct_keys_then_nothing() {
    let n: Notifier<&'static str> = SetWaker::new();
    let h1 = n.with_key("a");
    let h2 = n.with_key("b");
    let h3 = n.with_key("a");
    h1.wake();
    h3.wake();
    h2.wake_by_ref();
    let first = n.keys();
    assert_eq!(first.len(), 2);
    assert_eq!(first, set_of(&["a", "b"]));
    assert!(n.keys().is_empty());
}

#[test]
fn wake_invokes_registered_waker_before_drain() {
    let n: Notifier<u32> = SetWaker::new();
    let (count, cb) = counter();
    n.register(&cb);
    let h = n.with_key(1);
    h.wake();
    assert!(count.hits.load(Ordering::SeqCst) >= 1);
    assert_eq!(n.keys(), set_of(&[1]));
}

#[test]
fn later_register_replaces_earlier() {
    let n: Notifier<u32> = SetWaker::new();
    let (c1, cb1) = counter();
    let (c2, cb2) = counter();
    n.register(&cb1);
    n.register(&cb2);
    n.with_key(7).wake();
    assert_eq!(c1.hits.load(Ordering::SeqCst), 0);
    assert_eq!(c2.hits.load(Ordering::SeqCst), 1);
}

#[test]
fn wake_without_registered_waker_still_records_key() {
    let n: Notifier<u32> = SetWaker::new();
    n.with_key(3).wake_by_ref();
    assert_eq!(n.keys(), set_of(&[3]));
}

#[test]
fn second_drain_is_empty() {
    let n: Notifier<u32> = SetWaker::new();
    n.with_key(4).wake();
    n.with_key(5).wake();
    assert_eq!(n.keys(), set_of(&[4, 5]));
    assert!(n.keys().is_empty());
}

#[test]
fn fresh_notifier_has_nothing_pending() {
    let n: Notifier<u32> = SetWaker::new();
    assert!(n.keys().is_empty());
}

#[test]
fn cloned_handles_coalesce() {
    let n: Notifier<u32> = SetWaker::new();
    let h = n.with_key(9);
    let h2 = h.clone();
    h.wake_by_ref();
    h2.wake();
    h.wake();
    let drained = n.keys();
    assert_eq!(drained.len(), 1);
    assert!(drained.contains(&9));
}

#[test]
fn wake_and_wake_by_ref_have_same_effect() {
    let by_value: Notifier<u32> = SetWaker::new();
    let by_ref: Notifier<u32> = SetWaker::new();
    let (cv, wv) = counter();
    let (cr, wr) = counter();
    by_value.register(&wv);
    by_ref.register(&wr);
    by_value.with_key(2).wake();
    let h = by_ref.with_key(2);
    h.wake_by_ref();
    assert_eq!(by_value.keys(), by_ref.keys());
    assert_eq!(cv.hits.load(Ordering::SeqCst), cr.hits.load(Ordering::SeqCst));
    h.wake_by_ref();
    assert_eq!(by_ref.keys(), set_of(&[2]));
}

#[test]
fn dropping_a_handle_changes_nothing() {
    let n: Notifier<u32> = SetWaker::new();
    n.with_key(1).wake();
    let h = n.with_key(2);
    let h2 = h.clone();
    drop(h);
    drop(h2);
    assert_eq!(n.keys(), set_of(&[1]));
}

#[test]
fn notifier_clones_share_state() {
    let n: Notifier<u32> = SetWaker::new();
    let m = n.clone();
    m.with_key(8).wake();
    assert_eq!(n.keys(), set_of(&[8]));
    assert!(m.keys().is_empty());
}

#[test]
fn handle_outlives_notifier() {
    let n: Notifier<u32> = SetWaker::new();
    let other = n.clone();
    let h = n.with_key(6);
    drop(n);
    h.wake();
    assert_eq!(other.keys(), set_of(&[6]));
}

#[test]
fn many_wakes_report_each_distinct_key_once() {
    let n: Notifier<u32> = SetWaker::new();
    let handles: Vec<Waker> = (0..10u32).map(|k| n.with_key(k)).collect();
    for round in 0..5usize {
        for (i, h) in handles.iter().enumerate() {
            if (i + round) % 3 != 0 {
                h.wake_by_ref();
            }
        }
    }
    let drained = n.keys();
    let expected: HashSet<u32> = (0..10u32).collect();
    assert_eq!(drained, expected);
    assert!(n.keys().is_empty());
}

#[test]
fn inner_wake_then_take() {
    let mut s: SetWakerInner<u64> = SetWakerInner::new();
    s.wake(&10);
    s.wake(&11);
    s.wake(&10);
    let out = s.take_keys();
    assert_eq!(out, set_of(&[10, 11]));
    assert!(s.take_keys().is_empty());
}

#[test]
fn inner_register_fires_on_wake() {
    let mut s: SetWakerInner<u64> = SetWakerInner::new();
    let (c, w) = counter();
    s.register(&w);
    s.wake(&1);
    assert_eq!(c.hits.load(Ordering::SeqCst), 1);
    s.wake(&1);
    assert_eq!(c.hits.load(Ordering::SeqCst), 1);
    s.register(&w);
    s.wake(&1);
    assert_eq!(c.hits.load(Ordering::SeqCst), 2);
    assert_eq!(s.take_keys(), set_of(&[1]));
}

#[test]
fn drain_keeps_registered_waker() {
    let n: Notifier<u32> = SetWaker::new();
    let (c, w) = counter();
    n.register(&w);
    assert!(n.keys().is_empty());
    assert_eq!(c.hits.load(Ordering::SeqCst), 0);
    n.with_key(5).wake();
    assert_eq!(c.hits.load(Ordering::SeqCst), 1);
    n.with_key(6).wake();
    assert_eq!(c.hits.load(Ordering::SeqCst), 1);
    assert_eq!(n.keys(), set_of(&[5, 6]));
}
