use ta::errors::TaError;
use ta::window::RingWindow;

#[test]
fn zero_capacity_is_rejected() {
    assert_eq!(RingWindow::<u32>::new(0).err(), Some(TaError::InvalidParameter));
}

#[test]
fn fills_before_evicting() {
    let mut w = RingWindow::new(3).unwrap();
    assert!(w.is_empty());
    assert_eq!(w.push(10), None);
    assert_eq!(w.push(20), None);
    assert!(!w.is_full());
    assert_eq!(w.len(), 2);
    assert_eq!(w.to_vec(), vec![10, 20]);
    assert_eq!(w.push(30), None);
    assert!(w.is_full());
    assert_eq!(w.capacity(), 3);
}

#[test]
fn evicts_oldest_by_arrival_not_by_value() {
    let mut w = RingWindow::new(3).unwrap();
    w.push(5);
    w.push(1);
    w.push(9);
    assert_eq!(w.push(7), Some(5));
    assert_eq!(w.to_vec(), vec![1, 9, 7]);
    assert_eq!(w.push(0), Some(1));
    assert_eq!(w.push(2), Some(9));
    assert_eq!(w.push(4), Some(7));
    assert_eq!(w.to_vec(), vec![0, 2, 4]);
    assert_eq!(w.get(0), 0);
    assert_eq!(w.get(2), 4);
    assert_eq!(w.len(), 3);
}

#[test]
fn capacity_one_holds_latest_only() {
    let mut w = RingWindow::new(1).unwrap();
    assert_eq!(w.push(3), None);
    assert_eq!(w.push(4), Some(3));
    assert_eq!(w.to_vec(), vec![4]);
}

#[test]
fn feed_reports_each_eviction() {
    let mut w = RingWindow::new(2).unwrap();
    let out = w.feed(&vec![1, 2, 3, 4, 5]);
    assert_eq!(out, vec![None, None, Some(1), Some(2), Some(3)]);
    assert_eq!(w.to_vec(), vec![4, 5]);
}

#[test]
fn reset_replays_like_a_fresh_window() {
    let xs = vec![8, 6, 7, 5, 3, 0, 9];
    let mut w = RingWindow::new(3).unwrap();
    let first = w.feed(&xs);
    let held = w.to_vec();
    w.reset();
    assert!(w.is_empty());
    assert_eq!(w.capacity(), 3);
    let second = w.feed(&xs);
    assert_eq!(first, second);
    assert_eq!(held, w.to_vec());
    let mut fresh = RingWindow::new(3).unwrap();
    assert_eq!(fresh.feed(&xs), second);
}

#[test]
fn constant_stream_keeps_window_constant() {
    let mut w = RingWindow::new(4).unwrap();
    for _ in 0..10 {
        w.push(7u64);
        assert!(w.to_vec().iter().all(|v| *v == 7));
    }
    assert_eq!(w.len(), 4);
}
