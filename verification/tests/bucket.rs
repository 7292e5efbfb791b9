use power_stats::bucket::{Bucket, DEFAULT_CAPACITY};

#[test]
fn eviction_keeps_last_capacity_samples() {
    let mut b = Bucket::new(3);
    for v in [1i64, 2, 3, 4, 5] {
        b.push(v);
    }
    assert_eq!(b.len(), 3);
    assert_eq!(b.peak(), Some(5));
    assert_eq!(b.trough(), Some(3));
    assert_eq!(b.average(), Some(4));
    assert_eq!(b.latest(), Some(5));
}

#[test]
fn empty_bucket_reducers_report_no_data() {
    let b = Bucket::new(7);
    assert_eq!(b.len(), 0);
    assert_eq!(b.latest(), None);
    assert_eq!(b.peak(), None);
    assert_eq!(b.trough(), None);
    assert_eq!(b.average(), None);
    let s = b.stats();
    assert_eq!(s.latest, None);
    assert_eq!(s.peak, None);
    assert_eq!(s.trough, None);
    assert_eq!(s.average, None);
}

#[test]
fn default_capacity_is_five_minutes_at_sixty_hertz() {
    let b = Bucket::default();
    assert_eq!(b.capacity(), 300);
    assert_eq!(DEFAULT_CAPACITY, 300);
}

#[test]
fn push_within_capacity_keeps_all_samples() {
    let mut b = Bucket::new(4);
    b.push(10);
    b.push(-2);
    assert_eq!(b.len(), 2);
    assert_eq!(b.peak(), Some(10));
    assert_eq!(b.trough(), Some(-2));
    assert_eq!(b.average(), Some(4));
    assert_eq!(b.latest(), Some(-2));
}

#[test]
fn average_rounds_toward_negative_infinity() {
    let mut b = Bucket::new(5);
    b.push(-3);
    b.push(-4);
    assert_eq!(b.average(), Some(-4));
    let mut c = Bucket::new(5);
    c.push(3);
    c.push(4);
    assert_eq!(c.average(), Some(3));
}

#[test]
fn average_handles_extreme_samples() {
    let mut b = Bucket::new(4);
    b.push(i64::MAX);
    b.push(i64::MAX);
    assert_eq!(b.average(), Some(i64::MAX));
    let mut c = Bucket::new(4);
    c.push(i64::MIN);
    c.push(i64::MIN);
    assert_eq!(c.average(), Some(i64::MIN));
}

#[test]
fn eviction_is_fifo_in_order() {
    let mut b = Bucket::new(2);
    b.push(9);
    b.push(1);
    b.push(5);
    // window is [1, 5]: 9 was evicted first
    assert_eq!(b.peak(), Some(5));
    assert_eq!(b.trough(), Some(1));
    assert_eq!(b.average(), Some(3));
    assert_eq!(b.latest(), Some(5));
}
