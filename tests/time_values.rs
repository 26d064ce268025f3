use ac_ffmpeg::{TimeBase, Timestamp};

#[test]
fn time_base_keeps_its_parts() {
    let tb = TimeBase::new(1, 90000);
    assert_eq!(tb.num(), 1);
    assert_eq!(tb.den(), 90000);
    assert_eq!(tb, TimeBase::new(1, 90000));
    assert_ne!(tb, TimeBase::new(2, 180000));
}

#[test]
fn timestamp_sentinel_is_unknown() {
    let tb = TimeBase::new(1, 1000);
    let ts = Timestamp::new(i64::MIN, tb);
    assert!(ts.is_null());
    assert_eq!(ts.timestamp(), None);
    assert_eq!(ts.time_base(), tb);
    assert_eq!(ts, Timestamp::null(tb));
}

#[test]
fn timestamp_keeps_ticks() {
    let tb = TimeBase::new(1, 1000);
    let ts = Timestamp::new(-5, tb);
    assert!(!ts.is_null());
    assert_eq!(ts.timestamp(), Some(-5));
    assert_eq!(Timestamp::new(1234, tb).timestamp(), Some(1234));
}
