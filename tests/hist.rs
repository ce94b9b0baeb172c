use dynamic_hist::{Bins, BuildError, Hist, SampleError};

#[test]
fn test_u8() {
    let mut h = Hist::new(4, 1u8..5).unwrap();
    h.sample(1).unwrap();
    h.sample(3).unwrap();
    assert_eq!(h.counts(), &[1, 0, 1, 0]);
}

#[test]
fn fresh_histogram_is_empty() {
    let h = Hist::new(5, -10i32..10).unwrap();
    assert_eq!(h.total_count(), 0);
    assert_eq!(h.counts(), &[0, 0, 0, 0, 0]);
    assert_eq!(h.min(), None);
    assert_eq!(h.max(), None);
}

#[test]
fn zero_buckets_refused() {
    assert_eq!(Hist::new(0, 0u32..10).err(), Some(BuildError::NoBins));
    assert_eq!(Bins::new(0).err(), Some(BuildError::NoBins));
}

#[test]
fn empty_or_inverted_range_refused() {
    assert_eq!(Hist::new(4, 3u16..3).err(), Some(BuildError::EmptyRange));
    assert_eq!(Hist::new(4, 7i64..-7).err(), Some(BuildError::EmptyRange));
}

#[test]
fn scaled_smoke() {
    let mut h = Hist::new(4, 0u32..100).unwrap();
    for s in [10u32, 30, 35, 78] {
        h.sample(s).unwrap();
    }
    assert_eq!(h.total_count(), 4);
    assert_eq!(h.counts(), &[1, 2, 0, 1]);
}

#[test]
fn scaled_min_max() {
    let mut h = Hist::new(4, 0u32..100).unwrap();
    assert!(h.min().is_none());
    assert!(h.max().is_none());
    h.sample(55).unwrap();
    h.sample(80).unwrap();
    assert_eq!(h.min(), Some(2));
    assert_eq!(h.max(), Some(3));
}

#[test]
fn below_start_is_out_of_range() {
    let mut h = Hist::new(4, -10i32..10).unwrap();
    let r = h.sample(-15);
    assert_eq!(r, Err(SampleError::OutOfRange { value: -15, start: -10, end: 10 }));
    assert_eq!(h.total_count(), 0);
    assert_eq!(h.counts(), &[0, 0, 0, 0]);
}

#[test]
fn end_is_out_of_range() {
    let mut h = Hist::new(3, 0u8..9).unwrap();
    h.sample(4).unwrap();
    let r = h.sample(9);
    assert_eq!(r, Err(SampleError::OutOfRange { value: 9, start: 0, end: 9 }));
    assert_eq!(h.counts(), &[0, 1, 0]);
    assert_eq!(h.total_count(), 1);
}

#[test]
fn bucket_is_floor_of_scaled_offset() {
    // three buckets over [0, 10): 3*3/10 = 0, 3*4/10 = 1, 3*6/10 = 1, 3*7/10 = 2
    let mut h = Hist::new(3, 0i32..10).unwrap();
    h.sample(3).unwrap();
    assert_eq!(h.counts(), &[1, 0, 0]);
    h.sample(4).unwrap();
    assert_eq!(h.counts(), &[1, 1, 0]);
    h.sample(6).unwrap();
    assert_eq!(h.counts(), &[1, 2, 0]);
    h.sample(7).unwrap();
    assert_eq!(h.counts(), &[1, 2, 1]);
}

#[test]
fn last_value_before_end_lands_in_last_bucket() {
    let mut h = Hist::new(7, 0u8..255).unwrap();
    h.sample(254).unwrap();
    h.sample(0).unwrap();
    assert_eq!(h.min(), Some(0));
    assert_eq!(h.max(), Some(6));
}

#[test]
fn widest_ranges() {
    let mut h = Hist::new(1000, i64::MIN..i64::MAX).unwrap();
    h.sample(i64::MAX - 1).unwrap();
    h.sample(i64::MIN).unwrap();
    h.sample(0).unwrap();
    assert_eq!(h.max(), Some(999));
    assert_eq!(h.min(), Some(0));
    assert_eq!(h.counts()[500], 1);

    let mut u = Hist::new(1000, 0u64..u64::MAX).unwrap();
    u.sample(u64::MAX - 1).unwrap();
    assert_eq!(u.max(), Some(999));
    assert!(u.sample(u64::MAX).is_err());

    let mut s = Hist::new(2, i8::MIN..i8::MAX).unwrap();
    s.sample(-128).unwrap();
    s.sample(126).unwrap();
    assert_eq!(s.counts(), &[1, 1]);
}

#[test]
fn single_bucket_takes_everything() {
    let mut h = Hist::new(1, 100u16..200).unwrap();
    h.sample(100).unwrap();
    h.sample(199).unwrap();
    assert!(h.sample(99).is_err());
    assert_eq!(h.counts(), &[2]);
    assert_eq!(h.min(), h.max());
}

#[test]
fn total_tracks_successful_samples() {
    let mut h = Hist::new(4, 0i16..40).unwrap();
    let mut ok: usize = 0;
    for v in [5i16, -1, 12, 40, 39, 20, 100, 0] {
        if h.sample(v).is_ok() {
            ok += 1;
        }
        assert_eq!(h.total_count(), ok);
        assert_eq!(h.counts().iter().sum::<usize>(), ok);
    }
    assert_eq!(ok, 5);
    assert_eq!(h.counts(), &[2, 1, 1, 1]);
}

#[test]
fn min_never_above_max() {
    let mut h = Hist::new(6, 0u32..60).unwrap();
    for v in [33u32, 17, 58, 25] {
        h.sample(v).unwrap();
        let (lo, hi) = (h.min().unwrap(), h.max().unwrap());
        assert!(lo <= hi && hi < 6);
    }
    assert_eq!((h.min(), h.max()), (Some(1), Some(5)));
}

#[test]
fn reads_repeat() {
    let mut h = Hist::new(4, 0u32..8).unwrap();
    h.sample(3).unwrap();
    h.sample(6).unwrap();
    let first = (h.counts().to_vec(), h.total_count(), h.min(), h.max());
    let second = (h.counts().to_vec(), h.total_count(), h.min(), h.max());
    assert_eq!(first, second);
    assert_eq!(first, (vec![0, 1, 0, 1], 2, Some(1), Some(3)));
}

#[test]
fn record_clamps_one_past_the_end() {
    let mut b = Bins::new(4).unwrap();
    assert_eq!(b.record(2), Some(2));
    assert_eq!(b.record(4), Some(3));
    assert_eq!(b.record(5), None);
    assert_eq!(b.counts(), &[0, 0, 1, 1]);
    assert_eq!(b.total_count(), 2);
    assert_eq!(b.min(), Some(2));
    assert_eq!(b.max(), Some(3));
}
