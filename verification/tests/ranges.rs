use copy_range::{CopyRange, CopyRangeFrom, CopyRangeInclusive};

#[test]
fn round_trip_bounded() {
    let std_r = 3usize..7;
    let r = CopyRange::from_std(std_r.clone());
    assert_eq!(r.start, 3);
    assert_eq!(r.end, 7);
    assert_eq!(r.into_std(), std_r);
}

#[test]
fn round_trip_bounded_inverted() {
    let std_r = 7usize..3;
    let r = CopyRange::from_std(std_r.clone());
    assert_eq!(r.start, 7);
    assert_eq!(r.end, 3);
    assert_eq!(r.into_std(), std_r);
}

#[test]
fn round_trip_from_start() {
    let std_r = 4usize..;
    let r = CopyRangeFrom::from_std(std_r.clone());
    assert_eq!(r.start, 4);
    assert_eq!(r.into_std(), std_r);
}

#[test]
fn round_trip_inclusive() {
    let std_r = 2usize..=5;
    let r = CopyRangeInclusive::from_std(std_r.clone());
    assert_eq!(r.start, 2);
    assert_eq!(r.end, 5);
    assert_eq!(r.into_std(), std_r);
}

#[test]
fn contains_bounded() {
    let r = CopyRange { start: 2usize, end: 5usize };
    assert!(!r.contains(&1));
    assert!(r.contains(&2));
    assert!(r.contains(&3));
    assert!(r.contains(&4));
    assert!(!r.contains(&5));
    assert!(!r.contains(&6));
}

#[test]
fn contains_bounded_empty() {
    let r = CopyRange { start: 5usize, end: 5usize };
    assert!(!r.contains(&4));
    assert!(!r.contains(&5));
    assert!(!r.contains(&6));
    let inverted = CopyRange { start: 7usize, end: 3usize };
    assert!(!inverted.contains(&5));
}

#[test]
fn contains_from_start() {
    let r = CopyRangeFrom { start: 2usize };
    assert!(!r.contains(&0));
    assert!(!r.contains(&1));
    assert!(r.contains(&2));
    assert!(r.contains(&usize::MAX));
}

#[test]
fn contains_inclusive() {
    let r = CopyRangeInclusive { start: 2usize, end: 5usize };
    assert!(!r.contains(&1));
    assert!(r.contains(&2));
    assert!(r.contains(&5));
    assert!(!r.contains(&6));
    let degenerate = CopyRangeInclusive { start: 4usize, end: 4usize };
    assert!(degenerate.contains(&4));
    assert!(!degenerate.contains(&3));
}

#[test]
fn is_empty_bounded() {
    assert!(!CopyRange { start: 2usize, end: 5usize }.is_empty());
    assert!(CopyRange { start: 5usize, end: 5usize }.is_empty());
    assert!(CopyRange { start: 7usize, end: 3usize }.is_empty());
}

#[test]
fn is_empty_inclusive() {
    assert!(!CopyRangeInclusive { start: 2usize, end: 5usize }.is_empty());
    assert!(!CopyRangeInclusive { start: 5usize, end: 5usize }.is_empty());
    assert!(CopyRangeInclusive { start: 7usize, end: 3usize }.is_empty());
}

#[test]
fn iterate_bounded() {
    let r = CopyRange { start: 2usize, end: 5usize };
    assert_eq!(r.to_vec(), vec![2, 3, 4]);
    assert_eq!(CopyRange { start: 5usize, end: 5usize }.to_vec(), Vec::<usize>::new());
    assert_eq!(CopyRange { start: 7usize, end: 3usize }.to_vec(), Vec::<usize>::new());
}

#[test]
fn iterate_inclusive() {
    let r = CopyRangeInclusive { start: 2usize, end: 5usize };
    assert_eq!(r.to_vec(), vec![2, 3, 4, 5]);
    assert_eq!(CopyRangeInclusive { start: 4usize, end: 4usize }.to_vec(), vec![4]);
    assert_eq!(CopyRangeInclusive { start: 7usize, end: 3usize }.to_vec(), Vec::<usize>::new());
}

#[test]
fn iterate_inclusive_at_max_index() {
    let r = CopyRangeInclusive { start: usize::MAX - 1, end: usize::MAX };
    assert_eq!(r.to_vec(), vec![usize::MAX - 1, usize::MAX]);
}

#[test]
fn iterate_from_start_prefix() {
    let r = CopyRangeFrom { start: 2usize };
    assert_eq!(r.take(5), vec![2, 3, 4, 5, 6]);
    assert_eq!(r.take(0), Vec::<usize>::new());
}

#[test]
fn copies_are_independent() {
    let a = CopyRange { start: 1usize, end: 4usize };
    let mut b = a;
    b.start = 9;
    b.end = 9;
    assert_eq!(a.start, 1);
    assert_eq!(a.end, 4);
    assert_eq!(b.start, 9);

    let c = CopyRangeFrom { start: 2usize };
    let mut d = c;
    d.start = 8;
    assert_eq!(c.start, 2);
    assert_eq!(d.start, 8);

    let e = CopyRangeInclusive { start: 3usize, end: 6usize };
    let mut f = e;
    f.end = 0;
    assert_eq!(e.start, 3);
    assert_eq!(e.end, 6);
    assert_eq!(f.end, 0);
}

#[test]
fn equality_is_structural() {
    assert_ne!(
        CopyRange { start: 5usize, end: 5usize },
        CopyRange { start: 7usize, end: 3usize },
    );
    assert_eq!(
        CopyRange { start: 5usize, end: 5usize },
        CopyRange { start: 5usize, end: 5usize },
    );
    assert_ne!(
        CopyRangeInclusive { start: 5usize, end: 4usize },
        CopyRangeInclusive { start: 7usize, end: 3usize },
    );
    assert_eq!(CopyRangeFrom { start: 2usize }, CopyRangeFrom { start: 2usize });
    assert_ne!(CopyRangeFrom { start: 2usize }, CopyRangeFrom { start: 3usize });
}

#[test]
fn from_and_into_std_impls() {
    let r: CopyRange<usize> = (3..7).into();
    assert_eq!(r, CopyRange { start: 3, end: 7 });
    let s: std::ops::Range<usize> = r.into();
    assert_eq!(s, 3..7);

    let rf: CopyRangeFrom<usize> = (4..).into();
    assert_eq!(rf, CopyRangeFrom { start: 4 });
    let sf: std::ops::RangeFrom<usize> = rf.into();
    assert_eq!(sf, 4..);

    let ri: CopyRangeInclusive<usize> = (2..=5).into();
    assert_eq!(ri, CopyRangeInclusive { start: 2, end: 5 });
    let si: std::ops::RangeInclusive<usize> = ri.into();
    assert_eq!(si, 2..=5);
}

#[test]
fn already_copy_shapes_serve_as_is() {
    let full: copy_range::CopyRangeFull = ..;
    let to: copy_range::CopyRangeTo<usize> = ..5;
    let to_inclusive: copy_range::CopyRangeToInclusive<usize> = ..=5;
    assert_eq!(to.end, 5);
    assert_eq!(to_inclusive.end, 5);
    let _ = full;
}

#[test]
fn default_bounded_is_zeroed() {
    let r: CopyRange<usize> = Default::default();
    assert_eq!(r.start, 0);
    assert_eq!(r.end, 0);
}
