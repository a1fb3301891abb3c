use copy_range::indexing::{
    index_slice, index_slice_from, index_slice_inclusive, index_str, index_str_from,
    index_str_inclusive, index_string, index_string_from, index_string_inclusive, index_vec,
    index_vec_from, index_vec_inclusive,
};
use copy_range::{CopyRange, CopyRangeFrom, CopyRangeInclusive};

#[test]
fn slice_bounded() {
    let s = [10, 20, 30, 40, 50];
    let r = CopyRange { start: 1usize, end: 3usize };
    assert_eq!(index_slice(&s, r), &s[1..3]);
    assert_eq!(index_slice(&s, r), &[20, 30]);
}

#[test]
fn slice_bounded_degenerate() {
    let s = [10, 20, 30, 40, 50];
    assert_eq!(index_slice(&s, CopyRange { start: 2, end: 2 }), &[] as &[i32]);
    assert_eq!(index_slice(&s, CopyRange { start: 0, end: 5 }), &s[..]);
}

#[test]
fn slice_from_start() {
    let s = [10, 20, 30, 40, 50];
    assert_eq!(index_slice_from(&s, CopyRangeFrom { start: 2 }), &s[2..]);
    assert_eq!(index_slice_from(&s, CopyRangeFrom { start: 5 }), &[] as &[i32]);
}

#[test]
fn slice_inclusive() {
    let s = [10, 20, 30, 40, 50];
    let r = CopyRangeInclusive { start: 1usize, end: 3usize };
    assert_eq!(index_slice_inclusive(&s, r), &s[1..=3]);
    assert_eq!(index_slice_inclusive(&s, r), &[20, 30, 40]);
    assert_eq!(
        index_slice_inclusive(&s, CopyRangeInclusive { start: 3, end: 2 }),
        &[] as &[i32],
    );
}

#[test]
fn vec_all_shapes() {
    let v = vec![10, 20, 30, 40, 50];
    assert_eq!(index_vec(&v, CopyRange { start: 1, end: 3 }), &v[1..3]);
    assert_eq!(index_vec_from(&v, CopyRangeFrom { start: 2 }), &v[2..]);
    assert_eq!(
        index_vec_inclusive(&v, CopyRangeInclusive { start: 1, end: 3 }),
        &v[1..=3],
    );
}

#[test]
fn str_all_shapes() {
    let s = "hello";
    assert_eq!(index_str(s, CopyRange { start: 1, end: 3 }), "el");
    assert_eq!(index_str_from(s, CopyRangeFrom { start: 2 }), "llo");
    assert_eq!(index_str_inclusive(s, CopyRangeInclusive { start: 1, end: 3 }), "ell");
}

#[test]
fn string_all_shapes() {
    let s = String::from("hello");
    assert_eq!(index_string(&s, CopyRange { start: 1, end: 3 }), "el");
    assert_eq!(index_string_from(&s, CopyRangeFrom { start: 2 }), "llo");
    assert_eq!(index_string_inclusive(&s, CopyRangeInclusive { start: 1, end: 3 }), "ell");
}

#[test]
fn str_multibyte_characters() {
    let s = "héllo";
    assert_eq!(index_str(s, CopyRange { start: 0, end: 2 }), "hé");
    assert_eq!(index_str_from(s, CopyRangeFrom { start: 1 }), "éllo");
    assert_eq!(index_str_inclusive(s, CopyRangeInclusive { start: 1, end: 2 }), "él");
}
