use tantraos::mem::{
    compare_bytes, copy_backward, copy_forward, copy_nonoverlapping, memcmp, memcpy, memmove, memset, regions_overlap,
    set_bytes,
};

#[test]
fn memcpy_copies_disjoint_regions() {
    let mut m = vec![1u8, 2, 3, 4, 0, 0, 0, 0];
    let r = memcpy(&mut m, 4, 0, 4);
    assert_eq!(r, 4);
    assert_eq!(m, vec![1, 2, 3, 4, 1, 2, 3, 4]);
}

#[test]
fn memcpy_forward_overlap_repeats_the_pattern() {
    // dest starts inside src: copying front to back repeats the first byte.
    let mut m = vec![7u8, 8, 9, 0, 0];
    memcpy(&mut m, 1, 0, 4);
    assert_eq!(m, vec![7, 7, 7, 7, 7]);
}

#[test]
fn memmove_overlap_dest_after_src() {
    let mut m = vec![1u8, 2, 3, 4, 5, 6];
    let r = memmove(&mut m, 2, 0, 4);
    assert_eq!(r, 2);
    assert_eq!(m, vec![1, 2, 1, 2, 3, 4]);
}

#[test]
fn memmove_overlap_dest_before_src() {
    let mut m = vec![1u8, 2, 3, 4, 5, 6];
    memmove(&mut m, 0, 2, 4);
    assert_eq!(m, vec![3, 4, 5, 6, 5, 6]);
}

#[test]
fn memmove_same_place_and_empty() {
    let mut m = vec![1u8, 2, 3];
    memmove(&mut m, 1, 1, 2);
    assert_eq!(m, vec![1, 2, 3]);
    memmove(&mut m, 0, 2, 0);
    assert_eq!(m, vec![1, 2, 3]);
}

#[test]
fn memset_uses_the_low_byte() {
    let mut m = vec![0u8; 5];
    let r = memset(&mut m, 1, 0x1ff, 3);
    assert_eq!(r, 1);
    assert_eq!(m, vec![0, 0xff, 0xff, 0xff, 0]);
    memset(&mut m, 0, -1, 1);
    assert_eq!(m[0], 0xff);
}

#[test]
fn memcmp_reports_first_difference() {
    let a = [1u8, 5, 3];
    let b = [1u8, 2, 9];
    assert_eq!(memcmp(&a, &b, 3), 3);
    assert_eq!(memcmp(&b, &a, 3), -3);
    assert_eq!(memcmp(&a, &b, 1), 0);
    assert_eq!(memcmp(&a, &a, 3), 0);
    assert_eq!(memcmp(&a, &b, 0), 0);
}

#[test]
fn memcmp_extreme_bytes() {
    assert_eq!(memcmp(&[0u8], &[255u8], 1), -255);
    assert_eq!(memcmp(&[255u8], &[0u8], 1), 255);
}

#[test]
fn overlap_of_regions() {
    assert!(regions_overlap(10, 12, 3));
    assert!(regions_overlap(12, 10, 3));
    assert!(!regions_overlap(10, 13, 3));
    assert!(!regions_overlap(13, 10, 3));
    assert!(regions_overlap(5, 5, 1));
    assert!(!regions_overlap(5, 5, 0));
}

#[test]
fn copy_between_separate_regions() {
    let mut d = [0u8; 4];
    copy_nonoverlapping(&mut d, &[7, 8, 9], 2);
    assert_eq!(d, [7, 8, 0, 0]);
}

#[test]
fn helpers_copy_fill_compare() {
    let mut m = vec![1u8, 2, 3, 4];
    copy_backward(&mut m, 1, 0, 3);
    assert_eq!(m, vec![1, 1, 2, 3]);
    copy_forward(&mut m, 0, 1, 3);
    assert_eq!(m, vec![1, 2, 3, 3]);
    set_bytes(&mut m, 2, 9, 2);
    assert_eq!(m, vec![1, 2, 9, 9]);
    assert_eq!(compare_bytes(&m[0..2], &m[2..4], 2), 1 - 9);
}
