use coreutils::xalloc::{
    icalloc, ireallocarray, realloc_failure_is_fatal, xinmalloc, xireallocarray, xirealloc,
    ximemdup, ximemdup0, xmemdup, xstrdup, xzalloc,
};

#[test]
fn xzalloc_gives_zero_bytes() {
    assert_eq!(xzalloc(4), vec![0u8, 0, 0, 0]);
    assert_eq!(xzalloc(0), Vec::<u8>::new());
}

#[test]
fn xmemdup_copies_every_byte() {
    let src = [7u8, 1, 255, 0, 42];
    assert_eq!(xmemdup(&src), src.to_vec());
    assert_eq!(xmemdup(&[]), Vec::<u8>::new());
}

#[test]
fn ximemdup_of_empty_input_is_empty() {
    assert_eq!(ximemdup(&[]), Vec::<u8>::new());
}

#[test]
fn ximemdup0_appends_a_zero_byte() {
    assert_eq!(ximemdup0(&[1u8, 2, 3]), vec![1u8, 2, 3, 0]);
    assert_eq!(ximemdup0(&[]), vec![0u8]);
}

#[test]
fn xstrdup_appends_a_nul_character() {
    assert_eq!(xstrdup("abc"), "abc\0".to_string());
    assert_eq!(xstrdup(""), "\0".to_string());
    assert_eq!(xstrdup("h\u{e9}llo"), "h\u{e9}llo\0".to_string());
}

#[test]
fn xinmalloc_allocates_the_product() {
    assert_eq!(xinmalloc(3, 4), Some(vec![0u8; 12]));
    assert_eq!(xinmalloc(0, 5), Some(Vec::new()));
}

#[test]
fn xinmalloc_refuses_an_overflowing_product() {
    assert_eq!(xinmalloc(usize::MAX, 2), None);
    assert_eq!(xinmalloc(1usize << 40, 1usize << 40), None);
}

#[test]
fn icalloc_allocates_the_product() {
    assert_eq!(icalloc(2, 3), Some(vec![0u8; 6]));
    assert_eq!(icalloc(1, 1), Some(vec![0u8]));
}

#[test]
fn icalloc_refuses_negative_counts() {
    assert_eq!(icalloc(-1, 3), None);
    assert_eq!(icalloc(3, -1), None);
    assert_eq!(icalloc(0, -5), None);
}

#[test]
fn icalloc_refuses_an_overflowing_product() {
    assert_eq!(icalloc(i64::MAX, i64::MAX), None);
    assert_eq!(icalloc(1i64 << 32, 1i64 << 32), None);
}

#[test]
fn icalloc_agrees_with_xinmalloc_on_positive_counts() {
    assert_eq!(icalloc(5, 7), xinmalloc(5, 7));
}

#[test]
fn ireallocarray_grows_with_zeros() {
    assert_eq!(ireallocarray(Some(vec![1u8, 2, 3]), 2, 2), Some(vec![1u8, 2, 3, 0]));
}

#[test]
fn ireallocarray_shrinks_keeping_the_prefix() {
    assert_eq!(ireallocarray(Some(vec![1u8, 2, 3]), 1, 2), Some(vec![1u8, 2]));
}

#[test]
fn ireallocarray_never_returns_an_empty_buffer() {
    assert_eq!(ireallocarray(None, 0, 5), Some(vec![0u8]));
    assert_eq!(ireallocarray(Some(vec![9u8, 9]), 0, 0), Some(vec![9u8]));
    assert_eq!(ireallocarray(None, 3, 0), Some(vec![0u8]));
}

#[test]
fn ireallocarray_allocates_when_there_is_no_buffer() {
    assert_eq!(ireallocarray(None, 3, 2), Some(vec![0u8; 6]));
}

#[test]
fn xireallocarray_resizes_in_place() {
    let mut v = vec![1u8, 2, 3];
    {
        let slice = xireallocarray(&mut v, 2, 3).expect("fits");
        assert_eq!(slice.to_vec(), vec![1u8, 2, 3, 0, 0, 0]);
        slice[5] = 8;
    }
    assert_eq!(v, vec![1u8, 2, 3, 0, 0, 8]);
}

#[test]
fn xireallocarray_shrinks() {
    let mut v = vec![1u8, 2, 3, 4];
    assert_eq!(xireallocarray(&mut v, 1, 2).map(|s| s.to_vec()), Some(vec![1u8, 2]));
    assert_eq!(v, vec![1u8, 2]);
}

#[test]
fn xireallocarray_leaves_the_buffer_on_overflow() {
    let mut v = vec![1u8, 2, 3];
    assert!(xireallocarray(&mut v, usize::MAX, 2).is_none());
    assert_eq!(v, vec![1u8, 2, 3]);
}

#[test]
fn xirealloc_copies_the_old_bytes() {
    let mut old = [4u8, 5, 6];
    assert_eq!(xirealloc(Some(&mut old[..]), 10), Some(vec![4u8, 5, 6]));
    assert_eq!(xirealloc(None, 5), Some(Vec::new()));
}

#[test]
fn realloc_failure_is_fatal_only_for_real_requests() {
    assert!(realloc_failure_is_fatal(true, true, 0, 0));
    assert!(realloc_failure_is_fatal(true, false, 3, 5));
    assert!(!realloc_failure_is_fatal(true, false, 0, 5));
    assert!(!realloc_failure_is_fatal(true, false, 3, 0));
    assert!(!realloc_failure_is_fatal(false, true, 1, 1));
}
