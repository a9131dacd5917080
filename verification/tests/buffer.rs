use histogram_core::{vec_resize, vec_with_size};

#[test]
fn with_size_fills_every_slot() {
    let v = vec_with_size(5, 7u32);
    assert_eq!(v, vec![7, 7, 7, 7, 7]);
}

#[test]
fn with_size_zero_is_empty() {
    let v: Vec<u32> = vec_with_size(0, 7);
    assert!(v.is_empty());
}

#[test]
fn with_size_clones_fill_value() {
    let v = vec_with_size(3, String::from("bucket"));
    assert_eq!(v, vec!["bucket", "bucket", "bucket"]);
}

#[test]
fn resize_long_enough_is_noop() {
    let mut v = vec![1u32, 2, 3];
    vec_resize(&mut v, 3, 9);
    assert_eq!(v, vec![1, 2, 3]);
    vec_resize(&mut v, 2, 9);
    assert_eq!(v, vec![1, 2, 3]);
    vec_resize(&mut v, 0, 9);
    assert_eq!(v, vec![1, 2, 3]);
}

#[test]
fn resize_appends_fill_values() {
    let mut v = vec![1u32, 2, 3];
    vec_resize(&mut v, 6, 9);
    assert_eq!(v, vec![1, 2, 3, 9, 9, 9]);
}

#[test]
fn resize_twice_changes_nothing_more() {
    let mut v = vec![4u32, 5];
    vec_resize(&mut v, 5, 0);
    let after_first = v.clone();
    vec_resize(&mut v, 5, 0);
    assert_eq!(v, after_first);
}

#[test]
fn resize_empty_buffer() {
    let mut v: Vec<u32> = Vec::new();
    vec_resize(&mut v, 4, 2);
    assert_eq!(v, vec![2, 2, 2, 2]);
}
