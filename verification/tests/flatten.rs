use histogram_core::Flatten;

#[test]
fn flatten_bool() {
    assert_eq!(true.as_u32(), 1);
    assert_eq!(false.as_u32(), 0);
}

#[test]
fn flatten_unit() {
    assert_eq!(().as_u32(), 0);
}

#[test]
fn flatten_counter() {
    assert_eq!(42u32.as_u32(), 42);
    assert_eq!(0u32.as_u32(), 0);
    assert_eq!(u32::MAX.as_u32(), u32::MAX);
}
