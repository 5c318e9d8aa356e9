use columnar_filter::array::{Array, Int32Array, PrimitiveArray};
use columnar_filter::builder::{PrimitiveBuilder, StringBuilder};
use columnar_filter::combine::bool_op;
use columnar_filter::filter::filter;
use columnar_filter::Error;

#[test]
fn test_bool_op_equality_predicate() {
    let left = Int32Array::from_values(vec![1, 2, 3]);
    let right = Int32Array::from_values(vec![1, 5, 3]);
    let mask = bool_op(&left, &right, |l: Option<i32>, r: Option<i32>| l == r).unwrap();
    assert_eq!(3, mask.len());
    assert_eq!(true, mask.value(0));
    assert_eq!(false, mask.value(1));
    assert_eq!(true, mask.value(2));
}

#[test]
fn test_bool_op_null_semantics_belong_to_predicate() {
    // The predicate sees nulls as absent values and owns their
    // meaning: here a null on either side compares as false, so the
    // null-equals-null position comes out false under one predicate
    // and true under another.
    let left = Int32Array::from_options(vec![Some(1), None, Some(3), None]);
    let right = Int32Array::from_options(vec![Some(1), None, None, Some(4)]);
    let strict = bool_op(&left, &right, |l: Option<i32>, r: Option<i32>| match (l, r) {
        (Some(a), Some(b)) => a == b,
        _ => false,
    })
    .unwrap();
    assert_eq!(true, strict.value(0));
    assert_eq!(false, strict.value(1));
    assert_eq!(false, strict.value(2));
    assert_eq!(false, strict.value(3));

    let lenient = bool_op(&left, &right, |l: Option<i32>, r: Option<i32>| l == r).unwrap();
    assert_eq!(true, lenient.value(0));
    assert_eq!(true, lenient.value(1));
    assert_eq!(false, lenient.value(2));
    assert_eq!(false, lenient.value(3));
}

#[test]
fn test_bool_op_output_mask_has_no_nulls() {
    let left = Int32Array::from_options(vec![None, None]);
    let right = Int32Array::from_options(vec![None, Some(2)]);
    let mask = bool_op(&left, &right, |l: Option<i32>, _r: Option<i32>| l.is_none()).unwrap();
    assert_eq!(2, mask.len());
    assert!(!mask.is_null(0));
    assert!(!mask.is_null(1));
    assert_eq!(true, mask.value(0));
    assert_eq!(true, mask.value(1));
}

#[test]
fn test_bool_op_length_mismatch() {
    let left = Int32Array::from_values(vec![1, 2, 3, 4]);
    let right = Int32Array::from_values(vec![1, 2, 3]);
    let r = bool_op(&left, &right, |l: Option<i32>, r: Option<i32>| l == r);
    assert!(matches!(r, Err(Error::LengthMismatch)));
}

#[test]
fn test_bool_op_mask_feeds_filter() {
    // The combinator's output is a mask the filter accepts as-is.
    let left = Int32Array::from_values(vec![10, 20, 30]);
    let right = Int32Array::from_values(vec![10, 25, 30]);
    let mask = bool_op(&left, &right, |l: Option<i32>, r: Option<i32>| l == r).unwrap();
    let data = Int32Array::from_values(vec![7, 8, 9]);
    let c = filter(&Array::Int32(data), &mask).unwrap();
    let d = c.as_int32().unwrap();
    assert_eq!(2, d.len());
    assert_eq!(7, d.value(0));
    assert_eq!(9, d.value(1));
}

#[test]
fn test_primitive_builder_accumulates_in_order() {
    let mut b: PrimitiveBuilder<u64> = PrimitiveBuilder::with_capacity(3);
    b.append_value(11);
    b.append_null();
    b.append_value(13);
    let a: PrimitiveArray<u64> = b.finish();
    assert_eq!(3, a.len());
    assert_eq!(11, a.value(0));
    assert!(a.is_null(1));
    assert_eq!(13, a.value(2));
}

#[test]
fn test_string_builder_accumulates_in_order() {
    let mut b = StringBuilder::with_capacity(2);
    b.append_value("one");
    b.append_null();
    b.append_value("");
    let a = b.finish();
    assert_eq!(3, a.len());
    assert_eq!("one", a.value(0));
    assert!(a.is_null(1));
    assert_eq!("", a.value(2));
}
