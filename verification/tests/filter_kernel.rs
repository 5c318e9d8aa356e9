use columnar_filter::array::{
    Array, BinaryArray, BooleanArray, Float32Array, Int32Array, Int64Array, ListArray,
    StringArray, UInt8Array,
};
use columnar_filter::filter::filter;
use columnar_filter::{Error, LogicalType};

#[test]
fn test_filter_array() {
    let a = Int32Array::from_values(vec![5, 6, 7, 8, 9]);
    let b = BooleanArray::from_values(vec![true, false, false, true, false]);
    let c = filter(&Array::Int32(a), &b).unwrap();
    let d = c.as_int32().unwrap();
    assert_eq!(2, d.len());
    assert_eq!(5, d.value(0));
    assert_eq!(8, d.value(1));
}

#[test]
fn test_filter_string_array() {
    let a = StringArray::from_values(vec![
        "hello".to_string(),
        " ".to_string(),
        "world".to_string(),
        "!".to_string(),
    ]);
    let b = BooleanArray::from_values(vec![true, false, true, false]);
    let c = filter(&Array::Utf8(a), &b).unwrap();
    let d = c.as_utf8().unwrap();
    assert_eq!(2, d.len());
    assert_eq!("hello", d.value(0));
    assert_eq!("world", d.value(1));
}

#[test]
fn test_filter_array_with_null() {
    let a = Int32Array::from_options(vec![Some(5), None]);
    let b = BooleanArray::from_values(vec![false, true]);
    let c = filter(&Array::Int32(a), &b).unwrap();
    let d = c.as_int32().unwrap();
    assert_eq!(1, d.len());
    assert_eq!(true, d.is_null(0));
}

#[test]
fn test_filter_string_array_with_null() {
    // A selected null text slot stays null: variable-length types
    // preserve null status exactly like the fixed-width ones.
    let a = StringArray::from_options(vec![
        Some("keep".to_string()),
        None,
        Some("drop".to_string()),
    ]);
    let b = BooleanArray::from_values(vec![true, true, false]);
    let c = filter(&Array::Utf8(a), &b).unwrap();
    let d = c.as_utf8().unwrap();
    assert_eq!(2, d.len());
    assert!(!d.is_null(0));
    assert_eq!("keep", d.value(0));
    assert!(d.is_null(1));
}

#[test]
fn test_filter_binary_array_with_null() {
    let a = BinaryArray::from_options(vec![
        Some(vec![1u8, 2, 3]),
        None,
        Some(vec![4u8]),
        Some(vec![]),
    ]);
    let b = BooleanArray::from_values(vec![true, true, false, true]);
    let c = filter(&Array::Binary(a), &b).unwrap();
    let d = c.as_binary().unwrap();
    assert_eq!(3, d.len());
    assert_eq!(&vec![1u8, 2, 3], d.value(0));
    assert!(d.is_null(1));
    assert_eq!(&Vec::<u8>::new(), d.value(2));
}

#[test]
fn test_filter_boolean_array() {
    let a = BooleanArray::from_options(vec![Some(true), Some(false), None, Some(true)]);
    let b = BooleanArray::from_values(vec![true, true, true, false]);
    let c = filter(&Array::Boolean(a), &b).unwrap();
    let d = c.as_boolean().unwrap();
    assert_eq!(3, d.len());
    assert_eq!(true, d.value(0));
    assert_eq!(false, d.value(1));
    assert!(d.is_null(2));
}

#[test]
fn test_filter_uint8_array() {
    let a = UInt8Array::from_values(vec![10, 20, 30]);
    let b = BooleanArray::from_values(vec![false, true, true]);
    let c = filter(&Array::UInt8(a), &b).unwrap();
    let d = match &c {
        Array::UInt8(d) => d,
        _ => panic!("expected an unsigned 8-bit array"),
    };
    assert_eq!(2, d.len());
    assert_eq!(20, d.value(0));
    assert_eq!(30, d.value(1));
}

#[test]
fn test_filter_int64_array() {
    let a = Int64Array::from_values(vec![-1, i64::MIN, i64::MAX]);
    let b = BooleanArray::from_values(vec![true, true, true]);
    let c = filter(&Array::Int64(a), &b).unwrap();
    let d = match &c {
        Array::Int64(d) => d,
        _ => panic!("expected a signed 64-bit array"),
    };
    assert_eq!(3, d.len());
    assert_eq!(-1, d.value(0));
    assert_eq!(i64::MIN, d.value(1));
    assert_eq!(i64::MAX, d.value(2));
}

#[test]
fn test_filter_float32_array_bits() {
    // Float columns hold IEEE-754 bit patterns; the kernel moves the
    // bits through untouched.
    let a = Float32Array::from_values(vec![1.5f32.to_bits(), 2.25f32.to_bits(), 0.5f32.to_bits()]);
    let b = BooleanArray::from_values(vec![false, true, true]);
    let c = filter(&Array::Float32(a), &b).unwrap();
    let d = match &c {
        Array::Float32(d) => d,
        _ => panic!("expected a 32-bit float array"),
    };
    assert_eq!(2, d.len());
    assert_eq!(2.25f32, f32::from_bits(d.value(0)));
    assert_eq!(0.5f32, f32::from_bits(d.value(1)));
}

#[test]
fn test_filter_null_mask_slot_not_selected() {
    // A null mask slot selects nothing; the length law holds with the
    // null and false slots both left out of the count.
    let a = Int32Array::from_values(vec![1, 2, 3, 4]);
    let b = BooleanArray::from_options(vec![Some(true), None, Some(false), Some(true)]);
    let c = filter(&Array::Int32(a), &b).unwrap();
    let d = c.as_int32().unwrap();
    assert_eq!(2, d.len());
    assert_eq!(1, d.value(0));
    assert_eq!(4, d.value(1));
}

#[test]
fn test_filter_order_preserved() {
    // The k-th output element is the input element at the k-th
    // selected index, scanned left to right.
    let a = Int32Array::from_values(vec![9, 8, 7, 6, 5, 4]);
    let b = BooleanArray::from_values(vec![false, true, true, false, false, true]);
    let c = filter(&Array::Int32(a), &b).unwrap();
    let d = c.as_int32().unwrap();
    assert_eq!(3, d.len());
    assert_eq!(8, d.value(0));
    assert_eq!(7, d.value(1));
    assert_eq!(4, d.value(2));
}

#[test]
fn test_filter_all_false_mask() {
    // An all-false mask yields an empty column of the same logical type.
    let a = StringArray::from_values(vec!["a".to_string(), "b".to_string()]);
    let b = BooleanArray::from_values(vec![false, false]);
    let c = filter(&Array::Utf8(a), &b).unwrap();
    assert_eq!(LogicalType::Utf8, c.logical_type());
    assert_eq!(0, c.len());
}

#[test]
fn test_filter_empty_inputs() {
    let a = Int32Array::from_values(vec![]);
    let b = BooleanArray::from_values(vec![]);
    let c = filter(&Array::Int32(a), &b).unwrap();
    assert_eq!(0, c.len());
    assert_eq!(LogicalType::Int32, c.logical_type());
}

#[test]
fn test_filter_length_mismatch() {
    let a = Int32Array::from_values(vec![1, 2, 3, 4]);
    let b = BooleanArray::from_values(vec![true, false, true]);
    let r = filter(&Array::Int32(a), &b);
    assert!(matches!(r, Err(Error::LengthMismatch)));
}

#[test]
fn test_filter_unsupported_type() {
    let a = ListArray::from_options(vec![Some(vec![1, 2]), None]);
    let b = BooleanArray::from_values(vec![true, false]);
    let r = filter(&Array::List(a), &b);
    assert!(matches!(r, Err(Error::UnsupportedType(LogicalType::List))));
}

#[test]
fn test_filter_unsupported_type_reported_before_length() {
    // An unsupported column is refused as such even when the lengths
    // disagree too.
    let a = ListArray::from_options(vec![Some(vec![])]);
    let b = BooleanArray::from_values(vec![true, true, true]);
    let r = filter(&Array::List(a), &b);
    assert!(matches!(r, Err(Error::UnsupportedType(LogicalType::List))));
}

#[test]
fn test_checked_downcast_refuses_other_type() {
    let a = Int32Array::from_values(vec![1]);
    let arr = Array::Int32(a);
    assert!(arr.as_utf8().is_none());
    assert!(arr.as_boolean().is_none());
    assert!(arr.as_binary().is_none());
    assert!(arr.as_int32().is_some());
}
