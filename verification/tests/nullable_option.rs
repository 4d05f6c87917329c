use commons::database::normalize::{DBNormalize, DBNormalizeResult};
use commons::database::nullable_option::NullableOption;

#[test]
fn nullable_kinds() {
    let missing: NullableOption<i32> = NullableOption::Missing;
    let null: NullableOption<i32> = NullableOption::Null;
    let value = NullableOption::Value(3);
    assert!(missing.is_missing() && !missing.is_null() && !missing.is_value());
    assert!(!null.is_missing() && null.is_null() && !null.is_value());
    assert!(!value.is_missing() && !value.is_null() && value.is_value());
    assert_eq!(NullableOption::<i32>::default(), NullableOption::Missing);
}

#[test]
fn nullable_unwraps() {
    let mut value = NullableOption::Value(3);
    assert_eq!(*value.unwrap_as_ref(), 3);
    *value.unwrap_as_mut_ref() = 4;
    assert_eq!(value, NullableOption::Value(4));
    assert_eq!(value.clone().unwrap(), 4);
    assert_eq!(value.unwrap_or(9), 4);
    assert_eq!(NullableOption::Null.unwrap_or(9), 9);
    assert_eq!(NullableOption::Missing.unwrap_or(9), 9);
    assert_eq!(NullableOption::<i32>::Null.unwrap_or_default(), 0);
    assert_eq!(NullableOption::Value(5).unwrap_or_default(), 5);
}

#[test]
fn nullable_map_and_from() {
    assert_eq!(NullableOption::Value(2).map(|v| v * 10), NullableOption::Value(20));
    assert_eq!(NullableOption::<i32>::Null.map(|v| v * 10), NullableOption::Null);
    assert_eq!(NullableOption::<i32>::Missing.map(|v| v * 10), NullableOption::Missing);
    assert_eq!(NullableOption::from(Some(1)), NullableOption::Value(1));
    assert_eq!(NullableOption::<i32>::from(None), NullableOption::Null);
}

#[test]
fn normalize_scalars() {
    let mut b = false;
    assert_eq!(b.normalize(), DBNormalizeResult::Removed);
    b = true;
    assert_eq!(b.normalize(), DBNormalizeResult::NotModified);
    assert_eq!(0u8.normalize(), DBNormalizeResult::Removed);
    assert_eq!(1u16.normalize(), DBNormalizeResult::NotModified);
    assert_eq!(0i32.normalize(), DBNormalizeResult::Removed);
    assert_eq!((-1i64).normalize(), DBNormalizeResult::NotModified);
    assert_eq!(0u64.normalize(), DBNormalizeResult::Removed);
    assert_eq!(Some(0).normalize(), DBNormalizeResult::NotModified);
    assert_eq!(Vec::<u8>::new().normalize(), DBNormalizeResult::Removed);
    assert_eq!(vec![1].normalize(), DBNormalizeResult::NotModified);
    assert_eq!(std::collections::HashSet::<u8>::new().normalize(), DBNormalizeResult::Removed);
    assert_eq!(std::collections::HashMap::<u8, u8>::new().normalize(), DBNormalizeResult::Removed);
    assert_eq!(arcstr::ArcStr::from("").normalize(), DBNormalizeResult::NotModified);
}

#[test]
fn normalize_nullable() {
    let mut v = NullableOption::Value(0u64);
    assert_eq!(v.normalize(), DBNormalizeResult::Modified);
    assert_eq!(v, NullableOption::Null);
    let mut v = NullableOption::Value(5u64);
    assert_eq!(v.normalize(), DBNormalizeResult::NotModified);
    assert_eq!(v, NullableOption::Value(5));
    let mut v = NullableOption::<u64>::Missing;
    assert_eq!(v.normalize(), DBNormalizeResult::NotModified);
    assert_eq!(v, NullableOption::Missing);
    let mut v = NullableOption::<u64>::Null;
    assert_eq!(v.normalize(), DBNormalizeResult::NotModified);
    assert!(DBNormalizeResult::Modified.modified());
    assert!(DBNormalizeResult::Removed.modified());
    assert!(!DBNormalizeResult::NotModified.modified());
}

// What the conversions of the library give for a JSON field: an absent field
// takes the default value, a present one is read as an `Option` and
// converted with `From<Option<T>>`.
fn field_of(json: &str) -> NullableOption<i32> {
    let object: serde_json::Value = serde_json::from_str(json).unwrap();
    match object.get("field") {
        None => NullableOption::default(),
        Some(value) => NullableOption::from(serde_json::from_value::<Option<i32>>(value.clone()).unwrap()),
    }
}

#[test]
fn absent_field_defaults_to_missing() {
    assert_eq!(field_of("{}"), NullableOption::Missing);
}

#[test]
fn null_field_converts_to_null() {
    assert_eq!(field_of("{\"field\":null}"), NullableOption::Null);
}

#[test]
fn present_field_converts_to_value() {
    assert_eq!(field_of("{\"field\":3}"), NullableOption::Value(3));
}
