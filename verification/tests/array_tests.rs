//! Arrays, dictionaries, the owning iterator, and the dynamic value
//! conversions, exercised on concrete values.

use nvim_oxi::array::Array;
use nvim_oxi::collection::Collection;
use nvim_oxi::dictionary::Dictionary;
use nvim_oxi::error::ConversionError;
use nvim_oxi::nvim_string::NvimString;
use nvim_oxi::object::{Object, ObjectKind};

#[test]
fn iter_basic() {
    let array = Array::from_iter(vec!["Foo", "Bar", "Baz"]);

    let mut iter = array.into_iter();
    assert_eq!(Some(Object::from_str("Foo")), iter.next());
    assert_eq!(Some(Object::from_str("Bar")), iter.next());
    assert_eq!(Some(Object::from_str("Baz")), iter.next());
    assert_eq!(None, iter.next());
}

#[test]
fn drop_iter_halfway() {
    let array = Array::from_iter(vec!["Foo", "Bar", "Baz"]);

    let mut iter = array.into_iter();
    assert_eq!(Some(Object::from_str("Foo")), iter.next());
}

#[test]
fn iter_reports_exact_remaining_length() {
    let array = Array::from_iter(vec![1i64, 2, 3, 4, 5]);

    let mut iter = array.into_iter();
    assert_eq!(5, iter.len());
    assert_eq!((5, Some(5)), iter.size_hint());
    let _ = iter.next();
    let _ = iter.next();
    assert_eq!(3, iter.len());
    assert_eq!(3, iter.count());
}

#[test]
fn partial_consumption_accounts_for_every_element() {
    // Every element is owned exactly once: the two yielded ones by the
    // caller, the remaining three by the iterator it walks off with.
    let array = Array::from_iter(vec![10i64, 20, 30, 40, 50]);
    let total = array.len();

    let mut iter = array.into_iter();
    let mut seen = Vec::new();
    seen.push(iter.next().unwrap());
    seen.push(iter.next().unwrap());
    assert_eq!(total, seen.len() + iter.len());
    assert_eq!(Object::from_integer(10), seen[0]);
    assert_eq!(Object::from_integer(20), seen[1]);
    while let Some(obj) = iter.next() {
        seen.push(obj);
    }
    assert_eq!(total, seen.len());
    assert_eq!(Object::from_integer(50), seen[4]);
}

#[test]
fn from_iter_filters_absent_elements() {
    let array = Array::from_iter(vec![Some(1i64), None, Some(2), None, None]);
    assert_eq!(2, array.len());

    let mut iter = array.into_iter();
    assert_eq!(Some(Object::from_integer(1)), iter.next());
    assert_eq!(Some(Object::from_integer(2)), iter.next());
    assert_eq!(None, iter.next());
}

#[test]
fn from_iter_of_nothing_but_absence_is_empty() {
    let array = Array::from_iter(vec![None::<i64>, None, None]);
    assert_eq!(0, array.len());
}

#[test]
fn dictionary_drops_entries_with_absent_values() {
    let dict = Dictionary::from_pairs(vec![
        ("kept", Some(1i64)),
        ("dropped", None),
        ("also_kept", Some(2)),
    ]);
    assert_eq!(2, dict.len());
    assert!(dict.get(0).0.obj_eq(&Object::from_str("kept")));
    assert!(dict.get(1).1.obj_eq(&Object::from_integer(2)));
}

#[test]
fn round_trip_scalars() {
    assert_eq!(Ok(true), Object::from_bool(true).into_bool());
    assert_eq!(Ok(-42i64), Object::from_integer(-42).into_integer());
    let bits = 2.5f64.to_bits();
    assert_eq!(Ok(bits), Object::from_float_bits(bits).into_float_bits());
    assert_eq!(Ok(()), Object::nil().into_unit());
    assert_eq!(Ok(7), Object::from_luaref(7).into_luaref());
    assert_eq!(Ok(3), Object::from_win_handle(3).into_win_handle());
    assert_eq!(Ok(4), Object::from_buf_handle(4).into_buf_handle());
    assert_eq!(Ok(5), Object::from_tab_handle(5).into_tab_handle());
}

#[test]
fn round_trip_string() {
    let s = NvimString::from_bytes(b"hello".to_vec());
    let back = Object::from_string(s).into_string().unwrap();
    assert_eq!(b"hello".to_vec(), back.into_bytes());
}

#[test]
fn round_trip_array() {
    let array = Array::from_iter(vec![1i64, 2, 3]);
    let back = Object::from_array(array).into_array().unwrap();
    assert_eq!(3, back.len());
    assert!(back.get(0).obj_eq(&Object::from_integer(1)));
    assert!(back.get(2).obj_eq(&Object::from_integer(3)));
}

#[test]
fn round_trip_dictionary() {
    let dict = Dictionary::from_pairs(vec![("k", 9i64)]);
    let back = Object::from_dictionary(dict).into_dictionary().unwrap();
    assert_eq!(1, back.len());
    assert!(back.get(0).0.obj_eq(&Object::from_str("k")));
    assert!(back.get(0).1.obj_eq(&Object::from_integer(9)));
}

#[test]
fn wrong_type_conversion_reports_both_kinds() {
    assert_eq!(
        Err(ConversionError::WrongType {
            expected: ObjectKind::Boolean,
            found: ObjectKind::Integer,
        }),
        Object::from_integer(1).into_bool(),
    );
    assert_eq!(
        Err(ConversionError::WrongType { expected: ObjectKind::Str, found: ObjectKind::Nil }),
        Object::nil().into_string(),
    );
    assert!(matches!(
        Object::from_bool(false).into_array(),
        Err(ConversionError::WrongType { expected: ObjectKind::Array, found: ObjectKind::Boolean })
    ));
}

#[test]
fn element_wise_conversion_propagates_the_first_error() {
    let array = Array::from_iter(vec![1i64, 2, 3]);
    assert_eq!(Ok(vec![1i64, 2, 3]), array.into_integers());

    let mut mixed: Array = Collection::new();
    mixed.push(Object::from_integer(1));
    mixed.push(Object::from_str("two"));
    mixed.push(Object::from_bool(true));
    assert_eq!(
        Err(ConversionError::WrongType { expected: ObjectKind::Integer, found: ObjectKind::Str }),
        mixed.into_integers(),
    );
}

#[test]
fn deep_equality_looks_into_containers() {
    let a = Object::from_array(Array::from_iter(vec!["x", "y"]));
    let b = Object::from_array(Array::from_iter(vec!["x", "y"]));
    let c = Object::from_array(Array::from_iter(vec!["x", "z"]));
    assert_eq!(a, b);
    assert_ne!(a, c);
    assert_ne!(a, Object::from_str("x"));
}

#[test]
fn non_owning_views_alias_the_owner() {
    let array = Array::from_iter(vec![1i64]);
    let view = array.non_owning();
    assert_eq!(1, view.as_borrowed().len());

    let dict = Dictionary::from_pairs(vec![("k", 1i64)]);
    let view = dict.non_owning();
    assert_eq!(1, view.as_borrowed().len());
}

#[test]
fn collection_push_and_get() {
    let mut c: Collection<i64> = Collection::new();
    assert!(c.is_empty());
    c.push(5);
    c.push(6);
    assert_eq!(2, c.len());
    assert_eq!(5, *c.get(0));
    assert_eq!(6, *c.get(1));
}

#[test]
fn nvim_string_compares_by_bytes() {
    let a = NvimString::from_bytes(b"abc".to_vec());
    let b = NvimString::from_bytes(b"abc".to_vec());
    let c = NvimString::from_bytes(b"abd".to_vec());
    assert_eq!(a, b);
    assert_ne!(a, c);
    assert_eq!(3, a.len());
    assert_eq!(b"abc", a.as_bytes().as_slice());
}
