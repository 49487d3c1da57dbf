use matter_data_model::data_model::objects::cell::str_eq;
use matter_data_model::data_model::objects::CellValue;

#[test]
fn str_eq_on_equal_and_different_strings() {
    assert!(str_eq("", ""));
    assert!(str_eq("bake", "bake"));
    assert!(!str_eq("bake", "Bake"));
    assert!(!str_eq("bake", "bak"));
    assert!(!str_eq("", " "));
    assert!(str_eq("gr\u{00FC}n", "gr\u{00FC}n"));
    assert!(!str_eq("gr\u{00FC}n", "grun"));
}

#[test]
fn same_on_integers() {
    assert!(5u8.same(&5u8));
    assert!(!5u8.same(&6u8));
    assert!((-1i16).same(&-1i16));
    assert!(!i16::MIN.same(&i16::MAX));
}

#[test]
fn same_on_byte_arrays() {
    let a: [u8; 32] = [7; 32];
    let mut b: [u8; 32] = [7; 32];
    assert!(a.same(&b));
    b[31] = 8;
    assert!(!a.same(&b));
    b[31] = 7;
    b[0] = 0;
    assert!(!a.same(&b));
    let empty: [u8; 0] = [];
    assert!(empty.same(&[]));
}

#[test]
fn same_on_string_arrays() {
    let a: [&'static str; 32] = [""; 32];
    let mut b: [&'static str; 32] = [""; 32];
    assert!(a.same(&b));
    b[17] = "x";
    assert!(!a.same(&b));
}
