use std::rc::Rc;

use rust_play::my_option::{MyOption, ToMyOption};
use rust_play::shared_option::ToMyOption as ToMyOptionShared;

#[test]
fn i32_zero_is_none() {
    assert!(matches!(0i32.conv(), MyOption::MyNone));
}

#[test]
fn i32_nonzero_is_some() {
    assert!(matches!(12i32.conv(), MyOption::MySome(12)));
    assert!(matches!((-3i32).conv(), MyOption::MySome(-3)));
}

#[test]
fn empty_string_is_none() {
    assert!(matches!(String::new().conv(), MyOption::MyNone));
}

#[test]
fn string_is_some_with_same_text() {
    match String::from("Test").conv() {
        MyOption::MySome(s) => assert_eq!(s, "Test"),
        MyOption::MyNone => panic!("expected MySome"),
    }
}

#[test]
fn option_some_is_some() {
    let val = Some(12i32);
    assert!(matches!(val.conv(), MyOption::MySome(12)));
}

#[test]
fn option_none_is_none() {
    let val: Option<String> = None;
    assert!(matches!(val.conv(), MyOption::MyNone));
}

#[test]
fn shared_handle_converts_as_its_value() {
    let shared = Rc::new(0i32);
    assert!(matches!(ToMyOptionShared::conv(&shared), MyOption::MyNone));
    let shared = Rc::new(Some(String::from("x")));
    match ToMyOptionShared::conv(&shared) {
        MyOption::MySome(s) => assert_eq!(s, "x"),
        MyOption::MyNone => panic!("expected MySome"),
    }
}

#[test]
fn test_converts_its_argument() {
    assert!(matches!(rust_play::shared_option::test(Rc::new(5i32)), MyOption::MySome(5)));
    assert!(matches!(rust_play::shared_option::test(Rc::new(String::new())), MyOption::MyNone));
    assert!(matches!(rust_play::shared_option::test(Rc::new(None::<u8>)), MyOption::MyNone));
}
