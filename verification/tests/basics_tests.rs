use geometry::basics::{
    add_by_one, comments, enums, function_with_lifetime, generics, is_even, take_ownership,
    take_reference, ExplicitLifetime, Message, MyOption,
};
use geometry::text::decimal_string;

#[test]
fn add_by_one_adds_one() {
    assert_eq!(add_by_one(10), 11);
    assert_eq!(add_by_one(-1), 0);
    assert_eq!(add_by_one(i32::MAX - 1), i32::MAX);
}

#[test]
fn is_even_checks_parity() {
    assert!(!is_even(3));
    assert!(is_even(4));
    assert!(is_even(0));
    assert!(is_even(-4));
    assert!(!is_even(-3));
    assert!(is_even(i32::MIN));
}

#[test]
fn take_ownership_yields_first_element() {
    assert_eq!(take_ownership(vec![1, 2, 3]), 1);
}

#[test]
fn take_reference_yields_first_element() {
    let v = vec![9, 2, 3];
    assert_eq!(take_reference(&v), 9);
    assert_eq!(v[0], 9);
}

#[test]
fn explicit_lifetime_hands_back_the_borrow() {
    let five = 5;
    let e = ExplicitLifetime { x: &five };
    assert_eq!(*e.x(), 5);
}

#[test]
fn message_variants_construct() {
    let quit = Message::Quit;
    assert!(matches!(quit, Message::Quit));
    let moved = Message::Move { x: 10, y: 20 };
    match moved {
        Message::Move { x, y } => {
            assert_eq!(x, 10);
            assert_eq!(y, 20);
        }
        _ => panic!("wrong variant"),
    }
    let color = Message::ChangeColor(1, 2, 3);
    assert!(matches!(color, Message::ChangeColor(1, 2, 3)));
    let written = Message::Write(String::from("Hello World!"));
    match written {
        Message::Write(text) => assert_eq!(text, "Hello World!"),
        _ => panic!("wrong variant"),
    }
}

#[test]
fn my_option_holds_or_misses() {
    let filled: MyOption<i32> = MyOption::Value(5);
    assert!(matches!(filled, MyOption::Value(5)));
    let empty: MyOption<u64> = MyOption::Missing;
    assert!(matches!(empty, MyOption::Missing));
}

#[test]
fn demo_functions_run() {
    comments();
    function_with_lifetime();
    enums();
    generics();
}

#[test]
fn decimal_renders_single_digits() {
    assert_eq!(decimal_string(0), "0");
    assert_eq!(decimal_string(7), "7");
    assert_eq!(decimal_string(9), "9");
}

#[test]
fn decimal_renders_multiple_digits() {
    assert_eq!(decimal_string(10), "10");
    assert_eq!(decimal_string(12345), "12345");
    assert_eq!(decimal_string(1_000_000_000), "1000000000");
}

#[test]
fn decimal_renders_largest_value() {
    assert_eq!(decimal_string(u64::MAX), "18446744073709551615");
}
