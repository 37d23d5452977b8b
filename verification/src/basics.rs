//! Small, fully specified fundamentals: arithmetic helpers, parity,
//! first elements of vectors, a lifetime-carrying accessor, and a pair
//! of plain data-modelling enums.

use vstd::prelude::*;
use vstd::string::*;

verus! {

/// Adds one to a machine integer; the contract pins the result exactly.
pub fn add_by_one(x: i32) -> (r: i32)
    requires
        x < i32::MAX,
    ensures
        r == x + 1,
{
    x + 1
}

/// True exactly when `i` is divisible by two.
pub fn is_even(i: i32) -> (r: bool)
    ensures
        r <==> i as int % 2 == 0,
{
    if i % 2 == 0 {
        return true;
    }
    false
}

/// # Doc comments here
///
/// Markdown is supported
pub fn comments() {
    let _single: (i32,) = (0,);
}

/// Takes a vector by value and hands back its first element.
pub fn take_ownership(v: Vec<i32>) -> (r: i32)
    requires
        v@.len() > 0,
    ensures
        r == v@[0],
{
    v[0]
}

/// Reads the first element of a borrowed vector.
pub fn take_reference(v: &Vec<i32>) -> (r: i32)
    requires
        v@.len() > 0,
    ensures
        r == v@[0],
{
    v[0]
}

/// A function whose signature carries two independent lifetimes.
pub fn function_with_lifetime<'a, 'b>() {
}

/// Holds a borrowed integer; the struct cannot outlive the borrow.
pub struct ExplicitLifetime<'a> {
    pub x: &'a i32,
}

impl<'a> ExplicitLifetime<'a> {
    /// Hands the borrowed integer back, with the borrow's own lifetime.
    pub fn x(&self) -> (r: &'a i32)
        ensures
            r == self.x,
    {
        self.x
    }
}

/// A plain message enum with unit, tuple, struct and payload variants.
pub enum Message {
    Quit,
    ChangeColor(i32, i32, i32),
    Move { x: i32, y: i32 },
    Write(String),
}

/// Builds one value of each interesting `Message` variant.
pub fn enums() {
    let _m1 = Message::Quit;
    let _m2 = Message::Move { x: 10, y: 20 };
    let _m3 = Message::Write(String::from_str("Hello World!"));
}

/// A hand-rolled optional value, generic over its payload.
pub enum MyOption<T> {
    Value(T),
    Missing,
}

/// Instantiates `MyOption` at two different payload types.
pub fn generics() {
    let _x: MyOption<i32> = MyOption::Value(5);
    let _y: MyOption<u64> = MyOption::Value(10);
}

} // verus!
