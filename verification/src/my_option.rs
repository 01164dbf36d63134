//! `MyOption` and the `ToMyOption` conversion trait.
use vstd::prelude::*;

verus! {

/// An option type of this library: `MySome` holds a value, `MyNone` holds none.
#[derive(Debug)]
pub enum MyOption<T> {
    MySome(T),
    MyNone,
}

/// Conversion of a value into a `MyOption`.
///
/// `converts_to` states, for each implementing type, which results `conv`
/// may return; `conv` always returns one of them.
pub trait ToMyOption {
    type INPUT;
    type OUTPUT;

    /// `out` is an admissible result of converting `self`.
    spec fn converts_to(&self, out: MyOption<Self::OUTPUT>) -> bool;

    fn conv(&self) -> (out: MyOption<Self::OUTPUT>)
        ensures
            self.converts_to(out),
    ;
}

/// `Some(v)` becomes `MySome` of a clone of `v`; `None` becomes `MyNone`.
impl<T: Clone> ToMyOption for Option<T> {
    type OUTPUT = T;
    type INPUT = Option<T>;

    open spec fn converts_to(&self, out: MyOption<T>) -> bool {
        match (*self, out) {
            (Some(v), MyOption::MySome(w)) => cloned(v, w),
            (None, MyOption::MyNone) => true,
            _ => false,
        }
    }

    fn conv(&self) -> (out: MyOption<T>) {
        match self {
            Some(v) => MyOption::MySome(v.clone()),
            None => MyOption::MyNone,
        }
    }
}

/// The empty string becomes `MyNone`; any other string becomes `MySome` of
/// a string with the same characters.
impl ToMyOption for String {
    type OUTPUT = String;
    type INPUT = String;

    open spec fn converts_to(&self, out: MyOption<String>) -> bool {
        match out {
            MyOption::MySome(s) => self@.len() > 0 && s@ == self@,
            MyOption::MyNone => self@.len() == 0,
        }
    }

    fn conv(&self) -> (out: MyOption<String>) {
        let s = self.as_str();
        if s.is_empty() {
            MyOption::MyNone
        } else {
            MyOption::MySome(s.to_owned())
        }
    }
}

/// Zero becomes `MyNone`; any other number becomes `MySome` of itself.
impl ToMyOption for i32 {
    type OUTPUT = i32;
    type INPUT = i32;

    open spec fn converts_to(&self, out: MyOption<i32>) -> bool {
        out == if *self == 0 {
            MyOption::MyNone
        } else {
            MyOption::MySome(*self)
        }
    }

    fn conv(&self) -> (out: MyOption<i32>) {
        if *self == 0 {
            MyOption::MyNone
        } else {
            MyOption::MySome(*self)
        }
    }
}

/// A string converts to `MyNone` exactly when it has no characters, and
/// any other string converts to `MySome` of a string with the same
/// characters, and to nothing else.
pub proof fn lemma_string_conv(s: String, out: MyOption<String>)
    ensures
        s.converts_to(MyOption::MyNone) <==> s@.len() == 0,
        s@.len() > 0 ==> (s.converts_to(out) <==> (out matches MyOption::MySome(t) && t@ == s@)),
        s@.len() == 0 ==> (s.converts_to(out) <==> out is MyNone),
{
}

/// Zero converts to `MyNone`; any other number converts to `MySome` of itself.
pub proof fn lemma_i32_conv(x: i32, out: MyOption<i32>)
    ensures
        x.converts_to(out) <==> (if x == 0 { out is MyNone } else { out matches MyOption::MySome(y) && y == x }),
{
}

/// `None` converts to `MyNone`, and `Some(v)` converts to `MySome` of a
/// clone of `v`, and to nothing else.
pub proof fn lemma_option_conv<T: Clone>(o: Option<T>, out: MyOption<T>)
    ensures
        o is None ==> (o.converts_to(out) <==> out is MyNone),
        o matches Some(v) ==> (o.converts_to(out) <==> (out matches MyOption::MySome(w) && cloned(v, w))),
{
}

} // verus!
