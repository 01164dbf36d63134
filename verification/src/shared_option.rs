//! A second `ToMyOption` trait, for shared (`Rc`) handles, and the generic
//! conversion entry point `test`.
use std::rc::Rc;
use vstd::prelude::*;
use crate::my_option::MyOption;

verus! {

/// Conversion of a shared handle into a `MyOption`.
pub trait ToMyOption {
    type INPUT;
    type OUTPUT;

    /// `out` is an admissible result of converting `self`.
    spec fn converts_to(&self, out: MyOption<Self::OUTPUT>) -> bool;

    fn conv(&self) -> (out: MyOption<Self::OUTPUT>)
        ensures
            self.converts_to(out),
    ;
}

/// A shared handle converts exactly as the value that it points to.
impl<T: crate::my_option::ToMyOption> ToMyOption for Rc<T> {
    type OUTPUT = T::OUTPUT;
    type INPUT = Rc<T>;

    open spec fn converts_to(&self, out: MyOption<T::OUTPUT>) -> bool {
        crate::my_option::ToMyOption::converts_to(&**self, out)
    }

    fn conv(&self) -> (out: MyOption<T::OUTPUT>) {
        let inner: &T = &**self;
        crate::my_option::ToMyOption::conv(inner)
    }
}

/// Converts `val` with its own `conv`.
pub fn test<T, U>(val: impl ToMyOption<INPUT = T, OUTPUT = U>) -> (out: MyOption<U>)
    ensures
        val.converts_to(out),
{
    val.conv()
}

} // verus!
