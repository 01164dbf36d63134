//! `MyBox`: a one-field wrapper that dereferences to its content.
use vstd::prelude::*;

verus! {

/// Holds one value and dereferences to it.
pub struct MyBox<T>(pub T);

impl<T> MyBox<T> {
    pub fn new(x: T) -> (b: Self)
        ensures
            b.0 == x,
    {
        MyBox(x)
    }
}

impl<T> std::ops::Deref for MyBox<T> {
    type Target = T;

    fn deref(&self) -> (r: &T)
        ensures
            *r == self.0,
    {
        &self.0
    }
}

} // verus!
