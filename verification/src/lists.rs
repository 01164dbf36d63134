//! Cons lists of `i32`: one that owns its tail in a `Box`, one that shares
//! its tail through an `Rc`.
use std::rc::Rc;
use vstd::prelude::*;

verus! {

/// A list that owns its tail.
#[derive(Debug)]
pub enum BoxList {
    Cons(i32, Box<BoxList>),
    Nil,
}

impl BoxList {
    /// The items of the list, head first.
    pub open spec fn items(self) -> Seq<i32>
        decreases self,
    {
        match self {
            BoxList::Cons(x, tail) => seq![x] + (*tail).items(),
            BoxList::Nil => Seq::empty(),
        }
    }
}

/// Builds the list 5, 8, 9.
pub fn _box() -> (list: Box<BoxList>)
    ensures
        (*list).items() == seq![5i32, 8, 9],
{
    let nil = BoxList::Nil;
    assert(nil.items() =~= Seq::<i32>::empty());
    let l9 = BoxList::Cons(9, Box::new(nil));
    let l8 = BoxList::Cons(8, Box::new(l9));
    let l5 = BoxList::Cons(5, Box::new(l8));
    assert(l9.items() =~= seq![9i32]);
    assert(l8.items() =~= seq![8i32, 9]);
    assert(l5.items() =~= seq![5i32, 8, 9]);
    Box::new(l5)
}

/// A list whose tail may be shared with other lists.
#[derive(Debug)]
pub enum RcList {
    Cons(i32, Rc<RcList>),
    Nil,
}

impl RcList {
    /// The items of the list, head first.
    pub open spec fn items(self) -> Seq<i32>
        decreases self,
    {
        match self {
            RcList::Cons(x, tail) => seq![x] + (*tail).items(),
            RcList::Nil => Seq::empty(),
        }
    }

    /// A new list with `item` in front of the items of `self`.
    pub fn cons(self, item: i32) -> (list: RcList)
        ensures
            list.items() == seq![item] + self.items(),
    {
        RcList::Cons(item, self.as_rc())
    }

    /// Moves the list behind a shared handle.
    pub fn as_rc(self) -> (shared: Rc<RcList>)
        ensures
            (*shared).items() == self.items(),
    {
        Rc::new(self)
    }
}

/// A new list with `item` in front of the shared list `list`.
pub fn cons(list: Rc<RcList>, item: i32) -> (out: RcList)
    ensures
        out.items() == seq![item] + (*list).items(),
{
    RcList::Cons(item, list)
}

} // verus!
