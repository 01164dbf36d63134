use std::rc::Rc;

use rust_play::demos::{_ref_cell, RcDemo};
use rust_play::lists::{_box, cons, BoxList, RcList};
use rust_play::my_box::MyBox;
use rust_play::rec_append::{rec_append, RecArg};

fn box_items(list: &BoxList) -> Vec<i32> {
    let mut out = vec![];
    let mut cur = list;
    while let BoxList::Cons(x, tail) = cur {
        out.push(*x);
        cur = tail;
    }
    out
}

fn rc_items(list: &RcList) -> Vec<i32> {
    let mut out = vec![];
    let mut cur = list;
    while let RcList::Cons(x, tail) = cur {
        out.push(*x);
        cur = tail;
    }
    out
}

#[test]
fn box_list_holds_five_eight_nine() {
    assert_eq!(box_items(&_box()), vec![5, 8, 9]);
}

#[test]
fn rc_lists_share_their_tail() {
    let a = RcList::Nil.cons(9).cons(8).cons(5).as_rc();
    assert_eq!(rc_items(&a), vec![5, 8, 9]);
    assert_eq!(Rc::strong_count(&a), 1);
    {
        let b = cons(Rc::clone(&a), 9).cons(100);
        assert_eq!(rc_items(&b), vec![100, 9, 5, 8, 9]);
        assert_eq!(Rc::strong_count(&a), 2);
    }
    let c = RcList::Cons(11, Rc::clone(&a));
    assert_eq!(rc_items(&c), vec![11, 5, 8, 9]);
    assert_eq!(Rc::strong_count(&a), 2);
}

#[test]
fn empty_rc_list_has_no_items() {
    assert_eq!(rc_items(&RcList::Nil), Vec::<i32>::new());
    assert_eq!(rc_items(&cons(Rc::new(RcList::Nil), 4)), vec![4]);
}

#[test]
fn my_box_dereferences_to_its_value() {
    let x = 5;
    let y = MyBox::new(x);
    assert_eq!(5, y.0);
    assert_eq!(5, *y);
    let name = MyBox::new(String::from("Maya"));
    let s: &str = &name;
    assert_eq!(s, "Maya");
}

#[test]
fn rec_append_of_the_alphabet() {
    let chars = vec!["a", "b", "c", "d", "e", "f"];
    let init = vec!["init"];
    let out = rec_append(RecArg::Vec(chars), init);
    assert_eq!(
        out,
        vec!["init", ":", "f", ":", "e", ":", "d", ":", "c", ":", "b", ":", "a"]
    );
}

#[test]
fn rec_append_of_nothing_is_init() {
    assert_eq!(rec_append(RecArg::Vec(vec![]), vec!["x", "y"]), vec!["x", "y"]);
    assert_eq!(rec_append(RecArg::Vec(vec![]), vec![]), Vec::<&str>::new());
}

#[test]
fn rec_append_of_one_string() {
    assert_eq!(rec_append(RecArg::String("s"), vec![]), vec![":", "s"]);
    assert_eq!(rec_append(RecArg::Vec(vec!["s"]), vec!["i"]), vec!["i", ":", "s"]);
}

#[test]
fn rec_append_of_a_concatenation() {
    let whole = rec_append(RecArg::Vec(vec!["a", "b", "c"]), vec![]);
    let inner = rec_append(RecArg::Vec(vec!["c"]), vec![]);
    let outer = rec_append(RecArg::Vec(vec!["a", "b"]), inner);
    assert_eq!(whole, outer);
    assert_eq!(whole.len(), 6);
}

#[test]
fn ref_cell_runs_the_joining_thread_demo() {
    assert_eq!(_ref_cell(), RcDemo::ThreadWaitForToBeFinished);
}
