//! `rec_append`: appends a separator and each string of a list, last string
//! first, to an initial list of strings.
use vstd::prelude::*;

verus! {

/// What `rec_append` appends: a list of strings, or a single string.
pub enum RecArg<'a> {
    Vec(Vec<&'a str>),
    String(&'a str),
}

/// The pieces appended for the strings `xs`: for each string, last first,
/// the separator `":"` followed by the string.
pub open spec fn pieces<'a>(xs: Seq<&'a str>) -> Seq<&'a str>
    decreases xs.len(),
{
    if xs.len() == 0 {
        Seq::empty()
    } else {
        seq![":", xs.last()] + pieces(xs.drop_last())
    }
}

/// The pieces appended for `x`.
pub open spec fn pieces_of<'a>(x: RecArg<'a>) -> Seq<&'a str> {
    match x {
        RecArg::Vec(xs) => pieces(xs@),
        RecArg::String(s) => seq![":", s],
    }
}

/// Appends to `init` the separator and each string of `x`, the last string
/// of a list first.
pub fn rec_append<'a>(x: RecArg<'a>, init: Vec<&'a str>) -> (out: Vec<&'a str>)
    ensures
        out@ == init@ + pieces_of(x),
    decreases
        match x {
            RecArg::Vec(xs) => 2 * xs@.len() + 1,
            RecArg::String(_) => 0,
        },
{
    let mut init = init;
    match x {
        RecArg::Vec(mut xs) => {
            let ghost all = xs@;
            let n: usize = xs.len();
            if n == 0 {
                init
            } else if n == 1 {
                let x = xs.pop().unwrap();
                assert(xs@.len() == 0);
                assert(pieces(all.drop_last()) =~= Seq::<&'a str>::empty());
                rec_append(RecArg::String(x), init)
            } else {
                let x = xs.pop().unwrap();
                assert(xs@ =~= all.drop_last());
                let x_init = rec_append(RecArg::String(x), init);
                let out = rec_append(RecArg::Vec(xs), x_init);
                assert(out@ =~= init@ + pieces(all));
                out
            }
        },
        RecArg::String(x) => {
            init.push(":");
            init.push(x);
            init
        },
    }
}

/// Appending the concatenation `xs + ys` appends the pieces of `ys` first,
/// then those of `xs`.
pub proof fn lemma_pieces_concat<'a>(xs: Seq<&'a str>, ys: Seq<&'a str>)
    ensures
        pieces(xs + ys) == pieces(ys) + pieces(xs),
    decreases ys.len(),
{
    if ys.len() == 0 {
        assert(xs + ys =~= xs);
        assert(pieces(ys) + pieces(xs) =~= pieces(xs));
    } else {
        lemma_pieces_concat(xs, ys.drop_last());
        assert((xs + ys).drop_last() =~= xs + ys.drop_last());
        assert((xs + ys).last() == ys.last());
        assert(pieces(xs + ys) =~= seq![":", ys.last()] + pieces(ys.drop_last()) + pieces(xs));
    }
}

/// Each string contributes two pieces.
pub proof fn lemma_pieces_len<'a>(xs: Seq<&'a str>)
    ensures
        pieces(xs).len() == 2 * xs.len(),
    decreases xs.len(),
{
    if xs.len() > 0 {
        lemma_pieces_len(xs.drop_last());
    }
}

} // verus!
