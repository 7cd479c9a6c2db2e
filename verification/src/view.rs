//! The five pictures, their order, and the words that name them.

use vstd::prelude::*;
use crate::text::same_text;
#[allow(unused_imports)]
use vstd::view::View as _;

verus! {

/// One of the five pictures the explorer can show.
#[derive(Clone, Copy, Debug, PartialEq, Eq, Structural)]
pub enum View {
    Mandelbrot,
    Julia,
    Logistic,
    Lorenz,
    Henon,
}

/// How many pictures there are.
pub const VIEW_COUNT: usize = 5;

/// The pictures in the order that the number keys and Tab walk through.
pub open spec fn order() -> Seq<View> {
    seq![View::Mandelbrot, View::Julia, View::Logistic, View::Lorenz, View::Henon]
}

/// The place of a picture in `order()`.
pub open spec fn index_of(v: View) -> int {
    match v {
        View::Mandelbrot => 0,
        View::Julia => 1,
        View::Logistic => 2,
        View::Lorenz => 3,
        View::Henon => 4,
    }
}

/// What the header calls a picture.
pub open spec fn title(v: View) -> Seq<char> {
    match v {
        View::Mandelbrot => "the Mandelbrot set"@,
        View::Julia => "a Julia set"@,
        View::Logistic => "the logistic map"@,
        View::Lorenz => "the Lorenz attractor"@,
        View::Henon => "the Hénon map"@,
    }
}

/// What the `[` and `]` keys turn, in a picture.
pub open spec fn knob_title(v: View) -> Seq<char> {
    match v {
        View::Mandelbrot | View::Julia => "iterations"@,
        View::Logistic => "points per column"@,
        View::Lorenz => "ρ"@,
        View::Henon => "a"@,
    }
}

/// The picture a (lower-case) word on the command line asks for; anything
/// unknown starts on the Mandelbrot set.
pub open spec fn named(s: Seq<char>) -> View {
    if s == "julia"@ || s == "j"@ {
        View::Julia
    } else if s == "logistic"@ || s == "bifurcation"@ {
        View::Logistic
    } else if s == "lorenz"@ {
        View::Lorenz
    } else if s == "henon"@ || s == "hénon"@ {
        View::Henon
    } else {
        View::Mandelbrot
    }
}

impl View {
    /// The place of this picture in the order of the number keys.
    pub fn ix(&self) -> (i: usize)
        ensures
            i == index_of(*self),
            i < VIEW_COUNT,
            order()[i as int] == *self,
    {
        match self {
            View::Mandelbrot => 0,
            View::Julia => 1,
            View::Logistic => 2,
            View::Lorenz => 3,
            View::Henon => 4,
        }
    }

    /// The picture at a place in the order of the number keys.
    pub fn at(i: usize) -> (v: View)
        requires
            i < VIEW_COUNT,
        ensures
            v == order()[i as int],
            index_of(v) == i,
    {
        match i {
            0 => View::Mandelbrot,
            1 => View::Julia,
            2 => View::Logistic,
            3 => View::Lorenz,
            _ => View::Henon,
        }
    }

    /// What the header calls this picture.
    pub fn name(&self) -> (s: &'static str)
        ensures
            s@ == title(*self),
    {
        match self {
            View::Mandelbrot => "the Mandelbrot set",
            View::Julia => "a Julia set",
            View::Logistic => "the logistic map",
            View::Lorenz => "the Lorenz attractor",
            View::Henon => "the Hénon map",
        }
    }

    /// What `[` and `]` turn, in this view.
    pub fn knob(&self) -> (s: &'static str)
        ensures
            s@ == knob_title(*self),
    {
        match self {
            View::Mandelbrot | View::Julia => "iterations",
            View::Logistic => "points per column",
            View::Lorenz => "ρ",
            View::Henon => "a",
        }
    }

    /// The picture a lower-case word asks for, the Mandelbrot set when it
    /// names none.
    pub fn named(s: &str) -> (v: View)
        ensures
            v == named(s@),
    {
        if same_text(s, "julia") || same_text(s, "j") {
            View::Julia
        } else if same_text(s, "logistic") || same_text(s, "bifurcation") {
            View::Logistic
        } else if same_text(s, "lorenz") {
            View::Lorenz
        } else if same_text(s, "henon") || same_text(s, "hénon") {
            View::Henon
        } else {
            View::Mandelbrot
        }
    }
}

/// Every picture has one place in the order, and the place names it back.
pub proof fn lemma_order_is_a_bijection(v: View, i: int)
    requires
        0 <= i < VIEW_COUNT,
    ensures
        0 <= index_of(v) < VIEW_COUNT,
        order()[index_of(v)] == v,
        index_of(order()[i]) == i,
        order().len() == VIEW_COUNT,
{
}

/// No two pictures share a name.
pub proof fn lemma_titles_differ(a: View, b: View)
    requires
        a != b,
    ensures
        title(a) != title(b),
{
    reveal_strlit("the Mandelbrot set");
    reveal_strlit("a Julia set");
    reveal_strlit("the logistic map");
    reveal_strlit("the Lorenz attractor");
    reveal_strlit("the Hénon map");
    assert(title(a).len() != title(b).len() || title(a)[0] != title(b)[0]
        || title(a)[4] != title(b)[4]);
}

} // verus!
