//! What the command line asks for.

use vstd::prelude::*;
use crate::text::same_text;
use crate::view::{View, named};
#[allow(unused_imports)]
use vstd::view::View as _;

verus! {

/// What the program is to do when it starts.
#[derive(Clone, Copy, Debug, PartialEq, Eq, Structural)]
pub enum Launch {
    /// Print the usage and stop.
    Help,
    /// Print the version and stop.
    Version,
    /// Open the explorer on this picture.
    Start(View),
}

/// What `str::to_lowercase` returns for a string.
pub uninterp spec fn lowercase(s: Seq<char>) -> Seq<char>;

/// `str::to_lowercase`: the string with each character mapped to its
/// lower case, which depends on the string alone; the mapping itself is not
/// stated here, only that an empty string stays empty.
#[verifier::external_body]
fn to_lower(s: &str) -> (r: String)
    ensures
        r@ == lowercase(s@),
        s@.len() == 0 ==> r@.len() == 0,
{
    s.to_lowercase()
}

/// What one argument asks for, if it is one of the flags.
pub open spec fn flag(s: Seq<char>) -> Option<Launch> {
    if s == "-h"@ || s == "--help"@ {
        Some(Launch::Help)
    } else if s == "-v"@ || s == "--version"@ {
        Some(Launch::Version)
    } else {
        None
    }
}

/// The first flag among the arguments, if any.
pub open spec fn first_flag(args: Seq<String>) -> Option<Launch>
    decreases args.len(),
{
    if args.len() == 0 {
        None
    } else {
        match flag(args[0]@) {
            Some(l) => Some(l),
            None => first_flag(args.drop_first()),
        }
    }
}

/// What the arguments (those after the program's name) ask for: the first
/// help or version flag wins; without one, the first argument, in lower
/// case, names the picture to start on.
pub open spec fn launch_of(args: Seq<String>) -> Launch {
    match first_flag(args) {
        Some(l) => l,
        None => Launch::Start(
            named(lowercase(if args.len() > 0 { args[0]@ } else { Seq::empty() })),
        ),
    }
}

/// Decide what to do from the arguments after the program's name.
pub fn launch(args: &Vec<String>) -> (l: Launch)
    ensures
        l == launch_of(args@),
        args@.len() == 0 ==> l == Launch::Start(View::Mandelbrot),
{
    let mut i: usize = 0;
    assert(args@.subrange(0, args@.len() as int) =~= args@);
    while i < args.len()
        invariant
            i <= args@.len(),
            first_flag(args@) == first_flag(args@.subrange(i as int, args@.len() as int)),
        decreases args@.len() - i,
    {
        let ghost rest = args@.subrange(i as int, args@.len() as int);
        assert(rest.drop_first() =~= args@.subrange(i + 1, args@.len() as int));
        assert(rest[0] == args@[i as int]);
        let a = args[i].as_str();
        if same_text(a, "-h") || same_text(a, "--help") {
            return Launch::Help;
        }
        if same_text(a, "-v") || same_text(a, "--version") {
            return Launch::Version;
        }
        i = i + 1;
    }
    assert(args@.subrange(i as int, args@.len() as int) =~= Seq::<String>::empty());
    let lower = if args.len() > 0 {
        to_lower(args[0].as_str())
    } else {
        to_lower("")
    };
    proof {
        if args.len() == 0 {
            reveal_strlit("");
            assert(""@ =~= Seq::<char>::empty());
            assert(lower@ =~= Seq::<char>::empty());
            reveal_strlit("julia");
            reveal_strlit("j");
            reveal_strlit("logistic");
            reveal_strlit("bifurcation");
            reveal_strlit("lorenz");
            reveal_strlit("henon");
            reveal_strlit("hénon");
            assert(named(lower@) == View::Mandelbrot);
        }
    }
    Launch::Start(View::named(lower.as_str()))
}

} // verus!
