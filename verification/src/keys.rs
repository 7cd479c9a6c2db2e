//! What each key press means.

use vstd::prelude::*;
use crate::text::same_text;

verus! {

/// The meaning of one key press.
#[derive(Clone, Copy, Debug, PartialEq, Eq, Structural)]
pub enum Key {
    /// `q`: leave.
    Quit,
    /// Pan the window right, left, up or down.
    Right,
    Left,
    Up,
    Down,
    /// Zoom in or out.
    ZoomIn,
    ZoomOut,
    /// Back to where this view started.
    Home,
    /// A number key: the picture at this place (counted from zero).
    Pick(usize),
    /// Tab: the next picture.
    Next,
    /// `J`: from a point to its Julia set, and back.
    Julia,
    /// `]` and `[`: turn this view's knob up or down.
    KnobUp,
    KnobDown,
    /// `p`: the next pair of Lorenz axes.
    Project,
    /// `e`: save the picture as text.
    Export,
    /// `c`: ask about what is on screen.
    Ask,
    /// `?`: the help.
    Help,
    /// Clear the screen and draw again.
    Redraw,
    /// A key that does nothing.
    Other,
}

/// The meaning of the key whose name is `s`.
pub open spec fn meaning(s: Seq<char>) -> Key {
    if s == "q"@ || s == "Q"@ {
        Key::Quit
    } else if s == "RIGHT"@ || s == "l"@ {
        Key::Right
    } else if s == "LEFT"@ || s == "h"@ {
        Key::Left
    } else if s == "UP"@ || s == "k"@ {
        Key::Up
    } else if s == "DOWN"@ || s == "j"@ {
        Key::Down
    } else if s == "+"@ || s == "="@ || s == "i"@ || s == "PgUP"@ {
        Key::ZoomIn
    } else if s == "-"@ || s == "_"@ || s == "o"@ || s == "PgDOWN"@ {
        Key::ZoomOut
    } else if s == "0"@ {
        Key::Home
    } else if s == "1"@ {
        Key::Pick(0)
    } else if s == "2"@ {
        Key::Pick(1)
    } else if s == "3"@ {
        Key::Pick(2)
    } else if s == "4"@ {
        Key::Pick(3)
    } else if s == "5"@ {
        Key::Pick(4)
    } else if s == "TAB"@ {
        Key::Next
    } else if s == "J"@ {
        Key::Julia
    } else if s == "]"@ || s == "}"@ {
        Key::KnobUp
    } else if s == "["@ || s == "{"@ {
        Key::KnobDown
    } else if s == "p"@ {
        Key::Project
    } else if s == "e"@ {
        Key::Export
    } else if s == "c"@ {
        Key::Ask
    } else if s == "?"@ {
        Key::Help
    } else if s == "r"@ || s == "C-L"@ || s == "RESIZE"@ {
        Key::Redraw
    } else {
        Key::Other
    }
}

impl Key {
    /// The meaning of the key that the terminal reported under the name `s`.
    pub fn parse(s: &str) -> (k: Key)
        ensures
            k == meaning(s@),
    {
        if same_text(s, "q") || same_text(s, "Q") {
            Key::Quit
        } else if same_text(s, "RIGHT") || same_text(s, "l") {
            Key::Right
        } else if same_text(s, "LEFT") || same_text(s, "h") {
            Key::Left
        } else if same_text(s, "UP") || same_text(s, "k") {
            Key::Up
        } else if same_text(s, "DOWN") || same_text(s, "j") {
            Key::Down
        } else if same_text(s, "+") || same_text(s, "=") || same_text(s, "i") || same_text(
            s,
            "PgUP",
        ) {
            Key::ZoomIn
        } else if same_text(s, "-") || same_text(s, "_") || same_text(s, "o") || same_text(
            s,
            "PgDOWN",
        ) {
            Key::ZoomOut
        } else if same_text(s, "0") {
            Key::Home
        } else if same_text(s, "1") {
            Key::Pick(0)
        } else if same_text(s, "2") {
            Key::Pick(1)
        } else if same_text(s, "3") {
            Key::Pick(2)
        } else if same_text(s, "4") {
            Key::Pick(3)
        } else if same_text(s, "5") {
            Key::Pick(4)
        } else if same_text(s, "TAB") {
            Key::Next
        } else if same_text(s, "J") {
            Key::Julia
        } else if same_text(s, "]") || same_text(s, "}") {
            Key::KnobUp
        } else if same_text(s, "[") || same_text(s, "{") {
            Key::KnobDown
        } else if same_text(s, "p") {
            Key::Project
        } else if same_text(s, "e") {
            Key::Export
        } else if same_text(s, "c") {
            Key::Ask
        } else if same_text(s, "?") {
            Key::Help
        } else if same_text(s, "r") || same_text(s, "C-L") || same_text(s, "RESIZE") {
            Key::Redraw
        } else {
            Key::Other
        }
    }
}

/// Each key the help lists means what it says: `q` and `Q` quit; the
/// arrows and `l h k j` pan right, left, up and down; `+ = i PgUP` zoom in
/// and `- _ o PgDOWN` zoom out; `0` goes home; the digits 1 to 5 pick the
/// first to fifth picture; Tab goes to the next, `J` to and from a Julia
/// set; `]` `}` turn the knob up and `[` `{` down; `p` changes the axes,
/// `e` saves, `c` asks, `?` helps, and `r`, `C-L` and `RESIZE` redraw.
#[verifier::rlimit(80)]
pub proof fn lemma_key_table()
    ensures
        meaning("q"@) == Key::Quit && meaning("Q"@) == Key::Quit,
        meaning("RIGHT"@) == Key::Right && meaning("l"@) == Key::Right,
        meaning("LEFT"@) == Key::Left && meaning("h"@) == Key::Left,
        meaning("UP"@) == Key::Up && meaning("k"@) == Key::Up,
        meaning("DOWN"@) == Key::Down && meaning("j"@) == Key::Down,
        meaning("+"@) == Key::ZoomIn && meaning("="@) == Key::ZoomIn && meaning("i"@) == Key::ZoomIn
            && meaning("PgUP"@) == Key::ZoomIn,
        meaning("-"@) == Key::ZoomOut && meaning("_"@) == Key::ZoomOut && meaning("o"@)
            == Key::ZoomOut && meaning("PgDOWN"@) == Key::ZoomOut,
        meaning("0"@) == Key::Home,
        meaning("1"@) == Key::Pick(0),
        meaning("2"@) == Key::Pick(1),
        meaning("3"@) == Key::Pick(2),
        meaning("4"@) == Key::Pick(3),
        meaning("5"@) == Key::Pick(4),
        meaning("TAB"@) == Key::Next,
        meaning("J"@) == Key::Julia,
        meaning("]"@) == Key::KnobUp && meaning("}"@) == Key::KnobUp,
        meaning("["@) == Key::KnobDown && meaning("{"@) == Key::KnobDown,
        meaning("p"@) == Key::Project,
        meaning("e"@) == Key::Export,
        meaning("c"@) == Key::Ask,
        meaning("?"@) == Key::Help,
        meaning("r"@) == Key::Redraw && meaning("C-L"@) == Key::Redraw && meaning("RESIZE"@)
            == Key::Redraw,
{
    reveal_strlit("q");
    reveal_strlit("Q");
    reveal_strlit("RIGHT");
    reveal_strlit("l");
    reveal_strlit("LEFT");
    reveal_strlit("h");
    reveal_strlit("UP");
    reveal_strlit("k");
    reveal_strlit("DOWN");
    reveal_strlit("j");
    reveal_strlit("+");
    reveal_strlit("=");
    reveal_strlit("i");
    reveal_strlit("PgUP");
    reveal_strlit("-");
    reveal_strlit("_");
    reveal_strlit("o");
    reveal_strlit("PgDOWN");
    reveal_strlit("0");
    reveal_strlit("1");
    reveal_strlit("2");
    reveal_strlit("3");
    reveal_strlit("4");
    reveal_strlit("5");
    reveal_strlit("TAB");
    reveal_strlit("J");
    reveal_strlit("]");
    reveal_strlit("}");
    reveal_strlit("[");
    reveal_strlit("{");
    reveal_strlit("p");
    reveal_strlit("e");
    reveal_strlit("c");
    reveal_strlit("?");
    reveal_strlit("r");
    reveal_strlit("C-L");
    reveal_strlit("RESIZE");
    assert("q"@.len() == 1 && "q"@[0] == 'q');
    assert("Q"@.len() == 1 && "Q"@[0] == 'Q');
    assert("RIGHT"@.len() == 5 && "RIGHT"@[0] == 'R');
    assert("l"@.len() == 1 && "l"@[0] == 'l');
    assert("LEFT"@.len() == 4 && "LEFT"@[0] == 'L');
    assert("h"@.len() == 1 && "h"@[0] == 'h');
    assert("UP"@.len() == 2 && "UP"@[0] == 'U');
    assert("k"@.len() == 1 && "k"@[0] == 'k');
    assert("DOWN"@.len() == 4 && "DOWN"@[0] == 'D');
    assert("j"@.len() == 1 && "j"@[0] == 'j');
    assert("+"@.len() == 1 && "+"@[0] == '+');
    assert("="@.len() == 1 && "="@[0] == '=');
    assert("i"@.len() == 1 && "i"@[0] == 'i');
    assert("PgUP"@.len() == 4 && "PgUP"@[0] == 'P');
    assert("-"@.len() == 1 && "-"@[0] == '-');
    assert("_"@.len() == 1 && "_"@[0] == '_');
    assert("o"@.len() == 1 && "o"@[0] == 'o');
    assert("PgDOWN"@.len() == 6 && "PgDOWN"@[0] == 'P');
    assert("0"@.len() == 1 && "0"@[0] == '0');
    assert("1"@.len() == 1 && "1"@[0] == '1');
    assert("2"@.len() == 1 && "2"@[0] == '2');
    assert("3"@.len() == 1 && "3"@[0] == '3');
    assert("4"@.len() == 1 && "4"@[0] == '4');
    assert("5"@.len() == 1 && "5"@[0] == '5');
    assert("TAB"@.len() == 3 && "TAB"@[0] == 'T');
    assert("J"@.len() == 1 && "J"@[0] == 'J');
    assert("]"@.len() == 1 && "]"@[0] == ']');
    assert("}"@.len() == 1 && "}"@[0] == '}');
    assert("["@.len() == 1 && "["@[0] == '[');
    assert("{"@.len() == 1 && "{"@[0] == '{');
    assert("p"@.len() == 1 && "p"@[0] == 'p');
    assert("e"@.len() == 1 && "e"@[0] == 'e');
    assert("c"@.len() == 1 && "c"@[0] == 'c');
    assert("?"@.len() == 1 && "?"@[0] == '?');
    assert("r"@.len() == 1 && "r"@[0] == 'r');
    assert("C-L"@.len() == 3 && "C-L"@[0] == 'C');
    assert("RESIZE"@.len() == 6 && "RESIZE"@[0] == 'R');
}

} // verus!
