//! The integer state that the keys drive, and what each key does to it.
//!
//! The window onto each picture, the Julia constant and the two real knobs
//! (ρ of the Lorenz system, `a` of the Hénon map) are real numbers and live
//! with the program; the step here says when they are to move.

use vstd::prelude::*;
use crate::keys::Key;
use crate::view::{View, VIEW_COUNT, order, index_of};
#[allow(unused_imports)]
use vstd::view::View as _;

verus! {

/// The fewest and the most iterations the escape-time pictures use.
pub const ITERS_MIN: u32 = 30;
pub const ITERS_MAX: u32 = 20000;
/// The fewest and the most points per column of the logistic map.
pub const DENSITY_MIN: u32 = 20;
pub const DENSITY_MAX: u32 = 4000;
/// How many pairs of Lorenz axes there are to look along.
pub const PROJECTIONS: usize = 3;

/// The integer state of the explorer.
#[derive(Clone, Copy, Debug, PartialEq, Eq, Structural)]
pub struct Controls {
    /// The picture on show.
    pub view: View,
    /// The iteration budget of the escape-time pictures.
    pub iters: u32,
    /// Points per column of the logistic map.
    pub density: u32,
    /// Which pair of Lorenz axes to look along.
    pub proj: usize,
}

/// What the program has to do after a key, beyond the new state.
#[derive(Clone, Copy, Debug, PartialEq, Eq, Structural)]
pub enum Effect {
    /// Nothing but draw again.
    Nothing,
    /// Leave the program.
    Quit,
    /// Clear the screen, then draw.
    Clear,
    /// Move the window of the picture on show (pan, zoom or home, as the
    /// key says).
    MoveFrame,
    /// The Mandelbrot set gave way to the Julia set of its centre point.
    EnterJulia,
    /// The Julia set gave way to the Mandelbrot set, centred on its constant.
    LeaveJulia,
    /// `J` pressed on a picture it does nothing for.
    NotHere,
    /// Turn the real knob of the picture on show, up when `true`.
    Nudge(bool),
    /// Save the picture as text.
    Export,
    /// Ask about what is on screen.
    Ask,
    /// Show the help.
    Help,
}

/// The name of the `p`-th pair of Lorenz axes, and which coordinates (0 for
/// x, 1 for y, 2 for z) go across and down.
pub open spec fn projection(p: int) -> (Seq<char>, int, int) {
    if p == 0 {
        ("x-z"@, 0, 2)
    } else if p == 1 {
        ("x-y"@, 0, 1)
    } else {
        ("y-z"@, 1, 2)
    }
}

/// The `p`-th pair of Lorenz axes: its name, and the coordinates across and
/// down.
pub fn axes(p: usize) -> (r: (&'static str, usize, usize))
    requires
        p < PROJECTIONS,
    ensures
        r.0@ == projection(p as int).0,
        r.1 == projection(p as int).1,
        r.2 == projection(p as int).2,
        r.1 < 3 && r.2 < 3 && r.1 != r.2,
{
    if p == 0 {
        ("x-z", 0, 2)
    } else if p == 1 {
        ("x-y", 0, 1)
    } else {
        ("y-z", 1, 2)
    }
}

/// One turn of an integer knob: doubling up to `hi`, or halving down to `lo`.
pub open spec fn turned(n: int, up: bool, lo: int, hi: int) -> int {
    if up {
        if 2 * n < hi { 2 * n } else { hi }
    } else {
        if n / 2 > lo { n / 2 } else { lo }
    }
}

impl Controls {
    /// The knobs lie in their ranges and the projection is one of the three.
    pub open spec fn wf(self) -> bool {
        &&& ITERS_MIN <= self.iters <= ITERS_MAX
        &&& DENSITY_MIN <= self.density <= DENSITY_MAX
        &&& self.proj < PROJECTIONS
    }

    /// What one turn of the knob does in the picture on show.
    pub open spec fn knob_step(self, up: bool) -> (Controls, Effect) {
        match self.view {
            View::Mandelbrot | View::Julia => (
                Controls { iters: turned(self.iters as int, up, ITERS_MIN as int, ITERS_MAX as int) as u32, ..self },
                Effect::Nothing,
            ),
            View::Logistic => (
                Controls { density: turned(self.density as int, up, DENSITY_MIN as int, DENSITY_MAX as int) as u32, ..self },
                Effect::Nothing,
            ),
            View::Lorenz | View::Henon => (self, Effect::Nudge(up)),
        }
    }

    /// What a key does: the new state and what is left for the program.
    pub open spec fn step(self, key: Key) -> (Controls, Effect) {
        match key {
            Key::Quit => (self, Effect::Quit),
            Key::Right | Key::Left | Key::Up | Key::Down | Key::ZoomIn | Key::ZoomOut
            | Key::Home => (self, Effect::MoveFrame),
            Key::Pick(i) => if i < VIEW_COUNT {
                (Controls { view: order()[i as int], ..self }, Effect::Clear)
            } else {
                (self, Effect::Nothing)
            },
            Key::Next => (
                Controls { view: order()[(index_of(self.view) + 1) % 5], ..self },
                Effect::Clear,
            ),
            Key::Julia => match self.view {
                View::Mandelbrot => (Controls { view: View::Julia, ..self }, Effect::EnterJulia),
                View::Julia => (Controls { view: View::Mandelbrot, ..self }, Effect::LeaveJulia),
                _ => (self, Effect::NotHere),
            },
            Key::KnobUp => self.knob_step(true),
            Key::KnobDown => self.knob_step(false),
            Key::Project => (Controls { proj: ((self.proj + 1) % 3) as usize, ..self }, Effect::Nothing),
            Key::Export => (self, Effect::Export),
            Key::Ask => (self, Effect::Ask),
            Key::Help => (self, Effect::Help),
            Key::Redraw => (self, Effect::Clear),
            Key::Other => (self, Effect::Nothing),
        }
    }

    /// The state the explorer starts in, on the given picture.
    pub fn new(view: View) -> (c: Controls)
        ensures
            c == (Controls { view, iters: 300, density: 260, proj: 0 }),
            c.wf(),
    {
        Controls { view, iters: 300, density: 260, proj: 0 }
    }

    /// One turn of whatever `[` and `]` drive in this view. The integer
    /// knobs turn here; for the real ones the answer says which way to turn.
    pub fn knob(&mut self, up: bool) -> (e: Effect)
        requires
            old(self).wf(),
        ensures
            (*final(self), e) == old(self).knob_step(up),
            final(self).wf(),
    {
        match self.view {
            View::Mandelbrot | View::Julia => {
                self.iters = if up {
                    let d = self.iters * 2;
                    if d < ITERS_MAX { d } else { ITERS_MAX }
                } else {
                    let h = self.iters / 2;
                    if h > ITERS_MIN { h } else { ITERS_MIN }
                };
                Effect::Nothing
            },
            View::Logistic => {
                self.density = if up {
                    let d = self.density * 2;
                    if d < DENSITY_MAX { d } else { DENSITY_MAX }
                } else {
                    let h = self.density / 2;
                    if h > DENSITY_MIN { h } else { DENSITY_MIN }
                };
                Effect::Nothing
            },
            View::Lorenz | View::Henon => Effect::Nudge(up),
        }
    }

    /// Act on one key: change the state and say what else is to be done.
    pub fn press(&mut self, key: Key) -> (e: Effect)
        requires
            old(self).wf(),
        ensures
            (*final(self), e) == old(self).step(key),
            final(self).wf(),
    {
        match key {
            Key::Quit => Effect::Quit,
            Key::Right | Key::Left | Key::Up | Key::Down | Key::ZoomIn | Key::ZoomOut
            | Key::Home => Effect::MoveFrame,
            Key::Pick(i) => {
                if i < VIEW_COUNT {
                    self.view = View::at(i);
                    Effect::Clear
                } else {
                    Effect::Nothing
                }
            },
            Key::Next => {
                let i = self.view.ix();
                self.view = View::at((i + 1) % VIEW_COUNT);
                Effect::Clear
            },
            Key::Julia => match self.view {
                View::Mandelbrot => {
                    self.view = View::Julia;
                    Effect::EnterJulia
                },
                View::Julia => {
                    self.view = View::Mandelbrot;
                    Effect::LeaveJulia
                },
                _ => Effect::NotHere,
            },
            Key::KnobUp => self.knob(true),
            Key::KnobDown => self.knob(false),
            Key::Project => {
                self.proj = (self.proj + 1) % PROJECTIONS;
                Effect::Nothing
            },
            Key::Export => Effect::Export,
            Key::Ask => Effect::Ask,
            Key::Help => Effect::Help,
            Key::Redraw => Effect::Clear,
            Key::Other => Effect::Nothing,
        }
    }
}

/// Every key keeps the knobs in their ranges and the projection in bounds.
pub proof fn lemma_step_keeps_wf(c: Controls, key: Key)
    requires
        c.wf(),
    ensures
        c.step(key).0.wf(),
{
}

/// Five presses of Tab walk through every picture and come back to the
/// first, with nothing else changed.
pub proof fn lemma_next_cycles(c: Controls)
    ensures
        ({
            let c1 = c.step(Key::Next).0;
            let c2 = c1.step(Key::Next).0;
            let c3 = c2.step(Key::Next).0;
            let c4 = c3.step(Key::Next).0;
            let c5 = c4.step(Key::Next).0;
            &&& c5 == c
            &&& c1.view != c.view && c2.view != c.view && c3.view != c.view && c4.view != c.view
        }),
{
}

/// `J` steps from the Mandelbrot set into a Julia set and a second `J`
/// steps back out, to the state it started from.
pub proof fn lemma_julia_round_trip(c: Controls)
    requires
        c.view == View::Mandelbrot,
    ensures
        c.step(Key::Julia) == (Controls { view: View::Julia, ..c }, Effect::EnterJulia),
        c.step(Key::Julia).0.step(Key::Julia) == (c, Effect::LeaveJulia),
{
}

/// Turning a knob up and then down again leaves it where it was, as long as
/// the turn up did not hit the top of its range.
pub proof fn lemma_knob_up_then_down(c: Controls)
    requires
        c.wf(),
        (c.view == View::Mandelbrot || c.view == View::Julia) ==> 2 * c.iters <= ITERS_MAX,
        c.view == View::Logistic ==> 2 * c.density <= DENSITY_MAX,
    ensures
        c.step(Key::KnobUp).0.step(Key::KnobDown).0 == c,
{
}

/// Three presses of `p` come back to the axes they started on.
pub proof fn lemma_projection_cycles(c: Controls)
    requires
        c.wf(),
    ensures
        c.step(Key::Project).0.step(Key::Project).0.step(Key::Project).0 == c,
{
}

/// `]` doubles the iteration budget of both escape-time pictures (the
/// Mandelbrot and the Julia set) up to 20000, and `[` halves it down to 30;
/// on the logistic map they double and halve the points per column between
/// 20 and 4000; on the Lorenz and Hénon pictures they leave the state alone
/// and ask for the real knob to turn. Nothing else changes.
pub proof fn lemma_knob_turns(c: Controls, up: bool)
    requires
        c.wf(),
    ensures
        ({
            let (n, e) = c.knob_step(up);
            &&& n.view == c.view && n.proj == c.proj
            &&& (c.view == View::Mandelbrot || c.view == View::Julia) ==> {
                &&& n.density == c.density
                &&& e == Effect::Nothing
                &&& up ==> n.iters == (if 2 * c.iters <= 20000 { 2 * c.iters } else { 20000 })
                &&& !up ==> n.iters == (if c.iters / 2 >= 30 { c.iters / 2 } else { 30 })
            }
            &&& c.view == View::Logistic ==> {
                &&& n.iters == c.iters
                &&& e == Effect::Nothing
                &&& up ==> n.density == (if 2 * c.density <= 4000 { 2 * c.density } else { 4000 })
                &&& !up ==> n.density == (if c.density / 2 >= 20 { c.density / 2 } else { 20 })
            }
            &&& (c.view == View::Lorenz || c.view == View::Henon) ==> {
                &&& n == c
                &&& e == Effect::Nudge(up)
            }
        }),
        c.step(Key::KnobUp) == c.knob_step(true),
        c.step(Key::KnobDown) == c.knob_step(false),
{
}

/// The keys that move the window (the four pans, zoom in, zoom out and
/// home) leave the state alone and hand the move to the program.
pub proof fn lemma_frame_keys_move_the_frame(c: Controls, key: Key)
    requires
        key == Key::Right || key == Key::Left || key == Key::Up || key == Key::Down || key
            == Key::ZoomIn || key == Key::ZoomOut || key == Key::Home,
    ensures
        c.step(key) == (c, Effect::MoveFrame),
{
}

/// The number keys pick the pictures in order: the `i`-th (from zero) is
/// the Mandelbrot set, a Julia set, the logistic map, the Lorenz attractor
/// and the Hénon map, and nothing else changes.
pub proof fn lemma_pick_views(c: Controls)
    ensures
        c.step(Key::Pick(0)) == (Controls { view: View::Mandelbrot, ..c }, Effect::Clear),
        c.step(Key::Pick(1)) == (Controls { view: View::Julia, ..c }, Effect::Clear),
        c.step(Key::Pick(2)) == (Controls { view: View::Logistic, ..c }, Effect::Clear),
        c.step(Key::Pick(3)) == (Controls { view: View::Lorenz, ..c }, Effect::Clear),
        c.step(Key::Pick(4)) == (Controls { view: View::Henon, ..c }, Effect::Clear),
{
}

} // verus!
