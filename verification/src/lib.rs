//! The decisions and encodings of a terminal explorer of fractals and
//! strange attractors: which picture is on show, what each key does, how
//! the integer knobs turn, how a braille cell is packed from its dots,
//! and how the text that leaves the program is laid out.

pub mod text;
pub mod view;
pub mod keys;
pub mod controls;
pub mod braille;
pub mod export;
pub mod args;
pub mod paint;
pub mod layout;
pub mod reply;
