//! Character-art rendering of pixel frames, with the timing rules for
//! playing a sequence of rendered frames in a terminal.
//!
//! - `tone`: from a sampled pixel to a position in a glyph ramp.
//! - `frame`: pixel frames and the size of the character grid.
//! - `resample`: scaling and gray conversion, done by the `image` crate.
//! - `text`: decimal numbers and terminal control sequences.
//! - `render`: a frame as lines of glyphs.
//! - `playback`: frame delays and the steps of a player.
//! - `input`: animated or still, and the errors of reading input.
//! - `config`: the settings of one run.

pub mod config;
pub mod frame;
pub mod input;
pub mod playback;
pub mod render;
pub mod resample;
pub mod text;
pub mod tone;
