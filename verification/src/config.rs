//! The settings of one run.

use vstd::prelude::*;
use crate::tone::Contrast;

verus! {

/// What a run was asked to do. Made once and only read afterwards.
#[derive(Clone, Copy, Debug, PartialEq, Eq)]
pub struct Configuration {
    /// Output width in characters.
    pub width: u32,
    /// Map bright pixels to dark glyphs and dark pixels to bright ones.
    pub invert: bool,
    /// Contrast factor around the luminance midpoint.
    pub contrast: Contrast,
    /// Write a 24-bit foreground colour before every glyph.
    pub color: bool,
    /// Repeat an animation until the process is stopped.
    pub loop_gif: bool,
}

impl Configuration {
    /// The settings are usable when the contrast factor is.
    pub open spec fn wf(&self) -> bool {
        self.contrast.wf()
    }
}

} // verus!
