//! Brightness arithmetic: from a sampled pixel to a position in a glyph ramp.
//!
//! Luminance is kept as a whole number of ten-thousandths of a channel step
//! (a *level*), so that the luma weights 0.2126, 0.7152 and 0.0722 are exact.
//! A contrast factor is a fraction, and every intermediate value is carried
//! as a numerator over a known denominator; nothing is rounded before the
//! final choice of a glyph.

use vstd::prelude::*;
use vstd::arithmetic::div_mod::{lemma_div_is_ordered, lemma_div_pos_is_pos};

verus! {

/// Levels per channel step.
pub const LEVEL_SCALE: u32 = 10_000;

/// The level of full brightness, channel value 255.
pub const LEVEL_MAX: u32 = 2_550_000;

/// The level around which contrast is stretched, channel value 128.
pub const LEVEL_MID: u32 = 1_280_000;

/// Luma weight of the red channel, in ten-thousandths.
pub const WEIGHT_RED: u32 = 2126;

/// Luma weight of the green channel, in ten-thousandths.
pub const WEIGHT_GREEN: u32 = 7152;

/// Luma weight of the blue channel, in ten-thousandths.
pub const WEIGHT_BLUE: u32 = 722;

/// A contrast factor `numer / denom`.
#[derive(Clone, Copy, Debug, PartialEq, Eq)]
pub struct Contrast {
    pub numer: i64,
    pub denom: u32,
}

impl Contrast {
    /// A contrast factor has a nonzero denominator.
    pub open spec fn wf(&self) -> bool {
        self.denom > 0
    }

    /// Whether the factor equals one, which leaves every level as it is.
    pub open spec fn is_neutral(&self) -> bool {
        self.numer == self.denom
    }

    /// The factor `numer / denom`, or `None` when `denom` is zero.
    pub fn new(numer: i64, denom: u32) -> (made: Option<Contrast>)
        ensures
            denom == 0 ==> made is None,
            denom > 0 ==> made == Some(Contrast { numer, denom }),
    {
        if denom == 0 {
            None
        } else {
            Some(Contrast { numer, denom })
        }
    }

    /// The factor one.
    pub fn neutral() -> (made: Contrast)
        ensures
            made == (Contrast { numer: 1, denom: 1 }),
            made.wf(),
            made.is_neutral(),
    {
        Contrast { numer: 1, denom: 1 }
    }
}

/// What is read from one pixel of the grid: a colour, or a single luminance.
#[derive(Clone, Copy, Debug, PartialEq, Eq)]
pub enum Sample {
    Rgb { r: u8, g: u8, b: u8 },
    Luma { value: u8 },
}

/// The luminance of a sample as a level: the weighted sum of the channels of
/// a colour, or the value of a luminance sample.
pub open spec fn level_of(sample: Sample) -> int {
    match sample {
        Sample::Rgb { r, g, b } => WEIGHT_RED * r + WEIGHT_GREEN * g + WEIGHT_BLUE * b,
        Sample::Luma { value } => LEVEL_SCALE * value,
    }
}

impl Sample {
    /// Computes the luminance of the sample as a level.
    pub fn level(&self) -> (level: u32)
        ensures
            level == level_of(*self),
            level <= LEVEL_MAX,
    {
        match *self {
            Sample::Rgb { r, g, b } => 2126 * (r as u32) + 7152 * (g as u32) + 722 * (b as u32),
            Sample::Luma { value } => 10_000 * (value as u32),
        }
    }
}

/// `num / den` rounded to the nearest whole number, halves upwards.
pub open spec fn round_div(num: int, den: int) -> int
    recommends
        num >= 0,
        den > 0,
{
    (2 * num + den) / (2 * den)
}

/// The level after contrast, as a numerator over `contrast.denom`:
/// `factor * (level - mid) + mid`, held within `[0, max]`.
pub open spec fn adjusted_level(level: int, contrast: Contrast) -> int {
    let raw = contrast.numer * (level - LEVEL_MID) + LEVEL_MID * contrast.denom;
    let full = LEVEL_MAX * contrast.denom;
    if raw < 0 {
        0
    } else if raw > full {
        full
    } else {
        raw
    }
}

/// The intensity that picks the glyph, as a numerator over `contrast.denom`:
/// the adjusted level, or its distance from full brightness when inverted.
pub open spec fn mapped_level(level: int, contrast: Contrast, invert: bool) -> int {
    if invert {
        LEVEL_MAX * contrast.denom - adjusted_level(level, contrast)
    } else {
        adjusted_level(level, contrast)
    }
}

/// The position in a ramp of `ramp_len` glyphs, darkest first, for a level:
/// the mapped intensity as a fraction of full brightness, scaled to the last
/// position, rounded, and held within the ramp.
pub open spec fn glyph_position(level: int, contrast: Contrast, invert: bool, ramp_len: int) -> int {
    let last = ramp_len - 1;
    let nearest = round_div(
        mapped_level(level, contrast, invert) * last,
        LEVEL_MAX * contrast.denom,
    );
    if nearest > last {
        last
    } else {
        nearest
    }
}

/// Picks the ramp position for `level` under the given contrast and inversion.
pub fn glyph_index(level: u32, contrast: Contrast, invert: bool, ramp_len: usize) -> (index: usize)
    requires
        contrast.wf(),
        ramp_len >= 1,
    ensures
        index == glyph_position(level as int, contrast, invert, ramp_len as int),
        index < ramp_len,
{
    let n: i128 = contrast.numer as i128;
    let d: i128 = contrast.denom as i128;
    let offset: i128 = level as i128 - 1_280_000;
    let full: i128 = 2_550_000 * d;
    assert(-0x1_0000_0000_0000_0000_0000_0000 <= n * offset <= 0x1_0000_0000_0000_0000_0000_0000)
        by (nonlinear_arith)
        requires
            -0x8000_0000_0000_0000 <= n <= 0x8000_0000_0000_0000,
            -0x1_0000_0000 <= offset <= 0x1_0000_0000,
    ;
    let raw: i128 = n * offset + 1_280_000 * d;
    let adjusted: i128 = if raw < 0 {
        0
    } else if raw > full {
        full
    } else {
        raw
    };
    let mapped: i128 = if invert {
        full - adjusted
    } else {
        adjusted
    };
    let last: i128 = (ramp_len - 1) as i128;
    assert(0 <= mapped * last <= 0x40_0000_0000_0000 * 0x1_0000_0000_0000_0000) by (nonlinear_arith)
        requires
            0 <= mapped <= 0x40_0000_0000_0000,
            0 <= last <= 0x1_0000_0000_0000_0000,
    ;
    let nearest: i128 = (2 * (mapped * last) + full) / (2 * full);
    if nearest > last {
        last as usize
    } else {
        nearest as usize
    }
}

/// The adjusted level and the mapped intensity lie between nothing and full
/// brightness, whatever the level, the contrast and the inversion.
pub proof fn lemma_mapped_in_range(level: int, contrast: Contrast, invert: bool)
    requires
        contrast.wf(),
    ensures
        0 <= adjusted_level(level, contrast) <= LEVEL_MAX * contrast.denom,
        0 <= mapped_level(level, contrast, invert) <= LEVEL_MAX * contrast.denom,
{
    assert(0 <= LEVEL_MAX * contrast.denom) by (nonlinear_arith)
        requires
            contrast.denom > 0,
    ;
}

/// The position of a glyph lies within the ramp for every level, every
/// contrast factor and both settings of inversion.
pub proof fn lemma_position_in_ramp(level: int, contrast: Contrast, invert: bool, ramp_len: int)
    requires
        contrast.wf(),
        ramp_len >= 1,
    ensures
        0 <= glyph_position(level, contrast, invert, ramp_len) < ramp_len,
{
    lemma_mapped_in_range(level, contrast, invert);
    let mapped = mapped_level(level, contrast, invert);
    let full = LEVEL_MAX * contrast.denom;
    let last = ramp_len - 1;
    assert(0 < full && 0 <= mapped * last) by (nonlinear_arith)
        requires
            full == LEVEL_MAX * contrast.denom,
            contrast.denom > 0,
            0 <= mapped,
            0 <= last,
    ;
    lemma_div_pos_is_pos(2 * (mapped * last) + full, 2 * full);
}

/// At a contrast factor of one, inverting a level picks the glyph that the
/// mirrored level, full brightness less the level, gets without inverting.
pub proof fn lemma_inversion_mirrors(level: int, contrast: Contrast, ramp_len: int)
    requires
        contrast.wf(),
        contrast.is_neutral(),
        0 <= level <= LEVEL_MAX,
    ensures
        glyph_position(level, contrast, true, ramp_len) == glyph_position(
            LEVEL_MAX - level,
            contrast,
            false,
            ramp_len,
        ),
{
    let d = contrast.denom as int;
    lemma_neutral_keeps_level(level, contrast);
    lemma_neutral_keeps_level(LEVEL_MAX - level, contrast);
    assert(LEVEL_MAX * d - d * level == d * (LEVEL_MAX - level)) by (nonlinear_arith);
}

/// A contrast factor of one leaves every level between nothing and full
/// brightness as it is.
pub proof fn lemma_neutral_keeps_level(level: int, contrast: Contrast)
    requires
        contrast.wf(),
        contrast.is_neutral(),
        0 <= level <= LEVEL_MAX,
    ensures
        adjusted_level(level, contrast) == contrast.denom * level,
{
    let d = contrast.denom as int;
    assert(d * (level - LEVEL_MID) + LEVEL_MID * d == d * level) by (nonlinear_arith);
    assert(0 <= d * level <= LEVEL_MAX * d) by (nonlinear_arith)
        requires
            0 < d,
            0 <= level <= LEVEL_MAX,
    ;
}

/// Without inversion, and with a contrast factor that is not negative, a
/// brighter level never gets an earlier glyph. A factor of one is such a factor.
pub proof fn lemma_position_monotonic(low: int, high: int, contrast: Contrast, ramp_len: int)
    requires
        contrast.wf(),
        contrast.numer >= 0,
        ramp_len >= 1,
        low <= high,
    ensures
        glyph_position(low, contrast, false, ramp_len) <= glyph_position(
            high,
            contrast,
            false,
            ramp_len,
        ),
{
    let n = contrast.numer as int;
    let d = contrast.denom as int;
    let full = LEVEL_MAX * d;
    let last = ramp_len - 1;
    assert(n * (low - LEVEL_MID) <= n * (high - LEVEL_MID)) by (nonlinear_arith)
        requires
            0 <= n,
            low <= high,
    ;
    let dark = adjusted_level(low, contrast);
    let bright = adjusted_level(high, contrast);
    assert(dark <= bright);
    assert(dark * last <= bright * last && 0 < full) by (nonlinear_arith)
        requires
            dark <= bright,
            0 <= last,
            full == LEVEL_MAX * d,
            0 < d,
    ;
    lemma_div_is_ordered(2 * (dark * last) + full, 2 * (bright * last) + full, 2 * full);
}

/// With a contrast factor of at least one, black gets the first glyph of the
/// ramp and white the last; with inversion it is the other way round.
pub proof fn lemma_extremes(contrast: Contrast, ramp_len: int)
    requires
        contrast.wf(),
        contrast.numer >= contrast.denom,
        ramp_len >= 1,
    ensures
        glyph_position(0, contrast, false, ramp_len) == 0,
        glyph_position(LEVEL_MAX as int, contrast, false, ramp_len) == ramp_len - 1,
        glyph_position(0, contrast, true, ramp_len) == ramp_len - 1,
        glyph_position(LEVEL_MAX as int, contrast, true, ramp_len) == 0,
{
    let n = contrast.numer as int;
    let d = contrast.denom as int;
    let full = LEVEL_MAX * d;
    let last = ramp_len - 1;
    assert(n * (0 - LEVEL_MID) + LEVEL_MID * d <= 0) by (nonlinear_arith)
        requires
            n >= d,
    ;
    assert(n * (LEVEL_MAX - LEVEL_MID) + LEVEL_MID * d >= LEVEL_MAX * d) by (nonlinear_arith)
        requires
            n >= d,
    ;
    assert(adjusted_level(0, contrast) == 0);
    assert(adjusted_level(LEVEL_MAX as int, contrast) == full);
    assert(0 < full) by (nonlinear_arith)
        requires
            full == LEVEL_MAX * d,
            0 < d,
    ;
    lemma_round_div_whole(0, full);
    lemma_round_div_whole(last, full);
    assert(0 * last == 0);
    assert(full * last == last * full) by (nonlinear_arith);
}

/// A whole multiple of the divisor is its own nearest quotient.
pub proof fn lemma_round_div_whole(k: int, den: int)
    requires
        den > 0,
    ensures
        round_div(k * den, den) == k,
{
    assert(2 * (k * den) + den == k * (2 * den) + den) by (nonlinear_arith);
    assert((k * (2 * den) + den) / (2 * den) == k) by (nonlinear_arith)
        requires
            den > 0,
    ;
}

} // verus!
