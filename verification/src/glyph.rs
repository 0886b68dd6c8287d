//! Mapping a cell value to a single displayable glyph.
//!
//! Cell values are fixed-point scalars: an `i32` holding the value scaled
//! by 1000 (`CELL_SCALE`), so noise output in `[-1.0, 1.0]` becomes
//! `[-1000, 1000]`. Two display policies coexist: a binary canvas policy
//! (at or below zero is a sparse "low" glyph, above zero a solid "high"
//! glyph) and a four-band policy with thresholds at -0.5, 0.0 and 0.5
//! that shades continuous procedural data by increasing density. Both are
//! pure, total functions: every value maps to exactly one glyph.

use vstd::prelude::*;

verus! {

/// Fixed-point scale: a cell value of `CELL_SCALE` stands for 1.0.
pub const CELL_SCALE: i32 = 1000;

/// Largest sentinel cell value (1.0); written by paint actions and
/// landmark seeding.
pub const CELL_MAX: i32 = 1000;

/// Smallest cell value (-1.0); written by erase actions.
pub const CELL_MIN: i32 = -1000;

/// Four-band threshold -0.5: values at or below it fall in the lowest band.
pub const BAND_LOW: i32 = -500;

/// Four-band threshold 0.0; also the binary policy's low/high boundary.
pub const BAND_MID: i32 = 0;

/// Four-band threshold 0.5: values above it fall in the highest band.
pub const BAND_HIGH: i32 = 500;

/// Sparse glyph for the binary policy's low range (at or below zero).
pub const GLYPH_BINARY_LOW: char = '░';

/// Solid glyph for the binary policy's high range (above zero).
pub const GLYPH_BINARY_HIGH: char = '█';

/// Four-band glyphs of increasing density, lowest band first.
pub const GLYPH_BAND_0: char = '░';

/// Second four-band glyph: values in (-0.5, 0.0].
pub const GLYPH_BAND_1: char = '▒';

/// Third four-band glyph: values in (0.0, 0.5].
pub const GLYPH_BAND_2: char = '▓';

/// Highest-density four-band glyph: values above 0.5.
pub const GLYPH_BAND_3: char = '█';

/// Which of the two display policies maps cell values to glyphs.
#[derive(Clone, Copy, PartialEq, Eq, Structural, Debug)]
pub enum GlyphPolicy {
    /// Editable binary canvas: low glyph at or below zero, high above.
    Binary,
    /// Continuous procedural data shaded into four density bands.
    FourBand,
}

/// The glyph a cell value displays as under a policy. Band boundaries are
/// exclusive below and inclusive above: a value equal to a threshold
/// belongs to the band below it.
pub open spec fn glyph_spec(policy: GlyphPolicy, value: i32) -> char {
    match policy {
        GlyphPolicy::Binary => if value <= BAND_MID {
            GLYPH_BINARY_LOW
        } else {
            GLYPH_BINARY_HIGH
        },
        GlyphPolicy::FourBand => if value <= BAND_LOW {
            GLYPH_BAND_0
        } else if value <= BAND_MID {
            GLYPH_BAND_1
        } else if value <= BAND_HIGH {
            GLYPH_BAND_2
        } else {
            GLYPH_BAND_3
        },
    }
}

/// Maps a cell value to its glyph under the chosen policy. Total and
/// pure: it never fails, and equal values always yield the same glyph.
pub fn glyph_for(policy: GlyphPolicy, value: i32) -> (c: char)
    ensures
        c == glyph_spec(policy, value),
{
    match policy {
        GlyphPolicy::Binary => {
            if value <= BAND_MID {
                GLYPH_BINARY_LOW
            } else {
                GLYPH_BINARY_HIGH
            }
        },
        GlyphPolicy::FourBand => {
            if value <= BAND_LOW {
                GLYPH_BAND_0
            } else if value <= BAND_MID {
                GLYPH_BAND_1
            } else if value <= BAND_HIGH {
                GLYPH_BAND_2
            } else {
                GLYPH_BAND_3
            }
        },
    }
}

/// The glyph mapping is a total function of the value alone: equal values
/// yield equal glyphs, and every value falls in exactly one band, with
/// each boundary value belonging to the band below it.
pub proof fn lemma_glyph_total(policy: GlyphPolicy, a: i32, b: i32)
    requires
        a == b,
    ensures
        glyph_spec(policy, a) == glyph_spec(policy, b),
        a <= BAND_MID ==> glyph_spec(GlyphPolicy::Binary, a) == GLYPH_BINARY_LOW,
        a > BAND_MID ==> glyph_spec(GlyphPolicy::Binary, a) == GLYPH_BINARY_HIGH,
        a <= BAND_LOW ==> glyph_spec(GlyphPolicy::FourBand, a) == GLYPH_BAND_0,
        BAND_LOW < a && a <= BAND_MID ==> glyph_spec(GlyphPolicy::FourBand, a) == GLYPH_BAND_1,
        BAND_MID < a && a <= BAND_HIGH ==> glyph_spec(GlyphPolicy::FourBand, a) == GLYPH_BAND_2,
        a > BAND_HIGH ==> glyph_spec(GlyphPolicy::FourBand, a) == GLYPH_BAND_3,
{
}

} // verus!
