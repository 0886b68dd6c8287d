use gridview::glyph::{
    glyph_for, GlyphPolicy, BAND_HIGH, BAND_LOW, CELL_MAX, CELL_MIN, GLYPH_BAND_0, GLYPH_BAND_1,
    GLYPH_BAND_2, GLYPH_BAND_3, GLYPH_BINARY_HIGH, GLYPH_BINARY_LOW,
};

#[test]
fn binary_boundary_is_inclusive_below() {
    // A value of exactly 0.0 belongs to the low band.
    assert_eq!(glyph_for(GlyphPolicy::Binary, 0), GLYPH_BINARY_LOW);
    assert_eq!(glyph_for(GlyphPolicy::Binary, -1), GLYPH_BINARY_LOW);
    assert_eq!(glyph_for(GlyphPolicy::Binary, CELL_MIN), GLYPH_BINARY_LOW);
    assert_eq!(glyph_for(GlyphPolicy::Binary, 1), GLYPH_BINARY_HIGH);
    assert_eq!(glyph_for(GlyphPolicy::Binary, CELL_MAX), GLYPH_BINARY_HIGH);
}

#[test]
fn four_band_boundaries() {
    assert_eq!(glyph_for(GlyphPolicy::FourBand, CELL_MIN), GLYPH_BAND_0);
    assert_eq!(glyph_for(GlyphPolicy::FourBand, BAND_LOW), GLYPH_BAND_0);
    assert_eq!(glyph_for(GlyphPolicy::FourBand, BAND_LOW + 1), GLYPH_BAND_1);
    assert_eq!(glyph_for(GlyphPolicy::FourBand, 0), GLYPH_BAND_1);
    assert_eq!(glyph_for(GlyphPolicy::FourBand, 1), GLYPH_BAND_2);
    assert_eq!(glyph_for(GlyphPolicy::FourBand, BAND_HIGH), GLYPH_BAND_2);
    assert_eq!(glyph_for(GlyphPolicy::FourBand, BAND_HIGH + 1), GLYPH_BAND_3);
    assert_eq!(glyph_for(GlyphPolicy::FourBand, CELL_MAX), GLYPH_BAND_3);
}

#[test]
fn same_value_same_glyph() {
    for v in [i32::MIN, CELL_MIN, -1, 0, 1, CELL_MAX, i32::MAX] {
        assert_eq!(
            glyph_for(GlyphPolicy::Binary, v),
            glyph_for(GlyphPolicy::Binary, v)
        );
        assert_eq!(
            glyph_for(GlyphPolicy::FourBand, v),
            glyph_for(GlyphPolicy::FourBand, v)
        );
    }
}
