use gridview::camera::Camera;
use gridview::glyph::{GlyphPolicy, GLYPH_BINARY_HIGH, GLYPH_BINARY_LOW};
use gridview::grid::Grid;
use gridview::viewport::{render, ViewportConfig, RULER_LEFT_WIDTH};

fn seeded_grid() -> Grid {
    let mut g = Grid::new(200, 200, 0);
    g.seed_landmarks();
    g
}

#[test]
fn frame_is_rectangular_without_rulers() {
    let g = seeded_grid();
    let cam = Camera { x: 0, y: 0 };
    let rows = render(&g, &cam, 10, 5, false, GlyphPolicy::Binary);
    assert_eq!(rows.len(), 5);
    for row in &rows {
        assert_eq!(row.len(), 10);
    }
}

#[test]
fn frame_is_rectangular_with_rulers() {
    let g = seeded_grid();
    let cam = Camera { x: 0, y: 0 };
    let rows = render(&g, &cam, 30, 12, true, GlyphPolicy::Binary);
    assert_eq!(rows.len(), 12);
    for row in &rows {
        assert_eq!(row.len(), 30);
    }
}

#[test]
fn frame_is_rectangular_at_grid_edge() {
    let g = seeded_grid();
    // The viewport hangs past the bottom-right edge of the grid.
    let cam = Camera { x: 195, y: 196 };
    let rows = render(&g, &cam, 10, 8, false, GlyphPolicy::Binary);
    assert_eq!(rows.len(), 8);
    for row in &rows {
        assert_eq!(row.len(), 10);
    }
    // World cells past the edge render blank.
    assert_eq!(rows[0][5], ' '); // world x = 200
    assert_eq!(rows[4][0], ' '); // world y = 200
    // The far-corner landmark (199, 199) is at offset (4, 3).
    assert_eq!(rows[3][4], GLYPH_BINARY_HIGH);
}

#[test]
fn seeded_origin_renders_high() {
    let g = seeded_grid();
    let cam = Camera { x: 0, y: 0 };
    let rows = render(&g, &cam, 10, 5, false, GlyphPolicy::Binary);
    assert_eq!(rows.len(), 5);
    assert_eq!(rows[0].len(), 10);
    assert_eq!(rows[0][0], GLYPH_BINARY_HIGH);
    assert_eq!(rows[0][1], GLYPH_BINARY_LOW);
    assert_eq!(rows[1][0], GLYPH_BINARY_LOW);
}

#[test]
fn top_ruler_labels_every_tenth_column() {
    let g = seeded_grid();
    let cam = Camera { x: 0, y: 0 };
    let rows = render(&g, &cam, 30, 12, true, GlyphPolicy::Binary);
    // Label " 0" for world x = 0 sits at columns 4-5 of the top row.
    assert_eq!(rows[0][4], ' ');
    assert_eq!(rows[0][5], '0');
    // In between: blanks.
    for i in 6..24 {
        assert_eq!(rows[0][i], ' ');
    }
    // Label "10" for world x = 10 sits at columns 24-25.
    assert_eq!(rows[0][24], '1');
    assert_eq!(rows[0][25], '0');
}

#[test]
fn top_ruler_labels_wrap_modulo_100() {
    let g = seeded_grid();
    let cam = Camera { x: 100, y: 0 };
    let rows = render(&g, &cam, 10, 5, true, GlyphPolicy::Binary);
    // World x = 100 labels as " 0" (cyclic two-digit labels).
    assert_eq!(rows[0][4], ' ');
    assert_eq!(rows[0][5], '0');
}

#[test]
fn left_ruler_labels_every_fifth_row() {
    let g = seeded_grid();
    let cam = Camera { x: 0, y: 0 };
    // Height 13 with rulers shows world rows 0..=10 on frame rows 1..=11.
    let rows = render(&g, &cam, 30, 13, true, GlyphPolicy::Binary);
    // Content row for world y = 0 is frame row 1: label "  0 ".
    assert_eq!(&rows[1][0..4], [' ', ' ', '0', ' ']);
    // World y = 1 is unlabeled.
    assert_eq!(&rows[2][0..4], [' ', ' ', ' ', ' ']);
    // World y = 5 labels "  5 ", world y = 10 labels " 10 ".
    assert_eq!(&rows[6][0..4], [' ', ' ', '5', ' ']);
    assert_eq!(&rows[11][0..4], [' ', '1', '0', ' ']);
}

#[test]
fn ruler_frame_content_starts_after_reservation() {
    let g = seeded_grid();
    let cam = Camera { x: 0, y: 0 };
    let rows = render(&g, &cam, 30, 12, true, GlyphPolicy::Binary);
    // The seeded origin cell shows at content offset (0, 0): frame
    // position (RULER_LEFT_WIDTH, 1).
    assert_eq!(rows[1][RULER_LEFT_WIDTH], GLYPH_BINARY_HIGH);
    assert_eq!(rows[1][RULER_LEFT_WIDTH + 1], GLYPH_BINARY_LOW);
    // The reserved bottom row is blank.
    assert!(rows[11][4..].iter().all(|&c| c == ' '));
}

#[test]
fn drawable_dimensions_subtract_reservations() {
    let cfg = ViewportConfig::new(30, 12, true);
    assert_eq!(cfg.drawable_width, 26);
    assert_eq!(cfg.drawable_height, 10);
    assert!(cfg.ruler_visible);
    let plain = ViewportConfig::new(30, 12, false);
    assert_eq!(plain.drawable_width, 30);
    assert_eq!(plain.drawable_height, 12);
    // Degenerate: a terminal smaller than the reservations yields zero,
    // never a negative dimension.
    let tiny = ViewportConfig::new(2, 1, true);
    assert_eq!(tiny.drawable_width, 0);
    assert_eq!(tiny.drawable_height, 0);
}

#[test]
fn tiny_frames_are_still_rectangular() {
    let g = seeded_grid();
    let cam = Camera { x: 0, y: 0 };
    for (w, h) in [(0, 0), (1, 1), (3, 2), (4, 1), (2, 5)] {
        for ruler in [false, true] {
            let rows = render(&g, &cam, w, h, ruler, GlyphPolicy::Binary);
            assert_eq!(rows.len(), h);
            for row in &rows {
                assert_eq!(row.len(), w);
            }
        }
    }
}
