use gridview::camera::Camera;
use gridview::glyph::{CELL_MAX, CELL_MIN};
use gridview::grid::Grid;
use gridview::pointer::{
    calc_adj_mouse, handle_left_click, handle_right_click, map_to_world, OutsideDrawable,
};

#[test]
fn adjusts_for_rulers() {
    assert_eq!(calc_adj_mouse(10, 7, true), (6, 6));
    assert_eq!(calc_adj_mouse(10, 7, false), (10, 7));
    // On the ruler strips the adjusted coordinate goes negative.
    assert_eq!(calc_adj_mouse(3, 0, true), (-1, -1));
}

#[test]
fn maps_screen_to_world() {
    let cam = Camera { x: 20, y: 30 };
    assert_eq!(map_to_world(4, 1, &cam, true), Ok((20, 30)));
    assert_eq!(map_to_world(9, 3, &cam, true), Ok((25, 32)));
    assert_eq!(map_to_world(0, 0, &cam, false), Ok((20, 30)));
    assert_eq!(map_to_world(9, 3, &cam, false), Ok((29, 33)));
}

#[test]
fn ruler_area_is_outside_drawable() {
    let cam = Camera { x: 0, y: 0 };
    assert_eq!(map_to_world(0, 0, &cam, true), Err(OutsideDrawable));
    assert_eq!(map_to_world(3, 5, &cam, true), Err(OutsideDrawable));
    assert_eq!(map_to_world(5, 0, &cam, true), Err(OutsideDrawable));
}

#[test]
fn left_click_paints_one_cell() {
    let mut g = Grid::new(10, 10, 0);
    handle_left_click(5, 2, &mut g, 0, 0, false);
    assert_eq!(g.get(5, 2), Ok(CELL_MAX));
    // Exactly one cell changed.
    for y in 0..10 {
        for x in 0..10 {
            if (x, y) != (5, 2) {
                assert_eq!(g.get(x, y), Ok(0));
            }
        }
    }
}

#[test]
fn right_click_erases_one_cell() {
    let mut g = Grid::new(10, 10, 7);
    handle_right_click(6, 3, &mut g, 2, 1, false);
    assert_eq!(g.get(8, 4), Ok(CELL_MIN));
    assert_eq!(g.get(6, 3), Ok(7));
}

#[test]
fn click_on_ruler_edits_nothing() {
    let mut g = Grid::new(10, 10, 7);
    handle_left_click(2, 0, &mut g, 0, 0, true);
    for y in 0..10 {
        for x in 0..10 {
            assert_eq!(g.get(x, y), Ok(7));
        }
    }
}

#[test]
fn click_past_grid_edge_edits_nothing() {
    let mut g = Grid::new(10, 10, 7);
    handle_left_click(50, 50, &mut g, 0, 0, false);
    for y in 0..10 {
        for x in 0..10 {
            assert_eq!(g.get(x, y), Ok(7));
        }
    }
}

#[test]
fn click_accounts_for_rulers_and_camera() {
    let mut g = Grid::new(100, 100, 0);
    // Screen (4, 1) is content offset (0, 0): world = camera.
    handle_left_click(4, 1, &mut g, 30, 40, true);
    assert_eq!(g.get(30, 40), Ok(CELL_MAX));
}
