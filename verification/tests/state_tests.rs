use gridview::camera::Camera;
use gridview::glyph::CELL_MAX;
use gridview::grid::Grid;
use gridview::state::{apply_action, Action, ViewerState};

fn world() -> (ViewerState, Grid) {
    (ViewerState::start(), Grid::new(200, 200, 0))
}

#[test]
fn start_state_shows_rulers_and_help() {
    let s = ViewerState::start();
    assert_eq!(s.camera, Camera { x: 0, y: 0 });
    assert!(s.ruler_visible);
    assert!(s.help_visible);
    assert!(!s.quit);
}

#[test]
fn directional_moves_pan_one_cell() {
    let (mut s, mut g) = world();
    apply_action(&mut s, &mut g, Action::MoveRight, 30, 12, );
    apply_action(&mut s, &mut g, Action::MoveRight, 30, 12);
    apply_action(&mut s, &mut g, Action::MoveDown, 30, 12);
    assert_eq!(s.camera, Camera { x: 2, y: 1 });
    apply_action(&mut s, &mut g, Action::MoveLeft, 30, 12);
    apply_action(&mut s, &mut g, Action::MoveUp, 30, 12);
    assert_eq!(s.camera, Camera { x: 1, y: 0 });
    // At the origin a further move is a no-op.
    apply_action(&mut s, &mut g, Action::MoveLeft, 30, 12);
    apply_action(&mut s, &mut g, Action::MoveLeft, 30, 12);
    assert_eq!(s.camera, Camera { x: 0, y: 0 });
}

#[test]
fn half_page_snaps_to_the_bound() {
    let (mut s, mut g) = world();
    s.ruler_visible = false;
    s.camera.y = 80;
    // Terminal 10x50, rulers off: drawable height 50, max_y = 150.
    apply_action(&mut s, &mut g, Action::HalfPageDown, 10, 50);
    assert_eq!(s.camera.y, 105);
    apply_action(&mut s, &mut g, Action::HalfPageDown, 10, 50);
    assert_eq!(s.camera.y, 130);
    apply_action(&mut s, &mut g, Action::HalfPageDown, 10, 50);
    assert_eq!(s.camera.y, 150);
    apply_action(&mut s, &mut g, Action::HalfPageDown, 10, 50);
    assert_eq!(s.camera.y, 150);
    apply_action(&mut s, &mut g, Action::HalfPageUp, 10, 50);
    assert_eq!(s.camera.y, 125);
}

#[test]
fn resize_clamps_before_input() {
    let (mut s, mut g) = world();
    s.ruler_visible = false;
    s.camera = Camera { x: 150, y: 180 };
    // A grown terminal shrinks the pan range; even an idle frame pulls
    // the camera back in.
    apply_action(&mut s, &mut g, Action::Idle, 100, 100);
    assert_eq!(s.camera, Camera { x: 100, y: 100 });
    apply_action(&mut s, &mut g, Action::Idle, 300, 300);
    assert_eq!(s.camera, Camera { x: 0, y: 0 });
}

#[test]
fn camera_stays_in_bounds_over_any_frame_sequence() {
    let (mut s, mut g) = world();
    let frames = [
        (30usize, 12usize, Action::MoveRight),
        (10, 50, Action::HalfPageDown),
        (300, 300, Action::MoveDown),
        (10, 5, Action::HalfPageDown),
        (10, 5, Action::HalfPageDown),
        (10, 5, Action::HalfPageDown),
        (50, 50, Action::ToggleRuler),
        (50, 50, Action::MoveRight),
        (7, 3, Action::Paint(5, 2)),
        (30, 12, Action::HalfPageUp),
    ];
    for &(tw, th, a) in &frames {
        let ruler_at_clamp = s.ruler_visible;
        apply_action(&mut s, &mut g, a, tw, th);
        // Recompute the bounds the frame clamped with.
        let (dw, dh) = if ruler_at_clamp {
            (tw.saturating_sub(4), th.saturating_sub(2))
        } else {
            (tw, th)
        };
        let max_x = 200usize.saturating_sub(dw);
        let max_y = 200usize.saturating_sub(dh);
        assert!(s.camera.x <= max_x);
        assert!(s.camera.y <= max_y);
    }
}

#[test]
fn toggles_and_quit() {
    let (mut s, mut g) = world();
    apply_action(&mut s, &mut g, Action::ToggleRuler, 30, 12);
    assert!(!s.ruler_visible);
    apply_action(&mut s, &mut g, Action::ToggleRuler, 30, 12);
    assert!(s.ruler_visible);
    apply_action(&mut s, &mut g, Action::ToggleHelp, 30, 12);
    assert!(!s.help_visible);
    assert!(!s.quit);
    apply_action(&mut s, &mut g, Action::Quit, 30, 12);
    assert!(s.quit);
}

#[test]
fn paint_goes_through_the_clamped_camera() {
    let (mut s, mut g) = world();
    s.ruler_visible = false;
    s.camera = Camera { x: 150, y: 180 };
    // Terminal 100x100 pulls the camera to (100, 100) first; the click at
    // screen (3, 4) then paints world (103, 104).
    apply_action(&mut s, &mut g, Action::Paint(3, 4), 100, 100);
    assert_eq!(g.get(103, 104), Ok(CELL_MAX));
}
