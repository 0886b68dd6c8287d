//! Inversion of screen-space pointer coordinates into world-space grid
//! coordinates, and the edit actions bound to pointer buttons.
//!
//! When rulers are visible the ruler reservations are subtracted from the
//! screen coordinate first; a pointer that lands on the ruler strips maps
//! to `OutsideDrawable` and no edit happens. Otherwise the camera origin
//! is added to obtain the world coordinate. The bounds check against the
//! grid dimensions is left to the write itself, which silently ignores
//! out-of-range coordinates.

use vstd::prelude::*;

use crate::camera::Camera;
use crate::glyph::CELL_MAX;
use crate::glyph::CELL_MIN;
use crate::glyph::GlyphPolicy;
use crate::glyph::glyph_spec;
use crate::grid::Grid;
use crate::grid::grid_set;
use crate::viewport::RULER_LEFT_WIDTH;
use crate::viewport::RULER_TOP_HEIGHT;
use crate::viewport::cell_char;
use crate::viewport::content_height_of;
use crate::viewport::content_width_of;
use crate::viewport::render_rows;
use crate::viewport::ruler_content_row;
use crate::viewport::plain_row;

verus! {

/// The pointer landed on a ruler or label region, not on map content.
#[derive(Clone, Copy, PartialEq, Eq, Structural, Debug)]
pub struct OutsideDrawable;

/// The world coordinate a screen coordinate maps to, or `None` when the
/// pointer lies on the ruler reservations.
pub open spec fn pointer_world(sx: int, sy: int, cam_x: int, cam_y: int, ruler_visible: bool) -> Option<
    (int, int),
> {
    if ruler_visible {
        if sx >= RULER_LEFT_WIDTH as int && sy >= RULER_TOP_HEIGHT as int {
            Some(((sx - RULER_LEFT_WIDTH) + cam_x, (sy - RULER_TOP_HEIGHT) + cam_y))
        } else {
            None
        }
    } else {
        Some((sx + cam_x, sy + cam_y))
    }
}

/// The grid after a click at screen coordinate `(sx, sy)` writes `v`:
/// unchanged when the pointer lies on the rulers, and otherwise written
/// through the bounds-checked set at the mapped world coordinate.
pub open spec fn click_applied(
    g: Seq<Seq<i32>>,
    sx: int,
    sy: int,
    cam_x: int,
    cam_y: int,
    ruler_visible: bool,
    v: i32,
) -> Seq<Seq<i32>> {
    match pointer_world(sx, sy, cam_x, cam_y, ruler_visible) {
        Some(w) => grid_set(g, w.0, w.1, v),
        None => g,
    }
}

/// The pointer coordinate with the ruler reservations subtracted when
/// rulers are shown; a negative axis means the pointer sits on a ruler.
pub fn calc_adj_mouse(mouse_x: u16, mouse_y: u16, show_ruller: bool) -> (r: (isize, isize))
    ensures
        r.0 as int == if show_ruller {
            mouse_x - RULER_LEFT_WIDTH as int
        } else {
            mouse_x as int
        },
        r.1 as int == if show_ruller {
            mouse_y - RULER_TOP_HEIGHT as int
        } else {
            mouse_y as int
        },
{
    if show_ruller {
        (mouse_x as isize - RULER_LEFT_WIDTH as isize, mouse_y as isize - RULER_TOP_HEIGHT as isize)
    } else {
        (mouse_x as isize, mouse_y as isize)
    }
}

/// Maps a screen-space pointer coordinate to the world-space cell it
/// points at, or `OutsideDrawable` exactly when it lies on the ruler
/// reservations. The result is not bounds-checked against the grid.
pub fn map_to_world(screen_x: u16, screen_y: u16, camera: &Camera, ruler_visible: bool) -> (r:
    Result<(usize, usize), OutsideDrawable>)
    requires
        camera.x + screen_x as int <= usize::MAX,
        camera.y + screen_y as int <= usize::MAX,
    ensures
        ({
            let w = pointer_world(screen_x as int, screen_y as int, camera.x as int, camera.y as int, ruler_visible);
            match r {
                Ok(p) => w == Some((p.0 as int, p.1 as int)),
                Err(_) => w is None,
            }
        }),
{
    let (adj_x, adj_y) = calc_adj_mouse(screen_x, screen_y, ruler_visible);
    if adj_x >= 0 && adj_y >= 0 {
        Ok(((adj_x as usize) + camera.x, (adj_y as usize) + camera.y))
    } else {
        Err(OutsideDrawable)
    }
}

/// A paint action: writes the largest sentinel value at the cell the
/// pointer maps to; a pointer on the rulers or past the grid edge leaves
/// the grid unchanged.
pub fn handle_left_click(
    mouse_x: u16,
    mouse_y: u16,
    map: &mut Grid,
    camera_x: usize,
    camera_y: usize,
    show_ruller: bool,
)
    requires
        old(map).wf(),
        camera_x + mouse_x as int <= usize::MAX,
        camera_y + mouse_y as int <= usize::MAX,
    ensures
        final(map).wf(),
        final(map).spec_width() == old(map).spec_width(),
        final(map).spec_height() == old(map).spec_height(),
        final(map)@ == click_applied(
            old(map)@,
            mouse_x as int,
            mouse_y as int,
            camera_x as int,
            camera_y as int,
            show_ruller,
            CELL_MAX,
        ),
{
    let camera = Camera { x: camera_x, y: camera_y };
    match map_to_world(mouse_x, mouse_y, &camera, show_ruller) {
        Ok((wx, wy)) => map.set(wx, wy, CELL_MAX),
        Err(_) => (),
    }
}

/// An erase action: writes the smallest cell value at the cell the
/// pointer maps to; a pointer on the rulers or past the grid edge leaves
/// the grid unchanged.
pub fn handle_right_click(
    mouse_x: u16,
    mouse_y: u16,
    map: &mut Grid,
    camera_x: usize,
    camera_y: usize,
    show_ruller: bool,
)
    requires
        old(map).wf(),
        camera_x + mouse_x as int <= usize::MAX,
        camera_y + mouse_y as int <= usize::MAX,
    ensures
        final(map).wf(),
        final(map).spec_width() == old(map).spec_width(),
        final(map).spec_height() == old(map).spec_height(),
        final(map)@ == click_applied(
            old(map)@,
            mouse_x as int,
            mouse_y as int,
            camera_x as int,
            camera_y as int,
            show_ruller,
            CELL_MIN,
        ),
{
    let camera = Camera { x: camera_x, y: camera_y };
    match map_to_world(mouse_x, mouse_y, &camera, show_ruller) {
        Ok((wx, wy)) => map.set(wx, wy, CELL_MIN),
        Err(_) => (),
    }
}

/// Round trip with rulers visible: the glyph rendered at content offset
/// `(px, py)` shows world cell `(cam_x + px, cam_y + py)`, and a click at
/// the screen position of that glyph — the content offset shifted by the
/// ruler reservations — maps back to exactly that world cell.
pub proof fn lemma_pointer_render_round_trip_ruler(
    g: Seq<Seq<i32>>,
    gw: int,
    gh: int,
    policy: GlyphPolicy,
    cam_x: int,
    cam_y: int,
    w: int,
    h: int,
    px: int,
    py: int,
)
    requires
        0 <= px < content_width_of(w, true),
        0 <= py < content_height_of(h, true),
        cam_x + px < gw,
        cam_y + py < gh,
    ensures
        pointer_world(
            RULER_LEFT_WIDTH + px,
            RULER_TOP_HEIGHT + py,
            cam_x,
            cam_y,
            true,
        ) == Some((cam_x + px, cam_y + py)),
        render_rows(g, gw, gh, policy, cam_x, cam_y, w, h, true)[RULER_TOP_HEIGHT + py][RULER_LEFT_WIDTH
            + px] == glyph_spec(policy, g[cam_y + py][cam_x + px]),
{
    let rows = render_rows(g, gw, gh, policy, cam_x, cam_y, w, h, true);
    assert(rows[RULER_TOP_HEIGHT + py] == ruler_content_row(
        g,
        gw,
        gh,
        policy,
        cam_x,
        cam_y + py,
        w,
    ));
    assert(ruler_content_row(g, gw, gh, policy, cam_x, cam_y + py, w)[RULER_LEFT_WIDTH + px]
        == cell_char(g, gw, gh, policy, cam_x + px, cam_y + py));
}

/// Round trip with rulers hidden: the glyph rendered at offset `(px, py)`
/// shows world cell `(cam_x + px, cam_y + py)`, and a click at that same
/// screen position maps back to exactly that world cell.
pub proof fn lemma_pointer_render_round_trip_plain(
    g: Seq<Seq<i32>>,
    gw: int,
    gh: int,
    policy: GlyphPolicy,
    cam_x: int,
    cam_y: int,
    w: int,
    h: int,
    px: int,
    py: int,
)
    requires
        0 <= px < w,
        0 <= py < h,
        cam_x + px < gw,
        cam_y + py < gh,
    ensures
        pointer_world(px, py, cam_x, cam_y, false) == Some((cam_x + px, cam_y + py)),
        render_rows(g, gw, gh, policy, cam_x, cam_y, w, h, false)[py][px] == glyph_spec(
            policy,
            g[cam_y + py][cam_x + px],
        ),
{
    let rows = render_rows(g, gw, gh, policy, cam_x, cam_y, w, h, false);
    assert(rows[py] == plain_row(g, gw, gh, policy, cam_x, cam_y + py, w));
    assert(plain_row(g, gw, gh, policy, cam_x, cam_y + py, w)[px] == cell_char(
        g,
        gw,
        gh,
        policy,
        cam_x + px,
        cam_y + py,
    ));
}

} // verus!
