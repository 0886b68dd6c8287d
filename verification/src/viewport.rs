//! Projection of the visible grid slice, with optional coordinate rulers,
//! into a rectangular frame of text rows.
//!
//! The frame always has exactly `height` rows of exactly `width`
//! characters: world cells beyond the grid edge render as blanks, and
//! when rulers are visible the reserved regions are part of the frame.
//!
//! Ruler reservation policy: when rulers are visible, `RULER_LEFT_WIDTH`
//! columns on the left of every content row carry the Y-axis labels, one
//! row at the top carries the X-axis labels, and one trailing row at the
//! bottom is reserved and rendered blank. Both the top and the bottom
//! reservation are subtracted from the content height. The top label row
//! spends two characters per content column, so it is clipped at the
//! frame width; content rows on a frame narrower than the left
//! reservation are clipped the same way. Ruler labels are cyclic modulo
//! 100, not absolute.

use vstd::prelude::*;

use crate::camera::Camera;
use crate::camera::sat_sub;
use crate::glyph::GlyphPolicy;
use crate::glyph::glyph_spec;
use crate::glyph::glyph_for;
use crate::grid::Grid;

verus! {

/// Columns reserved on the left for Y-axis labels when rulers are shown.
pub const RULER_LEFT_WIDTH: usize = 4;

/// Rows reserved at the top for the X-axis label row when rulers are shown.
pub const RULER_TOP_HEIGHT: usize = 1;

/// Trailing rows reserved (rendered blank) when rulers are shown.
pub const RULER_BOTTOM_HEIGHT: usize = 1;

/// Per-frame drawable dimensions and ruler state: the terminal size with
/// the ruler reservations already subtracted when rulers are visible.
#[derive(Clone, Copy, PartialEq, Eq, Structural, Debug)]
pub struct ViewportConfig {
    pub drawable_width: usize,
    pub drawable_height: usize,
    pub ruler_visible: bool,
}

/// Content columns available in a frame `w` columns wide: the left ruler
/// reservation is subtracted when rulers are visible, floored at zero.
pub open spec fn content_width_of(w: int, ruler_visible: bool) -> int {
    if ruler_visible {
        sat_sub(w, RULER_LEFT_WIDTH as int)
    } else {
        w
    }
}

/// Content rows available in a frame `h` rows tall: the top and bottom
/// ruler reservations are subtracted when rulers are visible, floored at
/// zero.
pub open spec fn content_height_of(h: int, ruler_visible: bool) -> int {
    if ruler_visible {
        sat_sub(h, (RULER_TOP_HEIGHT + RULER_BOTTOM_HEIGHT) as int)
    } else {
        h
    }
}

impl ViewportConfig {
    /// Drawable dimensions for the current terminal size: reservations
    /// are subtracted only when rulers are visible, and the result is
    /// never negative.
    pub fn new(term_w: usize, term_h: usize, ruler_visible: bool) -> (c: ViewportConfig)
        ensures
            c.drawable_width == content_width_of(term_w as int, ruler_visible),
            c.drawable_height == content_height_of(term_h as int, ruler_visible),
            c.ruler_visible == ruler_visible,
    {
        if ruler_visible {
            ViewportConfig {
                drawable_width: if term_w >= RULER_LEFT_WIDTH {
                    term_w - RULER_LEFT_WIDTH
                } else {
                    0
                },
                drawable_height: if term_h >= RULER_TOP_HEIGHT + RULER_BOTTOM_HEIGHT {
                    term_h - (RULER_TOP_HEIGHT + RULER_BOTTOM_HEIGHT)
                } else {
                    0
                },
                ruler_visible,
            }
        } else {
            ViewportConfig { drawable_width: term_w, drawable_height: term_h, ruler_visible }
        }
    }
}

/// The character for a decimal digit.
pub open spec fn spec_digit_char(d: int) -> char {
    if d == 0 {
        '0'
    } else if d == 1 {
        '1'
    } else if d == 2 {
        '2'
    } else if d == 3 {
        '3'
    } else if d == 4 {
        '4'
    } else if d == 5 {
        '5'
    } else if d == 6 {
        '6'
    } else if d == 7 {
        '7'
    } else if d == 8 {
        '8'
    } else {
        '9'
    }
}

/// The character shown for world cell `(wx, wy)`: its glyph when the cell
/// lies inside the grid, a blank when the viewport hangs past the edge.
pub open spec fn cell_char(
    g: Seq<Seq<i32>>,
    gw: int,
    gh: int,
    policy: GlyphPolicy,
    wx: int,
    wy: int,
) -> char {
    if wx < gw && wy < gh {
        glyph_spec(policy, g[wy][wx])
    } else {
        ' '
    }
}

/// Character `i` of the top X-axis label row: blank padding over the left
/// reservation, then two characters per content column — the right-aligned
/// label of `world_x % 100` where `world_x % 10 == 0`, blanks elsewhere.
pub open spec fn top_ruler_char(cx: int, i: int) -> char {
    if i < RULER_LEFT_WIDTH as int {
        ' '
    } else {
        let j = i - RULER_LEFT_WIDTH;
        let wx = cx + j / 2;
        if wx % 10 == 0 {
            let v = wx % 100;
            if j % 2 == 0 {
                if v < 10 {
                    ' '
                } else {
                    spec_digit_char(v / 10)
                }
            } else {
                spec_digit_char(v % 10)
            }
        } else {
            ' '
        }
    }
}

/// Character `i` of the left Y-axis reservation on a content row: where
/// `world_y % 5 == 0`, the right-aligned three-character label of
/// `world_y % 100` followed by one separating blank; blanks elsewhere.
pub open spec fn left_ruler_char(wy: int, i: int) -> char {
    if wy % 5 == 0 {
        let v = wy % 100;
        if i == 1 {
            if v < 10 {
                ' '
            } else {
                spec_digit_char(v / 10)
            }
        } else if i == 2 {
            spec_digit_char(v % 10)
        } else {
            ' '
        }
    } else {
        ' '
    }
}

/// A content row without rulers: `w` cell characters starting at world
/// column `cx`.
pub open spec fn plain_row(
    g: Seq<Seq<i32>>,
    gw: int,
    gh: int,
    policy: GlyphPolicy,
    cx: int,
    wy: int,
    w: int,
) -> Seq<char> {
    Seq::new(w as nat, |i: int| cell_char(g, gw, gh, policy, cx + i, wy))
}

/// A content row with rulers: the left label reservation, then cell
/// characters, clipped to `w` characters in all.
pub open spec fn ruler_content_row(
    g: Seq<Seq<i32>>,
    gw: int,
    gh: int,
    policy: GlyphPolicy,
    cx: int,
    wy: int,
    w: int,
) -> Seq<char> {
    Seq::new(
        w as nat,
        |i: int|
            if i < RULER_LEFT_WIDTH as int {
                left_ruler_char(wy, i)
            } else {
                cell_char(g, gw, gh, policy, cx + (i - RULER_LEFT_WIDTH), wy)
            },
    )
}

/// The top X-axis label row, clipped to `w` characters.
pub open spec fn top_ruler_row(cx: int, w: int) -> Seq<char> {
    Seq::new(w as nat, |i: int| top_ruler_char(cx, i))
}

/// A reserved row rendered as `w` blanks.
pub open spec fn blank_row(w: int) -> Seq<char> {
    Seq::new(w as nat, |i: int| ' ')
}

/// The full rendered frame: `h` rows of `w` characters. Without rulers,
/// every row is a content row. With rulers, row 0 is the X-axis label
/// row, the next `content_height_of(h, true)` rows are content rows with
/// the left label reservation, and the remaining reserved rows are blank.
pub open spec fn render_rows(
    g: Seq<Seq<i32>>,
    gw: int,
    gh: int,
    policy: GlyphPolicy,
    cx: int,
    cy: int,
    w: int,
    h: int,
    ruler_visible: bool,
) -> Seq<Seq<char>> {
    if ruler_visible {
        Seq::new(
            h as nat,
            |r: int|
                if r == 0 {
                    top_ruler_row(cx, w)
                } else if r <= content_height_of(h, true) {
                    ruler_content_row(g, gw, gh, policy, cx, cy + (r - 1), w)
                } else {
                    blank_row(w)
                },
        )
    } else {
        Seq::new(h as nat, |r: int| plain_row(g, gw, gh, policy, cx, cy + r, w))
    }
}

/// The rendered frame of a grid and camera, as the view of `render`'s
/// result.
pub open spec fn render_of(
    grid: Grid,
    camera: Camera,
    w: int,
    h: int,
    ruler_visible: bool,
    policy: GlyphPolicy,
) -> Seq<Seq<char>> {
    render_rows(
        grid@,
        grid.spec_width(),
        grid.spec_height(),
        policy,
        camera.x as int,
        camera.y as int,
        w,
        h,
        ruler_visible,
    )
}

/// The rendered frame is always a full rectangle: exactly `h` rows of
/// exactly `w` characters, for every camera position and ruler state.
pub proof fn lemma_render_shape(
    g: Seq<Seq<i32>>,
    gw: int,
    gh: int,
    policy: GlyphPolicy,
    cx: int,
    cy: int,
    w: int,
    h: int,
    ruler_visible: bool,
)
    requires
        w >= 0,
        h >= 0,
    ensures
        render_rows(g, gw, gh, policy, cx, cy, w, h, ruler_visible).len() == h,
        forall|r: int|
            0 <= r < h ==> (#[trigger] render_rows(g, gw, gh, policy, cx, cy, w, h, ruler_visible)[r]).len()
                == w,
{
}

/// The character for a decimal digit below ten.
fn digit_char(d: usize) -> (c: char)
    requires
        d < 10,
    ensures
        c == spec_digit_char(d as int),
{
    match d {
        0 => '0',
        1 => '1',
        2 => '2',
        3 => '3',
        4 => '4',
        5 => '5',
        6 => '6',
        7 => '7',
        8 => '8',
        _ => '9',
    }
}

/// Character `i` of the top X-axis label row.
fn top_ruler_char_at(cam_x: usize, i: usize) -> (c: char)
    requires
        cam_x + i <= usize::MAX,
    ensures
        c == top_ruler_char(cam_x as int, i as int),
{
    if i < RULER_LEFT_WIDTH {
        ' '
    } else {
        let j = i - RULER_LEFT_WIDTH;
        let wx = cam_x + j / 2;
        if wx % 10 == 0 {
            let v = wx % 100;
            if j % 2 == 0 {
                if v < 10 {
                    ' '
                } else {
                    digit_char(v / 10)
                }
            } else {
                digit_char(v % 10)
            }
        } else {
            ' '
        }
    }
}

/// Character `i` of the left Y-axis reservation on the content row at
/// world row `world_y`.
fn left_ruler_char_at(world_y: usize, i: usize) -> (c: char)
    ensures
        c == left_ruler_char(world_y as int, i as int),
{
    if world_y % 5 == 0 {
        let v = world_y % 100;
        if i == 1 {
            if v < 10 {
                ' '
            } else {
                digit_char(v / 10)
            }
        } else if i == 2 {
            digit_char(v % 10)
        } else {
            ' '
        }
    } else {
        ' '
    }
}

/// The character shown for world cell `(wx, wy)`.
fn cell_char_at(grid: &Grid, policy: GlyphPolicy, wx: usize, wy: usize) -> (c: char)
    requires
        grid.wf(),
    ensures
        c == cell_char(grid@, grid.spec_width(), grid.spec_height(), policy, wx as int, wy as int),
{
    match grid.get(wx, wy) {
        Ok(v) => glyph_for(policy, v),
        Err(_) => ' ',
    }
}

/// The top X-axis label row, clipped to `w` characters.
fn build_top_row(cam_x: usize, w: usize) -> (row: Vec<char>)
    requires
        cam_x + w <= usize::MAX,
    ensures
        row@ == top_ruler_row(cam_x as int, w as int),
{
    let mut row: Vec<char> = Vec::new();
    let mut i: usize = 0;
    while i < w
        invariant
            i <= w,
            cam_x + w <= usize::MAX,
            row@.len() == i,
            forall|k: int| 0 <= k < i ==> #[trigger] row@[k] == top_ruler_char(cam_x as int, k),
        decreases w - i,
    {
        row.push(top_ruler_char_at(cam_x, i));
        i = i + 1;
    }
    assert(row@ =~= top_ruler_row(cam_x as int, w as int));
    row
}

/// A reserved row of `w` blanks.
fn build_blank_row(w: usize) -> (row: Vec<char>)
    ensures
        row@ == blank_row(w as int),
{
    let mut row: Vec<char> = Vec::new();
    let mut i: usize = 0;
    while i < w
        invariant
            i <= w,
            row@.len() == i,
            forall|k: int| 0 <= k < i ==> #[trigger] row@[k] == ' ',
        decreases w - i,
    {
        row.push(' ');
        i = i + 1;
    }
    assert(row@ =~= blank_row(w as int));
    row
}

/// One content row of the frame, with or without the left ruler
/// reservation, clipped to `w` characters.
fn build_content_row(
    grid: &Grid,
    policy: GlyphPolicy,
    cam_x: usize,
    world_y: usize,
    w: usize,
    with_ruler: bool,
) -> (row: Vec<char>)
    requires
        grid.wf(),
        cam_x + w <= usize::MAX,
    ensures
        with_ruler ==> row@ == ruler_content_row(
            grid@,
            grid.spec_width(),
            grid.spec_height(),
            policy,
            cam_x as int,
            world_y as int,
            w as int,
        ),
        !with_ruler ==> row@ == plain_row(
            grid@,
            grid.spec_width(),
            grid.spec_height(),
            policy,
            cam_x as int,
            world_y as int,
            w as int,
        ),
{
    let mut row: Vec<char> = Vec::new();
    let mut i: usize = 0;
    while i < w
        invariant
            i <= w,
            grid.wf(),
            cam_x + w <= usize::MAX,
            row@.len() == i,
            forall|k: int|
                0 <= k < i ==> #[trigger] row@[k] == (if with_ruler {
                    ruler_content_row(
                        grid@,
                        grid.spec_width(),
                        grid.spec_height(),
                        policy,
                        cam_x as int,
                        world_y as int,
                        w as int,
                    )
                } else {
                    plain_row(
                        grid@,
                        grid.spec_width(),
                        grid.spec_height(),
                        policy,
                        cam_x as int,
                        world_y as int,
                        w as int,
                    )
                })[k],
        decreases w - i,
    {
        let c = if with_ruler {
            if i < RULER_LEFT_WIDTH {
                left_ruler_char_at(world_y, i)
            } else {
                cell_char_at(grid, policy, cam_x + (i - RULER_LEFT_WIDTH), world_y)
            }
        } else {
            cell_char_at(grid, policy, cam_x + i, world_y)
        };
        row.push(c);
        i = i + 1;
    }
    if with_ruler {
        assert(row@ =~= ruler_content_row(
            grid@,
            grid.spec_width(),
            grid.spec_height(),
            policy,
            cam_x as int,
            world_y as int,
            w as int,
        ));
    } else {
        assert(row@ =~= plain_row(
            grid@,
            grid.spec_width(),
            grid.spec_height(),
            policy,
            cam_x as int,
            world_y as int,
            w as int,
        ));
    }
    row
}

/// Projects the visible slice of the grid, with rulers when requested,
/// into exactly `height` rows of exactly `width` characters each. Cells
/// past the grid edge render blank, so the frame is always a full
/// rectangle whatever the camera position.
pub fn render(
    grid: &Grid,
    camera: &Camera,
    width: usize,
    height: usize,
    ruler_visible: bool,
    policy: GlyphPolicy,
) -> (rows: Vec<Vec<char>>)
    requires
        grid.wf(),
        camera.x + width <= usize::MAX,
        camera.y + height <= usize::MAX,
    ensures
        rows@.len() == height,
        forall|r: int| 0 <= r < height ==> (#[trigger] rows@[r])@.len() == width,
        forall|r: int|
            0 <= r < height ==> (#[trigger] rows@[r])@ == render_of(
                *grid,
                *camera,
                width as int,
                height as int,
                ruler_visible,
                policy,
            )[r],
{
    let ghost frame = render_of(*grid, *camera, width as int, height as int, ruler_visible, policy);
    let mut rows: Vec<Vec<char>> = Vec::new();
    if ruler_visible {
        let content_h = if height >= RULER_TOP_HEIGHT + RULER_BOTTOM_HEIGHT {
            height - (RULER_TOP_HEIGHT + RULER_BOTTOM_HEIGHT)
        } else {
            0
        };
        let mut r: usize = 0;
        while r < height
            invariant
                r <= height,
                grid.wf(),
                camera.x + width <= usize::MAX,
                camera.y + height <= usize::MAX,
                content_h == content_height_of(height as int, true),
                frame == render_of(
                    *grid,
                    *camera,
                    width as int,
                    height as int,
                    true,
                    policy,
                ),
                rows@.len() == r,
                forall|k: int| 0 <= k < r ==> (#[trigger] rows@[k])@ == frame[k],
            decreases height - r,
        {
            let row: Vec<char> = if r == 0 {
                build_top_row(camera.x, width)
            } else if r <= content_h {
                build_content_row(grid, policy, camera.x, camera.y + (r - 1), width, true)
            } else {
                build_blank_row(width)
            };
            rows.push(row);
            r = r + 1;
        }
    } else {
        let mut r: usize = 0;
        while r < height
            invariant
                r <= height,
                grid.wf(),
                camera.x + width <= usize::MAX,
                camera.y + height <= usize::MAX,
                frame == render_of(
                    *grid,
                    *camera,
                    width as int,
                    height as int,
                    false,
                    policy,
                ),
                rows@.len() == r,
                forall|k: int| 0 <= k < r ==> (#[trigger] rows@[k])@ == frame[k],
            decreases height - r,
        {
            let row = build_content_row(grid, policy, camera.x, camera.y + r, width, false);
            rows.push(row);
            r = r + 1;
        }
    }
    proof {
        lemma_render_shape(
            grid@,
            grid.spec_width(),
            grid.spec_height(),
            policy,
            camera.x as int,
            camera.y as int,
            width as int,
            height as int,
            ruler_visible,
        );
    }
    rows
}

} // verus!
