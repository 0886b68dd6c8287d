//! The per-frame decision logic of the event loop: which camera movement,
//! toggle or edit each input action performs, and how the camera is
//! clamped to the current terminal size first.
//!
//! Each frame the caller re-queries the terminal size, then hands one
//! action (or `Idle` on a timeout) to `apply_action`, which recomputes
//! the pan bounds for the current ruler state, pulls the camera back into
//! range, and applies the action. Polling, drawing and event decoding
//! stay outside the library.

use vstd::prelude::*;

use crate::camera::Camera;
use crate::camera::camera_clamped;
use crate::camera::clamp_to;
use crate::camera::compute_bounds;
use crate::camera::min_int;
use crate::camera::sat_sub;
use crate::glyph::CELL_MAX;
use crate::glyph::CELL_MIN;
use crate::grid::Grid;
use crate::pointer::click_applied;
use crate::pointer::handle_left_click;
use crate::pointer::handle_right_click;
use crate::viewport::ViewportConfig;
use crate::viewport::content_height_of;
use crate::viewport::content_width_of;

verus! {

/// One user input, already decoded from the terminal event stream.
#[derive(Clone, Copy, PartialEq, Eq, Structural, Debug)]
pub enum Action {
    /// Pan one cell left.
    MoveLeft,
    /// Pan one cell right.
    MoveRight,
    /// Pan one cell up.
    MoveUp,
    /// Pan one cell down.
    MoveDown,
    /// Pan down by half the drawable height, snapping to the bound.
    HalfPageDown,
    /// Pan up by half the drawable height, snapping to zero.
    HalfPageUp,
    /// Toggle the coordinate rulers.
    ToggleRuler,
    /// Toggle the help overlay.
    ToggleHelp,
    /// Leave the event loop.
    Quit,
    /// Paint the cell under the pointer (screen column, screen row).
    Paint(u16, u16),
    /// Erase the cell under the pointer (screen column, screen row).
    Erase(u16, u16),
    /// A poll timeout: clamp and redraw only.
    Idle,
}

/// Everything the event loop mutates besides the grid itself.
#[derive(Clone, Copy, PartialEq, Eq, Structural, Debug)]
pub struct ViewerState {
    pub camera: Camera,
    pub ruler_visible: bool,
    pub help_visible: bool,
    pub quit: bool,
}

/// The camera's largest legal x for a grid `gw` wide in a terminal `tw`
/// wide under the given ruler state.
pub open spec fn frame_max_x(gw: int, tw: int, ruler_visible: bool) -> int {
    sat_sub(gw, content_width_of(tw, ruler_visible))
}

/// The camera's largest legal y for a grid `gh` tall in a terminal `th`
/// tall under the given ruler state.
pub open spec fn frame_max_y(gh: int, th: int, ruler_visible: bool) -> int {
    sat_sub(gh, content_height_of(th, ruler_visible))
}

/// The camera pulled back into `[0, mx] x [0, my]`.
pub open spec fn clamped_camera(c: Camera, mx: int, my: int) -> Camera {
    Camera { x: min_int(c.x as int, mx) as usize, y: min_int(c.y as int, my) as usize }
}

/// The camera shifted by a signed delta, each axis clamped to its range.
pub open spec fn moved_camera(c: Camera, dx: int, dy: int, mx: int, my: int) -> Camera {
    Camera { x: clamp_to(c.x + dx, mx) as usize, y: clamp_to(c.y + dy, my) as usize }
}

/// The viewer state after one frame: the camera clamped to the bounds of
/// the current terminal size and ruler state, then one action applied.
pub open spec fn next_state(
    s: ViewerState,
    gw: int,
    gh: int,
    tw: int,
    th: int,
    a: Action,
) -> ViewerState {
    let mx = frame_max_x(gw, tw, s.ruler_visible);
    let my = frame_max_y(gh, th, s.ruler_visible);
    let dh = content_height_of(th, s.ruler_visible);
    let c = clamped_camera(s.camera, mx, my);
    let cam = match a {
        Action::MoveLeft => moved_camera(c, -1, 0, mx, my),
        Action::MoveRight => moved_camera(c, 1, 0, mx, my),
        Action::MoveUp => moved_camera(c, 0, -1, mx, my),
        Action::MoveDown => moved_camera(c, 0, 1, mx, my),
        Action::HalfPageDown => Camera { x: c.x, y: min_int(c.y + dh / 2, my) as usize },
        Action::HalfPageUp => Camera { x: c.x, y: sat_sub(c.y as int, dh / 2) as usize },
        _ => c,
    };
    ViewerState {
        camera: cam,
        ruler_visible: if a is ToggleRuler {
            !s.ruler_visible
        } else {
            s.ruler_visible
        },
        help_visible: if a is ToggleHelp {
            !s.help_visible
        } else {
            s.help_visible
        },
        quit: if a is Quit {
            true
        } else {
            s.quit
        },
    }
}

/// The grid after one frame: changed only by a paint or erase action,
/// through the clamped camera of that frame.
pub open spec fn next_grid(
    g: Seq<Seq<i32>>,
    s: ViewerState,
    gw: int,
    gh: int,
    tw: int,
    th: int,
    a: Action,
) -> Seq<Seq<i32>> {
    let mx = frame_max_x(gw, tw, s.ruler_visible);
    let my = frame_max_y(gh, th, s.ruler_visible);
    let c = clamped_camera(s.camera, mx, my);
    match a {
        Action::Paint(x, y) => click_applied(
            g,
            x as int,
            y as int,
            c.x as int,
            c.y as int,
            s.ruler_visible,
            CELL_MAX,
        ),
        Action::Erase(x, y) => click_applied(
            g,
            x as int,
            y as int,
            c.x as int,
            c.y as int,
            s.ruler_visible,
            CELL_MIN,
        ),
        _ => g,
    }
}

impl ViewerState {
    /// The state the viewer starts in: camera at the origin, rulers and
    /// help overlay shown.
    pub fn start() -> (s: ViewerState)
        ensures
            s == (ViewerState {
                camera: Camera { x: 0usize, y: 0usize },
                ruler_visible: true,
                help_visible: true,
                quit: false,
            }),
    {
        ViewerState {
            camera: Camera { x: 0, y: 0 },
            ruler_visible: true,
            help_visible: true,
            quit: false,
        }
    }
}

/// One frame of the event loop: recomputes the pan bounds from the
/// current terminal size and ruler state, clamps the camera, then applies
/// the action to the state and — for paint and erase — to the grid.
pub fn apply_action(
    state: &mut ViewerState,
    grid: &mut Grid,
    action: Action,
    term_w: usize,
    term_h: usize,
)
    requires
        old(grid).wf(),
        old(grid).spec_width() + u16::MAX <= usize::MAX,
        old(grid).spec_height() + u16::MAX <= usize::MAX,
    ensures
        final(grid).wf(),
        final(grid).spec_width() == old(grid).spec_width(),
        final(grid).spec_height() == old(grid).spec_height(),
        *final(state) == next_state(
            *old(state),
            old(grid).spec_width(),
            old(grid).spec_height(),
            term_w as int,
            term_h as int,
            action,
        ),
        final(grid)@ == next_grid(
            old(grid)@,
            *old(state),
            old(grid).spec_width(),
            old(grid).spec_height(),
            term_w as int,
            term_h as int,
            action,
        ),
{
    let grid_w = grid.width();
    let grid_h = grid.height();
    let cfg = ViewportConfig::new(term_w, term_h, state.ruler_visible);
    let (mx, my) = compute_bounds(grid_w, grid_h, cfg.drawable_width, cfg.drawable_height);
    state.camera.clamp(mx, my);
    proof {
        assert(state.camera == clamped_camera(
            old(state).camera,
            frame_max_x(grid_w as int, term_w as int, old(state).ruler_visible),
            frame_max_y(grid_h as int, term_h as int, old(state).ruler_visible),
        ));
    }
    match action {
        Action::MoveLeft => state.camera.move_by(-1, 0, mx, my),
        Action::MoveRight => state.camera.move_by(1, 0, mx, my),
        Action::MoveUp => state.camera.move_by(0, -1, mx, my),
        Action::MoveDown => state.camera.move_by(0, 1, mx, my),
        Action::HalfPageDown => state.camera.page_down(cfg.drawable_height, my),
        Action::HalfPageUp => state.camera.page_up(cfg.drawable_height),
        Action::ToggleRuler => state.ruler_visible = !state.ruler_visible,
        Action::ToggleHelp => state.help_visible = !state.help_visible,
        Action::Quit => state.quit = true,
        Action::Paint(x, y) => handle_left_click(
            x,
            y,
            grid,
            state.camera.x,
            state.camera.y,
            state.ruler_visible,
        ),
        Action::Erase(x, y) => handle_right_click(
            x,
            y,
            grid,
            state.camera.x,
            state.camera.y,
            state.ruler_visible,
        ),
        Action::Idle => (),
    }
}

/// After any single frame, the camera lies within the pan bounds computed
/// for that frame's terminal size and the ruler state the frame clamped
/// with.
pub proof fn lemma_step_camera_in_bounds(
    s: ViewerState,
    gw: int,
    gh: int,
    tw: int,
    th: int,
    a: Action,
)
    requires
        0 <= gw <= usize::MAX,
        0 <= gh <= usize::MAX,
        0 <= tw,
        0 <= th,
    ensures
        next_state(s, gw, gh, tw, th, a).camera.x <= frame_max_x(gw, tw, s.ruler_visible),
        next_state(s, gw, gh, tw, th, a).camera.y <= frame_max_y(gh, th, s.ruler_visible),
{
}

/// The viewer state after a sequence of frames, each a terminal size and
/// one action.
pub open spec fn run_state(
    s: ViewerState,
    gw: int,
    gh: int,
    frames: Seq<(int, int, Action)>,
) -> ViewerState
    decreases frames.len(),
{
    if frames.len() == 0 {
        s
    } else {
        run_state(
            next_state(s, gw, gh, frames[0].0, frames[0].1, frames[0].2),
            gw,
            gh,
            frames.drop_first(),
        )
    }
}

/// Running a sequence of frames is one frame applied after the rest.
pub proof fn lemma_run_unfold_last(s: ViewerState, gw: int, gh: int, frames: Seq<(int, int, Action)>)
    requires
        frames.len() > 0,
    ensures
        run_state(s, gw, gh, frames) == next_state(
            run_state(s, gw, gh, frames.drop_last()),
            gw,
            gh,
            frames.last().0,
            frames.last().1,
            frames.last().2,
        ),
    decreases frames.len(),
{
    let s1 = next_state(s, gw, gh, frames[0].0, frames[0].1, frames[0].2);
    if frames.len() == 1 {
        assert(frames.drop_last() =~= Seq::<(int, int, Action)>::empty());
        assert(frames.drop_first() =~= Seq::<(int, int, Action)>::empty());
        assert(run_state(s, gw, gh, frames) == run_state(s1, gw, gh, frames.drop_first()));
        assert(run_state(s1, gw, gh, Seq::<(int, int, Action)>::empty()) == s1);
        assert(run_state(s, gw, gh, Seq::<(int, int, Action)>::empty()) == s);
        assert(frames.last() == frames[0]);
    } else {
        let fl = frames.drop_last();
        let ff = frames.drop_first();
        assert(run_state(s, gw, gh, frames) == run_state(s1, gw, gh, ff));
        lemma_run_unfold_last(s1, gw, gh, ff);
        assert(ff.drop_last() =~= fl.drop_first());
        assert(ff.last() == frames.last());
        assert(fl[0] == frames[0]);
        assert(run_state(s, gw, gh, fl) == run_state(s1, gw, gh, fl.drop_first()));
    }
}

/// However the viewer got where it is — any starting state, any sequence
/// of resizes, pans, pages, toggles and edits — after each frame's clamp
/// the camera lies within that frame's pan bounds.
pub proof fn lemma_camera_in_bounds_after_run(
    s: ViewerState,
    gw: int,
    gh: int,
    frames: Seq<(int, int, Action)>,
)
    requires
        frames.len() > 0,
        0 <= gw <= usize::MAX,
        0 <= gh <= usize::MAX,
        0 <= frames.last().0,
        0 <= frames.last().1,
    ensures
        ({
            let prev = run_state(s, gw, gh, frames.drop_last());
            let last = frames.last();
            &&& run_state(s, gw, gh, frames).camera.x <= frame_max_x(gw, last.0, prev.ruler_visible)
            &&& run_state(s, gw, gh, frames).camera.y <= frame_max_y(gh, last.1, prev.ruler_visible)
        }),
{
    lemma_run_unfold_last(s, gw, gh, frames);
    lemma_step_camera_in_bounds(
        run_state(s, gw, gh, frames.drop_last()),
        gw,
        gh,
        frames.last().0,
        frames.last().1,
        frames.last().2,
    );
}

} // verus!
