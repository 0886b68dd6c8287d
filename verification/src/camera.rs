//! Camera position and the legal pan range.
//!
//! The camera is the world-space coordinate of the top-left cell of the
//! visible window. Its legal range on each axis is `[0, max]` where `max`
//! is the grid dimension minus the drawable dimension, floored at zero;
//! the drawable dimensions handed in here must already exclude any ruler
//! reservations.

use vstd::prelude::*;

verus! {

/// Top-left world-space coordinate of the visible window, in cells.
#[derive(Clone, Copy, PartialEq, Eq, Structural, Debug)]
pub struct Camera {
    pub x: usize,
    pub y: usize,
}

/// `a - b` floored at zero, over mathematical integers.
pub open spec fn sat_sub(a: int, b: int) -> int {
    if a >= b {
        a - b
    } else {
        0
    }
}

/// `v` clamped to the interval `[0, hi]`.
pub open spec fn clamp_to(v: int, hi: int) -> int {
    if v < 0 {
        0
    } else if v > hi {
        hi
    } else {
        v
    }
}

/// The smaller of two integers.
pub open spec fn min_int(a: int, b: int) -> int {
    if a <= b {
        a
    } else {
        b
    }
}

/// The camera pulled back into the legal range `[0, max_x] x [0, max_y]`.
pub open spec fn camera_clamped(c: Camera, max_x: usize, max_y: usize) -> Camera {
    Camera {
        x: if c.x > max_x {
            max_x
        } else {
            c.x
        },
        y: if c.y > max_y {
            max_y
        } else {
            c.y
        },
    }
}

/// The legal pan range from the grid dimensions and the drawable
/// dimensions (which already exclude ruler reservations): on each axis
/// the bound is the grid dimension minus the drawable dimension, floored
/// at zero. A drawable dimension larger than the grid pins the camera at
/// the origin on that axis.
pub fn compute_bounds(grid_w: usize, grid_h: usize, drawable_w: usize, drawable_h: usize) -> (r: (
    usize,
    usize,
))
    ensures
        r.0 == sat_sub(grid_w as int, drawable_w as int),
        r.1 == sat_sub(grid_h as int, drawable_h as int),
{
    let max_x = if grid_w >= drawable_w {
        grid_w - drawable_w
    } else {
        0
    };
    let max_y = if grid_h >= drawable_h {
        grid_h - drawable_h
    } else {
        0
    };
    (max_x, max_y)
}

impl Camera {
    /// Pulls the camera back into the legal range: each axis that exceeds
    /// its bound is set to the bound, the other axis is untouched. Applied
    /// after every resize, before new input is handled.
    pub fn clamp(&mut self, max_x: usize, max_y: usize)
        ensures
            *final(self) == camera_clamped(*old(self), max_x, max_y),
    {
        if self.x > max_x {
            self.x = max_x;
        }
        if self.y > max_y {
            self.y = max_y;
        }
    }

    /// Adds a signed delta to each axis, then clamps the result to
    /// `[0, max]` on that axis. Used for single-cell directional moves.
    pub fn move_by(&mut self, dx: isize, dy: isize, max_x: usize, max_y: usize)
        ensures
            final(self).x as int == clamp_to(old(self).x + dx, max_x as int),
            final(self).y as int == clamp_to(old(self).y + dy, max_y as int),
    {
        self.x = Self::shift_axis(self.x, dx, max_x);
        self.y = Self::shift_axis(self.y, dy, max_y);
    }

    /// One axis of `move_by`: `v + d` clamped to `[0, max]`.
    fn shift_axis(v: usize, d: isize, max: usize) -> (r: usize)
        ensures
            r as int == clamp_to(v + d, max as int),
    {
        if d >= 0 {
            let step = d as usize;
            let moved = if v <= usize::MAX - step {
                v + step
            } else {
                usize::MAX
            };
            if moved > max {
                max
            } else {
                moved
            }
        } else {
            let step: usize = if d == isize::MIN {
                (isize::MAX as usize) + 1
            } else {
                (-d) as usize
            };
            let moved = if v >= step {
                v - step
            } else {
                0
            };
            if moved > max {
                max
            } else {
                moved
            }
        }
    }

    /// Moves the camera down by half the drawable height; a move that
    /// would reach or pass the bound snaps exactly to the bound.
    pub fn page_down(&mut self, drawable_h: usize, max_y: usize)
        ensures
            final(self).y as int == min_int(old(self).y + drawable_h / 2, max_y as int),
            final(self).x == old(self).x,
    {
        let half = drawable_h / 2;
        if self.y <= usize::MAX - half && self.y + half <= max_y {
            self.y = self.y + half;
        } else {
            self.y = max_y;
        }
    }

    /// Moves the camera up by half the drawable height; a move that would
    /// reach or pass zero snaps exactly to zero.
    pub fn page_up(&mut self, drawable_h: usize)
        ensures
            final(self).y as int == sat_sub(old(self).y as int, (drawable_h / 2) as int),
            final(self).x == old(self).x,
    {
        let half = drawable_h / 2;
        if self.y >= half {
            self.y = self.y - half;
        } else {
            self.y = 0;
        }
    }
}

/// Clamping a camera that is already within the legal range is a no-op.
pub proof fn lemma_clamp_idempotent(c: Camera, max_x: usize, max_y: usize)
    requires
        c.x <= max_x,
        c.y <= max_y,
    ensures
        camera_clamped(c, max_x, max_y) == c,
{
}

/// A clamped camera always lies within the legal range, wherever it
/// started.
pub proof fn lemma_clamp_in_range(c: Camera, max_x: usize, max_y: usize)
    ensures
        camera_clamped(c, max_x, max_y).x <= max_x,
        camera_clamped(c, max_x, max_y).y <= max_y,
{
}

} // verus!
