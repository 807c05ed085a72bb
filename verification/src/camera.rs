//! Viewport state and easing.
//!
//! The camera holds a current and a target zoom, a current and a target pan
//! offset, and the anchor point of the most recent zoom gesture in
//! normalized device coordinates.  Input events mutate the targets; `tick`
//! advances the current values toward them by exponential smoothing with a
//! fixed weight of one fifth per call, re-solving the anchor so the world
//! point under the cursor stays put while the zoom animates.
//!
//! All quantities are fixed-point `i64` values scaled by `FP_SCALE`
//! (see `fixed`).

use vstd::prelude::*;

use crate::fixed::FP_SCALE;
use crate::fixed::abs_spec;
use crate::fixed::clamp_i64;
use crate::fixed::clamp_spec;
use crate::fixed::fpdiv;
use crate::fixed::fpdiv_spec;
use crate::fixed::lemma_fpdiv_abs_le;
use crate::fixed::lemma_lerp_between;
use crate::fixed::lerp;
use crate::fixed::lerp_spec;

verus! {

/// Zoom at startup: 500 whole units.
pub const DEFAULT_ZOOM: i64 = 5_000_000;

/// Smallest zoom target ever produced: 0.01 whole units, the positive
/// floor that keeps the zoom away from zero.
pub const ZOOM_FLOOR: i64 = 100;

/// Largest zoom the camera carries, a machine bound that keeps every
/// intermediate product inside `i64`.
pub const ZOOM_LIMIT: i64 = 1_000_000_000_000;

/// Largest pan offset magnitude the camera carries, a machine bound.
pub const POS_LIMIT: i64 = 1_000_000_000_000_000;

/// Largest cursor coordinate magnitude accepted, a machine bound
/// (one hundred thousand pixels).
pub const CURSOR_LIMIT: i64 = 1_000_000_000;

/// Largest surface dimension accepted, in pixels.
pub const DIM_LIMIT: u32 = 100_000;

/// The animation counts as settled when current and target zoom differ
/// by less than 0.05 whole units.
pub const CONVERGE_EPS: i64 = 500;

/// Zoom-in factor per wheel step: 1.21, as a rational.
pub const ZOOM_IN_NUM: i64 = 121;

/// Denominator of the zoom-in factor.
pub const ZOOM_IN_DEN: i64 = 100;

/// Zoom-out factor per wheel step: 0.86444, as a rational.
pub const ZOOM_OUT_NUM: i64 = 86_444;

/// Denominator of the zoom-out factor.
pub const ZOOM_OUT_DEN: i64 = 100_000;

/// A bound on how far one anchor correction can move the pan target:
/// the anchor is at most one whole unit, the zoom at least `ZOOM_FLOOR`,
/// so each of the two re-solved world coordinates is at most
/// `FP_SCALE * FP_SCALE / ZOOM_FLOOR` in magnitude.
pub const ANCHOR_STEP_LIMIT: i64 = 2_000_000;

/// The viewport camera: all coordinates fixed-point, scaled by `FP_SCALE`.
#[derive(Clone, Copy, PartialEq, Eq, Structural, Debug)]
pub struct Camera {
    /// Current zoom.
    pub zoom: i64,
    /// Zoom the animation is heading for.
    pub zoom_dst: i64,
    /// Anchor of the last zoom gesture, x, in normalized device coordinates.
    pub anchor_x: i64,
    /// Anchor of the last zoom gesture, y, in normalized device coordinates.
    pub anchor_y: i64,
    /// Current pan offset, x, in world units.
    pub pos_x: i64,
    /// Current pan offset, y, in world units.
    pub pos_y: i64,
    /// Pan offset the animation is heading for, x.
    pub pos_dst_x: i64,
    /// Pan offset the animation is heading for, y.
    pub pos_dst_y: i64,
    /// Last seen cursor position, x, in pixels.
    pub cursor_x: i64,
    /// Last seen cursor position, y, in pixels.
    pub cursor_y: i64,
    /// A zoom animation is in flight.
    pub zooming: bool,
    /// A drag gesture is in flight.
    pub dragging: bool,
}

impl Camera {
    /// Every field within its machine bounds; preserved by every method.
    pub open spec fn wf(self) -> bool {
        &&& ZOOM_FLOOR <= self.zoom <= ZOOM_LIMIT
        &&& ZOOM_FLOOR <= self.zoom_dst <= ZOOM_LIMIT
        &&& -FP_SCALE <= self.anchor_x <= FP_SCALE
        &&& -FP_SCALE <= self.anchor_y <= FP_SCALE
        &&& -POS_LIMIT <= self.pos_x <= POS_LIMIT
        &&& -POS_LIMIT <= self.pos_y <= POS_LIMIT
        &&& -POS_LIMIT <= self.pos_dst_x <= POS_LIMIT
        &&& -POS_LIMIT <= self.pos_dst_y <= POS_LIMIT
        &&& -CURSOR_LIMIT <= self.cursor_x <= CURSOR_LIMIT
        &&& -CURSOR_LIMIT <= self.cursor_y <= CURSOR_LIMIT
    }

    /// The startup camera: zoom 500, centered, idle.
    pub fn new() -> (c: Camera)
        ensures
            c.wf(),
            c.zoom == DEFAULT_ZOOM,
            c.zoom_dst == DEFAULT_ZOOM,
            c.anchor_x == 0 && c.anchor_y == 0,
            c.pos_x == 0 && c.pos_y == 0,
            c.pos_dst_x == 0 && c.pos_dst_y == 0,
            c.cursor_x == -FP_SCALE && c.cursor_y == -FP_SCALE,
            !c.zooming,
            !c.dragging,
    {
        Camera {
            zoom: DEFAULT_ZOOM,
            zoom_dst: DEFAULT_ZOOM,
            anchor_x: 0,
            anchor_y: 0,
            pos_x: 0,
            pos_y: 0,
            pos_dst_x: 0,
            pos_dst_y: 0,
            cursor_x: -FP_SCALE,
            cursor_y: -FP_SCALE,
            zooming: false,
            dragging: false,
        }
    }

    /// The zoom target after one wheel step: multiplied by 1.21 on zoom-in
    /// or by 0.86444 on zoom-out, then held inside
    /// `[ZOOM_FLOOR, ZOOM_LIMIT]`.
    pub open spec fn scroll_zoom_spec(dst: int, zoom_in: bool) -> int {
        let raw = if zoom_in {
            (dst * ZOOM_IN_NUM) / (ZOOM_IN_DEN as int)
        } else {
            (dst * ZOOM_OUT_NUM) / (ZOOM_OUT_DEN as int)
        };
        clamp_spec(raw, ZOOM_FLOOR as int, ZOOM_LIMIT as int)
    }

    /// Normalized device x-coordinate of a cursor position:
    /// `(x / width) * 2 - 1`, in fixed point.
    pub open spec fn ndc_x_spec(cursor_x: int, width: int) -> int {
        (cursor_x * 2) / width - FP_SCALE
    }

    /// Normalized device y-coordinate of a cursor position:
    /// `(y / height) * -2 + 1`, in fixed point.
    pub open spec fn ndc_y_spec(cursor_y: int, height: int) -> int {
        FP_SCALE - (cursor_y * 2) / height
    }

    /// A wheel step: move the zoom target, record the anchor under the
    /// cursor, and mark the animation live.  `zoom_in` is the sign of the
    /// scroll delta (a positive delta zooms in).
    pub fn set_zoom_target(&mut self, zoom_in: bool, width: u32, height: u32)
        requires
            old(self).wf(),
            1 <= width <= DIM_LIMIT,
            1 <= height <= DIM_LIMIT,
            0 <= old(self).cursor_x <= width * FP_SCALE,
            0 <= old(self).cursor_y <= height * FP_SCALE,
        ensures
            final(self).wf(),
            final(self).zoom_dst == Self::scroll_zoom_spec(old(self).zoom_dst as int, zoom_in),
            final(self).anchor_x == Self::ndc_x_spec(old(self).cursor_x as int, width as int),
            final(self).anchor_y == Self::ndc_y_spec(old(self).cursor_y as int, height as int),
            final(self).zooming,
            final(self).zoom == old(self).zoom,
            final(self).pos_x == old(self).pos_x && final(self).pos_y == old(self).pos_y,
            final(self).pos_dst_x == old(self).pos_dst_x,
            final(self).pos_dst_y == old(self).pos_dst_y,
            final(self).cursor_x == old(self).cursor_x,
            final(self).cursor_y == old(self).cursor_y,
            final(self).dragging == old(self).dragging,
    {
        let raw: i64 = if zoom_in {
            (self.zoom_dst * ZOOM_IN_NUM) / ZOOM_IN_DEN
        } else {
            (self.zoom_dst * ZOOM_OUT_NUM) / ZOOM_OUT_DEN
        };
        proof {
            vstd::arithmetic::div_mod::lemma_div_pos_is_pos(
                (old(self).zoom_dst * ZOOM_IN_NUM) as int,
                ZOOM_IN_DEN as int,
            );
            vstd::arithmetic::div_mod::lemma_div_pos_is_pos(
                (old(self).zoom_dst * ZOOM_OUT_NUM) as int,
                ZOOM_OUT_DEN as int,
            );
            vstd::arithmetic::div_mod::lemma_div_nonincreasing(
                (old(self).zoom_dst * ZOOM_IN_NUM) as int,
                ZOOM_IN_DEN as int,
            );
            vstd::arithmetic::div_mod::lemma_div_nonincreasing(
                (old(self).zoom_dst * ZOOM_OUT_NUM) as int,
                ZOOM_OUT_DEN as int,
            );
        }
        self.zoom_dst = clamp_i64(raw, ZOOM_FLOOR, ZOOM_LIMIT);
        let w: i64 = width as i64;
        let h: i64 = height as i64;
        let nx: i64 = (self.cursor_x * 2) / w - FP_SCALE;
        let ny: i64 = FP_SCALE - (self.cursor_y * 2) / h;
        proof {
            vstd::arithmetic::div_mod::lemma_div_pos_is_pos((old(self).cursor_x * 2) as int, w as int);
            vstd::arithmetic::div_mod::lemma_div_pos_is_pos((old(self).cursor_y * 2) as int, h as int);
            vstd::arithmetic::div_mod::lemma_div_is_ordered(
                (old(self).cursor_x * 2) as int,
                (width * FP_SCALE * 2) as int,
                w as int,
            );
            vstd::arithmetic::div_mod::lemma_div_is_ordered(
                (old(self).cursor_y * 2) as int,
                (height * FP_SCALE * 2) as int,
                h as int,
            );
            vstd::arithmetic::div_mod::lemma_div_multiples_vanish((FP_SCALE * 2) as int, w as int);
            vstd::arithmetic::div_mod::lemma_div_multiples_vanish((FP_SCALE * 2) as int, h as int);
        }
        self.anchor_x = nx;
        self.anchor_y = ny;
        self.zooming = true;
    }

    /// Start a drag gesture.
    pub fn begin_drag(&mut self)
        ensures
            *final(self) == (Camera { dragging: true, ..*old(self) }),
    {
        self.dragging = true;
    }

    /// End a drag gesture.
    pub fn end_drag(&mut self)
        ensures
            *final(self) == (Camera { dragging: false, ..*old(self) }),
    {
        self.dragging = false;
    }

    /// The pan target after a cursor move while dragging: the screen-space
    /// delta divided by the zoom, accumulated and held inside the pan bound.
    pub open spec fn drag_pos_dst_spec(pos_dst: int, cursor_old: int, cursor_new: int, zoom: int) -> int {
        clamp_spec(
            pos_dst + fpdiv_spec(cursor_new - cursor_old, zoom),
            -POS_LIMIT as int,
            POS_LIMIT as int,
        )
    }

    /// A cursor move: remember the position, and while dragging accumulate
    /// the screen delta divided by the zoom into the pan target.
    pub fn cursor_moved(&mut self, x: i64, y: i64)
        requires
            old(self).wf(),
            -CURSOR_LIMIT <= x <= CURSOR_LIMIT,
            -CURSOR_LIMIT <= y <= CURSOR_LIMIT,
        ensures
            final(self).wf(),
            final(self).cursor_x == x && final(self).cursor_y == y,
            old(self).dragging ==> final(self).pos_dst_x == Self::drag_pos_dst_spec(
                old(self).pos_dst_x as int,
                old(self).cursor_x as int,
                x as int,
                old(self).zoom as int,
            ),
            old(self).dragging ==> final(self).pos_dst_y == Self::drag_pos_dst_spec(
                old(self).pos_dst_y as int,
                old(self).cursor_y as int,
                y as int,
                old(self).zoom as int,
            ),
            !old(self).dragging ==> final(self).pos_dst_x == old(self).pos_dst_x
                && final(self).pos_dst_y == old(self).pos_dst_y,
            final(self).zoom == old(self).zoom,
            final(self).zoom_dst == old(self).zoom_dst,
            final(self).anchor_x == old(self).anchor_x,
            final(self).anchor_y == old(self).anchor_y,
            final(self).pos_x == old(self).pos_x && final(self).pos_y == old(self).pos_y,
            final(self).zooming == old(self).zooming,
            final(self).dragging == old(self).dragging,
    {
        if self.dragging {
            let dx: i64 = x - self.cursor_x;
            let dy: i64 = y - self.cursor_y;
            let wx: i64 = fpdiv(dx, self.zoom);
            let wy: i64 = fpdiv(dy, self.zoom);
            self.pos_dst_x = clamp_i64(self.pos_dst_x + wx, -POS_LIMIT, POS_LIMIT);
            self.pos_dst_y = clamp_i64(self.pos_dst_y + wy, -POS_LIMIT, POS_LIMIT);
        }
        self.cursor_x = x;
        self.cursor_y = y;
    }

    /// Current and target zoom differ by less than `CONVERGE_EPS`.
    pub open spec fn spec_settled(self) -> bool {
        abs_spec(self.zoom_dst - self.zoom) < CONVERGE_EPS
    }

    /// Convergence test of the zoom animation.
    pub fn settled(&self) -> (r: bool)
        requires
            self.wf(),
        ensures
            r == self.spec_settled(),
    {
        let d: i64 = if self.zoom_dst >= self.zoom {
            self.zoom_dst - self.zoom
        } else {
            self.zoom - self.zoom_dst
        };
        d < CONVERGE_EPS
    }

    /// Zoom after one tick: eased one fifth toward the target while the
    /// animation is live, untouched otherwise.
    pub open spec fn zoom_after_tick(c: Camera) -> int {
        if c.zooming {
            lerp_spec(c.zoom as int, c.zoom_dst as int)
        } else {
            c.zoom as int
        }
    }

    /// Whether the tick observes convergence (the animation was live and
    /// the eased zoom has come within `CONVERGE_EPS` of the target).
    pub open spec fn tick_converges(c: Camera) -> bool {
        c.zooming && abs_spec(c.zoom_dst - Self::zoom_after_tick(c)) < CONVERGE_EPS
    }

    /// Pan target after one tick's anchor correction on one axis: the
    /// world coordinate of the anchor is re-solved before and after the
    /// zoom step, and the difference is added so the anchor stays fixed.
    pub open spec fn pos_dst_after_tick(c: Camera, anchor: int, pos_dst: int) -> int {
        clamp_spec(
            pos_dst + fpdiv_spec(anchor, Self::zoom_after_tick(c)) - fpdiv_spec(
                anchor,
                c.zoom as int,
            ),
            -POS_LIMIT as int,
            POS_LIMIT as int,
        )
    }

    /// The whole camera after one tick.
    pub open spec fn tick_spec(c: Camera) -> Camera {
        Camera {
            zoom: Self::zoom_after_tick(c) as i64,
            zooming: c.zooming && !Self::tick_converges(c),
            pos_dst_x: Self::pos_dst_after_tick(c, c.anchor_x as int, c.pos_dst_x as int) as i64,
            pos_dst_y: Self::pos_dst_after_tick(c, c.anchor_y as int, c.pos_dst_y as int) as i64,
            pos_x: lerp_spec(
                c.pos_x as int,
                Self::pos_dst_after_tick(c, c.anchor_x as int, c.pos_dst_x as int),
            ) as i64,
            pos_y: lerp_spec(
                c.pos_y as int,
                Self::pos_dst_after_tick(c, c.anchor_y as int, c.pos_dst_y as int),
            ) as i64,
            ..c
        }
    }

    /// One animation frame: ease the zoom toward its target, re-solve the
    /// anchor's world coordinate so the zoom stays centered on it, then
    /// ease the pan.  Returns whether this very tick observed convergence,
    /// so the caller can signal the cadence driver exactly once.
    ///
    /// The easing weight is a deliberate constant per call, not scaled by
    /// elapsed time: the cadence driver ticks at a fixed rate, so the
    /// animation's speed is tied to that rate.
    pub fn tick(&mut self) -> (converged_now: bool)
        requires
            old(self).wf(),
        ensures
            final(self).wf(),
            *final(self) == Self::tick_spec(*old(self)),
            converged_now == Self::tick_converges(*old(self)),
    {
        proof {
            lemma_fpdiv_abs_le(
                old(self).anchor_x as int,
                old(self).zoom as int,
                FP_SCALE as int,
                ZOOM_FLOOR as int,
            );
            lemma_fpdiv_abs_le(
                old(self).anchor_y as int,
                old(self).zoom as int,
                FP_SCALE as int,
                ZOOM_FLOOR as int,
            );
        }
        // The world coordinate of the anchor before the zoom step.  The pan
        // offset would appear in both the "before" and "after" coordinates
        // and cancels in their difference, so it is left out of both.
        let pre_x: i64 = fpdiv(self.anchor_x, self.zoom);
        let pre_y: i64 = fpdiv(self.anchor_y, self.zoom);
        let mut converged_now: bool = false;
        if self.zooming {
            self.zoom = lerp(self.zoom, self.zoom_dst);
            if self.settled() {
                self.zooming = false;
                converged_now = true;
            }
        }
        proof {
            lemma_fpdiv_abs_le(
                old(self).anchor_x as int,
                self.zoom as int,
                FP_SCALE as int,
                ZOOM_FLOOR as int,
            );
            lemma_fpdiv_abs_le(
                old(self).anchor_y as int,
                self.zoom as int,
                FP_SCALE as int,
                ZOOM_FLOOR as int,
            );
        }
        let post_x: i64 = fpdiv(self.anchor_x, self.zoom);
        let post_y: i64 = fpdiv(self.anchor_y, self.zoom);
        self.pos_dst_x = clamp_i64(self.pos_dst_x + (post_x - pre_x), -POS_LIMIT, POS_LIMIT);
        self.pos_dst_y = clamp_i64(self.pos_dst_y + (post_y - pre_y), -POS_LIMIT, POS_LIMIT);
        self.pos_x = lerp(self.pos_x, self.pos_dst_x);
        self.pos_y = lerp(self.pos_y, self.pos_dst_y);
        converged_now
    }

    /// The zoom target after `n` same-direction wheel steps.
    pub open spec fn scrolls_n(dst: int, zoom_in: bool, n: nat) -> int
        decreases n,
    {
        if n == 0 {
            dst
        } else {
            Self::scroll_zoom_spec(Self::scrolls_n(dst, zoom_in, (n - 1) as nat), zoom_in)
        }
    }

    /// The camera after `n` animation ticks with no further input.
    pub open spec fn ticks_n(c: Camera, n: nat) -> Camera
        decreases n,
    {
        if n == 0 {
            c
        } else {
            Self::tick_spec(Self::ticks_n(c, (n - 1) as nat))
        }
    }

    /// What each of `n` ticks reports: whether that very tick observed
    /// convergence.
    pub open spec fn tick_outcomes(c: Camera, n: nat) -> Seq<bool> {
        Seq::new(n, |i: int| Self::tick_converges(Self::ticks_n(c, i as nat)))
    }
}

/// A tick keeps the camera well formed; the zoom stays between its old
/// value and the target, and the fields no tick touches keep their values.
pub proof fn lemma_tick_spec_wf(c: Camera)
    requires
        c.wf(),
    ensures
        Camera::tick_spec(c).wf(),
        Camera::tick_spec(c).zoom == Camera::zoom_after_tick(c),
        ZOOM_FLOOR <= Camera::zoom_after_tick(c) <= ZOOM_LIMIT,
        Camera::tick_spec(c).zoom_dst == c.zoom_dst,
        Camera::tick_spec(c).anchor_x == c.anchor_x,
        Camera::tick_spec(c).anchor_y == c.anchor_y,
        Camera::tick_spec(c).cursor_x == c.cursor_x,
        Camera::tick_spec(c).cursor_y == c.cursor_y,
        Camera::tick_spec(c).dragging == c.dragging,
        Camera::tick_spec(c).pos_dst_x == Camera::pos_dst_after_tick(
            c,
            c.anchor_x as int,
            c.pos_dst_x as int,
        ),
        Camera::tick_spec(c).pos_dst_y == Camera::pos_dst_after_tick(
            c,
            c.anchor_y as int,
            c.pos_dst_y as int,
        ),
{
    lemma_lerp_between(c.zoom as int, c.zoom_dst as int);
    let pdx = Camera::pos_dst_after_tick(c, c.anchor_x as int, c.pos_dst_x as int);
    let pdy = Camera::pos_dst_after_tick(c, c.anchor_y as int, c.pos_dst_y as int);
    lemma_lerp_between(c.pos_x as int, pdx);
    lemma_lerp_between(c.pos_y as int, pdy);
}

/// One tick's anchor correction moves the pan target by the difference of
/// two bounded world coordinates, so (with room before the pan bound) the
/// clamp never engages and the move is exact.
pub proof fn lemma_pos_dst_tick_exact(c: Camera, anchor: int, pos_dst: int)
    requires
        c.wf(),
        -FP_SCALE <= anchor <= FP_SCALE,
        -POS_LIMIT + ANCHOR_STEP_LIMIT <= pos_dst <= POS_LIMIT - ANCHOR_STEP_LIMIT,
    ensures
        Camera::pos_dst_after_tick(c, anchor, pos_dst) == pos_dst + fpdiv_spec(
            anchor,
            Camera::zoom_after_tick(c),
        ) - fpdiv_spec(anchor, c.zoom as int),
{
    lemma_tick_spec_wf(c);
    lemma_fpdiv_abs_le(anchor, c.zoom as int, FP_SCALE as int, ZOOM_FLOOR as int);
    lemma_fpdiv_abs_le(anchor, Camera::zoom_after_tick(c), FP_SCALE as int, ZOOM_FLOOR as int);
}

/// Cursor-anchor invariant: with no input after a zoom gesture, any number
/// of ticks leaves the world coordinate of the anchor — measured against
/// the pan target — exactly where it was: the anchor correction telescopes,
/// so `anchor / zoom - position_target` is preserved on both axes.
pub proof fn lemma_anchor_world_preserved(c: Camera, n: nat)
    requires
        c.wf(),
        -POS_LIMIT + 2 * ANCHOR_STEP_LIMIT <= c.pos_dst_x <= POS_LIMIT - 2 * ANCHOR_STEP_LIMIT,
        -POS_LIMIT + 2 * ANCHOR_STEP_LIMIT <= c.pos_dst_y <= POS_LIMIT - 2 * ANCHOR_STEP_LIMIT,
    ensures
        Camera::ticks_n(c, n).wf(),
        Camera::ticks_n(c, n).anchor_x == c.anchor_x,
        Camera::ticks_n(c, n).anchor_y == c.anchor_y,
        Camera::ticks_n(c, n).zoom_dst == c.zoom_dst,
        fpdiv_spec(c.anchor_x as int, Camera::ticks_n(c, n).zoom as int) - Camera::ticks_n(
            c,
            n,
        ).pos_dst_x == fpdiv_spec(c.anchor_x as int, c.zoom as int) - c.pos_dst_x,
        fpdiv_spec(c.anchor_y as int, Camera::ticks_n(c, n).zoom as int) - Camera::ticks_n(
            c,
            n,
        ).pos_dst_y == fpdiv_spec(c.anchor_y as int, c.zoom as int) - c.pos_dst_y,
    decreases n,
{
    if n > 0 {
        lemma_anchor_world_preserved(c, (n - 1) as nat);
        let cp = Camera::ticks_n(c, (n - 1) as nat);
        lemma_tick_spec_wf(cp);
        lemma_fpdiv_abs_le(c.anchor_x as int, c.zoom as int, FP_SCALE as int, ZOOM_FLOOR as int);
        lemma_fpdiv_abs_le(c.anchor_y as int, c.zoom as int, FP_SCALE as int, ZOOM_FLOOR as int);
        lemma_fpdiv_abs_le(c.anchor_x as int, cp.zoom as int, FP_SCALE as int, ZOOM_FLOOR as int);
        lemma_fpdiv_abs_le(c.anchor_y as int, cp.zoom as int, FP_SCALE as int, ZOOM_FLOOR as int);
        lemma_pos_dst_tick_exact(cp, cp.anchor_x as int, cp.pos_dst_x as int);
        lemma_pos_dst_tick_exact(cp, cp.anchor_y as int, cp.pos_dst_y as int);
    }
}

/// Distance between zoom and zoom target.
pub open spec fn zoom_gap(c: Camera) -> int {
    abs_spec(c.zoom_dst - c.zoom)
}

/// What one easing step does to the zoom gap: it loses one fifth,
/// rounded down.
pub open spec fn gap_step(g: int) -> int {
    g - g / 5
}

/// The zoom gap after `n` easing steps.
pub open spec fn gap_after(g: int, n: nat) -> int
    decreases n,
{
    if n == 0 {
        g
    } else {
        gap_step(gap_after(g, (n - 1) as nat))
    }
}

/// While the animation is live, one tick shrinks the zoom gap exactly as
/// `gap_step` says.
pub proof fn lemma_tick_gap(c: Camera)
    requires
        c.wf(),
        c.zooming,
    ensures
        abs_spec(c.zoom_dst - Camera::zoom_after_tick(c)) == gap_step(zoom_gap(c)),
{
    lemma_lerp_between(c.zoom as int, c.zoom_dst as int);
    if c.zoom_dst >= c.zoom {
        vstd::arithmetic::div_mod::lemma_div_pos_is_pos(c.zoom_dst - c.zoom, 5);
    } else {
        vstd::arithmetic::div_mod::lemma_div_pos_is_pos(c.zoom - c.zoom_dst, 5);
    }
}

/// Each easing step keeps the gap nonnegative and obeys the linear decay
/// bound `5 * gap_step(g) <= 4 * g + 4`.
pub proof fn lemma_gap_step_decay(g: int)
    requires
        g >= 0,
    ensures
        0 <= gap_step(g) <= g,
        5 * gap_step(g) <= 4 * g + 4,
{
    vstd::arithmetic::div_mod::lemma_fundamental_div_mod(g, 5);
    vstd::arithmetic::div_mod::lemma_mod_bound(g, 5);
    vstd::arithmetic::div_mod::lemma_div_pos_is_pos(g, 5);
    vstd::arithmetic::div_mod::lemma_div_nonincreasing(g, 5);
}

/// While the animation is live the zoom gap follows `gap_after`; the tick
/// that sees the gap go under `CONVERGE_EPS` switches the animation off,
/// and from then on the camera stays settled for good.
pub proof fn lemma_ticks_converge(c: Camera, n: nat)
    requires
        c.wf(),
        c.zooming || c.spec_settled(),
    ensures
        Camera::ticks_n(c, n).wf(),
        Camera::ticks_n(c, n).zooming ==> zoom_gap(Camera::ticks_n(c, n)) == gap_after(
            zoom_gap(c),
            n,
        ),
        !Camera::ticks_n(c, n).zooming ==> Camera::ticks_n(c, n).spec_settled(),
        Camera::ticks_n(c, n).zooming ==> c.zooming,
        n > 0 && Camera::ticks_n(c, n).zooming ==> !Camera::ticks_n(c, n).spec_settled(),
    decreases n,
{
    if n > 0 {
        let m = (n - 1) as nat;
        lemma_ticks_converge(c, m);
        let cp = Camera::ticks_n(c, m);
        lemma_tick_spec_wf(cp);
        if cp.zooming {
            lemma_tick_gap(cp);
            lemma_gap_step_decay(gap_after(zoom_gap(c), m));
        }
    }
}

/// A live animation that has gone quiet did converge along the way: when
/// the camera is no longer animating after a run of ticks, some tick of
/// that run observed convergence.
pub proof fn lemma_quiet_means_converged(c: Camera, n: nat)
    requires
        c.wf(),
        c.zooming,
        !Camera::ticks_n(c, n).zooming,
    ensures
        exists|i: int|
            0 <= i < n && #[trigger] Camera::tick_converges(Camera::ticks_n(c, i as nat)),
    decreases n,
{
    let m = (n - 1) as nat;
    let cp = Camera::ticks_n(c, m);
    if cp.zooming {
        assert(Camera::tick_converges(Camera::ticks_n(c, m)));
    } else {
        lemma_quiet_means_converged(c, m);
    }
}

/// Splitting a run of easing steps.
pub proof fn lemma_gap_after_add(g: int, m: nat, k: nat)
    ensures
        gap_after(g, (m + k) as nat) == gap_after(gap_after(g, m), k),
    decreases k,
{
    if k > 0 {
        lemma_gap_after_add(g, m, (k - 1) as nat);
    }
}

/// Four easing steps cut the gap roughly in half: the factor is
/// `(4/5)^4 = 0.4096`, and the rounding residue stays under 54.
pub proof fn lemma_gap_four_halves(g: int)
    requires
        g >= 0,
    ensures
        0 <= gap_after(g, 4) <= g,
        2 * gap_after(g, 4) <= g + 54,
{
    assert(gap_after(g, 0) == g);
    assert(gap_after(g, 1) == gap_step(gap_after(g, 0)));
    assert(gap_after(g, 2) == gap_step(gap_after(g, 1)));
    assert(gap_after(g, 3) == gap_step(gap_after(g, 2)));
    assert(gap_after(g, 4) == gap_step(gap_after(g, 3)));
    lemma_gap_step_decay(g);
    lemma_gap_step_decay(gap_after(g, 1));
    lemma_gap_step_decay(gap_after(g, 2));
    lemma_gap_step_decay(gap_after(g, 3));
}

/// The gap after `4 * k` easing steps, against the `k`-th power of two:
/// halving `k` times leaves `g / 2^k` plus a residue under 54.
pub proof fn lemma_gap_halving(g: int, k: nat)
    requires
        g >= 0,
    ensures
        0 <= gap_after(g, (4 * k) as nat) <= g,
        vstd::arithmetic::power2::pow2(k) * gap_after(g, (4 * k) as nat) <= g + 54
            * vstd::arithmetic::power2::pow2(k),
    decreases k,
{
    vstd::arithmetic::power2::lemma_pow2_pos(k);
    if k == 0 {
        assert(vstd::arithmetic::power2::pow2(0) == 1) by {
            vstd::arithmetic::power2::lemma2_to64();
        }
    } else {
        let m = (k - 1) as nat;
        lemma_gap_halving(g, m);
        vstd::arithmetic::power2::lemma_pow2_pos(m);
        let p = vstd::arithmetic::power2::pow2(m) as int;
        let gm = gap_after(g, (4 * m) as nat);
        lemma_gap_after_add(g, (4 * m) as nat, 4);
        lemma_gap_four_halves(gm);
        let gk = gap_after(g, (4 * k) as nat);
        assert(vstd::arithmetic::power2::pow2(k) == 2 * p) by {
            vstd::arithmetic::power2::lemma_pow2_unfold(k);
        }
        assert((2 * p) * gk <= g + 54 * (2 * p)) by (nonlinear_arith)
            requires
                p > 0,
                gm >= 0,
                gk >= 0,
                2 * gk <= gm + 54,
                p * gm <= g + 54 * p,
        ;
    }
}

/// Convergence termination: from any well-formed camera, 164 ticks are
/// always enough to settle the zoom animation — the gap is cut at least
/// in half (up to a small residue) by every four ticks, from a start that
/// the machine bound `ZOOM_LIMIT` caps.
pub proof fn lemma_bounded_convergence(c: Camera)
    requires
        c.wf(),
        c.zooming || c.spec_settled(),
    ensures
        Camera::ticks_n(c, 164).spec_settled(),
        !Camera::ticks_n(c, 164).zooming,
{
    let g = zoom_gap(c);
    lemma_gap_halving(g, 41);
    lemma_ticks_converge(c, 164);
    let cn = Camera::ticks_n(c, 164);
    if cn.zooming {
        let p = vstd::arithmetic::power2::pow2(41) as int;
        assert(p == 0x20000000000) by {
            vstd::arithmetic::power2::lemma2_to64_rest();
        }
        let gn = gap_after(g, 164);
        assert(p * gn <= g + 54 * p);
        assert(gn < CONVERGE_EPS) by (nonlinear_arith)
            requires
                p == 0x20000000000,
                gn >= 0,
                p * gn <= g + 54 * p,
                g <= 2 * ZOOM_LIMIT,
                CONVERGE_EPS == 500,
                ZOOM_LIMIT == 1_000_000_000_000,
        ;
    }
}

/// One wheel step keeps the zoom target inside `[ZOOM_FLOOR, ZOOM_LIMIT]`
/// and moves it strictly up when zooming in (until the machine cap) and
/// strictly down when zooming out (until the floor).
pub proof fn lemma_scroll_step_monotone(dst: int, zoom_in: bool)
    requires
        ZOOM_FLOOR <= dst <= ZOOM_LIMIT,
    ensures
        ZOOM_FLOOR <= Camera::scroll_zoom_spec(dst, zoom_in) <= ZOOM_LIMIT,
        zoom_in ==> Camera::scroll_zoom_spec(dst, zoom_in) >= dst,
        zoom_in && (dst * ZOOM_IN_NUM) / (ZOOM_IN_DEN as int) <= ZOOM_LIMIT
            ==> Camera::scroll_zoom_spec(dst, zoom_in) > dst,
        !zoom_in ==> Camera::scroll_zoom_spec(dst, zoom_in) <= dst,
        !zoom_in && dst > ZOOM_FLOOR ==> Camera::scroll_zoom_spec(dst, zoom_in) < dst,
{
    if zoom_in {
        let raw = (dst * ZOOM_IN_NUM) / (ZOOM_IN_DEN as int);
        vstd::arithmetic::div_mod::lemma_fundamental_div_mod(dst * ZOOM_IN_NUM, ZOOM_IN_DEN as int);
        vstd::arithmetic::div_mod::lemma_mod_bound(dst * ZOOM_IN_NUM, ZOOM_IN_DEN as int);
        assert(raw * 100 == dst * 121 - (dst * ZOOM_IN_NUM) % (ZOOM_IN_DEN as int));
        assert(raw * 100 > dst * 100) by {
            assert(dst * 121 - 100 >= dst * 100 + 21 * 100 - 100) by (nonlinear_arith)
                requires
                    dst >= 100,
            ;
        }
        assert(raw > dst);
    } else {
        let raw = (dst * ZOOM_OUT_NUM) / (ZOOM_OUT_DEN as int);
        vstd::arithmetic::div_mod::lemma_fundamental_div_mod(
            dst * ZOOM_OUT_NUM,
            ZOOM_OUT_DEN as int,
        );
        vstd::arithmetic::div_mod::lemma_mod_bound(dst * ZOOM_OUT_NUM, ZOOM_OUT_DEN as int);
        assert(raw * 100_000 <= dst * 86_444);
        assert(dst * 86_444 < dst * 100_000) by (nonlinear_arith)
            requires
                dst >= 100,
        ;
        assert(raw < dst);
        vstd::arithmetic::div_mod::lemma_div_pos_is_pos(dst * ZOOM_OUT_NUM, ZOOM_OUT_DEN as int);
    }
}

/// Over any run of same-direction wheel steps the zoom target never leaves
/// `[ZOOM_FLOOR, ZOOM_LIMIT]`, rises step by step when zooming in (strictly
/// while the machine cap allows), and falls step by step when zooming out
/// (strictly while above the floor).
pub proof fn lemma_scroll_sequence_monotone(dst: int, zoom_in: bool, n: nat)
    requires
        ZOOM_FLOOR <= dst <= ZOOM_LIMIT,
    ensures
        ZOOM_FLOOR <= Camera::scrolls_n(dst, zoom_in, n) <= ZOOM_LIMIT,
        zoom_in ==> Camera::scrolls_n(dst, zoom_in, (n + 1) as nat) >= Camera::scrolls_n(
            dst,
            zoom_in,
            n,
        ),
        zoom_in && (Camera::scrolls_n(dst, zoom_in, n) * ZOOM_IN_NUM) / (ZOOM_IN_DEN as int)
            <= ZOOM_LIMIT ==> Camera::scrolls_n(dst, zoom_in, (n + 1) as nat) > Camera::scrolls_n(
            dst,
            zoom_in,
            n,
        ),
        !zoom_in ==> Camera::scrolls_n(dst, zoom_in, (n + 1) as nat) <= Camera::scrolls_n(
            dst,
            zoom_in,
            n,
        ),
        !zoom_in && Camera::scrolls_n(dst, zoom_in, n) > ZOOM_FLOOR ==> Camera::scrolls_n(
            dst,
            zoom_in,
            (n + 1) as nat,
        ) < Camera::scrolls_n(dst, zoom_in, n),
    decreases n,
{
    if n > 0 {
        lemma_scroll_sequence_monotone(dst, zoom_in, (n - 1) as nat);
        lemma_scroll_step_monotone(Camera::scrolls_n(dst, zoom_in, (n - 1) as nat), zoom_in);
    }
    lemma_scroll_step_monotone(Camera::scrolls_n(dst, zoom_in, n), zoom_in);
}

} // verus!
