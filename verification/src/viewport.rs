//! The interactive viewport: fractal view parameters and pointer tracking.
//!
//! All transition rules live here, decoupled from any rendering concern: a
//! pan only applies while dragging, zooming is multiplicative, the iteration
//! cap never drops below its floor, and every parameter change raises the
//! dirty flag that gates recomputation.

use vstd::prelude::*;
use crate::frac::{
    is_val, lemma_canon_facts, lemma_pos_product, lemma_small_representable, lemma_val_equiv,
    lemma_val_mul, lemma_val_pos, lemma_val_sub, representable, same_value, Frac,
};

verus! {

/// The iteration cap never drops below this floor.
pub const ITERATION_FLOOR: u32 = 10;

/// Iteration cap at startup.
pub const DEFAULT_ITERATIONS: u32 = 100;

/// Step by which the arrow keys adjust the iteration cap.
pub const ITERATION_STEP: i32 = 50;

/// Bound on pan deltas and aspect ratio under which a pan is guaranteed to
/// apply (see `ViewportState::pan`).
pub const PAN_INPUT_BOUND: i64 = 256;

/// Bound on the current view parameters under which a pan is guaranteed to
/// apply (see `ViewportState::pan`).
pub const PAN_STATE_BOUND: i64 = 0x10_0000;

/// Fractal view parameters and pointer/drag tracking.  Pure data: mutated
/// only through the transition rules below, never by rendering code.
#[derive(Clone, Copy, Debug, PartialEq, Eq, Structural)]
pub struct ViewportState {
    /// Complex-plane coordinate at the screen center.
    pub center_x: Frac,
    /// Complex-plane coordinate at the screen center.
    pub center_y: Frac,
    /// Scale factor, strictly positive, updated multiplicatively.
    pub zoom: Frac,
    /// Compute-kernel iteration cap, floor-clamped to `ITERATION_FLOOR`.
    pub max_iterations: u32,
    /// Pointer position normalized to the unit square of the surface.
    pub cursor_x: Frac,
    /// Pointer position normalized to the unit square of the surface.
    pub cursor_y: Frac,
    /// Pointer position at the previous sample.
    pub prev_cursor_x: Frac,
    /// Pointer position at the previous sample.
    pub prev_cursor_y: Frac,
    /// True while the primary pointer button is held.
    pub dragging: bool,
    /// True when view parameters changed since the last compute dispatch.
    pub dirty: bool,
}

/// Both components of `f` are bounded by `b` in magnitude.
pub open spec fn small(f: Frac, b: int) -> bool {
    -b <= f.num <= b && f.den <= b
}

/// The view at startup: center `(-1/2, 0)`, zoom `1`, the default iteration
/// cap, pointer at the origin, not dragging, and in need of a first compute.
pub open spec fn initial_viewport() -> ViewportState {
    ViewportState {
        center_x: Frac { num: -1i64, den: 2i64 },
        center_y: Frac { num: 0i64, den: 1i64 },
        zoom: Frac { num: 1i64, den: 1i64 },
        max_iterations: DEFAULT_ITERATIONS,
        cursor_x: Frac { num: 0i64, den: 1i64 },
        cursor_y: Frac { num: 0i64, den: 1i64 },
        prev_cursor_x: Frac { num: 0i64, den: 1i64 },
        prev_cursor_y: Frac { num: 0i64, den: 1i64 },
        dragging: false,
        dirty: true,
    }
}

/// The clamp applied to the iteration cap: floored at `ITERATION_FLOOR`,
/// saturated at the machine limit.
pub open spec fn clamped_iterations(v: int) -> int {
    if v < ITERATION_FLOOR {
        ITERATION_FLOOR as int
    } else if v > u32::MAX {
        u32::MAX as int
    } else {
        v
    }
}

/// `post` is `pre` after a zoom by `factor`: the zoom has been multiplied
/// exactly, the dirty flag raised, and everything else kept.
pub open spec fn zoom_applied(pre: ViewportState, post: ViewportState, factor: Frac) -> bool {
    &&& is_val(post.zoom, pre.zoom.num * factor.num, pre.zoom.den * factor.den)
    &&& post.zoom.wf()
    &&& post.zoom.num >= 1
    &&& post.dirty
    &&& post.center_x == pre.center_x
    &&& post.center_y == pre.center_y
    &&& post.max_iterations == pre.max_iterations
    &&& post.cursor_x == pre.cursor_x
    &&& post.cursor_y == pre.cursor_y
    &&& post.prev_cursor_x == pre.prev_cursor_x
    &&& post.prev_cursor_y == pre.prev_cursor_y
    &&& post.dragging == pre.dragging
}

/// `post` is `pre` after a pan by the normalized screen delta
/// `(dx, dy)` under aspect ratio `aspect`: each center coordinate moves by
/// the exact complex-plane delta `delta * aspect_or_1 * 2 / zoom`, the dirty
/// flag is raised, and everything else is kept.
pub open spec fn pan_applied(
    pre: ViewportState,
    post: ViewportState,
    dx: Frac,
    dy: Frac,
    aspect: Frac,
) -> bool {
    &&& is_val(
        post.center_x,
        pre.center_x.num * (dx.den * aspect.den * pre.zoom.num) - (dx.num * aspect.num * (2
            * pre.zoom.den)) * pre.center_x.den,
        pre.center_x.den * (dx.den * aspect.den * pre.zoom.num),
    )
    &&& is_val(
        post.center_y,
        pre.center_y.num * (dy.den * pre.zoom.num) - (dy.num * (2 * pre.zoom.den))
            * pre.center_y.den,
        pre.center_y.den * (dy.den * pre.zoom.num),
    )
    &&& post.center_x.wf()
    &&& post.center_y.wf()
    &&& post.zoom == pre.zoom
    &&& post.max_iterations == pre.max_iterations
    &&& post.cursor_x == pre.cursor_x
    &&& post.cursor_y == pre.cursor_y
    &&& post.prev_cursor_x == pre.prev_cursor_x
    &&& post.prev_cursor_y == pre.prev_cursor_y
    &&& post.dragging == pre.dragging
    &&& post.dirty
}

/// Inputs under which `pan` is guaranteed to apply: deltas and aspect ratio
/// of modest size against a view that has not been zoomed or panned to an
/// extreme position.
pub open spec fn pan_small_inputs(
    pre: ViewportState,
    dx: Frac,
    dy: Frac,
    aspect: Frac,
) -> bool {
    &&& small(dx, PAN_INPUT_BOUND as int)
    &&& small(dy, PAN_INPUT_BOUND as int)
    &&& small(aspect, PAN_INPUT_BOUND as int)
    &&& small(pre.center_x, PAN_STATE_BOUND as int)
    &&& small(pre.center_y, PAN_STATE_BOUND as int)
    &&& small(pre.zoom, PAN_STATE_BOUND as int)
}

impl ViewportState {
    /// Well-formed: all coordinates in range, the zoom strictly positive,
    /// and the iteration cap at or above its floor.
    pub open spec fn wf(self) -> bool {
        &&& self.center_x.wf()
        &&& self.center_y.wf()
        &&& self.zoom.wf()
        &&& self.zoom.num >= 1
        &&& self.cursor_x.wf()
        &&& self.cursor_y.wf()
        &&& self.prev_cursor_x.wf()
        &&& self.prev_cursor_y.wf()
        &&& self.max_iterations >= ITERATION_FLOOR
    }

    /// Pan the view by a normalized screen delta; only applies while
    /// dragging.  The screen delta is converted to a complex-plane delta by
    /// scaling with the aspect ratio (horizontal only) and `2 / zoom`, and
    /// subtracted from the center.  Returns whether the pan was applied; it
    /// is not when not dragging, or when the exact new center does not fit
    /// the bounded representation (the view is then left unchanged).
    pub fn pan(&mut self, delta_x: Frac, delta_y: Frac, aspect: Frac) -> (applied: bool)
        requires
            old(self).wf(),
            delta_x.wf(),
            delta_y.wf(),
            aspect.wf(),
            aspect.num >= 1,
        ensures
            final(self).wf(),
            !old(self).dragging ==> !applied && *final(self) == *old(self),
            applied ==> old(self).dragging && pan_applied(
                *old(self),
                *final(self),
                delta_x,
                delta_y,
                aspect,
            ),
            !applied ==> *final(self) == *old(self),
            old(self).dragging && pan_small_inputs(*old(self), delta_x, delta_y, aspect)
                ==> applied,
    {
        if !self.dragging {
            return false;
        }
        let zn = self.zoom.num;
        let zd = self.zoom.den;
        proof {
            lemma_pan_step_bounds(*self, delta_x, delta_y, aspect);
        }
        let toz = match Frac::from_ratio(2 * (zd as i128), zn as i128) {
            Some(f) => f,
            None => {
                return false;
            },
        };
        let t1 = match delta_x.mul_frac(&aspect) {
            Some(f) => f,
            None => {
                return false;
            },
        };
        proof {
            if pan_small_inputs(*self, delta_x, delta_y, aspect) {
                let ib = PAN_INPUT_BOUND as int;
                let sb = PAN_STATE_BOUND as int;
                // Canonical components never exceed the raw pairs they
                // reduce, so both factors of the next two products stay
                // small.
                lemma_canon_facts(2 * zd as int, zn as int);
                lemma_pos_product(delta_x.den as int, aspect.den as int);
                lemma_canon_facts(delta_x.num * aspect.num, delta_x.den * aspect.den);
                lemma_abs_mul(delta_x.num as int, aspect.num as int, ib, ib);
                lemma_abs_mul(delta_x.den as int, aspect.den as int, ib, ib);
                lemma_abs_mul(t1.num as int, toz.num as int, ib * ib, 2 * sb);
                lemma_abs_mul(t1.den as int, toz.den as int, ib * ib, sb);
                lemma_pos_product(t1.den as int, toz.den as int);
                lemma_small_representable(t1.num * toz.num, t1.den * toz.den);
                lemma_abs_mul(delta_y.num as int, toz.num as int, ib, 2 * sb);
                lemma_abs_mul(delta_y.den as int, toz.den as int, ib, sb);
                lemma_pos_product(delta_y.den as int, toz.den as int);
                lemma_small_representable(delta_y.num * toz.num, delta_y.den * toz.den);
            }
        }
        let tx = match t1.mul_frac(&toz) {
            Some(f) => f,
            None => {
                return false;
            },
        };
        proof {
            lemma_pos_product(delta_x.den as int, aspect.den as int);
            lemma_pos_product(delta_x.den * aspect.den, self.zoom.num as int);
            lemma_val_mul(
                t1,
                toz,
                tx,
                delta_x.num * aspect.num,
                delta_x.den * aspect.den,
                2 * self.zoom.den,
                self.zoom.num as int,
            );
            if pan_small_inputs(*self, delta_x, delta_y, aspect) {
                let ib = PAN_INPUT_BOUND as int;
                let sb = PAN_STATE_BOUND as int;
                let tb = (ib * ib) * (2 * sb);
                lemma_canon_facts(t1.num * toz.num, t1.den * toz.den);
                lemma_abs_mul(self.center_x.num as int, tx.den as int, sb, tb);
                lemma_abs_mul(tx.num as int, self.center_x.den as int, tb, sb);
                lemma_abs_mul(self.center_x.den as int, tx.den as int, sb, tb);
                lemma_pos_product(self.center_x.den as int, tx.den as int);
                lemma_small_representable(
                    self.center_x.num * tx.den - tx.num * self.center_x.den,
                    self.center_x.den * tx.den,
                );
            }
        }
        let ty = match delta_y.mul_frac(&toz) {
            Some(f) => f,
            None => {
                return false;
            },
        };
        proof {
            lemma_pos_product(delta_y.den as int, self.zoom.num as int);
            lemma_val_mul(
                delta_y,
                toz,
                ty,
                delta_y.num as int,
                delta_y.den as int,
                2 * self.zoom.den,
                self.zoom.num as int,
            );
            if pan_small_inputs(*self, delta_x, delta_y, aspect) {
                let ib = PAN_INPUT_BOUND as int;
                let sb = PAN_STATE_BOUND as int;
                let tb = ib * (2 * sb);
                lemma_canon_facts(delta_y.num * toz.num, delta_y.den * toz.den);
                lemma_abs_mul(self.center_y.num as int, ty.den as int, sb, tb);
                lemma_abs_mul(ty.num as int, self.center_y.den as int, tb, sb);
                lemma_abs_mul(self.center_y.den as int, ty.den as int, sb, tb);
                lemma_pos_product(self.center_y.den as int, ty.den as int);
                lemma_small_representable(
                    self.center_y.num * ty.den - ty.num * self.center_y.den,
                    self.center_y.den * ty.den,
                );
            }
        }
        let cx = match self.center_x.sub_frac(&tx) {
            Some(f) => f,
            None => {
                return false;
            },
        };
        proof {
            lemma_val_sub(
                self.center_x,
                tx,
                cx,
                self.center_x.num as int,
                self.center_x.den as int,
                (delta_x.num * aspect.num) * (2 * self.zoom.den),
                (delta_x.den * aspect.den) * self.zoom.num,
            );
        }
        let cy = match self.center_y.sub_frac(&ty) {
            Some(f) => f,
            None => {
                return false;
            },
        };
        proof {
            lemma_val_sub(
                self.center_y,
                ty,
                cy,
                self.center_y.num as int,
                self.center_y.den as int,
                delta_y.num * (2 * self.zoom.den),
                delta_y.den * self.zoom.num,
            );
        }
        self.center_x = cx;
        self.center_y = cy;
        self.dirty = true;
        true
    }

    /// Multiply the zoom by a positive factor and raise the dirty flag.
    /// Returns whether the zoom was applied; it is not exactly when the
    /// reduced new zoom does not fit the bounded representation (the view
    /// is then left unchanged).
    pub fn zoom_by(&mut self, factor: Frac) -> (applied: bool)
        requires
            old(self).wf(),
            factor.wf(),
            factor.num >= 1,
        ensures
            final(self).wf(),
            applied <==> representable(
                old(self).zoom.num * factor.num,
                old(self).zoom.den * factor.den,
            ),
            applied ==> zoom_applied(*old(self), *final(self), factor),
            !applied ==> *final(self) == *old(self),
    {
        match self.zoom.mul_frac(&factor) {
            Some(z) => {
                proof {
                    lemma_pos_product(self.zoom.num as int, factor.num as int);
                    lemma_pos_product(self.zoom.den as int, factor.den as int);
                    lemma_val_pos(
                        z,
                        self.zoom.num * factor.num,
                        self.zoom.den * factor.den,
                    );
                }
                self.zoom = z;
                self.dirty = true;
                true
            },
            None => false,
        }
    }

    /// Add `delta` to the iteration cap, clamped below at the floor and
    /// above at the machine limit, and raise the dirty flag.
    pub fn adjust_iterations(&mut self, delta: i32)
        requires
            old(self).wf(),
        ensures
            final(self).wf(),
            final(self).max_iterations as int == clamped_iterations(
                old(self).max_iterations as int + delta as int,
            ),
            final(self).max_iterations >= ITERATION_FLOOR,
            final(self).dirty,
            final(self).center_x == old(self).center_x,
            final(self).center_y == old(self).center_y,
            final(self).zoom == old(self).zoom,
            final(self).cursor_x == old(self).cursor_x,
            final(self).cursor_y == old(self).cursor_y,
            final(self).prev_cursor_x == old(self).prev_cursor_x,
            final(self).prev_cursor_y == old(self).prev_cursor_y,
            final(self).dragging == old(self).dragging,
    {
        let v: i64 = self.max_iterations as i64 + delta as i64;
        let ni: u32 = if v < ITERATION_FLOOR as i64 {
            ITERATION_FLOOR
        } else if v > u32::MAX as i64 {
            u32::MAX
        } else {
            v as u32
        };
        self.max_iterations = ni;
        self.dirty = true;
    }

    /// Restore the default center and zoom and raise the dirty flag; the
    /// iteration cap and pointer tracking are kept.
    pub fn reset(&mut self)
        requires
            old(self).wf(),
        ensures
            final(self).wf(),
            final(self).center_x == initial_viewport().center_x,
            final(self).center_y == initial_viewport().center_y,
            final(self).zoom == initial_viewport().zoom,
            final(self).dirty,
            final(self).max_iterations == old(self).max_iterations,
            final(self).cursor_x == old(self).cursor_x,
            final(self).cursor_y == old(self).cursor_y,
            final(self).prev_cursor_x == old(self).prev_cursor_x,
            final(self).prev_cursor_y == old(self).prev_cursor_y,
            final(self).dragging == old(self).dragging,
    {
        self.center_x = Frac { num: -1, den: 2 };
        self.center_y = Frac { num: 0, den: 1 };
        self.zoom = Frac { num: 1, den: 1 };
        self.dirty = true;
    }

    /// Start a drag; does not itself mark the view dirty.
    pub fn begin_drag(&mut self)
        requires
            old(self).wf(),
        ensures
            final(self).wf(),
            *final(self) == (ViewportState { dragging: true, ..*old(self) }),
    {
        self.dragging = true;
    }

    /// End a drag; does not itself mark the view dirty.
    pub fn end_drag(&mut self)
        requires
            old(self).wf(),
        ensures
            final(self).wf(),
            *final(self) == (ViewportState { dragging: false, ..*old(self) }),
    {
        self.dragging = false;
    }

    /// Record a new normalized pointer position, remembering the previous
    /// one.  No dirty side effect: the panning decision is made by the
    /// caller based on `dragging`.
    pub fn set_cursor(&mut self, x: Frac, y: Frac)
        requires
            old(self).wf(),
            x.wf(),
            y.wf(),
        ensures
            final(self).wf(),
            *final(self) == (ViewportState {
                cursor_x: x,
                cursor_y: y,
                prev_cursor_x: old(self).cursor_x,
                prev_cursor_y: old(self).cursor_y,
                ..*old(self)
            }),
    {
        self.prev_cursor_x = self.cursor_x;
        self.prev_cursor_y = self.cursor_y;
        self.cursor_x = x;
        self.cursor_y = y;
    }
}

impl Default for ViewportState {
    /// The view at startup.
    fn default() -> (s: ViewportState)
        ensures
            s == initial_viewport(),
            s.wf(),
    {
        ViewportState {
            center_x: Frac { num: -1, den: 2 },
            center_y: Frac { num: 0, den: 1 },
            zoom: Frac { num: 1, den: 1 },
            max_iterations: DEFAULT_ITERATIONS,
            cursor_x: Frac { num: 0, den: 1 },
            cursor_y: Frac { num: 0, den: 1 },
            prev_cursor_x: Frac { num: 0, den: 1 },
            prev_cursor_y: Frac { num: 0, den: 1 },
            dragging: false,
            dirty: true,
        }
    }
}

/// Magnitude bound on a product of bounded values.
pub proof fn lemma_abs_mul(x: int, y: int, bx: int, by: int)
    requires
        -bx <= x <= bx,
        -by <= y <= by,
        0 <= bx,
        0 <= by,
    ensures
        -(bx * by) <= x * y <= bx * by,
{
    assert(-(bx * by) <= x * y <= bx * by) by (nonlinear_arith)
        requires
            -bx <= x <= bx,
            -by <= y <= by,
            0 <= bx,
            0 <= by,
    ;
}

/// Under `pan_small_inputs`, every intermediate fraction built by `pan`
/// stays far inside the representable range, so each construction step is
/// guaranteed to succeed.
proof fn lemma_pan_step_bounds(pre: ViewportState, dx: Frac, dy: Frac, aspect: Frac)
    requires
        pre.wf(),
        dx.wf(),
        dy.wf(),
        aspect.wf(),
    ensures
        pan_small_inputs(pre, dx, dy, aspect) ==> representable(
            2 * pre.zoom.den,
            pre.zoom.num as int,
        ) && representable(dx.num * aspect.num, dx.den * aspect.den),
{
    if pan_small_inputs(pre, dx, dy, aspect) {
        lemma_small_representable(2 * pre.zoom.den, pre.zoom.num as int);
        lemma_abs_mul(dx.num as int, aspect.num as int, PAN_INPUT_BOUND as int, PAN_INPUT_BOUND as int);
        lemma_abs_mul(dx.den as int, aspect.den as int, PAN_INPUT_BOUND as int, PAN_INPUT_BOUND as int);
        lemma_pos_product(dx.den as int, aspect.den as int);
        lemma_small_representable(dx.num * aspect.num, dx.den * aspect.den);
    }
}

/// Zooming in and back out by exactly inverse factors restores the zoom
/// exactly: for factors `up` and `down` whose product is one, applying
/// `zoom_by(up)` and then `zoom_by(down)` yields the original zoom value.
pub proof fn lemma_zoom_round_trip(
    s0: ViewportState,
    s1: ViewportState,
    s2: ViewportState,
    up: Frac,
    down: Frac,
)
    requires
        s0.wf(),
        up.wf(),
        down.wf(),
        up.num * down.num == up.den * down.den,
        zoom_applied(s0, s1, up),
        zoom_applied(s1, s2, down),
    ensures
        same_value(s2.zoom, s0.zoom),
{
    let z0 = s0.zoom;
    let z1 = s1.zoom;
    let z2 = s2.zoom;
    lemma_pos_product(z0.den as int, up.den as int);
    lemma_pos_product(z0.den * up.den, down.den as int);
    lemma_val_mul(
        z1,
        down,
        z2,
        z0.num * up.num,
        z0.den * up.den,
        down.num as int,
        down.den as int,
    );
    lemma_pos_product(z0.den as int, up.den as int);
    lemma_pos_product(z0.den * up.den, down.den as int);
    assert(((z0.num * up.num) * down.num) * z0.den == z0.num * ((z0.den * up.den) * down.den))
        by (nonlinear_arith)
        requires
            up.num * down.num == up.den * down.den,
    ;
    lemma_val_equiv(
        z2,
        (z0.num * up.num) * down.num,
        (z0.den * up.den) * down.den,
        z0.num as int,
        z0.den as int,
    );
}

/// The iteration cap clamp never lands below the floor: together with the
/// contract of `adjust_iterations`, the cap stays at or above
/// `ITERATION_FLOOR` across any sequence of adjustments.
pub proof fn lemma_iteration_floor(v: int)
    ensures
        clamped_iterations(v) >= ITERATION_FLOOR,
{
}

} // verus!
