//! Translation of raw window events into viewport mutations and redraw or
//! exit requests.
//!
//! Events arrive already reduced to plain values (key identity, normalized
//! pointer position, scroll direction); the router applies the transition
//! rules of the viewport and reports what the surrounding event loop should
//! do next.

use vstd::prelude::*;
use vstd::pervasive::unreached;
use crate::canvas::CanvasResources;
use crate::frac::{is_val, lemma_canon_facts, lemma_small_representable, representable, Frac};
use crate::pipeline::Viewer;
use crate::viewport::{
    clamped_iterations, pan_applied, zoom_applied, ViewportState, ITERATION_STEP,
};

verus! {

/// The keys the viewer reacts to; every other key maps to `Other`.
#[derive(Clone, Copy, Debug, PartialEq, Eq, Structural)]
pub enum Key {
    Escape,
    KeyR,
    Equal,
    NumpadAdd,
    Minus,
    NumpadSubtract,
    ArrowUp,
    ArrowDown,
    Other,
}

/// Whether a scroll step was reported in lines (discrete wheel) or pixels
/// (fine pointer delta).
#[derive(Clone, Copy, Debug, PartialEq, Eq, Structural)]
pub enum ScrollKind {
    Line,
    Pixel,
}

/// A window event, reduced to plain values by the platform shell.
#[derive(Clone, Copy, Debug, PartialEq, Eq, Structural)]
pub enum InputEvent {
    CloseRequested,
    Resized { width: u32, height: u32 },
    Key { key: Key, pressed: bool },
    /// Pointer position normalized to the unit square of the surface.
    CursorMoved { x: Frac, y: Frac },
    PrimaryButton { pressed: bool },
    /// `up` is the sign of the scroll delta.
    Scroll { kind: ScrollKind, up: bool },
}

/// What the surrounding event loop is asked to do after an event.
#[derive(Clone, Copy, Debug, PartialEq, Eq, Structural)]
pub struct Effects {
    pub redraw: bool,
    pub exit: bool,
}

/// The zoom factor of a scroll step: discrete wheel lines use `6/5`, fine
/// pixel deltas `11/10`; a downward scroll uses the inverse factor.
pub open spec fn scroll_factor(kind: ScrollKind, up: bool) -> Frac {
    match kind {
        ScrollKind::Line => if up {
            Frac { num: 6i64, den: 5i64 }
        } else {
            Frac { num: 5i64, den: 6i64 }
        },
        ScrollKind::Pixel => if up {
            Frac { num: 11i64, den: 10i64 }
        } else {
            Frac { num: 10i64, den: 11i64 }
        },
    }
}

/// The zoom factor of the plus and minus keys: `3/2` and its inverse.
pub open spec fn key_zoom_factor(zoom_in: bool) -> Frac {
    if zoom_in {
        Frac { num: 3i64, den: 2i64 }
    } else {
        Frac { num: 2i64, den: 3i64 }
    }
}

/// Numerator of the aspect ratio handed to a pan: the surface width, or
/// one before the first configuration.
pub open spec fn aspect_w(v: Viewer) -> int {
    if v.surface.configured {
        v.surface.config.width as int
    } else {
        1
    }
}

/// Denominator of the aspect ratio handed to a pan: the surface height, or
/// one before the first configuration.
pub open spec fn aspect_h(v: Viewer) -> int {
    if v.surface.configured {
        v.surface.config.height as int
    } else {
        1
    }
}

/// The viewport after recording a new pointer position.
pub open spec fn cursor_moved_viewport(pre: ViewportState, x: Frac, y: Frac) -> ViewportState {
    ViewportState {
        cursor_x: x,
        cursor_y: y,
        prev_cursor_x: pre.cursor_x,
        prev_cursor_y: pre.cursor_y,
        ..pre
    }
}

/// The viewport after a zoom event: either the factor was applied exactly,
/// or the reduced new zoom was out of range and nothing changed.
pub open spec fn zoom_routed(pre: Viewer, post: Viewer, factor: Frac) -> bool {
    &&& post.surface == pre.surface
    &&& post.canvas == pre.canvas
    &&& (representable(pre.viewport.zoom.num * factor.num, pre.viewport.zoom.den * factor.den)
        ==> zoom_applied(pre.viewport, post.viewport, factor))
    &&& (!representable(pre.viewport.zoom.num * factor.num, pre.viewport.zoom.den * factor.den)
        ==> post.viewport == pre.viewport)
}

/// Additional validity an event must bring along: pointer positions are
/// well-formed fractions, and a resize needs room in the identifier
/// counter for the rebuilt resources.
pub open spec fn event_wf(v: Viewer, ev: InputEvent) -> bool {
    match ev {
        InputEvent::CursorMoved { x, y } => x.wf() && y.wf(),
        InputEvent::Resized { width, height } => v.canvas.next_id <= u64::MAX - 4,
        _ => true,
    }
}

/// What routing an event does: the exact transition of the viewer and the
/// effects requested from the event loop, case by case.
pub open spec fn routed(pre: Viewer, post: Viewer, ev: InputEvent, fx: Effects) -> bool {
    match ev {
        InputEvent::CloseRequested => post == pre && fx.exit && !fx.redraw,
        InputEvent::Resized { width, height } => {
            &&& fx.redraw && !fx.exit
            &&& (width >= 1 && height >= 1 ==> {
                &&& post.surface.configured
                &&& post.surface.config.width == width
                &&& post.surface.config.height == height
                &&& post.surface.config.format == pre.surface.config.format
                &&& post.surface.config.present_mode == pre.surface.config.present_mode
                &&& CanvasResources::rebuilt_from(post.canvas, pre.canvas, width, height)
                &&& post.viewport == (ViewportState { dirty: true, ..pre.viewport })
            })
            &&& (width == 0 || height == 0 ==> post == pre)
        },
        InputEvent::Key { key, pressed } => {
            if !pressed {
                post == pre && !fx.redraw && !fx.exit
            } else {
                match key {
                    Key::Escape => post == pre && fx.exit && !fx.redraw,
                    Key::KeyR => {
                        &&& fx.redraw && !fx.exit
                        &&& post.surface == pre.surface
                        &&& post.canvas == pre.canvas
                        &&& post.viewport == (ViewportState {
                            center_x: Frac { num: -1i64, den: 2i64 },
                            center_y: Frac { num: 0i64, den: 1i64 },
                            zoom: Frac { num: 1i64, den: 1i64 },
                            dirty: true,
                            ..pre.viewport
                        })
                    },
                    Key::Equal | Key::NumpadAdd => {
                        &&& fx.redraw && !fx.exit
                        &&& zoom_routed(pre, post, key_zoom_factor(true))
                    },
                    Key::Minus | Key::NumpadSubtract => {
                        &&& fx.redraw && !fx.exit
                        &&& zoom_routed(pre, post, key_zoom_factor(false))
                    },
                    Key::ArrowUp => {
                        &&& fx.redraw && !fx.exit
                        &&& post.surface == pre.surface
                        &&& post.canvas == pre.canvas
                        &&& post.viewport.max_iterations as int == clamped_iterations(
                            pre.viewport.max_iterations as int + ITERATION_STEP as int,
                        )
                        &&& post.viewport == (ViewportState {
                            max_iterations: post.viewport.max_iterations,
                            dirty: true,
                            ..pre.viewport
                        })
                    },
                    Key::ArrowDown => {
                        &&& fx.redraw && !fx.exit
                        &&& post.surface == pre.surface
                        &&& post.canvas == pre.canvas
                        &&& post.viewport.max_iterations as int == clamped_iterations(
                            pre.viewport.max_iterations as int - ITERATION_STEP as int,
                        )
                        &&& post.viewport == (ViewportState {
                            max_iterations: post.viewport.max_iterations,
                            dirty: true,
                            ..pre.viewport
                        })
                    },
                    Key::Other => post == pre && !fx.redraw && !fx.exit,
                }
            }
        },
        InputEvent::CursorMoved { x, y } => {
            let moved = cursor_moved_viewport(pre.viewport, x, y);
            &&& post.surface == pre.surface
            &&& post.canvas == pre.canvas
            &&& !fx.exit
            &&& fx.redraw == pre.viewport.dragging
            &&& (!pre.viewport.dragging ==> post.viewport == moved)
            &&& (pre.viewport.dragging ==> post.viewport == moved || (exists|dx: Frac, dy: Frac, asp: Frac|
                {
                    &&& dx.wf() && dy.wf() && asp.wf() && asp.num >= 1
                    &&& is_val(
                        dx,
                        x.num * pre.viewport.cursor_x.den - pre.viewport.cursor_x.num * x.den,
                        x.den * pre.viewport.cursor_x.den,
                    )
                    &&& is_val(
                        dy,
                        y.num * pre.viewport.cursor_y.den - pre.viewport.cursor_y.num * y.den,
                        y.den * pre.viewport.cursor_y.den,
                    )
                    &&& is_val(asp, aspect_w(pre), aspect_h(pre))
                    &&& #[trigger] pan_applied(moved, post.viewport, dx, dy, asp)
                }))
        },
        InputEvent::PrimaryButton { pressed } => {
            &&& post.surface == pre.surface
            &&& post.canvas == pre.canvas
            &&& post.viewport == (ViewportState { dragging: pressed, ..pre.viewport })
            &&& !fx.redraw && !fx.exit
        },
        InputEvent::Scroll { kind, up } => {
            &&& fx.redraw && !fx.exit
            &&& zoom_routed(pre, post, scroll_factor(kind, up))
        },
    }
}

impl Viewer {
    /// Aspect ratio of the configured surface (width over height), or one
    /// before the first configuration.
    pub fn aspect_ratio(&self) -> (r: Frac)
        requires
            self.wf(),
        ensures
            r.wf(),
            r.num >= 1,
            is_val(r, aspect_w(*self), aspect_h(*self)),
    {
        if self.surface.configured {
            let w = self.surface.config.width;
            let h = self.surface.config.height;
            proof {
                lemma_small_representable(w as int, h as int);
                lemma_canon_facts(w as int, h as int);
            }
            match Frac::from_ratio(w as i128, h as i128) {
                Some(f) => f,
                None => unreached(),
            }
        } else {
            Frac::from_int(1)
        }
    }
}

/// Route one window event: mutate the viewer by the transition rules of
/// the viewport and report the requested effects.
pub fn route_event(viewer: &mut Viewer, ev: InputEvent) -> (fx: Effects)
    requires
        old(viewer).wf(),
        event_wf(*old(viewer), ev),
    ensures
        final(viewer).wf(),
        routed(*old(viewer), *final(viewer), ev, fx),
{
    match ev {
        InputEvent::CloseRequested => Effects { redraw: false, exit: true },
        InputEvent::Resized { width, height } => {
            let _accepted = viewer.resize(width, height);
            Effects { redraw: true, exit: false }
        },
        InputEvent::Key { key, pressed } => {
            if !pressed {
                return Effects { redraw: false, exit: false };
            }
            match key {
                Key::Escape => Effects { redraw: false, exit: true },
                Key::KeyR => {
                    viewer.viewport.reset();
                    Effects { redraw: true, exit: false }
                },
                Key::Equal | Key::NumpadAdd => {
                    let _applied = viewer.viewport.zoom_by(Frac { num: 3, den: 2 });
                    Effects { redraw: true, exit: false }
                },
                Key::Minus | Key::NumpadSubtract => {
                    let _applied = viewer.viewport.zoom_by(Frac { num: 2, den: 3 });
                    Effects { redraw: true, exit: false }
                },
                Key::ArrowUp => {
                    viewer.viewport.adjust_iterations(ITERATION_STEP);
                    Effects { redraw: true, exit: false }
                },
                Key::ArrowDown => {
                    viewer.viewport.adjust_iterations(-ITERATION_STEP);
                    Effects { redraw: true, exit: false }
                },
                Key::Other => Effects { redraw: false, exit: false },
            }
        },
        InputEvent::CursorMoved { x, y } => {
            let px = viewer.viewport.cursor_x;
            let py = viewer.viewport.cursor_y;
            viewer.viewport.set_cursor(x, y);
            if viewer.viewport.dragging {
                let aspect = viewer.aspect_ratio();
                let dx = match x.sub_frac(&px) {
                    Some(f) => f,
                    None => {
                        return Effects { redraw: true, exit: false };
                    },
                };
                let dy = match y.sub_frac(&py) {
                    Some(f) => f,
                    None => {
                        return Effects { redraw: true, exit: false };
                    },
                };
                let _applied = viewer.viewport.pan(dx, dy, aspect);
                Effects { redraw: true, exit: false }
            } else {
                Effects { redraw: false, exit: false }
            }
        },
        InputEvent::PrimaryButton { pressed } => {
            if pressed {
                viewer.viewport.begin_drag();
            } else {
                viewer.viewport.end_drag();
            }
            Effects { redraw: false, exit: false }
        },
        InputEvent::Scroll { kind, up } => {
            let factor = match kind {
                ScrollKind::Line => if up {
                    Frac { num: 6, den: 5 }
                } else {
                    Frac { num: 5, den: 6 }
                },
                ScrollKind::Pixel => if up {
                    Frac { num: 11, den: 10 }
                } else {
                    Frac { num: 10, den: 11 }
                },
            };
            let _applied = viewer.viewport.zoom_by(factor);
            Effects { redraw: true, exit: false }
        },
    }
}

/// Window resize: reconfigure the surface, rebuild the resources, mark the
/// view dirty.
pub fn on_resize(viewer: &mut Viewer, width: u32, height: u32) -> (fx: Effects)
    requires
        old(viewer).wf(),
        old(viewer).canvas.next_id <= u64::MAX - 4,
    ensures
        final(viewer).wf(),
        routed(*old(viewer), *final(viewer), InputEvent::Resized { width, height }, fx),
{
    route_event(viewer, InputEvent::Resized { width, height })
}

/// Pointer move: track the cursor and, while dragging, pan the view.
pub fn on_pointer_move(viewer: &mut Viewer, x: Frac, y: Frac) -> (fx: Effects)
    requires
        old(viewer).wf(),
        x.wf(),
        y.wf(),
    ensures
        final(viewer).wf(),
        routed(*old(viewer), *final(viewer), InputEvent::CursorMoved { x, y }, fx),
{
    route_event(viewer, InputEvent::CursorMoved { x, y })
}

/// Primary pointer button: drag state is held across press and release.
pub fn on_pointer_button(viewer: &mut Viewer, pressed: bool) -> (fx: Effects)
    requires
        old(viewer).wf(),
    ensures
        final(viewer).wf(),
        routed(*old(viewer), *final(viewer), InputEvent::PrimaryButton { pressed }, fx),
{
    route_event(viewer, InputEvent::PrimaryButton { pressed })
}

/// Scroll step: zoom by the direction-dependent factor.
pub fn on_scroll(viewer: &mut Viewer, kind: ScrollKind, up: bool) -> (fx: Effects)
    requires
        old(viewer).wf(),
    ensures
        final(viewer).wf(),
        routed(*old(viewer), *final(viewer), InputEvent::Scroll { kind, up }, fx),
{
    route_event(viewer, InputEvent::Scroll { kind, up })
}

/// Key press or release.
pub fn on_key(viewer: &mut Viewer, key: Key, pressed: bool) -> (fx: Effects)
    requires
        old(viewer).wf(),
    ensures
        final(viewer).wf(),
        routed(*old(viewer), *final(viewer), InputEvent::Key { key, pressed }, fx),
{
    route_event(viewer, InputEvent::Key { key, pressed })
}

} // verus!
