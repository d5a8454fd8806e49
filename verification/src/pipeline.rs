//! The per-frame algorithm and the viewer that owns all core state.
//!
//! One redraw is one tick: nothing happens until the surface is configured;
//! an acquired target is either drawn to or, on a recoverable loss, skipped
//! after a forced resize; a compute dispatch covering the surface runs
//! exactly when the view is dirty; the render pass that samples canvas
//! texture A onto the fullscreen quad always runs.

use vstd::prelude::*;
use vstd::arithmetic::div_mod::lemma_fundamental_div_mod_converse;
use crate::canvas::{CanvasResources, ComputeBinding, RenderBinding};
use crate::frac::Frac;
use crate::surface::{SurfaceFormat, SurfaceManager};
use crate::viewport::ViewportState;

verus! {

/// Compute kernels cover the surface in square workgroups of this side.
pub const WORKGROUP_SIDE: u32 = 8;

/// Vertices of the fullscreen quad: two triangles, no index buffer.
pub const QUAD_VERTEX_COUNT: u32 = 6;

/// Failure classes reported when acquiring a presentable frame target.
#[derive(Clone, Copy, Debug, PartialEq, Eq, Structural)]
pub enum AcquireError {
    /// The target was lost and must be re-created.
    Lost,
    /// The configuration no longer matches the surface.
    Outdated,
    /// The device is out of memory.
    OutOfMemory,
    /// Acquiring did not complete in time.
    Timeout,
    /// Any other acquire failure.
    Other,
}

/// How the pipeline responds to a failed acquire.
#[derive(Clone, Copy, Debug, PartialEq, Eq, Structural)]
pub enum AcquireDisposition {
    /// Resize to the current window size (forcing reconfiguration and a
    /// resource rebuild) and skip this frame's draw.
    RecoverWithResize,
    /// Give the frame up as failed.
    Fatal,
}

/// Lost or outdated targets are recoverable; everything else is fatal.
pub open spec fn classify_spec(e: AcquireError) -> AcquireDisposition {
    match e {
        AcquireError::Lost => AcquireDisposition::RecoverWithResize,
        AcquireError::Outdated => AcquireDisposition::RecoverWithResize,
        _ => AcquireDisposition::Fatal,
    }
}

/// Classify a failed acquire: a lost or outdated target is recovered by a
/// forced resize to the current size, skipping the frame; any other
/// failure is fatal for the frame.
pub fn classify_acquire_error(e: AcquireError) -> (d: AcquireDisposition)
    ensures
        d == classify_spec(e),
{
    match e {
        AcquireError::Lost => AcquireDisposition::RecoverWithResize,
        AcquireError::Outdated => AcquireDisposition::RecoverWithResize,
        _ => AcquireDisposition::Fatal,
    }
}

/// Number of workgroups along one axis needed to cover `size` pixels:
/// the ceiling of `size / WORKGROUP_SIDE`.
pub fn workgroup_count(size: u32) -> (n: u32)
    ensures
        n as int == (size as int + WORKGROUP_SIDE - 1) / (WORKGROUP_SIDE as int),
{
    let q = size / WORKGROUP_SIDE;
    let r = size % WORKGROUP_SIDE;
    proof {
        let s = size as int;
        let w = WORKGROUP_SIDE as int;
        if r == 0 {
            lemma_fundamental_div_mod_converse(s + w - 1, w, q as int, w - 1);
        } else {
            lemma_fundamental_div_mod_converse(s + w - 1, w, q as int + 1, r as int - 1);
        }
    }
    if r == 0 {
        q
    } else {
        q + 1
    }
}

/// The uniform parameters uploaded before a compute dispatch.
#[derive(Clone, Copy, Debug, PartialEq, Eq, Structural)]
pub struct FrameParams {
    pub center_x: Frac,
    pub center_y: Frac,
    pub zoom: Frac,
    pub max_iterations: u32,
}

/// One planned compute dispatch: parameters to upload, grid to cover the
/// surface, and the bind group writing canvas texture A.
#[derive(Clone, Copy, Debug, PartialEq, Eq, Structural)]
pub struct ComputePass {
    pub params: FrameParams,
    pub workgroups_x: u32,
    pub workgroups_y: u32,
    pub binding: ComputeBinding,
}

/// The always-run render pass: sample canvas texture A over the quad.
#[derive(Clone, Copy, Debug, PartialEq, Eq, Structural)]
pub struct RenderPass {
    pub binding: RenderBinding,
    pub vertex_count: u32,
}

/// Everything one frame submission contains; the compute dispatch, when
/// present, is encoded strictly before the render pass.
#[derive(Clone, Copy, Debug, PartialEq, Eq, Structural)]
pub struct FramePlan {
    pub compute: Option<ComputePass>,
    pub render: RenderPass,
}

/// The viewer core: viewport state, surface configuration and the GPU
/// resource model, exclusively owned here.
#[derive(Clone, Copy, Debug, PartialEq, Eq, Structural)]
pub struct Viewer {
    pub viewport: ViewportState,
    pub surface: SurfaceManager,
    pub canvas: CanvasResources,
}

/// `post` is `pre` after planning one frame, which produced `plan`: the
/// compute dispatch is planned exactly when the view was dirty, carries the
/// current view parameters and a grid covering the surface, and targets
/// canvas texture A; the render pass samples canvas texture A over the
/// quad; the dirty flag is cleared and nothing else changes.
pub open spec fn plan_frame_rel(pre: Viewer, post: Viewer, plan: FramePlan) -> bool {
    &&& (plan.compute is Some <==> pre.viewport.dirty)
    &&& (plan.compute matches Some(c) ==> {
        &&& c.params.center_x == pre.viewport.center_x
        &&& c.params.center_y == pre.viewport.center_y
        &&& c.params.zoom == pre.viewport.zoom
        &&& c.params.max_iterations == pre.viewport.max_iterations
        &&& c.workgroups_x as int == (pre.surface.config.width as int + WORKGROUP_SIDE - 1) / (
        WORKGROUP_SIDE as int)
        &&& c.workgroups_y as int == (pre.surface.config.height as int + WORKGROUP_SIDE - 1) / (
        WORKGROUP_SIDE as int)
        &&& c.binding == pre.canvas.compute_into_a
    })
    &&& plan.render.binding == pre.canvas.render_from_a
    &&& plan.render.vertex_count == QUAD_VERTEX_COUNT
    &&& post.viewport == (ViewportState { dirty: false, ..pre.viewport })
    &&& post.surface == pre.surface
    &&& post.canvas == pre.canvas
}

impl Viewer {
    /// Viewport valid, surface configuration valid, resources well-formed,
    /// and — whenever the surface is configured — the resources dimensioned
    /// to the current surface configuration.
    pub open spec fn wf(self) -> bool {
        &&& self.viewport.wf()
        &&& self.surface.wf()
        &&& self.canvas.wf()
        &&& (self.surface.configured ==> self.canvas.width == self.surface.config.width
            && self.canvas.height == self.surface.config.height)
    }

    /// The viewer at startup: default viewport, a surface that still awaits
    /// its first configuration, and resources built for the initial window
    /// size (clamped to one pixel so the textures exist).
    pub fn new(format: SurfaceFormat, present_mode: u32, width: u32, height: u32) -> (v: Viewer)
        ensures
            v.wf(),
            !v.surface.configured,
            v.viewport == crate::viewport::initial_viewport(),
            v.surface.config.format == format,
            v.surface.config.present_mode == present_mode,
            v.surface.config.width == width,
            v.surface.config.height == height,
            v.canvas.width == (if width >= 1 { width } else { 1u32 }),
            v.canvas.height == (if height >= 1 { height } else { 1u32 }),
    {
        let w = if width >= 1 {
            width
        } else {
            1
        };
        let h = if height >= 1 {
            height
        } else {
            1
        };
        Viewer {
            viewport: Default::default(),
            surface: SurfaceManager::new(format, present_mode, width, height),
            canvas: CanvasResources::create(w, h),
        }
    }

    /// Resize to a new window size: reconfigure the surface, rebuild every
    /// size-dependent resource, and mark the view dirty.  A zero dimension
    /// is rejected and nothing changes.
    pub fn resize(&mut self, width: u32, height: u32) -> (accepted: bool)
        requires
            old(self).wf(),
            old(self).canvas.next_id <= u64::MAX - 4,
        ensures
            final(self).wf(),
            accepted <==> width >= 1 && height >= 1,
            !accepted ==> *final(self) == *old(self),
            accepted ==> {
                &&& final(self).surface.configured
                &&& final(self).surface.config.width == width
                &&& final(self).surface.config.height == height
                &&& final(self).surface.config.format == old(self).surface.config.format
                &&& final(self).surface.config.present_mode == old(self).surface.config.present_mode
                &&& CanvasResources::rebuilt_from(final(self).canvas, old(self).canvas, width, height)
                &&& final(self).viewport == (ViewportState { dirty: true, ..old(self).viewport })
            },
    {
        if self.surface.configure(width, height) {
            self.canvas.rebuild(width, height);
            self.viewport.dirty = true;
            true
        } else {
            false
        }
    }

    /// First step of a redraw.  Until a first resize has configured the
    /// surface, nothing is rendered and the tick ends here: the caller just
    /// requests another redraw (idle, not an error).
    pub fn begin_frame(&self) -> (ready: bool)
        ensures
            ready == self.surface.configured,
    {
        self.surface.configured
    }

    /// Decide the work of one frame once a target has been acquired: when
    /// the view is dirty, plan a compute dispatch with the current
    /// parameters over a grid covering the surface and clear the dirty
    /// flag; always plan the render pass sampling canvas texture A.
    pub fn plan_frame(&mut self) -> (plan: FramePlan)
        requires
            old(self).wf(),
            old(self).surface.configured,
        ensures
            final(self).wf(),
            plan_frame_rel(*old(self), *final(self), plan),
    {
        let compute = if self.viewport.dirty {
            let wx = workgroup_count(self.surface.config.width);
            let wy = workgroup_count(self.surface.config.height);
            Some(ComputePass {
                params: FrameParams {
                    center_x: self.viewport.center_x,
                    center_y: self.viewport.center_y,
                    zoom: self.viewport.zoom,
                    max_iterations: self.viewport.max_iterations,
                },
                workgroups_x: wx,
                workgroups_y: wy,
                binding: self.canvas.compute_into_a,
            })
        } else {
            None
        };
        self.viewport.dirty = false;
        FramePlan {
            compute,
            render: RenderPass {
                binding: self.canvas.render_from_a,
                vertex_count: QUAD_VERTEX_COUNT,
            },
        }
    }

    /// Last step of a frame: remember the pointer position for the next
    /// one.
    pub fn finish_frame(&mut self)
        requires
            old(self).wf(),
        ensures
            final(self).wf(),
            *final(self) == (Viewer {
                viewport: (ViewportState {
                    prev_cursor_x: old(self).viewport.cursor_x,
                    prev_cursor_y: old(self).viewport.cursor_y,
                    ..old(self).viewport
                }),
                ..*old(self)
            }),
    {
        self.viewport.prev_cursor_x = self.viewport.cursor_x;
        self.viewport.prev_cursor_y = self.viewport.cursor_y;
    }
}

/// Dirty gating: a frame tick clears the dirty flag, and a second tick with
/// no input in between plans no recompute.
pub proof fn lemma_dirty_gating(
    s0: Viewer,
    s1: Viewer,
    s2: Viewer,
    p1: FramePlan,
    p2: FramePlan,
)
    requires
        plan_frame_rel(s0, s1, p1),
        plan_frame_rel(s1, s2, p2),
    ensures
        !s1.viewport.dirty,
        p2.compute is None,
{
}

} // verus!
