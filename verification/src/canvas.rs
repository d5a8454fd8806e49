//! The size-dependent GPU objects, tracked by identity and dimensions.
//!
//! Two canvas textures (compute target and its twin), their views, the
//! uniform parameter buffer, the sampler, and the bind groups tying them to
//! the compute and render kernels.  Identifiers come from a private counter,
//! so a rebuild provably replaces every size-dependent object at once: no
//! binding to a stale-size view can survive a resize.

use vstd::prelude::*;

verus! {

/// Size in bytes of the uniform parameter buffer: two center coordinates,
/// the zoom and the iteration cap, padded to a 16-byte multiple.
pub const PARAMS_BUFFER_SIZE: u64 = 32;

/// A GPU texture: identity and dimensions.
#[derive(Clone, Copy, Debug, PartialEq, Eq, Structural)]
pub struct TextureRes {
    pub id: u64,
    pub width: u32,
    pub height: u32,
}

/// A view onto a texture.
#[derive(Clone, Copy, Debug, PartialEq, Eq, Structural)]
pub struct ViewRes {
    pub id: u64,
    pub texture_id: u64,
}

/// A GPU buffer: identity and size in bytes.
#[derive(Clone, Copy, Debug, PartialEq, Eq, Structural)]
pub struct BufferRes {
    pub id: u64,
    pub size: u64,
}

/// A texture sampler.
#[derive(Clone, Copy, Debug, PartialEq, Eq, Structural)]
pub struct SamplerRes {
    pub id: u64,
}

/// Bind group of the compute kernel: the view it writes and the uniform
/// buffer it reads.
#[derive(Clone, Copy, Debug, PartialEq, Eq, Structural)]
pub struct ComputeBinding {
    pub target_view: u64,
    pub params_buffer: u64,
}

/// Bind group of the render kernel: the view it samples and the sampler.
#[derive(Clone, Copy, Debug, PartialEq, Eq, Structural)]
pub struct RenderBinding {
    pub sampled_view: u64,
    pub sampler: u64,
}

/// All size-dependent GPU objects of the viewer.  Rebuilt whole on every
/// resize; the uniform buffer and the sampler are size-independent and
/// persist across rebuilds.
#[derive(Clone, Copy, Debug, PartialEq, Eq, Structural)]
pub struct CanvasResources {
    pub width: u32,
    pub height: u32,
    pub texture_a: TextureRes,
    pub texture_b: TextureRes,
    pub view_a: ViewRes,
    pub view_b: ViewRes,
    pub params_buffer: BufferRes,
    pub sampler: SamplerRes,
    pub compute_into_a: ComputeBinding,
    pub compute_into_b: ComputeBinding,
    pub render_from_a: RenderBinding,
    pub render_from_b: RenderBinding,
    /// Identifier for the next object; every live identifier is below it.
    pub next_id: u64,
}

impl CanvasResources {
    /// Both textures carry the current dimensions, each view belongs to its
    /// texture, every bind group references the current views, buffer and
    /// sampler, and all identifiers are below the allocation counter.
    pub open spec fn wf(self) -> bool {
        &&& self.width >= 1 && self.height >= 1
        &&& self.texture_a.width == self.width && self.texture_a.height == self.height
        &&& self.texture_b.width == self.width && self.texture_b.height == self.height
        &&& self.texture_a.id != self.texture_b.id
        &&& self.view_a.texture_id == self.texture_a.id
        &&& self.view_b.texture_id == self.texture_b.id
        &&& self.view_a.id != self.view_b.id
        &&& self.compute_into_a.target_view == self.view_a.id
        &&& self.compute_into_b.target_view == self.view_b.id
        &&& self.compute_into_a.params_buffer == self.params_buffer.id
        &&& self.compute_into_b.params_buffer == self.params_buffer.id
        &&& self.render_from_a.sampled_view == self.view_a.id
        &&& self.render_from_b.sampled_view == self.view_b.id
        &&& self.render_from_a.sampler == self.sampler.id
        &&& self.render_from_b.sampler == self.sampler.id
        &&& self.params_buffer.size == PARAMS_BUFFER_SIZE
        &&& self.texture_a.id < self.next_id && self.texture_b.id < self.next_id
        &&& self.view_a.id < self.next_id && self.view_b.id < self.next_id
        &&& self.params_buffer.id < self.next_id && self.sampler.id < self.next_id
    }

    /// `post` is `pre` rebuilt for the given dimensions: textures and views
    /// are fresh objects (allocated past everything `pre` ever knew), while
    /// the uniform buffer and the sampler persist.
    pub open spec fn rebuilt_from(
        post: CanvasResources,
        pre: CanvasResources,
        width: u32,
        height: u32,
    ) -> bool {
        &&& post.wf()
        &&& post.width == width && post.height == height
        &&& post.texture_a.id >= pre.next_id && post.texture_b.id >= pre.next_id
        &&& post.view_a.id >= pre.next_id && post.view_b.id >= pre.next_id
        &&& post.params_buffer == pre.params_buffer
        &&& post.sampler == pre.sampler
        &&& post.next_id >= pre.next_id
    }

    /// Build the full set of resources once at startup.
    pub fn create(width: u32, height: u32) -> (r: CanvasResources)
        requires
            width >= 1,
            height >= 1,
        ensures
            r.wf(),
            r.width == width,
            r.height == height,
    {
        CanvasResources {
            width,
            height,
            texture_a: TextureRes { id: 0, width, height },
            texture_b: TextureRes { id: 1, width, height },
            view_a: ViewRes { id: 2, texture_id: 0 },
            view_b: ViewRes { id: 3, texture_id: 1 },
            params_buffer: BufferRes { id: 4, size: PARAMS_BUFFER_SIZE },
            sampler: SamplerRes { id: 5 },
            compute_into_a: ComputeBinding { target_view: 2, params_buffer: 4 },
            compute_into_b: ComputeBinding { target_view: 3, params_buffer: 4 },
            render_from_a: RenderBinding { sampled_view: 2, sampler: 5 },
            render_from_b: RenderBinding { sampled_view: 3, sampler: 5 },
            next_id: 6,
        }
    }

    /// Replace every size-dependent object for the new dimensions: fresh
    /// textures and views, and bind groups referencing only the fresh
    /// views.  Never partial: all of them are replaced together.
    pub fn rebuild(&mut self, width: u32, height: u32)
        requires
            old(self).wf(),
            width >= 1,
            height >= 1,
            old(self).next_id <= u64::MAX - 4,
        ensures
            final(self).wf(),
            CanvasResources::rebuilt_from(*final(self), *old(self), width, height),
    {
        let base = self.next_id;
        self.texture_a = TextureRes { id: base, width, height };
        self.texture_b = TextureRes { id: base + 1, width, height };
        self.view_a = ViewRes { id: base + 2, texture_id: base };
        self.view_b = ViewRes { id: base + 3, texture_id: base + 1 };
        self.compute_into_a = ComputeBinding {
            target_view: base + 2,
            params_buffer: self.params_buffer.id,
        };
        self.compute_into_b = ComputeBinding {
            target_view: base + 3,
            params_buffer: self.params_buffer.id,
        };
        self.render_from_a = RenderBinding { sampled_view: base + 2, sampler: self.sampler.id };
        self.render_from_b = RenderBinding { sampled_view: base + 3, sampler: self.sampler.id };
        self.width = width;
        self.height = height;
        self.next_id = base + 4;
    }
}

/// Rebuild completeness: after a rebuild, both canvas textures carry the
/// new dimensions, all four bind groups reference the rebuilt views, and no
/// bind group references any view that existed before the rebuild.
pub proof fn lemma_rebuild_no_stale_bindings(
    pre: CanvasResources,
    post: CanvasResources,
    width: u32,
    height: u32,
)
    requires
        pre.wf(),
        CanvasResources::rebuilt_from(post, pre, width, height),
    ensures
        post.texture_a.width == width && post.texture_a.height == height,
        post.texture_b.width == width && post.texture_b.height == height,
        post.compute_into_a.target_view == post.view_a.id,
        post.compute_into_b.target_view == post.view_b.id,
        post.render_from_a.sampled_view == post.view_a.id,
        post.render_from_b.sampled_view == post.view_b.id,
        post.compute_into_a.target_view != pre.view_a.id,
        post.compute_into_a.target_view != pre.view_b.id,
        post.compute_into_b.target_view != pre.view_a.id,
        post.compute_into_b.target_view != pre.view_b.id,
        post.render_from_a.sampled_view != pre.view_a.id,
        post.render_from_a.sampled_view != pre.view_b.id,
        post.render_from_b.sampled_view != pre.view_a.id,
        post.render_from_b.sampled_view != pre.view_b.id,
{
}

} // verus!
