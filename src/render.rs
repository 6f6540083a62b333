use vstd::prelude::*;
use crate::app::Size;
use crate::world::World;

verus! {

/// The renderer's frame lifecycle: the surface configuration, the depth
/// buffer that is kept in lockstep with it, and whether a compiled view of a
/// world has been built yet.
#[derive(Clone, Copy, Debug, PartialEq, Eq, Structural)]
pub struct Renderer {
    pub surface_config: Size,
    pub depth_size: Size,
    pub view_loaded: bool,
}

/// One frame's render pass: a color target cleared to the background color,
/// a depth target cleared to the far value, and whether the compiled view
/// submits draws into it.
#[derive(Clone, Copy, Debug, PartialEq, Eq, Structural)]
pub struct RenderPass {
    pub color_target: Size,
    pub depth_target: Size,
    pub draws_view: bool,
}

impl Renderer {
    /// The depth buffer matches the surface.
    pub open spec fn wf(self) -> bool {
        self.depth_size == self.surface_config
    }

    /// A renderer for a surface of `width` by `height`, with no view yet.
    pub fn new(width: u32, height: u32) -> (r: Renderer)
        ensures
            r.wf(),
            r.surface_config == (Size { width, height }),
            !r.view_loaded,
    {
        let size = Size { width, height };
        Renderer { surface_config: size, depth_size: size, view_loaded: false }
    }

    /// Reconfigures the surface to `width` by `height` and recreates the depth
    /// buffer at the surface's new size.
    pub fn resize(&mut self, width: u32, height: u32)
        ensures
            final(self).wf(),
            final(self).surface_config == (Size { width, height }),
            final(self).depth_size == final(self).surface_config,
            final(self).view_loaded == old(self).view_loaded,
    {
        self.surface_config = Size { width, height };
        self.depth_size = self.surface_config;
    }

    /// Replaces the compiled view with one built from `world`.
    pub fn load_world<T, C>(&mut self, _world: &World<T, C>)
        ensures
            final(self).view_loaded,
            final(self).surface_config == old(self).surface_config,
            final(self).depth_size == old(self).depth_size,
    {
        self.view_loaded = true;
    }

    /// The pass for one frame: both targets at the surface's size, with the
    /// compiled view drawing only once one exists. Without a view the frame
    /// still clears and presents.
    pub fn render_frame<T, C>(&self, _world: &World<T, C>) -> (r: RenderPass)
        requires
            self.wf(),
        ensures
            r.color_target == self.surface_config,
            r.depth_target == self.surface_config,
            r.draws_view == self.view_loaded,
    {
        RenderPass {
            color_target: self.surface_config,
            depth_target: self.depth_size,
            draws_view: self.view_loaded,
        }
    }
}

} // verus!
