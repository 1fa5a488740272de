//! The painter: owns the lazily initialised render state and forwards each
//! frame's paint data to the renderer in a fixed order.

use vstd::prelude::*;
use vstd::rwlock::{RwLock, RwLockPredicate};
use std::sync::Arc;
use crate::gpu::{Adapter, CommandEncoder, Device, Queue, Surface, TextureFormat, TextureView};
use crate::gui::{ClippedPrimitive, TexturesDelta};
use crate::renderer::{Renderer, ScreenDescriptor};

verus! {

/// Invariant of the shared renderer lock: every renderer value ever stored
/// in it carries the configuration the render state was initialised with.
/// The configuration is fixed at the first initialisation and reused for all
/// subsequent frames.
#[derive(Clone, Copy)]
pub struct ConfigInv {
    pub format: TextureFormat,
    pub msaa_samples: u32,
    pub depth_bits: u32,
}

impl RwLockPredicate<Renderer> for ConfigInv {
    open spec fn inv(self, r: Renderer) -> bool {
        &&& r.format() == self.format
        &&& r.msaa_samples() == self.msaa_samples
        &&& r.depth_bits() == self.depth_bits
    }
}

/// Access to the render state: a shared, lock-protected handle to the
/// renderer. It can be cloned, so callers issuing custom draw callbacks can
/// hold their own handle and read the renderer concurrently with painting;
/// the renderer lives as long as its longest-lived holder.
#[derive(Clone)]
pub struct RenderState {
    pub renderer: Arc<RwLock<Renderer, ConfigInv>>,
}

/// Relies on std's Arc::clone: the returned handle refers to the same
/// allocation as the one given, so as a value it is equal to it.
#[verifier::external_body]
fn share_renderer(renderer: &Arc<RwLock<Renderer, ConfigInv>>) -> (r: Arc<
    RwLock<Renderer, ConfigInv>,
>)
    ensures
        r == *renderer,
{
    Arc::clone(renderer)
}

impl RenderState {
    /// The configuration every renderer value behind the lock carries.
    pub open spec fn config(&self) -> ConfigInv {
        self.renderer.pred()
    }

    /// The texture format the renderer was initialised with.
    pub open spec fn format(&self) -> TextureFormat {
        self.config().format
    }

    /// A second handle to the same renderer.
    pub fn share(&self) -> (r: Self)
        ensures
            r == *self,
    {
        RenderState { renderer: share_renderer(&self.renderer) }
    }
}

/// Everything needed to paint the GUI onto a window surface. GPU work is
/// deferred until the painter is given its first window target, so that the
/// device in use is the one compatible with the native window.
pub struct Painter {
    render_state: Option<RenderState>,
}

impl Painter {
    /// The render state, if it has been initialised.
    pub closed spec fn spec_render_state(&self) -> Option<RenderState> {
        self.render_state
    }

    /// Whether the render state has been initialised.
    pub open spec fn has_render_state(&self) -> bool {
        self.spec_render_state() is Some
    }

    /// The configuration the render state was initialised with; meaningful
    /// only when the render state is present.
    pub open spec fn spec_config(&self) -> ConfigInv {
        self.spec_render_state().unwrap().config()
    }

    /// The texture format the render state was initialised with; meaningful
    /// only when the render state is present.
    pub open spec fn spec_format(&self) -> TextureFormat {
        self.spec_config().format
    }

    /// A painter with no render state: all GPU work is deferred until a
    /// window is known.
    pub fn new() -> (r: Self)
        ensures
            !r.has_render_state(),
    {
        Painter { render_state: None }
    }

    /// A handle to the render state, or `None` if it has not been
    /// initialised yet.
    pub fn render_state(&self) -> (r: Option<RenderState>)
        ensures
            r is Some <==> self.has_render_state(),
            r is Some ==> r.unwrap() == self.spec_render_state().unwrap(),
    {
        match &self.render_state {
            Some(rs) => Some(rs.share()),
            None => None,
        }
    }

    /// A fresh render state whose renderer draws in `target_format`.
    fn init_render_state(&self, device: &Device, target_format: TextureFormat) -> (r: RenderState)
        ensures
            r.config() == (ConfigInv { format: target_format, msaa_samples: 1, depth_bits: 0 }),
    {
        let rpass = Renderer::new(device, target_format, 1, 0);
        let inv = Ghost(ConfigInv { format: target_format, msaa_samples: 1, depth_bits: 0 });
        RenderState { renderer: Arc::new(RwLock::new(rpass, inv)) }
    }

    /// Initialises the render state from the surface's first supported
    /// format if it is absent; a no-op if it is already present, even if the
    /// surface or its format differs, on the documented assumption that the
    /// format stays stable for the life of the process.
    fn ensure_render_state_for_surface(
        &mut self,
        device: &Device,
        adapter: &Adapter,
        surface: &Surface,
    )
        requires
            !old(self).has_render_state() ==> surface.supported_formats@.len() > 0,
        ensures
            final(self).has_render_state(),
            old(self).has_render_state() ==> *final(self) == *old(self),
            !old(self).has_render_state() ==> final(self).spec_config() == (ConfigInv {
                format: surface.supported_formats@[0],
                msaa_samples: 1,
                depth_bits: 0,
            }),
    {
        if self.render_state.is_none() {
            let formats = surface.get_supported_formats(adapter);
            let swapchain_format = formats[0];
            let rs = self.init_render_state(device, swapchain_format);
            self.render_state = Some(rs);
        }
    }

    /// Gives the painter its window target: initialises the render state
    /// for the surface if that has not happened yet. Must be called before
    /// painting. The surface must report at least one supported format
    /// unless the render state already exists.
    pub fn set_window(&mut self, device: &Device, adapter: &Adapter, surface: &Surface)
        requires
            !old(self).has_render_state() ==> surface.supported_formats@.len() > 0,
        ensures
            final(self).has_render_state(),
            old(self).has_render_state() ==> *final(self) == *old(self),
            !old(self).has_render_state() ==> final(self).spec_config() == (ConfigInv {
                format: surface.supported_formats@[0],
                msaa_samples: 1,
                depth_bits: 0,
            }),
    {
        self.ensure_render_state_for_surface(device, adapter, surface);
    }

    /// The maximum width and height of a 2-dimensional texture that the
    /// given device supports.
    pub fn max_texture_side(&self, device: &Device) -> (r: Option<usize>)
        ensures
            r == Some(device.limits.max_texture_dimension_2d as usize),
    {
        Some(device.limits().max_texture_dimension_2d as usize)
    }

    /// Paints one frame: a no-op if the render state is absent (nothing is
    /// recorded into `encoder`). Otherwise, under exclusive access to the
    /// renderer, applies the delta's texture additions and uploads the
    /// frame's buffers; then, under shared access, records the render pass
    /// (with no depth-stencil attachment) into `encoder`; then, again under
    /// exclusive access, frees the textures the delta marks for removal.
    /// The frees come only after the pass is recorded, since the encoder
    /// references the textures until the recorded work is submitted.
    ///
    /// The contract here speaks of the encoder and the painter alone: the
    /// renderer sits behind the shared lock, whose invariant pins its
    /// configuration but not its history, since other holders of the render
    /// state may drive it between the phases. For a renderer held
    /// exclusively, [`crate::renderer::paint_frame`] states the full
    /// sequence of operations as its contract.
    pub fn paint_and_update_textures(
        &mut self,
        pixels_per_point_bits: u32,
        clipped_primitives: &Vec<ClippedPrimitive>,
        textures_delta: &TexturesDelta,
        device: &Device,
        encoder: &mut CommandEncoder,
        queue: &Queue,
        width: u32,
        height: u32,
        output_view: &TextureView,
    )
        ensures
            *final(self) == *old(self),
            !old(self).has_render_state() ==> *final(encoder) == *old(encoder),
            old(self).has_render_state() ==> {
                &&& final(encoder).passes@.len() == old(encoder).passes@.len() + 1
                &&& forall|i: int|
                    0 <= i < old(encoder).passes@.len() ==> final(encoder).passes@[i] == old(
                        encoder,
                    ).passes@[i]
                &&& final(encoder).passes@.last().primitive_count == clipped_primitives@.len()
                &&& final(encoder).passes@.last().screen == (ScreenDescriptor {
                    size_in_pixels: [width, height],
                    pixels_per_point_bits,
                })
                &&& final(encoder).passes@.last().has_depth_stencil == false
            },
    {
        let render_state = match &self.render_state {
            Some(rs) => rs,
            None => {
                return;
            },
        };

        let screen_descriptor = ScreenDescriptor {
            size_in_pixels: [width, height],
            pixels_per_point_bits,
        };

        // Upload all resources for the GPU.
        let (mut renderer, write_handle) = render_state.renderer.acquire_write();
        renderer.update_textures(device, queue, &textures_delta.set);
        renderer.update_buffers(device, queue, clipped_primitives, &screen_descriptor);
        write_handle.release_write(renderer);

        // Record all render passes.
        let read_handle = render_state.renderer.acquire_read();
        read_handle.borrow().render(
            encoder,
            output_view,
            clipped_primitives,
            &screen_descriptor,
            None,
        );
        read_handle.release_read();

        let (mut renderer, write_handle) = render_state.renderer.acquire_write();
        renderer.free_textures(&textures_delta.free);
        write_handle.release_write(renderer);
    }

    /// Reserved for explicit teardown. In what order the renderer's
    /// resources, the surface and the device should be released is an open
    /// design point, so nothing is released here yet.
    pub fn destroy(&mut self)
        ensures
            *final(self) == *old(self),
    {
    }
}

} // verus!
