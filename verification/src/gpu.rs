//! Models of the GPU-side handles the painter works with.
//!
//! The painter never looks inside a device, queue or texture view; of each
//! handle it reads only a few plain values. Each model type therefore holds
//! exactly what the painter (or the renderer it drives) can observe: a device
//! is modelled by the limits it reports, a surface by the texture formats it
//! supports on the adapter in use, and a command encoder by the render passes
//! recorded into it. The embedding application converts between these models
//! and the real GPU API's handles.

use vstd::prelude::*;
use crate::renderer::ScreenDescriptor;

verus! {

/// A texture format code, as negotiated with the surface. Two formats are
/// the same exactly when their codes are.
#[derive(Clone, Copy, PartialEq, Eq, Debug)]
pub struct TextureFormat {
    pub code: u32,
}

/// The device limits that this module reads.
#[derive(Clone, Copy, PartialEq, Eq, Debug)]
pub struct Limits {
    /// Maximum width and height of a 2-dimensional texture.
    pub max_texture_dimension_2d: u32,
}

/// A GPU device handle, modelled by the limits it reports.
#[derive(Clone, Copy, PartialEq, Eq, Debug)]
pub struct Device {
    pub limits: Limits,
}

impl Device {
    /// The limits the device was created with.
    pub fn limits(&self) -> (r: Limits)
        ensures
            r == self.limits,
    {
        self.limits
    }
}

/// A GPU adapter handle. The painter reads nothing of it directly: the
/// formats a surface supports are already negotiated for the adapter in use.
pub struct Adapter {}

/// A submission queue handle, forwarded to the renderer untouched.
pub struct Queue {}

/// A view of the texture a frame is drawn into, forwarded untouched.
pub struct TextureView {}

/// A window surface, modelled by the texture formats it supports on the
/// adapter in use, in the order the platform reports them (preferred first).
pub struct Surface {
    pub supported_formats: Vec<TextureFormat>,
}

impl Surface {
    /// The formats supported for drawing to this surface with the given
    /// adapter, preferred format first.
    pub fn get_supported_formats(&self, _adapter: &Adapter) -> (r: Vec<TextureFormat>)
        ensures
            r@ == self.supported_formats@,
    {
        self.supported_formats.clone()
    }
}

/// One render pass as recorded into a command encoder.
#[derive(Clone, Copy, PartialEq, Eq, Debug)]
pub struct RenderPassRecord {
    /// How many clipped primitives the pass draws.
    pub primitive_count: usize,
    /// The screen metadata the pass was recorded with.
    pub screen: ScreenDescriptor,
    /// Whether a depth-stencil attachment was given.
    pub has_depth_stencil: bool,
    /// How many operations the recording renderer had in its log at the
    /// moment the pass was recorded. This pins where in the renderer's
    /// history the recording took place.
    pub ops_recorded_before: usize,
}

/// A command encoder, modelled by the render passes recorded into it, in
/// order. The caller constructs it, hands it to the painter for recording,
/// and submits it afterwards.
#[derive(Clone, PartialEq, Eq, Debug)]
pub struct CommandEncoder {
    pub passes: Vec<RenderPassRecord>,
}

impl CommandEncoder {
    /// A fresh encoder with nothing recorded.
    pub fn new() -> (r: Self)
        ensures
            r.passes@ == Seq::<RenderPassRecord>::empty(),
    {
        CommandEncoder { passes: Vec::new() }
    }
}

} // verus!
