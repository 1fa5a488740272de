//! The renderer collaborator, modelled by what the painter can observe of it:
//! the configuration it was constructed with and the log of operations driven
//! into it. The real GPU resource management behind each operation is the
//! renderer's own concern; this module pins down which operations happen and
//! in what order.

use vstd::prelude::*;
use crate::gpu::{CommandEncoder, Device, Queue, RenderPassRecord, TextureFormat, TextureView};
use crate::gui::{ClippedPrimitive, ImageDelta, TextureId, TexturesDelta};

verus! {

/// Per-frame metadata needed to map GUI logical coordinates to device pixels.
#[derive(Clone, Copy, PartialEq, Eq, Debug)]
pub struct ScreenDescriptor {
    /// Width and height of the target in physical pixels.
    pub size_in_pixels: [u32; 2],
    /// Bit pattern of the DPI scale factor (logical points per pixel, as a
    /// 32-bit floating-point value). The painter never computes with the
    /// scale; it only forwards it, so it is carried as its raw bits.
    pub pixels_per_point_bits: u32,
}

/// One observable renderer operation.
#[derive(Clone, Copy, PartialEq, Eq, Debug)]
pub enum RendererOp {
    /// A texture was added or patched from a frame's texture delta.
    TextureUpdated { id: TextureId },
    /// The frame's vertex and index buffers were uploaded.
    BuffersUpdated { primitive_count: usize, screen: ScreenDescriptor },
    /// A texture marked for removal was freed.
    TextureFreed { id: TextureId },
}

/// The operations that updating the textures of one delta drives into the
/// renderer: one addition per entry, in order.
pub open spec fn added_ops(set: Seq<(TextureId, ImageDelta)>) -> Seq<RendererOp> {
    set.map_values(|e: (TextureId, ImageDelta)| RendererOp::TextureUpdated { id: e.0 })
}

/// The upload phase of one frame: every texture addition of the delta, in
/// order, followed by the buffer upload.
pub open spec fn upload_ops(
    set: Seq<(TextureId, ImageDelta)>,
    primitive_count: usize,
    screen: ScreenDescriptor,
) -> Seq<RendererOp> {
    added_ops(set).push(RendererOp::BuffersUpdated { primitive_count, screen })
}

/// The free phase of one frame: one free per id marked for removal, in order.
pub open spec fn free_ops(free: Seq<TextureId>) -> Seq<RendererOp> {
    free.map_values(|id: TextureId| RendererOp::TextureFreed { id })
}

/// The renderer: configured once with a target texture format, then driven
/// frame by frame. Its state is the log of operations performed on it.
pub struct Renderer {
    target_format: TextureFormat,
    msaa_samples: u32,
    depth_bits: u32,
    ops: Vec<RendererOp>,
}

/// Whether two renderer values carry the same construction-time
/// configuration.
pub open spec fn same_config(a: Renderer, b: Renderer) -> bool {
    &&& a.format() == b.format()
    &&& a.msaa_samples() == b.msaa_samples()
    &&& a.depth_bits() == b.depth_bits()
}

impl Renderer {
    /// The texture format this renderer draws in, fixed at construction.
    pub closed spec fn format(&self) -> TextureFormat {
        self.target_format
    }

    /// Samples per pixel for multisampling, fixed at construction.
    pub closed spec fn msaa_samples(&self) -> u32 {
        self.msaa_samples
    }

    /// Bits of the depth buffer, fixed at construction.
    pub closed spec fn depth_bits(&self) -> u32 {
        self.depth_bits
    }

    /// The log of operations performed on this renderer, oldest first.
    pub closed spec fn log(&self) -> Seq<RendererOp> {
        self.ops@
    }

    /// A fresh renderer for the given target format, with nothing done yet.
    pub fn new(
        _device: &Device,
        target_format: TextureFormat,
        msaa_samples: u32,
        depth_bits: u32,
    ) -> (r: Self)
        ensures
            r.format() == target_format,
            r.msaa_samples() == msaa_samples,
            r.depth_bits() == depth_bits,
            r.log() == Seq::<RendererOp>::empty(),
    {
        Renderer { target_format, msaa_samples, depth_bits, ops: Vec::new() }
    }

    /// The log of operations performed on this renderer, oldest first.
    pub fn ops(&self) -> (r: &Vec<RendererOp>)
        ensures
            r@ == self.log(),
    {
        &self.ops
    }

    /// The texture format this renderer draws in.
    pub fn target_format(&self) -> (r: TextureFormat)
        ensures
            r == self.format(),
    {
        self.target_format
    }

    /// Adds or patches one texture.
    pub fn update_texture(
        &mut self,
        _device: &Device,
        _queue: &Queue,
        id: TextureId,
        _image_delta: &ImageDelta,
    )
        ensures
            same_config(*old(self), *final(self)),
            final(self).log() == old(self).log().push((RendererOp::TextureUpdated { id })),
    {
        self.ops.push(RendererOp::TextureUpdated { id });
    }

    /// Adds or patches every texture of one delta, in order.
    pub fn update_textures(
        &mut self,
        device: &Device,
        queue: &Queue,
        set: &Vec<(TextureId, ImageDelta)>,
    )
        ensures
            same_config(*old(self), *final(self)),
            final(self).log() == old(self).log() + added_ops(set@),
    {
        let mut i: usize = 0;
        while i < set.len()
            invariant
                i <= set.len(),
                same_config(*old(self), *self),
                self.log() == old(self).log() + added_ops(set@.take(i as int)),
            decreases set@.len() - i,
        {
            let (id, image_delta) = set[i];
            self.update_texture(device, queue, id, &image_delta);
            proof {
                assert(added_ops(set@.take(i + 1 as int)) =~= added_ops(set@.take(i as int)).push(
                    RendererOp::TextureUpdated { id },
                ));
            }
            i += 1;
        }
        proof {
            assert(set@.take(set@.len() as int) =~= set@);
        }
    }

    /// Uploads the frame's vertex and index buffers.
    pub fn update_buffers(
        &mut self,
        _device: &Device,
        _queue: &Queue,
        clipped_primitives: &Vec<ClippedPrimitive>,
        screen: &ScreenDescriptor,
    )
        ensures
            same_config(*old(self), *final(self)),
            final(self).log() == old(self).log().push(
                (RendererOp::BuffersUpdated {
                    primitive_count: clipped_primitives.len(),
                    screen: *screen,
                }),
            ),
    {
        let n: usize = clipped_primitives.len();
        self.ops.push(RendererOp::BuffersUpdated { primitive_count: n, screen: *screen });
    }

    /// Records the frame's draw calls into `encoder`, targeting
    /// `output_view`. Takes the renderer by shared reference: recording does
    /// not change the renderer, so other readers may run concurrently. The
    /// recorded pass notes how many operations this renderer's log held at
    /// the moment of recording.
    pub fn render(
        &self,
        encoder: &mut CommandEncoder,
        _output_view: &TextureView,
        clipped_primitives: &Vec<ClippedPrimitive>,
        screen: &ScreenDescriptor,
        depth_stencil: Option<&TextureView>,
    )
        ensures
            final(encoder).passes@ == old(encoder).passes@.push(
                (RenderPassRecord {
                    primitive_count: clipped_primitives.len(),
                    screen: *screen,
                    has_depth_stencil: depth_stencil is Some,
                    ops_recorded_before: self.log().len() as usize,
                }),
            ),
            self.log().len() <= usize::MAX,
    {
        let record = RenderPassRecord {
            primitive_count: clipped_primitives.len(),
            screen: *screen,
            has_depth_stencil: depth_stencil.is_some(),
            ops_recorded_before: self.ops.len(),
        };
        encoder.passes.push(record);
    }

    /// Frees one texture marked for removal.
    pub fn free_texture(&mut self, id: &TextureId)
        ensures
            same_config(*old(self), *final(self)),
            final(self).log() == old(self).log().push((RendererOp::TextureFreed { id: *id })),
    {
        self.ops.push(RendererOp::TextureFreed { id: *id });
    }

    /// Frees every texture one delta marks for removal, in order.
    pub fn free_textures(&mut self, free: &Vec<TextureId>)
        ensures
            same_config(*old(self), *final(self)),
            final(self).log() == old(self).log() + free_ops(free@),
    {
        let mut i: usize = 0;
        while i < free.len()
            invariant
                i <= free.len(),
                same_config(*old(self), *self),
                self.log() == old(self).log() + free_ops(free@.take(i as int)),
            decreases free@.len() - i,
        {
            self.free_texture(&free[i]);
            proof {
                assert(free_ops(free@.take(i + 1 as int)) =~= free_ops(free@.take(i as int)).push(
                    RendererOp::TextureFreed { id: free@[i as int] },
                ));
            }
            i += 1;
        }
        proof {
            assert(free@.take(free@.len() as int) =~= free@);
        }
    }
}

/// Paints one frame against an exclusively held renderer: applies all
/// texture additions of the delta and the buffer upload, then records the
/// render pass (with no depth-stencil attachment) into `encoder`, then frees
/// the textures the delta marks for removal. The recorded pass sits exactly
/// between the upload phase and the free phase of the log.
pub fn paint_frame(
    renderer: &mut Renderer,
    device: &Device,
    queue: &Queue,
    encoder: &mut CommandEncoder,
    output_view: &TextureView,
    clipped_primitives: &Vec<ClippedPrimitive>,
    textures_delta: &TexturesDelta,
    screen: &ScreenDescriptor,
)
    ensures
        same_config(*old(renderer), *final(renderer)),
        final(renderer).log() == old(renderer).log() + upload_ops(
            textures_delta.set@,
            clipped_primitives.len(),
            *screen,
        ) + free_ops(textures_delta.free@),
        final(encoder).passes@.len() == old(encoder).passes@.len() + 1,
        forall|i: int|
            0 <= i < old(encoder).passes@.len() ==> final(encoder).passes@[i] == old(
                encoder,
            ).passes@[i],
        final(encoder).passes@.last().primitive_count == clipped_primitives@.len(),
        final(encoder).passes@.last().screen == *screen,
        final(encoder).passes@.last().has_depth_stencil == false,
        final(encoder).passes@.last().ops_recorded_before == old(renderer).log().len()
            + textures_delta.set@.len() + 1,
{
    renderer.update_textures(device, queue, &textures_delta.set);
    renderer.update_buffers(device, queue, clipped_primitives, screen);
    renderer.render(encoder, output_view, clipped_primitives, screen, None);
    renderer.free_textures(&textures_delta.free);
    proof {
        assert(renderer.log() =~= old(renderer).log() + upload_ops(
            textures_delta.set@,
            clipped_primitives.len(),
            *screen,
        ) + free_ops(textures_delta.free@));
    }
}

/// Law: within one frame's log, every texture addition and the buffer upload
/// stand before the point at which the render pass is recorded, and every
/// texture free after it. The point is the one a pass recorded by
/// [`paint_frame`] notes in `ops_recorded_before`, relative to the log the
/// frame started from.
pub proof fn lemma_frame_ops_ordered(
    l0: Seq<RendererOp>,
    set: Seq<(TextureId, ImageDelta)>,
    primitive_count: usize,
    screen: ScreenDescriptor,
    free: Seq<TextureId>,
)
    ensures
        ({
            let l = l0 + upload_ops(set, primitive_count, screen) + free_ops(free);
            let record_point = l0.len() + set.len() + 1;
            &&& l.len() == l0.len() + set.len() + 1 + free.len()
            &&& forall|i: int|
                l0.len() <= i < l0.len() + set.len() ==> l[i] == (RendererOp::TextureUpdated {
                    id: set[i - l0.len()].0,
                })
            &&& l[record_point - 1] == (RendererOp::BuffersUpdated { primitive_count, screen })
            &&& forall|i: int|
                record_point <= i < l.len() ==> l[i] == (RendererOp::TextureFreed {
                    id: free[i - record_point],
                })
        }),
{
}

} // verus!
