//! The per-frame paint data handed over by the GUI layer: texture ids, the
//! texture delta of one frame, and the clipped draw primitives.

use vstd::prelude::*;

verus! {

/// Identifier of a texture managed by the GUI layer.
#[derive(Clone, Copy, PartialEq, Eq, Hash, Debug)]
pub enum TextureId {
    /// A texture allocated and tracked by the GUI itself (fonts, images).
    Managed(u64),
    /// A texture owned by the embedding application.
    User(u64),
}

/// A patch to one texture within a frame's texture delta.
///
/// The image bytes themselves belong to the renderer; the painter only
/// forwards the patch, so this type carries what the painter can observe:
/// where the patch lands.
#[derive(Clone, Copy, PartialEq, Eq, Debug)]
pub struct ImageDelta {
    /// Top-left corner of the patch in the target texture, in texels;
    /// absent when the whole texture is replaced.
    pub pos: Option<[usize; 2]>,
}

/// The texture changes requested by the GUI for one frame: additions and
/// updates keyed by texture id, and the ids to free once the frame's render
/// pass has been recorded.
#[derive(Clone, PartialEq, Eq, Debug)]
pub struct TexturesDelta {
    /// Textures to add or patch, in order.
    pub set: Vec<(TextureId, ImageDelta)>,
    /// Textures to free after the frame is recorded.
    pub free: Vec<TextureId>,
}

/// An axis-aligned clip rectangle in physical pixels.
#[derive(Clone, Copy, PartialEq, Eq, Debug)]
pub struct Rect {
    pub min_x: u32,
    pub min_y: u32,
    pub max_x: u32,
    pub max_y: u32,
}

/// The triangle mesh of one draw-call unit, by size. The vertex and index
/// bytes themselves are consumed by the renderer; the painter forwards them.
#[derive(Clone, Copy, PartialEq, Eq, Debug)]
pub struct Mesh {
    pub vertex_count: usize,
    pub index_count: usize,
}

/// A draw-call unit with its clipping rectangle, as produced by the GUI's
/// layout pass.
#[derive(Clone, Copy, PartialEq, Eq, Debug)]
pub struct ClippedPrimitive {
    pub clip_rect: Rect,
    pub mesh: Mesh,
}

} // verus!
