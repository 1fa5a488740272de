//! Binds an immediate-mode GUI's paint output to a GPU rendering backend.
//!
//! A [`painter::Painter`] lazily creates device-dependent render state the
//! first time it is given a window surface, and from then on forwards each
//! frame's texture changes and draw primitives to the renderer in a fixed
//! order: texture additions and buffer uploads first, then the recording of
//! the render pass, then texture frees.

pub mod gpu;
pub mod gui;
pub mod painter;
pub mod renderer;
