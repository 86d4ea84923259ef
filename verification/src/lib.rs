//! Decision core of a GPU-composited status bar.
//!
//! A bar is a strip of rounded rectangles drawn on a layer surface of each
//! compositor output. This library decides everything about it that can be
//! decided without a GPU or a compositor at hand: which surface
//! configuration to pick from what an adapter offers, how the records shared
//! with the shader are laid out byte by byte, what each buffer holds, what a
//! frame draws, and how bars come and go with their outputs. The program
//! around it performs what the library returns and reports back what the
//! GPU and the compositor answered.
//!
//! - [`float32`]: bit patterns of the floats that go into GPU buffers
//! - [`structures`]: the records shared with the shader and their layout
//! - [`surface`]: surface capabilities and the configuration chosen from them
//! - [`renderer`]: the renderer of one surface
//! - [`bar`]: the bar of one output and its life cycle
//! - [`app`]: the dispatcher of compositor events
//! - [`error`]: failures and whether they can be recovered from

pub mod app;
pub mod bar;
pub mod error;
pub mod float32;
pub mod renderer;
pub mod structures;
pub mod surface;

pub use crate::renderer::{Renderer, SurfaceRenderer};
