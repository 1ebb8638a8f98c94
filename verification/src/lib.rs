//! Decoding support for Blackmagic RAW clips.
//!
//! The verified core of the crate: the SDK's FourCC tags for pipelines,
//! scales and pixel formats, HRESULT classification and rendering, the
//! layout of a processed image buffer, and the decisions a synchronous
//! decode makes from the SDK's completion events.

pub mod decode;
pub mod error;
pub mod format;
pub mod image;
pub mod path;

pub use decode::{process_phase_outcome, read_phase_outcome, require_open_clip, DecoderEvent};
pub use error::{BrawError, HResult};
pub use format::{Pipeline, ResolutionScale, ResourceFormat};
pub use image::ImageLayout;
pub use path::check_clip_path;
