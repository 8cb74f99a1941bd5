//! Live frame pipeline for a low-latency screen-capture preview.
//!
//! The library covers the logic of the pipeline: pixel-format
//! normalization, aspect-preserving nearest-neighbor scaling, a
//! single-slot latest-wins frame handoff, the capture producer's
//! rate-limiting and liveness decisions, the preview consumer's
//! surface lifecycle, and the session controller that starts and
//! stops capture sessions. Platform capture, GPU presentation and
//! settings persistence are thin collaborators around it.


pub mod ascii;
pub mod frame;
pub mod normalize;
pub mod preview;
pub mod producer;
pub mod scale;
pub mod session;
pub mod settings;
pub mod slot;

pub use frame::FrameData;
