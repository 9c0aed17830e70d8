//! Core logic of a real-time instanced scene renderer: per-frame
//! synchronization state, the surface-acquire protocol, draw-pass command
//! sequencing, instance-grid placement, and the binary layout and binding
//! tables that CPU-side code must keep in agreement with the shaders.
//!
//! GPU, window and float math live outside this crate; this crate owns every
//! decision those parts act on.

pub mod bindings;
pub mod extent;
pub mod frame;
pub mod grid;
pub mod layout;
pub mod orchestrator;
pub mod setup;
pub mod surface;

pub use extent::Extent;
pub use frame::{FrameOutcome, FrameStep, GroupRef, PipelineKind, SceneShape, SurfaceAcquire};
pub use grid::GridSlot;
pub use orchestrator::Orchestrator;
pub use surface::{ResizeAction, SurfaceSync};
