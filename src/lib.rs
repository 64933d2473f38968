//! Core of a small renderer that draws one fixed triangle in a window.
//!
//! The window system and the GPU driver stay outside this crate: it holds the
//! surface configuration, the rule that decides when the surface is resized,
//! the layout of the vertex buffer, and the decisions the event loop takes on
//! each window event and on each frame's outcome.
pub mod constants;
pub mod event;
pub mod state;
pub mod surface;
pub mod vertex;

pub use event::{Command, Key, LoopEvent, SurfaceError, WindowInput};
pub use state::{InitError, State};
pub use surface::{PresentMode, Size, SurfaceConfig};
pub use vertex::{packed_layout, vertex_desc, StepMode, VertexAttribute, VertexBufferLayout, VertexFormat};
