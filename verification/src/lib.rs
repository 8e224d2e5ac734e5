//! Input and camera state for an interactive 3D viewer.
//!
//! The library translates raw windowing events (mouse buttons, cursor
//! motion, wheel, keyboard, resize) into an input snapshot for an
//! immediate-mode UI layer and into camera operations for an arcball
//! camera, and owns the orthographic and perspective projection
//! parameters that depend on the viewport.
//!
//! All state is kept as plain values. Scalar float payloads that the
//! logic only stores and forwards (the wheel delta, the near and far
//! planes) travel as IEEE-754 bit patterns, and aspect-dependent
//! projection extents are exact rationals, so every rule can be stated
//! and proved without floating point. The embedding layer converts at
//! the boundary and applies the emitted camera operations to the real
//! camera object.

pub mod events;
pub mod laws;
pub mod projection;
pub mod state;

pub use events::{Button, CameraOp, Event, Outcome};
pub use projection::{OrthoParams, PerspectiveParams, Ratio};
pub use state::{ButtonState, DragState, Support, SupportView, UiSnapshot};
