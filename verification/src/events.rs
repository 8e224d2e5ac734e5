//! Events consumed by the handler and the operations it emits.

use vstd::prelude::*;

verus! {

/// The mouse buttons the handler distinguishes.
#[derive(Clone, Copy, PartialEq, Eq, Debug)]
pub enum Button {
    Left,
    Right,
    Middle,
    /// Any other physical button; its presses are ignored.
    Other,
}

/// A windowing event, reduced to the plain values the handler reads.
///
/// The wheel delta is an `f32` in the windowing layer; the handler only
/// stores and forwards it, so it travels here as its IEEE-754 bit
/// pattern and no arithmetic is ever done on it.
#[derive(Clone, Copy, PartialEq, Eq, Debug)]
pub enum Event {
    /// The window was asked to close.
    Close,
    /// A mouse button changed state; `pressed` is true on press.
    MouseInput { pressed: bool, button: Button },
    /// The cursor moved to `(x, y)` in screen coordinates.
    CursorMoved { x: i32, y: i32 },
    /// A key went down; `scancode` is the raw platform scancode.
    KeyboardInput { scancode: u32 },
    /// The wheel turned; `delta_bits` is the bit pattern of the
    /// vertical `f32` delta.
    MouseWheel { delta_bits: u32 },
    /// The window is now `w` by `h` pixels.
    Resized { w: u32, h: u32 },
    /// Any event the handler does not react to.
    Other,
}

/// One operation the embedding layer must apply to its arcball camera.
#[derive(Clone, Copy, PartialEq, Eq, Debug)]
pub enum CameraOp {
    /// Rotate by the cursor drag from `(prev_x, prev_y)` to
    /// `(cur_x, cur_y)`, both in screen coordinates.
    Rotate { prev_x: i32, prev_y: i32, cur_x: i32, cur_y: i32 },
    /// Pan by the screen-space delta `(dx, dy)`; `dy` is already
    /// negated so that dragging up moves the scene up.
    Pan { dx: i64, dy: i64 },
    /// Zoom by the wheel delta whose `f32` bit pattern is `delta_bits`.
    Zoom { delta_bits: u32 },
    /// Tell the camera the screen is now `w` by `h` pixels.
    UpdateScreen { w: u32, h: u32 },
}

/// What the handler decided for one event.
#[derive(Clone, Copy, PartialEq, Eq, Debug)]
pub struct Outcome {
    /// True exactly when the event was [`Event::Close`].
    pub quit: bool,
    /// The camera operation to apply now, if any.
    pub camera_op: Option<CameraOp>,
}

} // verus!
