//! The input-and-camera state and its event handler.

use vstd::prelude::*;

use crate::events::{Button, CameraOp, Event, Outcome};
use crate::projection::{spec_half_extents, half_extents, OrthoParams, PerspectiveParams, Ratio};

verus! {

/// Current physical state of the three tracked mouse buttons.
#[derive(Clone, Copy, PartialEq, Eq, Debug)]
pub struct ButtonState {
    pub left: bool,
    pub right: bool,
    pub middle: bool,
}

/// The buttons that gate drag interpretation of cursor motion. The
/// middle button is tracked in [`ButtonState`] but never gates a drag.
#[derive(Clone, Copy, PartialEq, Eq, Debug)]
pub struct DragState {
    pub left: bool,
    pub right: bool,
}

/// Vertical field of view of the perspective projection, in degrees.
pub const FOVY_DEGREES: u32 = 70;

/// Input and camera state for the viewer.
///
/// Owned by the render loop: every windowing event is dispatched to
/// [`Support::handle`], and once per frame [`Support::pass_to_imgui`]
/// drains the accumulated input into a snapshot for the UI layer.
pub struct Support {
    pressed: ButtonState,
    mouse_pressed: DragState,
    prev_mouse: (i32, i32),
    /// While true, drag and wheel events do not touch the camera
    /// (the UI layer has input focus).
    pub camera_lock: bool,
    keys_pressed: Vec<char>,
    mouse_pos: (i32, i32),
    mouse_wheel_bits: u32,
    pub orthographic: OrthoParams,
    pub perspective: PerspectiveParams,
}

/// The mathematical value of a [`Support`]: the same fields, with the
/// key queue as a sequence.
#[verifier::ext_equal]
pub struct SupportView {
    pub pressed: ButtonState,
    pub mouse_pressed: DragState,
    pub prev_mouse: (i32, i32),
    pub camera_lock: bool,
    pub keys_pressed: Seq<char>,
    pub mouse_pos: (i32, i32),
    pub mouse_wheel_bits: u32,
    pub orthographic: OrthoParams,
    pub perspective: PerspectiveParams,
}

impl View for Support {
    type V = SupportView;

    closed spec fn view(&self) -> SupportView {
        SupportView {
            pressed: self.pressed,
            mouse_pressed: self.mouse_pressed,
            prev_mouse: self.prev_mouse,
            camera_lock: self.camera_lock,
            keys_pressed: self.keys_pressed@,
            mouse_pos: self.mouse_pos,
            mouse_wheel_bits: self.mouse_wheel_bits,
            orthographic: self.orthographic,
            perspective: self.perspective,
        }
    }
}

/// The freshly constructed state for a `w` by `h` viewport with the
/// given near and far planes (as `f32` bit patterns): no button held,
/// no keys queued, wheel at zero, cursor at the origin, camera
/// unlocked, and aspect-corrected projection parameters.
pub open spec fn spec_new(w: u32, h: u32, znear_bits: u32, zfar_bits: u32) -> SupportView {
    SupportView {
        pressed: ButtonState { left: false, right: false, middle: false },
        mouse_pressed: DragState { left: false, right: false },
        prev_mouse: (0, 0),
        camera_lock: false,
        keys_pressed: Seq::empty(),
        mouse_pos: (0, 0),
        mouse_wheel_bits: 0,
        orthographic: OrthoParams {
            half_width: spec_half_extents(w, h).0,
            half_height: spec_half_extents(w, h).1,
            near_bits: znear_bits,
            far_bits: zfar_bits,
        },
        perspective: PerspectiveParams {
            fovy_degrees: FOVY_DEGREES,
            aspect: Ratio { num: w as u64, den: h as u64 },
            near_bits: znear_bits,
            far_bits: zfar_bits,
        },
    }
}

/// What one event does to the state, and what it asks of the caller:
/// the state after the event, and the outcome (quit flag and camera
/// operation).
pub open spec fn spec_handle(s: SupportView, ev: Event) -> (SupportView, Outcome) {
    match ev {
        Event::Close => (s, Outcome { quit: true, camera_op: None }),
        Event::MouseInput { pressed, button } => {
            let s1 = match button {
                Button::Left => SupportView {
                    pressed: ButtonState { left: pressed, ..s.pressed },
                    mouse_pressed: DragState { left: pressed, ..s.mouse_pressed },
                    ..s
                },
                Button::Right => SupportView {
                    pressed: ButtonState { right: pressed, ..s.pressed },
                    mouse_pressed: DragState { right: pressed, ..s.mouse_pressed },
                    ..s
                },
                Button::Middle => SupportView {
                    pressed: ButtonState { middle: pressed, ..s.pressed },
                    ..s
                },
                Button::Other => s,
            };
            (s1, Outcome { quit: false, camera_op: None })
        },
        Event::CursorMoved { x, y } => {
            let prev = s.prev_mouse;
            let s1 = SupportView { mouse_pos: (x, y), prev_mouse: (x, y), ..s };
            let op = if s.mouse_pressed.left && !s.camera_lock {
                Some(CameraOp::Rotate { prev_x: prev.0, prev_y: prev.1, cur_x: x, cur_y: y })
            } else if s.mouse_pressed.right && !s.camera_lock {
                Some(
                    CameraOp::Pan {
                        dx: (x - prev.0) as i64,
                        dy: (-(y - prev.1)) as i64,
                    },
                )
            } else {
                None
            };
            (s1, Outcome { quit: false, camera_op: op })
        },
        Event::KeyboardInput { scancode } => {
            let s1 = SupportView {
                keys_pressed: s.keys_pressed.push((scancode as u8) as char),
                ..s
            };
            (s1, Outcome { quit: false, camera_op: None })
        },
        Event::MouseWheel { delta_bits } => {
            let s1 = SupportView { mouse_wheel_bits: delta_bits, ..s };
            let op = if !s.camera_lock {
                Some(CameraOp::Zoom { delta_bits })
            } else {
                None
            };
            (s1, Outcome { quit: false, camera_op: op })
        },
        Event::Resized { w, h } => {
            let s1 = SupportView {
                orthographic: OrthoParams {
                    half_width: spec_half_extents(w, h).0,
                    half_height: spec_half_extents(w, h).1,
                    ..s.orthographic
                },
                perspective: PerspectiveParams {
                    aspect: Ratio { num: w as u64, den: h as u64 },
                    ..s.perspective
                },
                ..s
            };
            (s1, Outcome { quit: false, camera_op: Some(CameraOp::UpdateScreen { w, h }) })
        },
        Event::Other => (s, Outcome { quit: false, camera_op: None }),
    }
}

/// The state after the per-frame flush: the key queue empty and the
/// wheel delta back at zero, everything else unchanged.
pub open spec fn spec_clear(s: SupportView) -> SupportView {
    SupportView { keys_pressed: Seq::empty(), mouse_wheel_bits: 0, ..s }
}

/// The input snapshot handed to the immediate-mode UI layer once per
/// frame.
pub struct UiSnapshot {
    /// Current cursor position in screen coordinates.
    pub mouse_pos: (i32, i32),
    /// The five button slots the UI layer expects: left, right and
    /// middle as tracked, the last two always false.
    pub mouse_down: Vec<bool>,
    /// The characters queued since the last flush, in arrival order.
    pub keys_pressed: Vec<char>,
    /// Bit pattern of the latest unflushed `f32` wheel delta.
    pub mouse_wheel_bits: u32,
}

impl Support {
    /// Build the state for a `w` by `h` viewport; `znear_bits` and
    /// `zfar_bits` are the bit patterns of the `f32` near and far
    /// planes. The embedding layer builds the matching arcball camera,
    /// looking from `(0, 0, 3)` at the origin with `+Y` up, for the
    /// same viewport.
    pub fn new(w: u32, h: u32, znear_bits: u32, zfar_bits: u32) -> (s: Support)
        ensures
            s@ == spec_new(w, h, znear_bits, zfar_bits),
    {
        let (half_width, half_height) = half_extents(w, h);
        let s = Support {
            pressed: ButtonState { left: false, right: false, middle: false },
            mouse_pressed: DragState { left: false, right: false },
            prev_mouse: (0, 0),
            camera_lock: false,
            keys_pressed: Vec::new(),
            mouse_pos: (0, 0),
            mouse_wheel_bits: 0,
            orthographic: OrthoParams {
                half_width,
                half_height,
                near_bits: znear_bits,
                far_bits: zfar_bits,
            },
            perspective: PerspectiveParams {
                fovy_degrees: FOVY_DEGREES,
                aspect: Ratio { num: w as u64, den: h as u64 },
                near_bits: znear_bits,
                far_bits: zfar_bits,
            },
        };
        proof {
            assert(s@ =~= spec_new(w, h, znear_bits, zfar_bits));
        }
        s
    }

    /// Dispatch one windowing event: update the input state and say
    /// what the caller must do — whether to quit, and which camera
    /// operation to apply (none while the camera is locked, except the
    /// screen-size update on resize).
    pub fn handle(&mut self, ev: Event) -> (r: Outcome)
        ensures
            (final(self)@, r) == spec_handle(old(self)@, ev),
            r.quit <==> ev is Close,
    {
        let mut op: Option<CameraOp> = None;
        match ev {
            Event::Close => {
                return Outcome { quit: true, camera_op: None };
            },
            Event::MouseInput { pressed, button } => {
                match button {
                    Button::Left => {
                        self.pressed.left = pressed;
                        self.mouse_pressed.left = pressed;
                    },
                    Button::Right => {
                        self.pressed.right = pressed;
                        self.mouse_pressed.right = pressed;
                    },
                    Button::Middle => {
                        self.pressed.middle = pressed;
                    },
                    Button::Other => {},
                }
            },
            Event::CursorMoved { x, y } => {
                self.mouse_pos = (x, y);
                let prev = self.prev_mouse;
                self.prev_mouse = self.mouse_pos;
                if self.mouse_pressed.left && !self.camera_lock {
                    op = Some(
                        CameraOp::Rotate { prev_x: prev.0, prev_y: prev.1, cur_x: x, cur_y: y },
                    );
                } else if self.mouse_pressed.right && !self.camera_lock {
                    let dx: i64 = x as i64 - prev.0 as i64;
                    let dy: i64 = -(y as i64 - prev.1 as i64);
                    op = Some(CameraOp::Pan { dx, dy });
                }
            },
            Event::KeyboardInput { scancode } => {
                self.keys_pressed.push((scancode as u8) as char);
            },
            Event::MouseWheel { delta_bits } => {
                self.mouse_wheel_bits = delta_bits;
                if !self.camera_lock {
                    op = Some(CameraOp::Zoom { delta_bits });
                }
            },
            Event::Resized { w, h } => {
                let (half_width, half_height) = half_extents(w, h);
                self.orthographic.half_width = half_width;
                self.orthographic.half_height = half_height;
                self.perspective.aspect = Ratio { num: w as u64, den: h as u64 };
                op = Some(CameraOp::UpdateScreen { w, h });
            },
            Event::Other => {},
        }
        proof {
            assert(self@ =~= spec_handle(old(self)@, ev).0);
        }
        Outcome { quit: false, camera_op: op }
    }

    /// Drain the per-frame input into a snapshot for the UI layer and
    /// reset the accumulators: afterwards the key queue is empty and
    /// the wheel delta is zero, whatever had accumulated.
    pub fn pass_to_imgui(&mut self) -> (snap: UiSnapshot)
        ensures
            snap.mouse_pos == old(self)@.mouse_pos,
            snap.mouse_down@ == seq![
                old(self)@.pressed.left,
                old(self)@.pressed.right,
                old(self)@.pressed.middle,
                false,
                false,
            ],
            snap.keys_pressed@ == old(self)@.keys_pressed,
            snap.mouse_wheel_bits == old(self)@.mouse_wheel_bits,
            final(self)@ == spec_clear(old(self)@),
            final(self)@.keys_pressed.len() == 0,
            final(self)@.mouse_wheel_bits == 0,
    {
        let mut mouse_down: Vec<bool> = Vec::new();
        mouse_down.push(self.pressed.left);
        mouse_down.push(self.pressed.right);
        mouse_down.push(self.pressed.middle);
        mouse_down.push(false);
        mouse_down.push(false);
        let mut keys_pressed: Vec<char> = Vec::new();
        core::mem::swap(&mut keys_pressed, &mut self.keys_pressed);
        let snap = UiSnapshot {
            mouse_pos: self.mouse_pos,
            mouse_down,
            keys_pressed,
            mouse_wheel_bits: self.mouse_wheel_bits,
        };
        self.clear();
        proof {
            assert(snap.mouse_down@ =~= seq![
                old(self)@.pressed.left,
                old(self)@.pressed.right,
                old(self)@.pressed.middle,
                false,
                false,
            ]);
            assert(self@ =~= spec_clear(old(self)@));
        }
        snap
    }

    /// Reset the per-frame accumulators.
    fn clear(&mut self)
        ensures
            final(self)@ == spec_clear(old(self)@),
    {
        self.keys_pressed = Vec::new();
        self.mouse_wheel_bits = 0;
        proof {
            assert(self@ =~= spec_clear(old(self)@));
        }
    }
}

} // verus!
