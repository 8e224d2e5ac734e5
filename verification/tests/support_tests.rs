use viewer_input::{Button, CameraOp, Event, Ratio, Support};

fn new_support(w: u32, h: u32, znear: f32, zfar: f32) -> Support {
    Support::new(w, h, znear.to_bits(), zfar.to_bits())
}

#[test]
fn close_returns_true_others_false() {
    let mut s = new_support(800, 600, 0.1, 100.0);
    assert!(!s.handle(Event::MouseInput { pressed: true, button: Button::Left }).quit);
    assert!(!s.handle(Event::CursorMoved { x: 3, y: 4 }).quit);
    assert!(!s.handle(Event::KeyboardInput { scancode: 30 }).quit);
    assert!(!s.handle(Event::MouseWheel { delta_bits: 1.0f32.to_bits() }).quit);
    assert!(!s.handle(Event::Resized { w: 640, h: 480 }).quit);
    assert!(!s.handle(Event::Other).quit);
    assert!(s.handle(Event::Close).quit);
}

#[test]
fn close_returns_true_regardless_of_state() {
    let mut s = new_support(320, 240, 0.5, 50.0);
    s.camera_lock = true;
    s.handle(Event::MouseInput { pressed: true, button: Button::Right });
    s.handle(Event::KeyboardInput { scancode: 16 });
    assert!(s.handle(Event::Close).quit);
}

#[test]
fn flush_clears_keys_and_wheel() {
    let mut s = new_support(800, 600, 0.1, 100.0);
    s.handle(Event::KeyboardInput { scancode: 65 });
    s.handle(Event::KeyboardInput { scancode: 66 });
    s.handle(Event::MouseWheel { delta_bits: 2.5f32.to_bits() });
    let snap = s.pass_to_imgui();
    assert_eq!(snap.keys_pressed, vec!['A', 'B']);
    assert_eq!(f32::from_bits(snap.mouse_wheel_bits), 2.5);
    // After the flush the accumulators are empty, whatever had piled up.
    let snap2 = s.pass_to_imgui();
    assert!(snap2.keys_pressed.is_empty());
    assert_eq!(f32::from_bits(snap2.mouse_wheel_bits), 0.0);
}

#[test]
fn ortho_extents_wide() {
    let s = new_support(800, 600, 0.1, 100.0);
    // right - left == 2 * (800 / 600) * 2 and top - bottom == 4.
    assert_eq!(s.orthographic.half_width, Ratio { num: 1600, den: 600 });
    assert_eq!(s.orthographic.half_height, Ratio { num: 2, den: 1 });
    assert_eq!(s.perspective.aspect, Ratio { num: 800, den: 600 });
    assert_eq!(s.perspective.fovy_degrees, 70);
    assert_eq!(f32::from_bits(s.orthographic.near_bits), 0.1);
    assert_eq!(f32::from_bits(s.orthographic.far_bits), 100.0);
}

#[test]
fn ortho_extents_tall_and_square() {
    let s = new_support(600, 800, 0.1, 100.0);
    assert_eq!(s.orthographic.half_width, Ratio { num: 2, den: 1 });
    assert_eq!(s.orthographic.half_height, Ratio { num: 1600, den: 600 });
    let sq = new_support(500, 500, 0.1, 100.0);
    assert_eq!(sq.orthographic.half_width, Ratio { num: 2, den: 1 });
    assert_eq!(sq.orthographic.half_height, Ratio { num: 1000, den: 500 });
}

#[test]
fn resize_recomputes_projections() {
    let mut s = new_support(800, 600, 0.1, 100.0);
    let o = s.handle(Event::Resized { w: 400, h: 1000 });
    assert_eq!(o.camera_op, Some(CameraOp::UpdateScreen { w: 400, h: 1000 }));
    assert_eq!(s.orthographic.half_width, Ratio { num: 2, den: 1 });
    assert_eq!(s.orthographic.half_height, Ratio { num: 2000, den: 400 });
    assert_eq!(s.perspective.aspect, Ratio { num: 400, den: 1000 });
    // near and far planes are untouched by a resize
    assert_eq!(f32::from_bits(s.orthographic.near_bits), 0.1);
    assert_eq!(f32::from_bits(s.orthographic.far_bits), 100.0);
}

#[test]
fn left_drag_rotates() {
    let mut s = new_support(800, 600, 0.1, 100.0);
    assert_eq!(
        s.handle(Event::MouseInput { pressed: true, button: Button::Left }).camera_op,
        None
    );
    let o1 = s.handle(Event::CursorMoved { x: 100, y: 100 });
    assert_eq!(
        o1.camera_op,
        Some(CameraOp::Rotate { prev_x: 0, prev_y: 0, cur_x: 100, cur_y: 100 })
    );
    let o2 = s.handle(Event::CursorMoved { x: 110, y: 90 });
    assert_eq!(
        o2.camera_op,
        Some(CameraOp::Rotate { prev_x: 100, prev_y: 100, cur_x: 110, cur_y: 90 })
    );
}

#[test]
fn right_drag_pans_with_inverted_y() {
    let mut s = new_support(800, 600, 0.1, 100.0);
    s.handle(Event::CursorMoved { x: 50, y: 50 });
    s.handle(Event::MouseInput { pressed: true, button: Button::Right });
    let o = s.handle(Event::CursorMoved { x: 60, y: 45 });
    assert_eq!(o.camera_op, Some(CameraOp::Pan { dx: 10, dy: 5 }));
}

#[test]
fn left_takes_precedence_over_right() {
    let mut s = new_support(800, 600, 0.1, 100.0);
    s.handle(Event::MouseInput { pressed: true, button: Button::Left });
    s.handle(Event::MouseInput { pressed: true, button: Button::Right });
    let o = s.handle(Event::CursorMoved { x: 7, y: 8 });
    assert!(matches!(o.camera_op, Some(CameraOp::Rotate { .. })));
}

#[test]
fn middle_button_tracked_but_never_drags() {
    let mut s = new_support(800, 600, 0.1, 100.0);
    s.handle(Event::MouseInput { pressed: true, button: Button::Middle });
    let o = s.handle(Event::CursorMoved { x: 9, y: 9 });
    assert_eq!(o.camera_op, None);
    let snap = s.pass_to_imgui();
    assert_eq!(snap.mouse_down, vec![false, false, true, false, false]);
}

#[test]
fn other_button_is_ignored() {
    let mut s = new_support(800, 600, 0.1, 100.0);
    s.handle(Event::MouseInput { pressed: true, button: Button::Other });
    let o = s.handle(Event::CursorMoved { x: 1, y: 2 });
    assert_eq!(o.camera_op, None);
    let snap = s.pass_to_imgui();
    assert_eq!(snap.mouse_down, vec![false, false, false, false, false]);
}

#[test]
fn release_stops_the_drag() {
    let mut s = new_support(800, 600, 0.1, 100.0);
    s.handle(Event::MouseInput { pressed: true, button: Button::Left });
    s.handle(Event::CursorMoved { x: 10, y: 10 });
    s.handle(Event::MouseInput { pressed: false, button: Button::Left });
    let o = s.handle(Event::CursorMoved { x: 20, y: 20 });
    assert_eq!(o.camera_op, None);
}

#[test]
fn wheel_zooms_and_keeps_latest_value() {
    let mut s = new_support(800, 600, 0.1, 100.0);
    let o1 = s.handle(Event::MouseWheel { delta_bits: 1.0f32.to_bits() });
    assert_eq!(o1.camera_op, Some(CameraOp::Zoom { delta_bits: 1.0f32.to_bits() }));
    let o2 = s.handle(Event::MouseWheel { delta_bits: 1.0f32.to_bits() });
    assert_eq!(o2.camera_op, Some(CameraOp::Zoom { delta_bits: 1.0f32.to_bits() }));
    let snap = s.pass_to_imgui();
    // the UI sees the latest unflushed value once
    assert_eq!(f32::from_bits(snap.mouse_wheel_bits), 1.0);
    let snap2 = s.pass_to_imgui();
    assert_eq!(f32::from_bits(snap2.mouse_wheel_bits), 0.0);
}

#[test]
fn locked_camera_ignores_drags_and_wheel() {
    let mut s = new_support(800, 600, 0.1, 100.0);
    s.camera_lock = true;
    s.handle(Event::MouseInput { pressed: true, button: Button::Left });
    assert_eq!(s.handle(Event::CursorMoved { x: 30, y: 30 }).camera_op, None);
    s.handle(Event::MouseInput { pressed: false, button: Button::Left });
    s.handle(Event::MouseInput { pressed: true, button: Button::Right });
    assert_eq!(s.handle(Event::CursorMoved { x: 40, y: 20 }).camera_op, None);
    assert_eq!(
        s.handle(Event::MouseWheel { delta_bits: 3.0f32.to_bits() }).camera_op,
        None
    );
    // the wheel value is still recorded for the UI
    let snap = s.pass_to_imgui();
    assert_eq!(f32::from_bits(snap.mouse_wheel_bits), 3.0);
}

#[test]
fn scancode_narrows_to_one_byte_character() {
    let mut s = new_support(800, 600, 0.1, 100.0);
    s.handle(Event::KeyboardInput { scancode: 65 });
    // narrowing is lossy: 321 mod 256 == 65
    s.handle(Event::KeyboardInput { scancode: 321 });
    let snap = s.pass_to_imgui();
    assert_eq!(snap.keys_pressed, vec!['A', 'A']);
}

#[test]
fn snapshot_reports_cursor_and_buttons() {
    let mut s = new_support(800, 600, 0.1, 100.0);
    s.handle(Event::CursorMoved { x: -5, y: 17 });
    s.handle(Event::MouseInput { pressed: true, button: Button::Left });
    s.handle(Event::MouseInput { pressed: true, button: Button::Right });
    let snap = s.pass_to_imgui();
    assert_eq!(snap.mouse_pos, (-5, 17));
    assert_eq!(snap.mouse_down, vec![true, true, false, false, false]);
}
