use terrain_mesh::{
    compass_delta, Compass, Key, KeyAction, KeyOutcome, ViewState, Zoom, LIGHT_STEPS_START,
    SCALE_STEPS_MAX, SCALE_STEPS_START,
};

#[test]
fn fresh_view() {
    let v = ViewState::new();
    assert_eq!(v.scale, SCALE_STEPS_START);
    assert_eq!(v.light_intensity, LIGHT_STEPS_START);
    assert!(!v.draw_loops);
    assert_eq!((v.translation_x, v.rotation_x), (0, 0));
}

#[test]
fn compass_table() {
    assert_eq!(compass_delta(Compass::North), (0, -1));
    assert_eq!(compass_delta(Compass::South), (0, 1));
    assert_eq!(compass_delta(Compass::West), (1, 0));
    assert_eq!(compass_delta(Compass::East), (-1, 0));
}

#[test]
fn movement_keys_move_on_any_action() {
    let mut v = ViewState::new();
    assert_eq!(v.handle_key_event(Key::W, KeyAction::Release, false), KeyOutcome::CameraChanged);
    assert_eq!(v.translation_y, -1);
    v.handle_key_event(Key::A, KeyAction::Press, false);
    v.handle_key_event(Key::A, KeyAction::Repeat, false);
    assert_eq!(v.translation_x, 2);
    v.handle_key_event(Key::D, KeyAction::Press, false);
    v.handle_key_event(Key::S, KeyAction::Press, false);
    assert_eq!((v.translation_x, v.translation_y), (1, 0));
}

#[test]
fn arrows_rotate_with_shift_choosing_z() {
    let mut v = ViewState::new();
    v.handle_key_event(Key::Up, KeyAction::Press, false);
    v.handle_key_event(Key::Up, KeyAction::Press, true);
    v.handle_key_event(Key::Down, KeyAction::Press, true);
    v.handle_key_event(Key::Down, KeyAction::Press, true);
    v.handle_key_event(Key::Left, KeyAction::Press, false);
    v.handle_key_event(Key::Right, KeyAction::Press, false);
    v.handle_key_event(Key::Right, KeyAction::Press, false);
    assert_eq!((v.rotation_x, v.rotation_y, v.rotation_z), (1, -1, -1));
}

#[test]
fn zoom_stays_within_bounds() {
    let mut v = ViewState::new();
    for _ in 0..100 {
        v.zoom(Zoom::Out);
    }
    assert_eq!(v.scale, 1);
    v.scale = SCALE_STEPS_MAX - 1;
    assert_eq!(v.handle_key_event(Key::R, KeyAction::Repeat, false), KeyOutcome::CameraChanged);
    assert_eq!(v.scale, SCALE_STEPS_MAX - 1);
    v.handle_key_event(Key::F, KeyAction::Press, false);
    assert_eq!(v.scale, SCALE_STEPS_MAX - 2);
    assert_eq!(v.handle_key_event(Key::F, KeyAction::Release, false), KeyOutcome::Ignored);
    assert_eq!(v.scale, SCALE_STEPS_MAX - 2);
}

#[test]
fn light_stays_within_bounds() {
    let mut v = ViewState::new();
    assert_eq!(v.handle_key_event(Key::K, KeyAction::Press, false), KeyOutcome::LightChanged);
    assert_eq!(v.light_intensity, LIGHT_STEPS_START);
    v.handle_key_event(Key::L, KeyAction::Press, false);
    assert_eq!(v.light_intensity, LIGHT_STEPS_START + 1);
    for _ in 0..100 {
        v.adjust_light_intensity(1);
    }
    assert_eq!(v.light_intensity, 74);
}

#[test]
fn escape_space_and_toggle() {
    let mut v = ViewState::new();
    assert_eq!(v.handle_key_event(Key::Escape, KeyAction::Press, false), KeyOutcome::Close);
    assert_eq!(v.handle_key_event(Key::Escape, KeyAction::Repeat, false), KeyOutcome::Ignored);
    assert_eq!(v.handle_key_event(Key::Space, KeyAction::Press, false), KeyOutcome::Refresh);
    assert_eq!(v.handle_key_event(Key::T, KeyAction::Press, false), KeyOutcome::DrawModeToggled);
    assert!(v.draw_loops);
    assert_eq!(v.handle_key_event(Key::T, KeyAction::Repeat, false), KeyOutcome::Ignored);
    assert!(v.draw_loops);
    let before = v;
    assert_eq!(v.handle_key_event(Key::Other, KeyAction::Press, true), KeyOutcome::Ignored);
    assert_eq!(v, before);
}

#[test]
fn translation_saturates() {
    let mut v = ViewState::new();
    v.translation_x = i64::MAX;
    v.move_camera(Compass::West);
    assert_eq!(v.translation_x, i64::MAX);
    v.rotate_x(false);
    assert_eq!(v.rotation_x, -1);
}
