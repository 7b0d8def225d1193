use mvc::camera::{
    interactive_orbit_camera, live_capture_camera, live_orbit_camera, PointerInput, PITCH_LIMIT,
};
use mvc::components::{ModelRotateReposition, OrbitCamera};
use mvc::render::{reposition_rotate_model, HeldKeys, ModelRotation};
use mvc::resource::{LiveCameraPanNumber, LiveCaptureOperationSettings, OperationSettings};

fn settings() -> OperationSettings {
    OperationSettings {
        yaw_min_value: -750_000,
        yaw_max_value: 750_000,
        pitch_min_value: -600_000,
        pitch_max_value: -200_000,
        radius_range: 2_000_000,
        radius_start_position: 2_500_000,
        model_rotate_sensitivity: 50_000,
        model_reposition_sensitivity: 50_000,
        mouse_sensitivity: 2_500,
        zoom_sensitivity: 250_000,
    }
}

fn pointer(pressed: bool, released: bool, motion: Vec<(i32, i32)>, scroll: Vec<i32>) -> PointerInput {
    PointerInput { just_pressed: pressed, just_released: released, motion, scroll }
}

fn no_keys() -> HeldKeys {
    HeldKeys {
        arrow_up: false,
        arrow_down: false,
        arrow_right: false,
        arrow_left: false,
        key_w: false,
        key_s: false,
        key_d: false,
        key_a: false,
    }
}

#[test]
fn drag_turns_camera_by_sensitivity() {
    let mut cam = OrbitCamera::new(2_500_000);
    interactive_orbit_camera(&mut cam, &pointer(true, false, vec![(10, 20)], vec![]), &settings());
    assert!(cam.is_dragging);
    assert_eq!(cam.yaw, -25_000);
    assert_eq!(cam.pitch, 50_000);
    assert_eq!(cam.radius, 2_500_000);
}

#[test]
fn drag_pitch_is_clamped_either_way() {
    let mut cam = OrbitCamera::new(1);
    interactive_orbit_camera(&mut cam, &pointer(true, false, vec![(0, 1_000_000)], vec![]), &settings());
    assert_eq!(cam.pitch, PITCH_LIMIT);
    interactive_orbit_camera(&mut cam, &pointer(false, false, vec![(i32::MIN, i32::MIN)], vec![]), &settings());
    assert_eq!(cam.pitch, -PITCH_LIMIT);
    assert_eq!(cam.yaw, -(i32::MIN as i64) * 2_500);
    // A pure yaw motion leaves a clamped pitch as it is.
    interactive_orbit_camera(&mut cam, &pointer(false, false, vec![(3, 0)], vec![]), &settings());
    assert_eq!(cam.pitch, -PITCH_LIMIT);
}

#[test]
fn motion_without_drag_is_ignored_and_scroll_zooms() {
    let mut cam = OrbitCamera::new(2_500_000);
    interactive_orbit_camera(&mut cam, &pointer(false, false, vec![(50, 50)], vec![2, -1]), &settings());
    assert_eq!(cam.yaw, 0);
    assert_eq!(cam.pitch, 0);
    assert_eq!(cam.radius, 2_250_000);
}

#[test]
fn release_ends_drag_on_same_tick() {
    let mut cam = OrbitCamera::new(2_500_000);
    interactive_orbit_camera(&mut cam, &pointer(true, true, vec![(5, 5)], vec![]), &settings());
    assert!(!cam.is_dragging);
    assert_eq!(cam.yaw, 0);
}

#[test]
fn yaw_stops_at_i64_bounds() {
    let mut cam = OrbitCamera { radius: 0, yaw: i64::MIN + 1, pitch: 0, is_dragging: true };
    let mut s = settings();
    s.mouse_sensitivity = i64::MAX;
    interactive_orbit_camera(&mut cam, &pointer(false, false, vec![(5, 0)], vec![]), &s);
    assert_eq!(cam.yaw, i64::MIN);
}

#[test]
fn oscillation_flips_at_upper_bound_then_moves_back() {
    let mut cam = OrbitCamera { radius: 2_500_000, yaw: 748_000, pitch: -300_000, is_dragging: false };
    let mut pan = LiveCameraPanNumber::new();
    live_orbit_camera(&mut cam, &mut pan, &settings(), 2_000_000);
    assert_eq!(cam.yaw, 750_000);
    assert_eq!(pan.yaw, -1);
    assert_eq!(cam.pitch, -298_000);
    assert_eq!(pan.pitch, 1);
    assert_eq!(cam.radius, 2_502_000);
    assert_eq!(pan.radius, 1);
    live_orbit_camera(&mut cam, &mut pan, &settings(), 2_000_000);
    assert_eq!(cam.yaw, 746_000);
    assert_eq!(pan.yaw, -1);
}

#[test]
fn oscillation_flips_at_lower_bounds() {
    let mut cam = OrbitCamera { radius: 2_501_000, yaw: 0, pitch: -599_000, is_dragging: false };
    let mut pan = LiveCameraPanNumber { yaw: 1, pitch: -1, radius: -1 };
    live_orbit_camera(&mut cam, &mut pan, &settings(), 2_000_000);
    assert_eq!(cam.pitch, -600_000);
    assert_eq!(pan.pitch, 1);
    assert_eq!(cam.radius, 2_500_000);
    assert_eq!(pan.radius, 1);
    assert_eq!(cam.yaw, 4_000);
}

#[test]
fn oscillation_radius_bound_uses_range() {
    let mut cam = OrbitCamera { radius: 2_999_000, yaw: 0, pitch: -300_000, is_dragging: false };
    let mut pan = LiveCameraPanNumber::new();
    live_orbit_camera(&mut cam, &mut pan, &settings(), 500_000);
    assert_eq!(cam.radius, 3_000_000);
    assert_eq!(pan.radius, -1);
}

#[test]
fn sequenced_driver_visits_poses_then_finishes() {
    let mut progress = LiveCaptureOperationSettings::new(7);
    progress.restart(vec![(1, 2, 3), (4, 5, 6)]);
    assert_eq!(progress.live_capture_iteration, 2);
    let mut cam = OrbitCamera::new(9);
    let first = live_capture_camera(&mut cam, &mut progress);
    assert_eq!(first.pose, Some((1, 2, 3)));
    assert!(!first.finished);
    assert_eq!((cam.yaw, cam.pitch, cam.radius), (1, 2, 3));
    let second = live_capture_camera(&mut cam, &mut progress);
    assert_eq!(second.pose, Some((4, 5, 6)));
    assert!(second.finished);
    assert_eq!(progress.live_capture_iteration_current_counter, 2);
    let third = live_capture_camera(&mut cam, &mut progress);
    assert_eq!(third.pose, None);
    assert!(third.finished);
    assert_eq!(progress.live_capture_iteration_current_counter, 2);
}

#[test]
fn held_keys_move_and_turn_model() {
    let mut model = ModelRotateReposition { x: 0, y: 0 };
    let mut keys = no_keys();
    keys.arrow_up = true;
    keys.arrow_left = true;
    keys.key_s = true;
    let turn = reposition_rotate_model(&mut model, &keys, &settings());
    assert_eq!(turn, Some(ModelRotation::AboutX(-50_000)));
    assert_eq!(model, ModelRotateReposition { x: 0, y: -50_000 });
    let mut keys = no_keys();
    keys.arrow_left = true;
    keys.key_d = true;
    let turn = reposition_rotate_model(&mut model, &keys, &settings());
    assert_eq!(turn, Some(ModelRotation::AboutY(-50_000)));
    assert_eq!(model, ModelRotateReposition { x: 50_000, y: -50_000 });
    assert_eq!(reposition_rotate_model(&mut model, &no_keys(), &settings()), None);
}
