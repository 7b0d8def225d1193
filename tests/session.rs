use mvc::camera::PointerInput;
use mvc::framing::ModelFraming;
use mvc::orchestrator::{CaptureOrchestrator, KeyPresses, OrbitDriver};
use mvc::render::HeldKeys;
use mvc::resource::{register_model_file, AssetPath, OperationWindowRelatedEntities, SavePathList};
use mvc::states::{AppState, CameraFovInitializedState, OperationState};
use mvc::utils::default_app_settings;

fn keys() -> KeyPresses {
    KeyPresses { space: false, key_i: false, key_l: false, key_c: false, key_q: false, key_e: false }
}

fn still() -> PointerInput {
    PointerInput { just_pressed: false, just_released: false, motion: vec![], scroll: vec![] }
}

fn held() -> HeldKeys {
    HeldKeys {
        arrow_up: false,
        arrow_down: false,
        arrow_right: false,
        arrow_left: false,
        key_w: false,
        key_s: false,
        key_d: false,
        key_a: false,
    }
}

fn ready_assets() -> AssetPath {
    let mut assets = AssetPath::new();
    let mut saves = SavePathList::new("out".to_string());
    register_model_file(&mut assets, &mut saves, "/models/chair.glb");
    assets.skybox_path = "/sky/pisa.png".to_string();
    assets
}

fn framed_session(iterations: usize) -> CaptureOrchestrator {
    let mut settings = default_app_settings("/home/u/Downloads".to_string());
    settings.live_capture_iteration = iterations;
    let mut o = CaptureOrchestrator::new(&settings);
    assert!(o.enter_session(&ready_assets(), true));
    assert!(o.apply_framing(ModelFraming { radius: 2_500_000, vertical_offset: 0, zoom_scale: 1_000_000 }));
    o
}

#[test]
fn capture_of_ten_poses_returns_to_interactive_on_tenth_tick() {
    let mut o = framed_session(10);
    assert_eq!(o.camera.radius, 2_500_000);
    let mut space = keys();
    space.space = true;
    let out = o.keyboard_interact(&space);
    assert!(out.started_capture);
    assert_eq!(o.operation_state, OperationState::LiveCapture);
    assert_eq!(o.progress(), (0, 10));
    assert_eq!(o.live_capture.live_capture_iteration, 10);
    assert_eq!(o.live_capture.live_capture_iteration_current_counter, 0);
    for n in 1..=10usize {
        let t = o.tick(&still(), &held());
        assert!(t.capture.is_some());
        assert_eq!(o.progress(), (n, 10));
        if n < 10 {
            assert!(!t.finished);
            assert_eq!(o.operation_state, OperationState::LiveCapture);
        } else {
            assert!(t.finished);
            assert_eq!(o.operation_state, OperationState::Interactive);
        }
    }
    assert_eq!(o.live_capture.live_capture_iteration_current_counter, 10);
}

#[test]
fn capture_poses_follow_the_plan_from_current_radius() {
    let mut o = framed_session(2);
    o.camera.radius = 3_000_000;
    let mut space = keys();
    space.space = true;
    o.keyboard_interact(&space);
    assert_eq!(o.settings.radius_start_position, 3_000_000);
    let first = o.tick(&still(), &held()).capture.unwrap();
    assert_eq!(first, (0, -466_667, 3_400_000));
    assert_eq!((o.camera.yaw, o.camera.pitch, o.camera.radius), first);
}

#[test]
fn stop_request_ends_capture_early() {
    let mut o = framed_session(10);
    let mut space = keys();
    space.space = true;
    o.keyboard_interact(&space);
    o.tick(&still(), &held());
    let mut i = keys();
    i.key_i = true;
    o.keyboard_interact(&i);
    assert_eq!(o.operation_state, OperationState::Interactive);
    assert_eq!(o.progress(), (1, 10));
}

#[test]
fn nothing_drives_before_framing() {
    let mut o = CaptureOrchestrator::new(&default_app_settings("d".to_string()));
    assert!(o.enter_session(&ready_assets(), true));
    assert_eq!(o.camera_fov, CameraFovInitializedState::NotInitialized);
    assert_eq!(o.active_driver(), None);
    let mut space = keys();
    space.space = true;
    let out = o.keyboard_interact(&space);
    assert!(!out.started_capture);
    assert_eq!(o.operation_state, OperationState::Interactive);
    let drag = PointerInput { just_pressed: true, just_released: false, motion: vec![(9, 9)], scroll: vec![] };
    o.tick(&drag, &held());
    assert_eq!(o.camera.yaw, 0);
    assert!(!o.enter_session(&ready_assets(), true));
}

#[test]
fn session_needs_models_and_a_loaded_skybox() {
    let mut o = CaptureOrchestrator::new(&default_app_settings("d".to_string()));
    assert!(!o.enter_session(&ready_assets(), false));
    let mut no_sky = ready_assets();
    no_sky.skybox_path = "/sky/pisa.txt".to_string();
    assert!(!o.enter_session(&no_sky, true));
    assert!(!o.enter_session(&AssetPath::new(), true));
    assert_eq!(o.app_state, AppState::MainMenu);
    assert!(o.enter_session(&ready_assets(), true));
    assert_eq!(o.app_state, AppState::OperationMode);
    assert_eq!(o.operation_state, OperationState::Interactive);
}

#[test]
fn preview_toggles_and_oscillates() {
    let mut o = framed_session(5);
    let mut l = keys();
    l.key_l = true;
    o.keyboard_interact(&l);
    assert_eq!(o.active_driver(), Some(OrbitDriver::Oscillating));
    o.tick(&still(), &held());
    assert_eq!(o.camera.yaw, 4_000);
    assert_eq!(o.camera.radius, 2_502_000);
    o.keyboard_interact(&l);
    assert_eq!(o.operation_state, OperationState::Interactive);
}

#[test]
fn two_snapshots_differ_only_in_pose() {
    let mut o = framed_session(5);
    let mut assets = AssetPath::new();
    let mut saves = SavePathList::new("/home/u/Downloads".to_string());
    register_model_file(&mut assets, &mut saves, "/models/chair.glb");
    let mut c = keys();
    c.key_c = true;
    let pose_a = o.keyboard_interact(&c).snapshot.unwrap();
    let first = saves.snapshot_path(pose_a.0, pose_a.1, pose_a.2).unwrap();
    let drag = PointerInput { just_pressed: true, just_released: false, motion: vec![(4, 0)], scroll: vec![] };
    o.tick(&drag, &held());
    let pose_b = o.keyboard_interact(&c).snapshot.unwrap();
    let second = saves.snapshot_path(pose_b.0, pose_b.1, pose_b.2).unwrap();
    assert_eq!(first, "/home/u/Downloads/chair/chair_0_0_2.5.jpg");
    assert_eq!(second, "/home/u/Downloads/chair/chair_-0.01_0_2.5.jpg");
    assert_ne!(first, second);
}

#[test]
fn snapshot_is_available_in_every_mode() {
    let mut o = framed_session(5);
    let mut sc = keys();
    sc.space = true;
    sc.key_c = true;
    let out = o.keyboard_interact(&sc);
    assert!(out.started_capture);
    assert_eq!(out.snapshot, Some((0, 0, 2_500_000)));
    let mut c = keys();
    c.key_c = true;
    assert!(o.keyboard_interact(&c).snapshot.is_some());
    assert_eq!(o.operation_state, OperationState::LiveCapture);
}

#[test]
fn teardown_resets_rates_and_releases_all_entities() {
    let mut o = framed_session(5);
    let mut entities: OperationWindowRelatedEntities<u32, &str> = OperationWindowRelatedEntities::new();
    assert!(entities.open(1, vec![2, 3, 4], "scene", 5).is_empty());
    let mut l = keys();
    l.key_l = true;
    o.keyboard_interact(&l);
    o.camera.yaw = 749_000;
    o.camera.pitch = -201_000;
    o.tick(&still(), &held());
    assert_eq!(o.pan.yaw, -1);
    assert_eq!(o.pan.pitch, -1);
    let released = o.close_session(&mut entities);
    assert_eq!(released, vec![1, 2, 3, 4, 5]);
    assert!(!entities.open_now());
    assert_eq!((o.pan.yaw, o.pan.pitch, o.pan.radius), (1, 1, 1));
    assert_eq!(o.app_state, AppState::MainMenu);
    assert_eq!(o.operation_state, OperationState::Idle);
}

#[test]
fn switching_model_reframes() {
    let mut o = framed_session(5);
    let mut assets = AssetPath::new();
    let mut saves = SavePathList::new("out".to_string());
    register_model_file(&mut assets, &mut saves, "a.glb");
    register_model_file(&mut assets, &mut saves, "b.glb");
    let mut e = keys();
    e.key_e = true;
    assert_eq!(o.switch_current_model(&e, &mut assets, &mut saves), Some("b.glb".to_string()));
    assert_eq!(saves.current_path_count, 1);
    assert_eq!(o.camera_fov, CameraFovInitializedState::NotInitialized);
    let mut entities: OperationWindowRelatedEntities<u32, u32> = OperationWindowRelatedEntities::new();
    assert_eq!(entities.replace_model(7, 8), None);
    entities.open(1, vec![], 10, 11);
    assert_eq!(entities.replace_model(20, 21), Some(11));
    assert!(o.apply_framing(ModelFraming { radius: 4_000_000, vertical_offset: 300_000, zoom_scale: 2_000_000 }));
    assert_eq!(o.settings.radius_start_position, 4_000_000);
    assert_eq!(o.model.y, -300_000);
    assert_eq!(o.radius_span_exec(), 4_000_000);
    assert!(!o.apply_framing(ModelFraming { radius: 1, vertical_offset: 0, zoom_scale: 0 }));
}

#[test]
fn settings_file_replaces_configuration() {
    let mut o = framed_session(5);
    let mut saves = SavePathList::new("old".to_string());
    let mut s = default_app_settings("/new/dir".to_string());
    s.live_capture_iteration = 42;
    s.yaw_max_value = 1_000_000;
    o.apply_app_settings(&s, &mut saves);
    assert_eq!(saves.base_dir_path, "/new/dir");
    assert_eq!(o.settings.yaw_max_value, 1_000_000);
    assert_eq!(o.settings.radius_start_position, 2_500_000);
    assert_eq!(o.progress().1, 42);
}
