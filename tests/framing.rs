use mvc::framing::{frame_model, isqrt, MeshBounds, DEFAULT_HEIGHT, DEFAULT_WIDTH};

fn unit_cube() -> MeshBounds {
    MeshBounds {
        center_y: 0,
        half_x: 500_000,
        half_y: 500_000,
        half_z: 500_000,
        scale_x: 1_000_000,
        scale_y: 1_000_000,
        scale_z: 1_000_000,
    }
}

#[test]
fn unit_cube_at_sixteen_by_nine() {
    let f = frame_model(&vec![unit_cube()], 1280, 720);
    assert_eq!(f.radius, 3_264_084);
    assert_eq!(f.vertical_offset, 0);
    assert_eq!(f.zoom_scale, 1_000_000);
    let again = frame_model(&vec![unit_cube()], 16, 9);
    assert_eq!(again, f);
    assert_eq!(frame_model(&vec![unit_cube()], DEFAULT_WIDTH, DEFAULT_HEIGHT), f);
}

#[test]
fn largest_mesh_decides_and_center_lifts() {
    let mut raised = unit_cube();
    raised.center_y = 500_000;
    raised.scale_y = 2_000_000;
    raised.scale_z = 3_000_000;
    let mut lowered = unit_cube();
    lowered.center_y = -9_000_000;
    let f = frame_model(&vec![lowered, raised], 1280, 720);
    assert_eq!(f.vertical_offset, 1_000_000);
    assert_eq!(f.zoom_scale, 3_000_000);
    assert!(f.radius > 3_264_084);
    let only_lowered = frame_model(&vec![lowered], 1280, 720);
    assert_eq!(only_lowered.vertical_offset, 0);
}

#[test]
fn mirrored_depth_shortens_distance() {
    let mut mirrored = unit_cube();
    mirrored.scale_z = -1_000_000;
    let f = frame_model(&vec![mirrored], 1280, 720);
    assert_eq!(f.radius, 264_084);
    assert_eq!(f.zoom_scale, 0);
    let mut flipped = unit_cube();
    flipped.center_y = -500_000;
    flipped.scale_y = -2_000_000;
    assert_eq!(frame_model(&vec![flipped], 1280, 720).vertical_offset, 1_000_000);
}

#[test]
fn no_meshes_frames_at_zero() {
    let f = frame_model(&vec![], 1280, 720);
    assert_eq!((f.radius, f.vertical_offset, f.zoom_scale), (0, 0, 0));
}

#[test]
fn huge_model_in_thin_window_stops_at_i64_max() {
    let big = MeshBounds {
        center_y: i64::MAX,
        half_x: u32::MAX,
        half_y: u32::MAX,
        half_z: u32::MAX,
        scale_x: i32::MAX,
        scale_y: i32::MAX,
        scale_z: i32::MAX,
    };
    let f = frame_model(&vec![big], 1, u32::MAX);
    assert_eq!(f.radius, i64::MAX);
    assert_eq!(f.vertical_offset, i64::MAX);
}

#[test]
fn integer_square_roots() {
    assert_eq!(isqrt(0), 0);
    assert_eq!(isqrt(15), 3);
    assert_eq!(isqrt(16), 4);
    assert_eq!(isqrt(3_000_000_000_000), 1_732_050);
    assert_eq!(isqrt(u128::MAX), u64::MAX as u128);
}
