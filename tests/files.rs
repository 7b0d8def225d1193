use mvc::capture::{snapshot_file_name, snapshot_path};
use mvc::path::{join_path, path_extension, path_stem};
use mvc::resource::{
    clear_model_assets, current_snapshot_path, new_asset_lists, register_model_file, AssetPath,
    SavePathList,
};
use mvc::states::RenderModelForwardOrBackward;
use mvc::text::fixed_to_string;
use mvc::types::SavePath;
use mvc::utils::{
    check_json_file, check_model_file, check_skybox_file, classify_dropped_file, default_app_settings,
    DroppedFile,
};

#[test]
fn fixed_values_print_as_decimals() {
    assert_eq!(fixed_to_string(2_500_000), "2.5");
    assert_eq!(fixed_to_string(-750_000), "-0.75");
    assert_eq!(fixed_to_string(3_000_000), "3");
    assert_eq!(fixed_to_string(0), "0");
    assert_eq!(fixed_to_string(1), "0.000001");
    assert_eq!(fixed_to_string(10_000), "0.01");
    assert_eq!(fixed_to_string(-466_667), "-0.466667");
    assert_eq!(fixed_to_string(i64::MIN), "-9223372036854.775808");
}

#[test]
fn extensions_and_stems() {
    assert_eq!(path_extension("models/chair.glb"), Some("glb".to_string()));
    assert_eq!(path_extension("archive.tar.gz"), Some("gz".to_string()));
    assert_eq!(path_extension(".bashrc"), None);
    assert_eq!(path_extension("dir.d/readme"), None);
    assert_eq!(path_extension("C:\\models\\chair.GLB"), Some("GLB".to_string()));
    assert_eq!(path_extension(""), None);
    assert_eq!(path_stem("/a/b/chair.v2.glb"), Some("chair.v2".to_string()));
    assert_eq!(path_stem("/a/b/.hidden"), Some(".hidden".to_string()));
    assert_eq!(path_stem("plain"), Some("plain".to_string()));
    assert_eq!(path_stem("C:\\models\\chair.GLB"), Some("C:\\models\\chair".to_string()));
}

#[test]
fn trailing_separators_and_dot_components_are_skipped() {
    assert_eq!(path_extension("a.glb/"), Some("glb".to_string()));
    assert_eq!(path_extension("dir/a.glb//"), Some("glb".to_string()));
    assert_eq!(path_extension("x/a.glb/./."), Some("glb".to_string()));
    assert_eq!(path_stem("models/chair.glb/"), Some("chair".to_string()));
    assert_eq!(path_stem("a//b/."), Some("b".to_string()));
    assert_eq!(path_stem("./chair"), Some("chair".to_string()));
    assert_eq!(path_stem("a/.."), None);
    assert_eq!(path_stem(".."), None);
    assert_eq!(path_stem("."), None);
    assert_eq!(path_stem("./"), None);
    assert_eq!(path_stem("/"), None);
    assert_eq!(path_stem(""), None);
    assert_eq!(path_extension("a.b/.."), None);
    assert_eq!(path_extension("/x/..glb"), Some("glb".to_string()));
    assert!(check_model_file("a.glb/"));
    assert!(check_skybox_file("s.png/"));
    assert!(check_json_file("conf/settings.json/."));
}

#[test]
fn joined_paths() {
    assert_eq!(join_path("", "x"), "x");
    assert_eq!(join_path("a/", "x"), "a/x");
    assert_eq!(join_path("a", "x"), "a/x");
    assert_eq!(join_path("C:\\out\\", "x"), "C:\\out\\/x");
    assert_eq!(join_path("a", "/abs"), "/abs");
}

#[test]
fn file_kinds_by_extension() {
    assert!(check_model_file("/models/chair.glb"));
    assert!(check_model_file("scene.gltf"));
    assert!(!check_model_file("chair.GLB"));
    assert!(!check_model_file("glb"));
    assert!(check_skybox_file("sky.webp"));
    assert!(check_skybox_file("sky.jpg"));
    assert!(check_skybox_file("sky.jpeg"));
    assert!(check_skybox_file("sky.png"));
    assert!(check_skybox_file("sky.hdr"));
    assert!(check_skybox_file("sky.exr"));
    assert!(!check_skybox_file("sky.gif"));
    assert!(!check_skybox_file(""));
    assert!(check_json_file("/home/u/settings.json"));
    assert!(!check_json_file("settings.json.bak"));
}

#[test]
fn snapshot_names_embed_the_pose() {
    assert_eq!(snapshot_file_name("chair", 0, -466_667, 2_900_000), "chair_0_-0.466667_2.9.jpg");
    let save = SavePath {
        current_dir_path: "/home/u/Downloads/chair".to_string(),
        file_name_prefix: "chair".to_string(),
    };
    assert_eq!(
        snapshot_path(&save, -750_000, 1, 3_000_000),
        "/home/u/Downloads/chair/chair_-0.75_0.000001_3.jpg"
    );
}

#[test]
fn registering_models_skips_repeats() {
    let mut assets = AssetPath::new();
    let mut saves = SavePathList::new("/home/u/Downloads".to_string());
    assert!(register_model_file(&mut assets, &mut saves, "/m/chair.glb"));
    assert!(register_model_file(&mut assets, &mut saves, "/m/table.gltf"));
    assert!(!register_model_file(&mut assets, &mut saves, "/m/chair.glb"));
    assert!(!register_model_file(&mut assets, &mut saves, "/m/.."));
    assert!(register_model_file(&mut assets, &mut saves, "/m/lamp.glb/"));
    assert_eq!(saves.save_path_list[2].file_name_prefix, "lamp");
    assets.models_path.pop();
    saves.save_path_list.pop();
    assert_eq!(assets.models_path, vec!["/m/chair.glb".to_string(), "/m/table.gltf".to_string()]);
    assert_eq!(saves.save_path_list.len(), 2);
    assert_eq!(saves.save_path_list[0].current_dir_path, "/home/u/Downloads/chair");
    assert_eq!(saves.save_path_list[0].file_name_prefix, "chair");
    assert_eq!(saves.save_path_list[1].current_dir_path, "/home/u/Downloads/table");
    assert!(assets.contains_model("/m/table.gltf"));
    assert!(!assets.contains_model("/m/lamp.glb"));
}

#[test]
fn switching_models_wraps_around() {
    let mut assets = AssetPath::new();
    let mut saves = SavePathList::new("out".to_string());
    assert_eq!(assets.switch_model(RenderModelForwardOrBackward::Forward), None);
    for p in ["a.glb", "b.glb", "c.glb"] {
        register_model_file(&mut assets, &mut saves, p);
    }
    assert_eq!(assets.switch_model(RenderModelForwardOrBackward::Backward), Some("c.glb".to_string()));
    assert_eq!(assets.current_model_path_count, 2);
    assert_eq!(assets.switch_model(RenderModelForwardOrBackward::Forward), Some("a.glb".to_string()));
    assert_eq!(assets.switch_model(RenderModelForwardOrBackward::Forward), Some("b.glb".to_string()));
    saves.switch_model(RenderModelForwardOrBackward::Backward);
    assert_eq!(saves.current_path_count, 2);
    assert_eq!(saves.current_dir(), Some("out/c".to_string()));
}

#[test]
fn clearing_assets_and_validating() {
    let mut assets = AssetPath::new();
    let mut saves = SavePathList::new("out".to_string());
    let check = assets.validate();
    assert!(!check.models_ok && !check.skybox_ok);
    register_model_file(&mut assets, &mut saves, "a.glb");
    assets.skybox_path = "sky.png".to_string();
    let check = assets.validate();
    assert!(check.models_ok && check.skybox_ok);
    assets.clear_skybox();
    assert!(!assets.validate().skybox_ok);
    assets.clear_models();
    saves.clear();
    assert!(assets.models_path.is_empty() && saves.save_path_list.is_empty());
    assert_eq!(saves.snapshot_path(0, 0, 0), None);
}

#[test]
fn default_settings_values() {
    let s = default_app_settings("/home/u/Downloads".to_string());
    assert_eq!(s.image_save_dir, "/home/u/Downloads");
    assert_eq!((s.yaw_min_value, s.yaw_max_value), (-750_000, 750_000));
    assert_eq!((s.pitch_min_value, s.pitch_max_value), (-600_000, -200_000));
    assert_eq!(s.radius_range, 2_000_000);
    assert_eq!(s.mouse_sensitivity, 2_500);
    assert_eq!(s.zoom_sensitivity, 250_000);
    assert_eq!(s.live_capture_iteration, 5000);
}

#[test]
fn dropped_files_are_classified_by_extension() {
    assert_eq!(classify_dropped_file("/m/chair.glb"), DroppedFile::Model);
    assert_eq!(classify_dropped_file("/m/sky.hdr"), DroppedFile::Skybox);
    assert_eq!(classify_dropped_file("/m/settings.json"), DroppedFile::Settings);
    assert_eq!(classify_dropped_file("/m/notes.txt"), DroppedFile::Ignored);
    assert_eq!(classify_dropped_file("/m/.json"), DroppedFile::Ignored);
}

#[test]
fn snapshot_of_model_on_display_uses_its_stem() {
    let (mut assets, mut saves) = new_asset_lists("/out".to_string());
    assert_eq!(current_snapshot_path(&assets, &saves, 0, 0, 0), None);
    register_model_file(&mut assets, &mut saves, "/m/chair.glb");
    register_model_file(&mut assets, &mut saves, "/m/table.gltf");
    assets.switch_model(RenderModelForwardOrBackward::Forward);
    saves.switch_model(RenderModelForwardOrBackward::Forward);
    assert_eq!(
        current_snapshot_path(&assets, &saves, 1_000_000, -200_000, 2_000_000),
        Some("/out/table/table_1_-0.2_2.jpg".to_string())
    );
    clear_model_assets(&mut assets, &mut saves);
    assert!(assets.models_path.is_empty() && saves.save_path_list.is_empty());
    assert_eq!(saves.current_path_count, 0);
    assert_eq!(current_snapshot_path(&assets, &saves, 0, 0, 0), None);
}
