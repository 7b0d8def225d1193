//! Kinds of dropped files and the default configuration.
use vstd::prelude::*;
use vstd::string::StringExecFns;
use crate::path::{extension, path_extension};
use crate::types::AppSettings;

verus! {

/// Extensions of loadable models.
pub open spec fn is_model_extension(e: Seq<char>) -> bool {
    e == seq!['g', 'l', 'b'] || e == seq!['g', 'l', 't', 'f']
}

/// Extensions of loadable skybox images.
pub open spec fn is_skybox_extension(e: Seq<char>) -> bool {
    e == seq!['w', 'e', 'b', 'p'] || e == seq!['j', 'p', 'g'] || e == seq!['j', 'p', 'e', 'g']
        || e == seq!['p', 'n', 'g'] || e == seq!['h', 'd', 'r'] || e == seq!['e', 'x', 'r']
}

/// Extension of a settings file.
pub open spec fn is_json_extension(e: Seq<char>) -> bool {
    e == seq!['j', 's', 'o', 'n']
}

/// Whether `e` spells `lit`.
fn is_text(e: &String, lit: &str) -> (r: bool)
    ensures
        r == (e@ == lit@),
{
    let t = String::from_str(lit);
    *e == t
}

/// Whether `file_path` names a model: its extension is `glb` or `gltf`.
pub fn check_model_file(file_path: &str) -> (r: bool)
    ensures
        r == (extension(file_path@).is_some() && is_model_extension(
            extension(file_path@).unwrap(),
        )),
{
    match path_extension(file_path) {
        Some(e) => {
            proof {
                reveal_strlit("glb");
                assert("glb"@ =~= seq!['g', 'l', 'b']);
                reveal_strlit("gltf");
                assert("gltf"@ =~= seq!['g', 'l', 't', 'f']);
            }
            is_text(&e, "glb") || is_text(&e, "gltf")
        },
        None => false,
    }
}

/// Whether `file_path` names a skybox image: its extension is `webp`, `jpg`,
/// `jpeg`, `png`, `hdr` or `exr`.
pub fn check_skybox_file(file_path: &str) -> (r: bool)
    ensures
        r == (extension(file_path@).is_some() && is_skybox_extension(
            extension(file_path@).unwrap(),
        )),
{
    match path_extension(file_path) {
        Some(e) => {
            proof {
                reveal_strlit("webp");
                assert("webp"@ =~= seq!['w', 'e', 'b', 'p']);
                reveal_strlit("jpg");
                assert("jpg"@ =~= seq!['j', 'p', 'g']);
                reveal_strlit("jpeg");
                assert("jpeg"@ =~= seq!['j', 'p', 'e', 'g']);
                reveal_strlit("png");
                assert("png"@ =~= seq!['p', 'n', 'g']);
                reveal_strlit("hdr");
                assert("hdr"@ =~= seq!['h', 'd', 'r']);
                reveal_strlit("exr");
                assert("exr"@ =~= seq!['e', 'x', 'r']);
            }
            is_text(&e, "webp") || is_text(&e, "jpg") || is_text(&e, "jpeg") || is_text(&e, "png")
                || is_text(&e, "hdr") || is_text(&e, "exr")
        },
        None => false,
    }
}

/// Whether `file_path` names a settings file: its extension is `json`.
pub fn check_json_file(file_path: &str) -> (r: bool)
    ensures
        r == (extension(file_path@).is_some() && is_json_extension(
            extension(file_path@).unwrap(),
        )),
{
    match path_extension(file_path) {
        Some(e) => {
            proof {
                reveal_strlit("json");
                assert("json"@ =~= seq!['j', 's', 'o', 'n']);
            }
            is_text(&e, "json")
        },
        None => false,
    }
}

/// What a dropped file is taken for.
#[derive(Clone, Copy, Debug, PartialEq, Eq, Structural)]
pub enum DroppedFile {
    Model,
    Skybox,
    Settings,
    Ignored,
}

/// Classifies a dropped file by its extension: a model first, then a
/// skybox image, then a settings file; anything else is ignored.
pub fn classify_dropped_file(file_path: &str) -> (r: DroppedFile)
    ensures
        ({
            let e = extension(file_path@);
            r == if e.is_some() && is_model_extension(e.unwrap()) {
                DroppedFile::Model
            } else if e.is_some() && is_skybox_extension(e.unwrap()) {
                DroppedFile::Skybox
            } else if e.is_some() && is_json_extension(e.unwrap()) {
                DroppedFile::Settings
            } else {
                DroppedFile::Ignored
            }
        }),
{
    if check_model_file(file_path) {
        DroppedFile::Model
    } else if check_skybox_file(file_path) {
        DroppedFile::Skybox
    } else if check_json_file(file_path) {
        DroppedFile::Settings
    } else {
        DroppedFile::Ignored
    }
}

/// The configuration used when no settings file exists: yaw within ±0.75,
/// pitch within [-0.60, -0.20], a radius range of 2, rotate and move
/// sensitivities of 0.05, a mouse sensitivity of 0.0025, a zoom sensitivity
/// of 0.25 and 5000 poses per capture; captures go under `image_save_dir`.
pub fn default_app_settings(image_save_dir: String) -> (r: AppSettings)
    ensures
        r.image_save_dir == image_save_dir,
        r.yaw_min_value == -750_000,
        r.yaw_max_value == 750_000,
        r.pitch_min_value == -600_000,
        r.pitch_max_value == -200_000,
        r.radius_range == 2_000_000,
        r.model_rotate_sensitivity == 50_000,
        r.model_reposition_sensitivity == 50_000,
        r.mouse_sensitivity == 2_500,
        r.zoom_sensitivity == 250_000,
        r.live_capture_iteration == 5000,
{
    AppSettings {
        image_save_dir,
        yaw_min_value: -750_000,
        yaw_max_value: 750_000,
        pitch_min_value: -600_000,
        pitch_max_value: -200_000,
        radius_range: 2_000_000,
        model_rotate_sensitivity: 50_000,
        model_reposition_sensitivity: 50_000,
        mouse_sensitivity: 2_500,
        zoom_sensitivity: 250_000,
        live_capture_iteration: 5000,
    }
}

} // verus!
