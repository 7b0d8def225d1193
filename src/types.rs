//! Persisted configuration and where captures of one model are saved.
use vstd::prelude::*;

verus! {

/// Configuration of the application as the settings file holds it, with
/// angles in microradians and lengths and sensitivities in millionths.
#[derive(Clone, Debug)]
pub struct AppSettings {
    pub image_save_dir: String,
    pub yaw_min_value: i64,
    pub yaw_max_value: i64,
    pub pitch_min_value: i64,
    pub pitch_max_value: i64,
    pub radius_range: i64,
    pub model_rotate_sensitivity: i64,
    pub model_reposition_sensitivity: i64,
    pub mouse_sensitivity: i64,
    pub zoom_sensitivity: i64,
    pub live_capture_iteration: usize,
}

/// Directory for the captures of one model and the prefix of their names.
#[derive(Clone, Debug)]
pub struct SavePath {
    pub current_dir_path: String,
    pub file_name_prefix: String,
}

} // verus!
