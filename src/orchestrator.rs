//! The mode state machine of a viewing session: which driver moves the
//! camera, when a sequenced capture starts and ends, and what a session's
//! start and end reset.
use vstd::prelude::*;
use crate::camera::{
    interactive_orbit_camera, live_capture_camera, live_orbit_camera, manual_spec,
    oscillate_spec, PointerInput,
};
use crate::components::{ModelRotateReposition, OrbitCamera};
use crate::fixed::{div_floor, sat64, saturate, saturating_add, SCALE};
use crate::framing::ModelFraming;
use crate::render::{reposition_rotate_model, reposition_spec, rotation_spec, HeldKeys, ModelRotation};
use crate::resource::{
    paired, step_index, AssetPath, LiveCameraPanNumber, SavePathList, LiveCaptureOperationSettings, OperationSettings,
    OperationWindowRelatedEntities,
};
use crate::sampling::{generate_points, sample_plan, MAX_SAMPLES};
use crate::states::{
    AppState, CameraFovInitializedState, OperationState, RenderModelForwardOrBackward,
};
use crate::path::extension;
use crate::types::AppSettings;
use crate::utils::is_skybox_extension;

verus! {

/// Radius at which a session's camera starts before auto-framing.
pub const INITIAL_RADIUS: i64 = 2_500_000;

/// Keys pressed (not held) during one tick.
#[derive(Clone, Copy, Debug, PartialEq, Eq, Structural)]
pub struct KeyPresses {
    pub space: bool,
    pub key_i: bool,
    pub key_l: bool,
    pub key_c: bool,
    pub key_q: bool,
    pub key_e: bool,
}

/// What the keyboard asked for beyond a change of mode: whether a
/// sequenced capture started (its directory must exist), and the pose of a
/// single snapshot that is due.
#[derive(Clone, Copy, Debug, PartialEq, Eq)]
pub struct KeyboardOutcome {
    pub started_capture: bool,
    pub snapshot: Option<(i64, i64, i64)>,
}

/// The driver that moves the camera.
#[derive(Clone, Copy, Debug, PartialEq, Eq, Structural)]
pub enum OrbitDriver {
    Manual,
    Oscillating,
    Sequenced,
}

/// What one tick did beyond moving the camera: the pose of a capture that
/// is due, the turn the model is to make, and whether a sequenced capture
/// has just finished.
#[derive(Clone, Copy, Debug, PartialEq, Eq)]
pub struct TickOutcome {
    pub capture: Option<(i64, i64, i64)>,
    pub rotation: Option<ModelRotation>,
    pub finished: bool,
}

/// Owns the state that the drivers share and decides, on each event, which
/// of them runs.
#[derive(Clone, Debug)]
pub struct CaptureOrchestrator {
    pub app_state: AppState,
    pub operation_state: OperationState,
    pub camera_fov: CameraFovInitializedState,
    pub settings: OperationSettings,
    pub live_capture: LiveCaptureOperationSettings,
    pub pan: LiveCameraPanNumber,
    pub camera: OrbitCamera,
    pub model: ModelRotateReposition,
    pub zoom_scale: u32,
}

/// Operation settings taken from `s`, with the radius at its initial value.
pub open spec fn settings_from(s: AppSettings) -> OperationSettings {
    OperationSettings {
        yaw_min_value: s.yaw_min_value,
        yaw_max_value: s.yaw_max_value,
        pitch_min_value: s.pitch_min_value,
        pitch_max_value: s.pitch_max_value,
        radius_range: s.radius_range,
        radius_start_position: INITIAL_RADIUS,
        model_rotate_sensitivity: s.model_rotate_sensitivity,
        model_reposition_sensitivity: s.model_reposition_sensitivity,
        mouse_sensitivity: s.mouse_sensitivity,
        zoom_sensitivity: s.zoom_sensitivity,
    }
}

fn settings_from_exec(s: &AppSettings) -> (r: OperationSettings)
    ensures
        r == settings_from(*s),
{
    OperationSettings {
        yaw_min_value: s.yaw_min_value,
        yaw_max_value: s.yaw_max_value,
        pitch_min_value: s.pitch_min_value,
        pitch_max_value: s.pitch_max_value,
        radius_range: s.radius_range,
        radius_start_position: INITIAL_RADIUS,
        model_rotate_sensitivity: s.model_rotate_sensitivity,
        model_reposition_sensitivity: s.model_reposition_sensitivity,
        mouse_sensitivity: s.mouse_sensitivity,
        zoom_sensitivity: s.zoom_sensitivity,
    }
}

impl CaptureOrchestrator {
    /// The rates are unit signs.
    pub open spec fn wf(&self) -> bool {
        self.pan.wf()
    }

    /// The radius range in use: the configured one times the zoom scale of
    /// the model on display.
    pub open spec fn radius_span(&self) -> int {
        sat64((self.settings.radius_range * self.zoom_scale) / SCALE as int)
    }

    /// The driver that runs on a tick: none outside a session or before
    /// auto-framing, else the one of the current mode.
    pub open spec fn driver(&self) -> Option<OrbitDriver> {
        if self.app_state != AppState::OperationMode || self.camera_fov
            != CameraFovInitializedState::Initialized {
            None
        } else {
            match self.operation_state {
                OperationState::Interactive => Some(OrbitDriver::Manual),
                OperationState::LivePreview => Some(OrbitDriver::Oscillating),
                OperationState::LiveCapture => Some(OrbitDriver::Sequenced),
                OperationState::Idle => None,
            }
        }
    }

    /// The main menu, with `settings` in force.
    pub fn new(settings: &AppSettings) -> (r: CaptureOrchestrator)
        ensures
            r.wf(),
            r.app_state == AppState::MainMenu,
            r.operation_state == OperationState::Idle,
            r.camera_fov == CameraFovInitializedState::NotInitialized,
            r.settings == settings_from(*settings),
            r.live_capture.live_capture_iteration == settings.live_capture_iteration,
            r.live_capture.live_capture_iteration_current_counter == 0,
            r.live_capture.live_capture_coordinate_list@.len() == 0,
            r.pan == (LiveCameraPanNumber { yaw: 1, pitch: 1, radius: 1 }),
            r.camera == OrbitCamera::spec_new(INITIAL_RADIUS),
            r.model == (ModelRotateReposition { x: 0, y: 0 }),
            r.zoom_scale == SCALE,
    {
        CaptureOrchestrator {
            app_state: AppState::MainMenu,
            operation_state: OperationState::Idle,
            camera_fov: CameraFovInitializedState::NotInitialized,
            settings: settings_from_exec(settings),
            live_capture: LiveCaptureOperationSettings::new(settings.live_capture_iteration),
            pan: LiveCameraPanNumber::new(),
            camera: OrbitCamera::new(INITIAL_RADIUS),
            model: ModelRotateReposition { x: 0, y: 0 },
            zoom_scale: SCALE as u32,
        }
    }

    /// Puts `settings` in force (a settings file was loaded): bounds,
    /// sensitivities and the number of poses per capture, with the radius
    /// back at its initial value.
    pub fn apply_app_settings(&mut self, settings: &AppSettings, saves: &mut SavePathList)
        ensures
            final(saves).base_dir_path == settings.image_save_dir,
            final(saves).save_path_list == old(saves).save_path_list,
            final(saves).current_path_count == old(saves).current_path_count,
            final(self).settings == settings_from(*settings),
            final(self).live_capture.live_capture_iteration == settings.live_capture_iteration,
            final(self).live_capture.live_capture_iteration_current_counter
                == old(self).live_capture.live_capture_iteration_current_counter,
            final(self).live_capture.live_capture_coordinate_list@
                == old(self).live_capture.live_capture_coordinate_list@,
            final(self).app_state == old(self).app_state,
            final(self).operation_state == old(self).operation_state,
            final(self).camera_fov == old(self).camera_fov,
            final(self).pan == old(self).pan,
            final(self).camera == old(self).camera,
            final(self).model == old(self).model,
            final(self).zoom_scale == old(self).zoom_scale,
    {
        self.settings = settings_from_exec(settings);
        self.live_capture.live_capture_iteration = settings.live_capture_iteration;
        saves.base_dir_path = settings.image_save_dir.clone();
    }

    /// The radius range in use.
    pub fn radius_span_exec(&self) -> (r: i64)
        ensures
            r == self.radius_span(),
    {
        assert(-0x1_0000_0000_0000_0000_0000_0000 <= self.settings.radius_range * self.zoom_scale
            <= 0x1_0000_0000_0000_0000_0000_0000) by (nonlinear_arith)
            requires
                -0x8000_0000_0000_0000 <= self.settings.radius_range < 0x8000_0000_0000_0000,
                0 <= self.zoom_scale < 0x1_0000_0000,
        ;
        saturate(div_floor(self.settings.radius_range as i128 * self.zoom_scale as i128, SCALE as i128))
    }

    /// The driver that runs on a tick.
    pub fn active_driver(&self) -> (r: Option<OrbitDriver>)
        ensures
            r == self.driver(),
    {
        if self.app_state != AppState::OperationMode || self.camera_fov
            != CameraFovInitializedState::Initialized {
            return None;
        }
        match self.operation_state {
            OperationState::Interactive => Some(OrbitDriver::Manual),
            OperationState::LivePreview => Some(OrbitDriver::Oscillating),
            OperationState::LiveCapture => Some(OrbitDriver::Sequenced),
            OperationState::Idle => None,
        }
    }

    /// Opens a session from the main menu, when at least one model is
    /// loaded and the skybox is a loaded skybox image: interactive mode,
    /// awaiting auto-framing, with the camera and the model back at their
    /// start. Otherwise nothing changes. Returns whether it opened.
    pub fn enter_session(&mut self, assets: &AssetPath, skybox_loaded: bool) -> (r: bool)
        ensures
            r == (old(self).app_state == AppState::MainMenu && assets.models_path@.len() > 0
                && skybox_loaded && extension(assets.skybox_path@).is_some() && is_skybox_extension(
                extension(assets.skybox_path@).unwrap(),
            )),
            !r ==> *final(self) == *old(self),
            r ==> {
                &&& final(self).app_state == AppState::OperationMode
                &&& final(self).operation_state == OperationState::Interactive
                &&& final(self).camera_fov == CameraFovInitializedState::NotInitialized
                &&& final(self).camera == OrbitCamera::spec_new(
                    old(self).settings.radius_start_position,
                )
                &&& final(self).model == (ModelRotateReposition { x: 0, y: 0 })
                &&& final(self).settings == old(self).settings
                &&& final(self).pan == old(self).pan
                &&& final(self).live_capture == old(self).live_capture
                &&& final(self).zoom_scale == old(self).zoom_scale
            },
    {
        let check = assets.validate();
        if !(check.models_ok && check.skybox_ok && skybox_loaded) {
            return false;
        }
        if self.app_state != AppState::MainMenu {
            return false;
        }
        self.app_state = AppState::OperationMode;
        self.operation_state = OperationState::Interactive;
        self.camera_fov = CameraFovInitializedState::NotInitialized;
        self.camera = OrbitCamera::new(self.settings.radius_start_position);
        self.model = ModelRotateReposition { x: 0, y: 0 };
        true
    }

    /// Takes the result of auto-framing, once per model: the camera moves to
    /// its radius, which becomes the start radius, the model is lowered by its
    /// offset, the radius range is scaled by its zoom scale, and the drivers
    /// may run. In a session that awaits framing only; elsewhere nothing
    /// changes. Returns whether it was taken.
    pub fn apply_framing(&mut self, framing: ModelFraming) -> (r: bool)
        ensures
            r == (old(self).app_state == AppState::OperationMode && old(self).camera_fov
                == CameraFovInitializedState::NotInitialized),
            !r ==> *final(self) == *old(self),
            r ==> {
                &&& final(self).camera == (OrbitCamera { radius: framing.radius, ..old(self).camera })
                &&& final(self).settings == (OperationSettings {
                    radius_start_position: framing.radius,
                    ..old(self).settings
                })
                &&& final(self).model == (ModelRotateReposition {
                    y: sat64(old(self).model.y - framing.vertical_offset) as i64,
                    ..old(self).model
                })
                &&& final(self).zoom_scale == framing.zoom_scale
                &&& final(self).camera_fov == CameraFovInitializedState::Initialized
                &&& final(self).app_state == old(self).app_state
                &&& final(self).operation_state == old(self).operation_state
                &&& final(self).pan == old(self).pan
                &&& final(self).live_capture == old(self).live_capture
            },
    {
        if self.app_state != AppState::OperationMode || self.camera_fov
            != CameraFovInitializedState::NotInitialized {
            return false;
        }
        self.camera.radius = framing.radius;
        self.settings.radius_start_position = framing.radius;
        self.model.y = saturate(self.model.y as i128 - framing.vertical_offset as i128);
        self.zoom_scale = framing.zoom_scale;
        self.camera_fov = CameraFovInitializedState::Initialized;
        true
    }

    /// The sample ranges of a capture that starts now: the configured yaw
    /// and pitch bounds, and the radius from the camera's current radius to
    /// that plus the radius range in use.
    pub open spec fn capture_plan(&self) -> Seq<(i64, i64, i64)> {
        sample_plan(
            self.live_capture.live_capture_iteration as nat,
            (self.settings.yaw_min_value, self.settings.yaw_max_value),
            (self.settings.pitch_min_value, self.settings.pitch_max_value),
            (self.camera.radius, sat64(self.camera.radius + self.radius_span()) as i64),
        )
    }

    /// Answers the keys pressed on one tick of a session. In live capture,
    /// Space or I returns to interactive mode; in live preview, L or I does.
    /// In interactive mode, once auto-framed, the camera's radius becomes the
    /// start radius, then Space starts a sequenced capture (when its number
    /// of poses fits in 32-bit indices): the plan is sampled anew, nothing is
    /// visited, and live capture begins; else L starts live preview. In any
    /// mode, C asks for a snapshot at the current pose. Outside a session
    /// nothing happens.
    pub fn keyboard_interact(&mut self, keys: &KeyPresses) -> (r: KeyboardOutcome)
        ensures
            ({
                let a = *old(self);
                let b = *final(self);
                let in_session = a.app_state == AppState::OperationMode;
                let framed = a.camera_fov == CameraFovInitializedState::Initialized;
                let starts = in_session && framed && a.operation_state == OperationState::Interactive
                    && keys.space && a.live_capture.live_capture_iteration <= MAX_SAMPLES;
                &&& r.snapshot == (if in_session && keys.key_c {
                    Some((a.camera.yaw, a.camera.pitch, a.camera.radius))
                } else {
                    None
                })
                &&& r.started_capture == starts
                &&& b.app_state == a.app_state
                &&& b.camera_fov == a.camera_fov
                &&& b.camera == a.camera
                &&& b.pan == a.pan
                &&& b.model == a.model
                &&& b.zoom_scale == a.zoom_scale
                &&& b.operation_state == (if !in_session {
                    a.operation_state
                } else {
                    match a.operation_state {
                        OperationState::LiveCapture => if keys.space || keys.key_i {
                            OperationState::Interactive
                        } else {
                            OperationState::LiveCapture
                        },
                        OperationState::LivePreview => if keys.key_l || keys.key_i {
                            OperationState::Interactive
                        } else {
                            OperationState::LivePreview
                        },
                        OperationState::Interactive => if !framed {
                            OperationState::Interactive
                        } else if starts {
                            OperationState::LiveCapture
                        } else if keys.space {
                            OperationState::Interactive
                        } else if keys.key_l {
                            OperationState::LivePreview
                        } else {
                            OperationState::Interactive
                        },
                        OperationState::Idle => OperationState::Idle,
                    }
                })
                &&& b.settings == (if in_session && framed && a.operation_state
                    == OperationState::Interactive {
                    OperationSettings { radius_start_position: a.camera.radius, ..a.settings }
                } else {
                    a.settings
                })
                &&& starts ==> {
                    &&& b.live_capture.live_capture_coordinate_list@ == a.capture_plan()
                    &&& b.live_capture.live_capture_iteration == a.live_capture.live_capture_iteration
                    &&& b.live_capture.live_capture_iteration_current_counter == 0
                }
                &&& !starts ==> b.live_capture == a.live_capture
            }),
    {
        let mut started = false;
        if self.app_state != AppState::OperationMode {
            return KeyboardOutcome { started_capture: false, snapshot: None };
        }
        match self.operation_state {
            OperationState::LiveCapture => {
                if keys.space || keys.key_i {
                    self.operation_state = OperationState::Interactive;
                }
            },
            OperationState::LivePreview => {
                if keys.key_l || keys.key_i {
                    self.operation_state = OperationState::Interactive;
                }
            },
            OperationState::Interactive => {
                if self.camera_fov == CameraFovInitializedState::Initialized {
                    self.settings.radius_start_position = self.camera.radius;
                    if keys.space {
                        let count = self.live_capture.live_capture_iteration;
                        if count <= MAX_SAMPLES {
                            let start = self.camera.radius;
                            let span = self.radius_span_exec();
                            let plan = generate_points(
                                count,
                                (self.settings.yaw_min_value, self.settings.yaw_max_value),
                                (self.settings.pitch_min_value, self.settings.pitch_max_value),
                                (start, saturating_add(start, span)),
                            );
                            self.live_capture.restart(plan);
                            self.operation_state = OperationState::LiveCapture;
                            started = true;
                        }
                    } else if keys.key_l {
                        self.operation_state = OperationState::LivePreview;
                    }
                }
            },
            OperationState::Idle => {},
        }
        let snapshot = if keys.key_c {
            Some((self.camera.yaw, self.camera.pitch, self.camera.radius))
        } else {
            None
        };
        KeyboardOutcome { started_capture: started, snapshot }
    }

    /// One tick of the active driver, if any: the manual driver (with the
    /// held keys moving and turning the model), the oscillating driver, or
    /// the sequenced driver, which returns to interactive mode when the
    /// capture finishes. With no active driver nothing changes.
    pub fn tick(&mut self, pointer: &PointerInput, held: &HeldKeys) -> (r: TickOutcome)
        requires
            old(self).wf(),
        ensures
            final(self).wf(),
            ({
                let a = *old(self);
                let b = *final(self);
                &&& b.app_state == a.app_state
                &&& b.camera_fov == a.camera_fov
                &&& b.settings == a.settings
                &&& b.zoom_scale == a.zoom_scale
                &&& a.driver() != Some(OrbitDriver::Sequenced) ==> b.live_capture == a.live_capture
                &&& a.driver() != Some(OrbitDriver::Sequenced) ==> b.operation_state
                    == a.operation_state
                &&& a.driver() != Some(OrbitDriver::Sequenced) ==> r.capture.is_none()
                    && !r.finished
                &&& a.driver() != Some(OrbitDriver::Oscillating) ==> b.pan == a.pan
                &&& a.driver() != Some(OrbitDriver::Manual) ==> b.model == a.model
                    && r.rotation.is_none()
                &&& a.driver().is_none() ==> b.camera == a.camera
                &&& a.driver() == Some(OrbitDriver::Manual) ==> {
                    &&& b.camera == manual_spec(a.camera, *pointer, a.settings)
                    &&& b.model == reposition_spec(
                        a.model,
                        *held,
                        a.settings.model_reposition_sensitivity as int,
                    )
                    &&& r.rotation == rotation_spec(
                        *held,
                        a.settings.model_rotate_sensitivity as int,
                    )
                }
                &&& a.driver() == Some(OrbitDriver::Oscillating) ==> (b.camera, b.pan)
                    == oscillate_spec(a.camera, a.pan, a.settings, a.radius_span())
                &&& a.driver() == Some(OrbitDriver::Sequenced) ==> {
                    let k = a.live_capture.live_capture_iteration_current_counter;
                    let plan = a.live_capture.live_capture_coordinate_list@;
                    let total = a.live_capture.live_capture_iteration;
                    &&& b.live_capture.live_capture_iteration == total
                    &&& b.live_capture.live_capture_coordinate_list@ == plan
                    &&& k < plan.len() ==> {
                        &&& r.capture == Some(plan[k as int])
                        &&& b.camera == (OrbitCamera {
                            yaw: plan[k as int].0,
                            pitch: plan[k as int].1,
                            radius: plan[k as int].2,
                            ..a.camera
                        })
                        &&& b.live_capture.live_capture_iteration_current_counter == k + 1
                        &&& r.finished == (k + 1 >= total)
                    }
                    &&& k >= plan.len() ==> {
                        &&& r.capture.is_none()
                        &&& r.finished
                        &&& b.camera == a.camera
                        &&& b.live_capture.live_capture_iteration_current_counter == k
                    }
                    &&& b.operation_state == (if r.finished {
                        OperationState::Interactive
                    } else {
                        OperationState::LiveCapture
                    })
                }
            }),
    {
        let none = TickOutcome { capture: None, rotation: None, finished: false };
        match self.active_driver() {
            None => none,
            Some(OrbitDriver::Manual) => {
                interactive_orbit_camera(&mut self.camera, pointer, &self.settings);
                let rotation = reposition_rotate_model(&mut self.model, held, &self.settings);
                TickOutcome { capture: None, rotation, finished: false }
            },
            Some(OrbitDriver::Oscillating) => {
                let span = self.radius_span_exec();
                live_orbit_camera(&mut self.camera, &mut self.pan, &self.settings, span);
                none
            },
            Some(OrbitDriver::Sequenced) => {
                let step = live_capture_camera(&mut self.camera, &mut self.live_capture);
                if step.finished {
                    self.operation_state = OperationState::Interactive;
                }
                TickOutcome { capture: step.pose, rotation: None, finished: step.finished }
            },
        }
    }

    /// Progress of the sequenced capture: poses visited and poses planned.
    pub fn progress(&self) -> (r: (usize, usize))
        ensures
            r == (
                self.live_capture.live_capture_iteration_current_counter,
                self.live_capture.live_capture_iteration,
            ),
    {
        (
            self.live_capture.live_capture_iteration_current_counter,
            self.live_capture.live_capture_iteration,
        )
    }

    /// Ends the session when its window closes: back to the main menu with
    /// no mode, every rate of the oscillating driver back to `1`, and every
    /// entity of the session handed back together for release. Returns them.
    pub fn close_session<E, H>(&mut self, entities: &mut OperationWindowRelatedEntities<E, H>) -> (r:
        Vec<E>)
        requires
            old(entities).wf(),
        ensures
            final(entities).wf(),
            !final(entities).is_open(),
            r@ == old(entities).members(),
            final(self).wf(),
            final(self).app_state == AppState::MainMenu,
            final(self).operation_state == OperationState::Idle,
            final(self).pan == (LiveCameraPanNumber { yaw: 1, pitch: 1, radius: 1 }),
            final(self).settings == old(self).settings,
            final(self).live_capture == old(self).live_capture,
            final(self).camera == old(self).camera,
            final(self).camera_fov == old(self).camera_fov,
            final(self).model == old(self).model,
            final(self).zoom_scale == old(self).zoom_scale,
    {
        self.app_state = AppState::MainMenu;
        self.operation_state = OperationState::Idle;
        self.pan = LiveCameraPanNumber::new();
        entities.close()
    }

    /// In interactive mode of a session, Q steps back and E forward through
    /// the loaded models (wrapping around), together with their capture
    /// entries; the new model awaits auto-framing at the pivot. Returns the
    /// path of the model to load; `None`, with nothing changed, when neither
    /// key asks, in another mode, or with no model loaded.
    pub fn switch_current_model(
        &mut self,
        keys: &KeyPresses,
        assets: &mut AssetPath,
        saves: &mut SavePathList,
    ) -> (r: Option<String>)
        ensures
            ({
                let asks = old(self).app_state == AppState::OperationMode && old(self).operation_state
                    == OperationState::Interactive && (keys.key_q || keys.key_e)
                    && old(assets).models_path@.len() > 0;
                let dir = if keys.key_q {
                    RenderModelForwardOrBackward::Backward
                } else {
                    RenderModelForwardOrBackward::Forward
                };
                &&& !asks ==> {
                    &&& r.is_none()
                    &&& *final(self) == *old(self)
                    &&& *final(assets) == *old(assets)
                    &&& final(saves).current_path_count == old(saves).current_path_count
                }
                &&& asks ==> {
                    &&& final(assets).current_model_path_count == step_index(
                        old(assets).current_model_path_count as int,
                        old(assets).models_path@.len() as int,
                        dir,
                    )
                    &&& r.is_some()
                    &&& r.unwrap()@ == old(assets).models()[final(assets).current_model_path_count as int]
                    &&& old(saves).save_path_list@.len() == 0 ==> final(saves).current_path_count
                        == old(saves).current_path_count
                    &&& old(saves).save_path_list@.len() > 0 ==> final(saves).current_path_count
                        == step_index(
                        old(saves).current_path_count as int,
                        old(saves).save_path_list@.len() as int,
                        dir,
                    )
                    &&& final(self).camera_fov == CameraFovInitializedState::NotInitialized
                    &&& final(self).model == (ModelRotateReposition { x: 0, y: 0 })
                    &&& final(self).app_state == old(self).app_state
                    &&& final(self).operation_state == old(self).operation_state
                    &&& final(self).camera == old(self).camera
                    &&& final(self).settings == old(self).settings
                    &&& final(self).pan == old(self).pan
                }
                &&& final(assets).models_path == old(assets).models_path
                &&& final(saves).save_path_list@ == old(saves).save_path_list@
                &&& paired(*old(assets), *old(saves)) ==> paired(*final(assets), *final(saves))
            }),
    {
        if self.app_state != AppState::OperationMode || self.operation_state
            != OperationState::Interactive || !(keys.key_q || keys.key_e)
            || assets.models_path.len() == 0 {
            return None;
        }
        let dir = if keys.key_q {
            RenderModelForwardOrBackward::Backward
        } else {
            RenderModelForwardOrBackward::Forward
        };
        let next = assets.switch_model(dir);
        saves.switch_model(dir);
        self.camera_fov = CameraFovInitializedState::NotInitialized;
        self.model = ModelRotateReposition { x: 0, y: 0 };
        next
    }
}

} // verus!
