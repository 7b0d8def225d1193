//! Modes of the application and of a viewing session.
use vstd::prelude::*;

verus! {

/// Which part of the application is shown.
#[derive(Clone, Copy, Debug, PartialEq, Eq, Hash, Structural)]
pub enum AppState {
    MainMenu,
    OperationMode,
    ModelSwitchingMode,
}

/// Which driver moves the camera of a session, if any.
#[derive(Clone, Copy, Debug, PartialEq, Eq, Hash, Structural)]
pub enum OperationState {
    Idle,
    Interactive,
    LiveCapture,
    LivePreview,
}

/// Whether auto-framing has run for the model on display.
#[derive(Clone, Copy, Debug, PartialEq, Eq, Hash, Structural)]
pub enum CameraFovInitializedState {
    NotInitialized,
    Initialized,
}

/// Direction in which to step through the loaded models.
#[derive(Clone, Copy, Debug, PartialEq, Eq, Hash, Structural)]
pub enum RenderModelForwardOrBackward {
    Forward,
    Backward,
}

impl Default for AppState {
    fn default() -> (r: AppState)
        ensures
            r == AppState::MainMenu,
    {
        AppState::MainMenu
    }
}

impl Default for OperationState {
    fn default() -> (r: OperationState)
        ensures
            r == OperationState::Idle,
    {
        OperationState::Idle
    }
}

impl Default for CameraFovInitializedState {
    fn default() -> (r: CameraFovInitializedState)
        ensures
            r == CameraFovInitializedState::NotInitialized,
    {
        CameraFovInitializedState::NotInitialized
    }
}

impl Default for RenderModelForwardOrBackward {
    fn default() -> (r: RenderModelForwardOrBackward)
        ensures
            r == RenderModelForwardOrBackward::Forward,
    {
        RenderModelForwardOrBackward::Forward
    }
}

} // verus!
