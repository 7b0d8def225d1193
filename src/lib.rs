//! Camera orchestration for a multi-angle model viewer.
//!
//! Angles are held in microradians and distances in millionths of a world
//! unit (see [`fixed::SCALE`]), so that every driver of the orbit camera is
//! exact integer arithmetic.
pub mod camera;
pub mod capture;
pub mod components;
pub mod fixed;
pub mod framing;
pub mod orchestrator;
pub mod path;
pub mod render;
pub mod resource;
pub mod sampling;
pub mod states;
pub mod text;
pub mod types;
pub mod utils;
