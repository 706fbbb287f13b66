//! Verified core of a first-person free camera and its debug grid overlay.
//!
//! The engine side (windows, input polling, meshes, materials) lives outside
//! this library; it hands plain values in and takes plain values back.
pub mod look;
pub mod movement;
pub mod grid;
pub mod texture;
pub mod app_state;
