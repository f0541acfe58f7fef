//! Decision logic of the stand-alone tracking sidecar.

pub mod config;
pub mod gestures;
pub mod health;
pub mod pipeline;
pub mod types;
