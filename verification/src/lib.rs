//! Verified decision logic of the comfort gesture control runtime: session
//! lifecycle, gesture state machines, tracking status, input policy, telemetry
//! windows, mock tracker schedules and bounded line reading.

pub mod config;
pub mod engine;
pub mod gestures;
pub mod input;
pub mod runtime;
pub mod session;
pub mod sidecar;
pub mod telemetry;
pub mod tracker;
pub mod types;
