//! Core of a multi-device sonar data-acquisition server: device registry,
//! per-device session protocol driver, frame codec, lossy frame broadcast,
//! recording manager and vehicle-telemetry fusion, with machine-checked
//! contracts on every operation.

pub mod broadcast;
pub mod codec;
pub mod commands;
pub mod errors;
pub mod files;
pub mod ids;
pub mod messages;
pub mod recording;
pub mod registry;
pub mod session;
pub mod timefmt;
pub mod vehicle;
pub mod wshub;
