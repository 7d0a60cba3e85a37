//! A small verified core for a single-process translation engine.
//!
//! The crate resolves the resources of a pretrained multilingual model,
//! records the compute-device decision, assembles and validates a decoding
//! configuration, and drives the lifecycle of a translation engine: every
//! request is checked before the loaded model may be invoked, and every
//! model outcome is post-processed into a trimmed result with its latency.
//! The expensive outside work (fetching weights, running inference, reading
//! the wall clock) stays with the caller; every decision around it is
//! specified and proved here.

pub mod config;
pub mod device;
pub mod engine;
pub mod errors;
pub mod lang;
pub mod resources;
pub mod text;
pub mod timing;
