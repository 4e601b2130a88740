//! Verified core of a small GPU compute/graphics engine: device and queue
//! selection, resource sizing, pipeline interface checks, binding validation,
//! fail-fast command recording, fence synchronisation and readback.

pub mod error;
pub mod device;
pub mod resource;
pub mod pipeline;
pub mod binding;
pub mod command;
pub mod sync;
pub mod operation;

