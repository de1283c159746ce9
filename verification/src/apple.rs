//! Physical and simulated devices and the pipeline that runs an app on one.

pub mod config;
pub mod device;
pub mod pipeline;
pub mod target;
