//! Virtual devices and the environment they are launched in.

pub mod emulator;
pub mod env;
