//! Block-device input and output: buffer sizing and the write phase.

pub mod devices;
pub mod writer;
