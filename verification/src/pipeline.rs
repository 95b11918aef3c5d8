//! Stages of the processor pipeline.

pub mod decode;
