//! Speed-change transcoding of audio tracks: the verified decisions and
//! integer stages of the pipeline (block accumulation, quantization with
//! headroom, frame-major interleaving and the state machine of a run).

pub mod config;
pub mod error;
pub mod quantize;
pub mod accumulator;
pub mod pipeline;
