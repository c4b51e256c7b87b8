//! The analyzer side: window sizes, channel windows and spectrum frames.

pub mod audio;
pub mod multichannel;
pub mod plan;
pub mod types;
