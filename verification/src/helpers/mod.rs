//! One module for each native backend.

pub mod ffmpeg;
pub mod ffms2;
pub mod vapoursynth;
pub mod y4m;
