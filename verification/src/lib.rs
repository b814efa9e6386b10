//! Verified core of the DJI Live Bridge: the workflow state machine, the
//! validation of streaming destinations, the FFmpeg argument plans, the
//! supervision policy for helper processes and the secret redaction that every
//! error passes through.

pub mod state;
pub mod text;
pub mod redact;
pub mod process;
pub mod error;
pub mod config;
pub mod network;
pub mod audio;
pub mod virtual_camera;
pub mod mediamtx;
pub mod live;
pub mod ffmpeg;
pub mod diagnostics;
pub mod workflow;
pub mod obs;
pub mod platform;
pub mod recording;
pub mod bonjour;
