//! Core logic of a command-line and web tool that changes the playback speed
//! of a video and strips its audio by driving FFmpeg.

pub mod decimal;
pub mod text;
pub mod config;
pub mod paths;
pub mod ffmpeg;
pub mod clock;
pub mod cleanup;
pub mod jobs;
pub mod upload;
pub mod server;
