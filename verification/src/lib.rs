//! Core of a streaming-radio client: station lookup over redundant directory
//! mirrors and supervision of a single external playback process.

pub mod api;
pub mod audio;
pub mod station;
pub mod stream_url;
pub mod text;
