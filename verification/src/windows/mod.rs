//! CamPC on Windows: the same engine, with a Media Foundation virtual camera in place of the V4L2
//! loopback device and a smaller picture.
pub mod adb;
pub mod camera;
pub mod ffmpeg;
pub mod filter;
pub mod sample;
pub mod setup;
pub mod stream;
