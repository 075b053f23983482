//! The streaming core of CamPC: a phone camera becomes a webcam on the desktop.
pub mod text;
pub mod pixel_fmt;
pub mod config;
pub mod discovery;
pub mod adb;
pub mod engine;
pub mod outside;
pub mod ffmpeg;
pub mod reader;
pub mod v4l2;
pub mod panel;
pub mod windows;
pub mod tether;
