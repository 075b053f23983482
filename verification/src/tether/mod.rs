//! CamPC tethered: the phone on a USB cable only, a picture of selectable size, and a zoom that is
//! part of the stream.
pub mod config;
pub mod engine;
pub mod ffmpeg;
pub mod outside;
