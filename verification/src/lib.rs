//! A non-linear video editing library: the project model (tracks and clips),
//! undo/redo history, configuration, FFmpeg command building and render
//! planning.
pub mod textutil;
pub mod numfmt;
pub mod config;
pub mod ffmpeg;
pub mod ids;
pub mod clock;
pub mod project;
pub mod history;
pub mod motion;
pub mod render;
pub mod cache;
pub mod cli;
pub mod context;
pub mod timeline;
