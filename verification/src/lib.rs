//! Conversion planning for an ffmpeg front end: presets and argument lists,
//! probe classification, parallel job planning, translations and the small
//! text helpers the interfaces use.

pub mod lang;
pub mod text;
pub mod cpu;
pub mod paths;
pub mod num;
pub mod ffmpeg;
pub mod profiles;
pub mod util;
pub mod errors;
pub mod config;
pub mod storage;
pub mod ui;
pub mod order;
pub mod browse;
pub mod app;
pub mod keys;
pub mod emoji;
pub mod merge;
pub mod progress;
pub mod palette;
