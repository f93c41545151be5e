//! Portable, demo-ready desktop automation workflows.
pub mod accessibility;
pub mod adapter;
pub mod attempts;
pub mod bitmap;
pub mod bmp_file;
pub mod bridge;
pub mod cli;
pub mod codec;
pub mod collections;
pub mod control;
pub mod current;
pub mod definition;
pub mod describe;
pub mod elements;
pub mod evidence;
pub mod executor;
pub mod fields;
pub mod interpolate;
pub mod keys;
pub mod laws;
pub mod looking;
pub mod macos;
pub mod messages;
pub mod platform;
pub mod queries;
pub mod recorder;
pub mod resolve;
pub mod run;
pub mod schema;
pub mod selectors;
pub mod story;
pub mod text;
pub mod time;
pub mod validate;
pub mod value;
pub mod views;
pub mod waiting;
pub mod windows;
