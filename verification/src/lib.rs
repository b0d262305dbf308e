//! A read-only file browser: request paths are resolved to filesystem entries,
//! directories are listed, files are shown, and each view is rendered as HTML.

pub mod entry;
pub mod handlers;
pub mod packages;
pub mod render;
pub mod select;
pub mod text;
pub mod ui;
