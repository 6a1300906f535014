//! Core of a keyboard-driven terminal file browser: the application state
//! machine, the search index over file names, path handling and the plans
//! of file operations that the front end carries out on disk.

pub mod app_info;
pub mod draw;
pub mod filesystem;
pub mod input;
pub mod text;
