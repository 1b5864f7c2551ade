//! Filtering, naming and planning logic of a Canvas course-file syncer.
pub mod account;
pub mod assignment;
pub mod config;
pub mod course;
pub mod course_file;
pub mod download;
pub mod filter;
pub mod folder;
pub mod item;
pub mod json;
pub mod module;
pub mod page;
pub mod text;
pub mod util;
