//! Changelog generation from conventional-commit history.
pub mod commit;
pub mod releases;
pub mod text;
pub mod date;
pub mod render;
pub mod changelog;
pub mod splice;
