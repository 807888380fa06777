//! Finds the build-output directories of Rust projects, estimates what they
//! occupy, classifies them by age, and drives an interactive selection and
//! cleanup of them.
//!
//! The library decides; its caller reads the file system and the terminal.
//! Paths are strings with `/` as separator, and times are seconds since the
//! Unix epoch.
pub mod cleaner;
pub mod config;
pub mod controller;
pub mod manifest;
pub mod project;
pub mod scanner;
pub mod target;
pub mod text;

pub use cleaner::{CleanupResult, DeleteOutcome, TargetCleaner};
pub use config::{Config, FileSettings};
pub use controller::{Action, AppState, Input, Status, UIMode};
pub use project::{discover_project, classify_projects, ProjectError, RustProject, MANIFEST_FILE_NAME};
pub use scanner::{is_excluded, RustProjectScanner, ScanError};
pub use target::{
    estimate_directory_size, last_used_time, SizeTally, TargetError, TargetFinder, TargetInfo,
};
