//! Removal of unwanted files (such as `.DS_Store`) from a directory tree,
//! once or on a schedule.

pub mod path;
pub mod patterns;
pub mod result;
pub mod config;
pub mod filesystem;
pub mod cleaner;
pub mod monitor;
pub mod cli;

pub use path::{file_name_of, is_ignored, contains_name, path_contains_ignored_dir};
pub use patterns::{InvalidPattern, PatternMatcher};
pub use result::CleanResult;
pub use config::CleanConfig;
pub use filesystem::{classify_entry, EntryStep, FileSystem, MockFileSystem};
pub use cleaner::{CleanError, Cleaner};
pub use monitor::{Monitor, MonitorAction, MonitorEvent, MonitorState, StopReason};
pub use cli::{Cli, Commands, LogFormat};
