//! The command line, as plain values.
use vstd::prelude::*;
use crate::config::{configured_as, CleanConfig};

verus! {

/// How log lines are written.
#[derive(Clone, Copy, Debug, PartialEq, Eq, Structural)]
pub enum LogFormat {
    Human,
    Json,
}

/// The two commands.
pub enum Commands {
    /// One cleanup pass.
    Run {
        root_dir: String,
        additional_patterns: Vec<String>,
        ignore_patterns: Vec<String>,
        dry_run: bool,
        verbose: bool,
        log_format: LogFormat,
    },
    /// Cleanup passes every `interval` seconds, for `timeout` seconds if
    /// given, else until interrupted.
    Monitor {
        root_dir: String,
        interval: u64,
        timeout: Option<u64>,
        additional_patterns: Vec<String>,
        ignore_patterns: Vec<String>,
        dry_run: bool,
        verbose: bool,
        log_format: LogFormat,
    },
}

/// A parsed command line.
pub struct Cli {
    pub command: Commands,
}

impl Commands {
    /// The configuration a command describes.
    pub fn into_config(self) -> (r: CleanConfig)
        ensures
            match self {
                Commands::Run { root_dir, additional_patterns, ignore_patterns, dry_run, .. } =>
                    configured_as(r, root_dir, additional_patterns@, ignore_patterns@, dry_run),
                Commands::Monitor { root_dir, additional_patterns, ignore_patterns, dry_run, .. } =>
                    configured_as(r, root_dir, additional_patterns@, ignore_patterns@, dry_run),
            },
    {
        match self {
            Commands::Run { root_dir, additional_patterns, ignore_patterns, dry_run, .. } =>
                CleanConfig::new(root_dir, additional_patterns, dry_run).with_ignore_patterns(ignore_patterns),
            Commands::Monitor { root_dir, additional_patterns, ignore_patterns, dry_run, .. } =>
                CleanConfig::new(root_dir, additional_patterns, dry_run).with_ignore_patterns(ignore_patterns),
        }
    }
}

} // verus!
