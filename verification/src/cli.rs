//! The command-line surface: which subcommand runs, and with what
//! switches. Argument parsing itself happens outside; this module
//! holds the parsed values and the small rules about them.

use vstd::prelude::*;
use vstd::string::*;

use crate::logging::{filter_of_level, level_of_number, LogLevel};

verus! {

/// The available subcommands.
#[derive(Debug, Clone)]
pub enum Commands {
    /// Build the project.
    Build { mode: Option<String>, cargo_args: Vec<String> },
    /// Deploy the project to a remote server.
    Deploy { skip_build: bool, force: bool },
    /// Monitor the deployed application.
    Monitor { continuous: bool, lines: usize },
    /// Initialize a new configuration file.
    Init { path: String, name: Option<String>, host: Option<String> },
    /// Validate a configuration file.
    Validate { path: String },
    /// Clean build artifacts.
    Clean { cargo_args: Vec<String> },
    /// Roll the deployment back to the previous version.
    Rollback,
    /// Stream logs.
    Logs { lines: usize, follow: bool },
    /// Check deployment status.
    Status,
    /// Check whether the project needs rebuilding.
    CheckRebuild,
}

/// The parsed command line.
#[derive(Debug, Clone)]
pub struct Cli {
    /// Path to the configuration file, when given.
    pub config: Option<String>,
    /// Numeric log level selector.
    pub log_level: u8,
    /// Simulate operations without making changes.
    pub dry_run: bool,
    /// Subcommand to execute; absent means the interactive interface.
    pub command: Option<Commands>,
}

impl Cli {
    /// The log filter directive that the selected level stands for;
    /// the selector zero switches logging off entirely.
    pub fn log_filter(&self) -> (r: String)
        ensures
            self.log_level == 0 ==> r@ == "off"@,
            self.log_level != 0 ==> r@ == filter_of_level(level_of_number(self.log_level)),
    {
        if self.log_level == 0 {
            String::from_str("off")
        } else {
            String::from_str(LogLevel::from_number(self.log_level).as_filter())
        }
    }

    /// The selected log level.
    pub fn log_level(&self) -> (r: LogLevel)
        ensures
            r == level_of_number(self.log_level),
    {
        LogLevel::from_number(self.log_level)
    }

    /// Whether the interactive interface should run: no subcommand given.
    pub fn should_run_tui(&self) -> (r: bool)
        ensures
            r == (self.command is None),
    {
        self.command.is_none()
    }

    /// Reject a log level selector above the known range.
    pub fn validate(&self) -> (r: Result<(), String>)
        ensures
            r is Ok <==> self.log_level <= 5,
            r matches Err(m) ==> m@ == "Log level must be between 0 and 5"@,
    {
        if self.log_level > 5 {
            return Err(String::from_str("Log level must be between 0 and 5"));
        }
        Ok(())
    }
}

} // verus!
