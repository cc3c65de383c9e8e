//! The settings that the service starts with.
use crate::secret::AttemptCountRule;
use vstd::prelude::*;

verus! {

/// Whether the service runs for development or in production.
#[derive(Clone, Copy, Debug, PartialEq, Eq, Structural)]
pub enum ReleaseMode {
    Dev,
    Prod,
}

/// The settings of the service.
#[derive(Debug, PartialEq, Eq)]
pub struct Config {
    pub api_port: u16,
    pub mongo_uri: String,
    pub release_mode: ReleaseMode,
    pub clue1_attempts: u16,
    pub clue2_attempts: u16,
    pub clue3_attempts: u16,
}

/// The port that the service listens on when none is configured.
pub fn default_api_port() -> (port: u16)
    ensures
        port == 4000,
{
    4000
}

impl ReleaseMode {
    /// The name of the log level that a mode starts with.
    pub open spec fn log_level_of(self) -> Seq<char> {
        match self {
            ReleaseMode::Dev => "debug"@,
            ReleaseMode::Prod => "info"@,
        }
    }

    /// The log level to start with when the environment names none: `debug`
    /// for development, `info` in production.
    pub fn default_log_level(&self) -> (level: &'static str)
        ensures
            level@ == self.log_level_of(),
    {
        match self {
            ReleaseMode::Dev => "debug",
            ReleaseMode::Prod => "info",
        }
    }
}

impl Config {
    /// The thresholds at which the clues are shown.
    pub fn attempt_rule(&self) -> (rule: AttemptCountRule)
        ensures
            rule.clue1_attempts == self.clue1_attempts,
            rule.clue2_attempts == self.clue2_attempts,
            rule.clue3_attempts == self.clue3_attempts,
    {
        AttemptCountRule {
            clue1_attempts: self.clue1_attempts,
            clue2_attempts: self.clue2_attempts,
            clue3_attempts: self.clue3_attempts,
        }
    }
}

} // verus!
