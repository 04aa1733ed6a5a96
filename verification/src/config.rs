//! The application configuration (`config.toml`): its values and defaults,
//! where it and the logs live, and what is read or written at start-up.

use vstd::prelude::*;
use crate::text::{join_path, joined_path};

verus! {

/// Logging configuration.
pub struct LoggingConfig {
    /// "DEBUG", "INFO", "WARN" or "ERROR".
    pub level: String,
    /// Whether to also log to the console.
    pub log_to_console: bool,
}

/// The application configuration.
pub struct AppConfig {
    pub logging: LoggingConfig,
}

/// Whether console logging is on when the file does not say.
pub fn default_log_to_console() -> (r: bool)
    ensures
        r,
{
    true
}

impl Default for LoggingConfig {
    fn default() -> (r: Self)
        ensures
            r.level@ == "INFO"@,
            r.log_to_console,
    {
        LoggingConfig { level: String::from_str("INFO"), log_to_console: true }
    }
}

impl Default for AppConfig {
    fn default() -> (r: Self)
        ensures
            r.logging.level@ == "INFO"@,
            r.logging.log_to_console,
    {
        AppConfig { logging: LoggingConfig::default() }
    }
}

/// The config file in the config directory.
pub fn get_config_path(config_dir: &str, separator: char) -> (r: String)
    ensures
        r@ == joined_path(config_dir@, "config.toml"@, separator),
{
    join_path(config_dir, "config.toml", separator)
}

/// The log file of a session started at `timestamp` (`%Y%m%d_%H%M%S`).
pub fn get_log_file_path(logs_dir: &str, timestamp: &str, separator: char) -> (r: String)
    ensures
        r@ == joined_path(logs_dir@, "jira_viewer_"@ + timestamp@ + ".log"@, separator),
{
    let name = String::from_str("jira_viewer_").concat(timestamp).concat(".log");
    join_path(logs_dir, name.as_str(), separator)
}

/// The text written as the default `config.toml`.
pub fn default_config_text() -> (r: &'static str)
    ensures
        r@ == "# jira-viewer configuration\n\n[logging]\n# Log level: \"DEBUG\", \"INFO\", \"WARN\", \"ERROR\"\n# DEBUG includes raw HTTP request/response data\n# INFO shows API calls and results (recommended for normal use)\nlevel = \"INFO\"\n\n# Whether to also log to console (useful for development)\nlog_to_console = true\n"@,
{
    proof {
        reveal_strlit("# jira-viewer configuration\n\n[logging]\n# Log level: \"DEBUG\", \"INFO\", \"WARN\", \"ERROR\"\n# DEBUG includes raw HTTP request/response data\n# INFO shows API calls and results (recommended for normal use)\nlevel = \"INFO\"\n\n# Whether to also log to console (useful for development)\nlog_to_console = true\n");
    }
    "# jira-viewer configuration\n\n[logging]\n# Log level: \"DEBUG\", \"INFO\", \"WARN\", \"ERROR\"\n# DEBUG includes raw HTTP request/response data\n# INFO shows API calls and results (recommended for normal use)\nlevel = \"INFO\"\n\n# Whether to also log to console (useful for development)\nlog_to_console = true\n"
}

/// The configuration to use, given the file's parsed content if it exists
/// and parses: that content, else the defaults (and the default file is
/// to be written, which the second component says).
pub fn load_config(parsed: Option<AppConfig>) -> (r: (AppConfig, bool))
    ensures
        match parsed {
            Some(c) => r.0 == c && !r.1,
            None => r.0.logging.level@ == "INFO"@ && r.0.logging.log_to_console && r.1,
        },
{
    match parsed {
        Some(c) => (c, false),
        None => (AppConfig::default(), true),
    }
}

} // verus!
