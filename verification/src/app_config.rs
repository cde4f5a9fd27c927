//! The compact application configuration: general, connection, interface
//! and logging settings, with their defaults.  Reading these from files or
//! the environment belongs to the surrounding program.

use vstd::prelude::*;

verus! {

/// General application settings.
#[derive(Debug)]
pub struct GeneralConfig {
    /// Application name
    pub name: String,
    /// Auto-refresh interval in seconds
    pub refresh_interval: u64,
    /// Maximum number of sessions to keep in memory
    pub max_sessions: usize,
}

/// Honeypot connection settings.
#[derive(Debug)]
pub struct ConnectionConfig {
    /// Whether to enable connection
    pub enabled: bool,
    /// Connection type (ssh, direct, log, etc.)
    pub connection_type: String,
    /// Hostname or IP address
    pub host: String,
    /// Port number
    pub port: u16,
    /// Username for authentication
    pub username: String,
    /// Password or key file path
    pub auth_method: String,
    /// Connection timeout in seconds
    pub timeout: u64,
}

/// User interface settings.
#[derive(Debug)]
pub struct UiConfig {
    /// Color theme
    pub theme: String,
    /// Enable or disable animations
    pub enable_animations: bool,
    /// Default tab to show on startup
    pub default_tab: String,
    /// Date and time format
    pub datetime_format: String,
}

/// Logging settings.
#[derive(Debug)]
pub struct LoggingConfig {
    /// Log level (error, warn, info, debug, trace)
    pub level: String,
    /// Log file path
    pub file: Option<String>,
    /// Whether to log to stdout
    pub stdout: bool,
}

/// Application configuration.
#[derive(Debug)]
pub struct Config {
    /// General application settings
    pub general: GeneralConfig,
    /// Honeypot connection settings
    pub connection: ConnectionConfig,
    /// User interface settings
    pub ui: UiConfig,
    /// Logging settings
    pub logging: LoggingConfig,
}

impl Default for Config {
    /// The default configuration values.
    fn default() -> (r: Self)
        ensures
            r.general.name@ == "xKippo-tui"@,
            r.general.refresh_interval == 5,
            r.general.max_sessions == 1000,
            r.connection.enabled == false,
            r.connection.connection_type@ == "ssh"@,
            r.connection.host@ == "localhost"@,
            r.connection.port == 2222,
            r.connection.username@ == "admin"@,
            r.connection.auth_method@ == "password"@,
            r.connection.timeout == 10,
            r.ui.theme@ == "dark"@,
            r.ui.enable_animations == true,
            r.ui.default_tab@ == "dashboard"@,
            r.ui.datetime_format@ == "%Y-%m-%d %H:%M:%S"@,
            r.logging.level@ == "info"@,
            r.logging.file matches Some(f) && f@ == "xkippo.log"@,
            r.logging.stdout == true,
    {
        Config {
            general: GeneralConfig {
                name: String::from_str("xKippo-tui"),
                refresh_interval: 5,
                max_sessions: 1000,
            },
            connection: ConnectionConfig {
                enabled: false,
                connection_type: String::from_str("ssh"),
                host: String::from_str("localhost"),
                port: 2222,
                username: String::from_str("admin"),
                auth_method: String::from_str("password"),
                timeout: 10,
            },
            ui: UiConfig {
                theme: String::from_str("dark"),
                enable_animations: true,
                default_tab: String::from_str("dashboard"),
                datetime_format: String::from_str("%Y-%m-%d %H:%M:%S"),
            },
            logging: LoggingConfig {
                level: String::from_str("info"),
                file: Some(String::from_str("xkippo.log")),
                stdout: true,
            },
        }
    }
}

} // verus!
