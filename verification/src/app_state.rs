//! The application's coarse state: lifecycle phase, connection status,
//! filters and running statistics.

use vstd::prelude::*;

verus! {

/// Current application state.
#[derive(Debug, Clone, Copy, PartialEq, Eq, Structural)]
pub enum AppState {
    /// Application is starting up
    Starting,
    /// Normal operation mode
    Running,
    /// Configuration mode
    ConfigMode,
    /// Viewing session details
    SessionView,
    /// Shutting down
    ShuttingDown,
}

/// Connection status to the honeypot.
#[derive(Debug, Clone, Copy, PartialEq, Eq, Structural)]
pub enum ConnectionStatus {
    /// Not connected
    Disconnected,
    /// Currently connecting
    Connecting,
    /// Connected and monitoring
    Connected,
    /// Connection failed, with the retry count
    Failed(u8),
}

/// Application filters.
#[derive(Debug)]
pub struct AppFilters {
    /// Filter by source IP
    pub source_ip: Option<String>,
    /// Filter by username
    pub username: Option<String>,
    /// Filter by timestamp (from), milliseconds since the Unix epoch
    pub from_time: Option<i64>,
    /// Filter by timestamp (to), milliseconds since the Unix epoch
    pub to_time: Option<i64>,
    /// Filter by event type
    pub event_type: Option<String>,
    /// Search string
    pub search: Option<String>,
}

impl Default for AppFilters {
    /// No filters set.
    fn default() -> (r: Self)
        ensures
            r.source_ip is None,
            r.username is None,
            r.from_time is None,
            r.to_time is None,
            r.event_type is None,
            r.search is None,
    {
        AppFilters {
            source_ip: None,
            username: None,
            from_time: None,
            to_time: None,
            event_type: None,
            search: None,
        }
    }
}

/// Application statistics.
#[derive(Debug)]
pub struct AppStats {
    /// Total log entries processed
    pub total_log_entries: u64,
    /// Total sessions detected
    pub total_sessions: u64,
    /// Total login attempts
    pub login_attempts: u64,
    /// Successful logins
    pub successful_logins: u64,
    /// Commands executed
    pub commands_executed: u64,
    /// Files uploaded
    pub files_uploaded: u64,
    /// Unique source IPs
    pub unique_ips: Vec<String>,
    /// Unique usernames tried
    pub unique_usernames: Vec<String>,
    /// Unique passwords tried
    pub unique_passwords: Vec<String>,
}

impl Default for AppStats {
    /// All counters at zero and all sets empty.
    fn default() -> (r: Self)
        ensures
            r.total_log_entries == 0,
            r.total_sessions == 0,
            r.login_attempts == 0,
            r.successful_logins == 0,
            r.commands_executed == 0,
            r.files_uploaded == 0,
            r.unique_ips@.len() == 0,
            r.unique_usernames@.len() == 0,
            r.unique_passwords@.len() == 0,
    {
        AppStats {
            total_log_entries: 0,
            total_sessions: 0,
            login_attempts: 0,
            successful_logins: 0,
            commands_executed: 0,
            files_uploaded: 0,
            unique_ips: Vec::new(),
            unique_usernames: Vec::new(),
            unique_passwords: Vec::new(),
        }
    }
}

/// State of the connection-map widget.
#[derive(Debug)]
pub struct IpMapState {
    /// Selected IP
    pub selected_ip: Option<String>,
    /// Map scroll position
    pub scroll: (u16, u16),
}

impl Default for IpMapState {
    /// Nothing selected and the map at its origin.
    fn default() -> (r: Self)
        ensures
            r.selected_ip is None,
            r.scroll == (0u16, 0u16),
    {
        IpMapState { selected_ip: None, scroll: (0, 0) }
    }
}

} // verus!
