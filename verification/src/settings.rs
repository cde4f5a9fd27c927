//! Application configuration: the settings the pipeline's components are
//! constructed from.  Loading and saving these from disk belongs to the
//! surrounding program; the library only consumes the values.

use vstd::prelude::*;

verus! {

fn default_true() -> (r: bool)
    ensures
        r == true,
{
    true
}

fn default_refresh_interval() -> (r: u64)
    ensures
        r == 250,
{
    250
}

fn default_check_interval() -> (r: u64)
    ensures
        r == 1000,
{
    1000
}

fn default_history_hours() -> (r: u32)
    ensures
        r == 24,
{
    24
}

fn default_max_sessions() -> (r: usize)
    ensures
        r == 1000,
{
    1000
}

fn default_max_logs() -> (r: usize)
    ensures
        r == 10000,
{
    10000
}

fn default_log_size() -> (r: u64)
    ensures
        r == 10,
{
    10
}

fn default_log_files() -> (r: u32)
    ensures
        r == 5,
{
    5
}

fn default_ti_update_frequency() -> (r: u32)
    ensures
        r == 24,
{
    24
}

fn default_malware_max_size() -> (r: u32)
    ensures
        r == 5,
{
    5
}

fn default_batch_size() -> (r: u32)
    ensures
        r == 100,
{
    100
}

fn default_send_interval() -> (r: u32)
    ensures
        r == 30,
{
    30
}

fn default_dashboard_refresh() -> (r: u32)
    ensures
        r == 10,
{
    10
}

fn default_min_risk_score() -> (r: u8)
    ensures
        r == 50,
{
    50
}

/// Honeypot-specific configuration.
#[derive(Debug)]
pub struct HoneypotConfig {
    /// Name of the honeypot
    pub name: String,
    /// Type of honeypot (cowrie, kippo, etc.)
    pub honeypot_type: String,
    /// Paths to log files
    pub log_paths: Option<Vec<String>>,
    /// Automatically detect log files
    pub auto_detect: bool,
    /// Path to download directory
    pub download_path: Option<String>,
    /// Path to TTY log directory
    pub tty_log_path: Option<String>,
    /// How far back to process logs on startup (in hours, 0 = from beginning)
    pub history_hours: u32,
    /// Check interval in milliseconds
    pub check_interval_ms: u64,
}

impl Default for HoneypotConfig {
    /// The default configuration values.
    fn default() -> (r: Self)
        ensures
            r.name@ == "Cowrie Honeypot"@,
            r.honeypot_type@ == "cowrie"@,
            r.log_paths is None,
            r.auto_detect == true,
            r.download_path is None,
            r.tty_log_path is None,
            r.history_hours == 24,
            r.check_interval_ms == 1000,
    {
        HoneypotConfig {
            name: String::from_str("Cowrie Honeypot"),
            honeypot_type: String::from_str("cowrie"),
            log_paths: None,
            auto_detect: default_true(),
            download_path: None,
            tty_log_path: None,
            history_hours: default_history_hours(),
            check_interval_ms: default_check_interval(),
        }
    }
}

/// User interface configuration.
#[derive(Debug)]
pub struct UIConfig {
    /// Theme name
    pub theme: String,
    /// Enable color
    pub color_enabled: bool,
    /// Enable mouse support
    pub mouse_enabled: bool,
    /// Default tab
    pub default_tab: usize,
    /// Refresh interval in milliseconds
    pub refresh_interval_ms: u64,
    /// Enable animations
    pub animations: bool,
    /// Terminal title
    pub terminal_title: String,
    /// Show border
    pub show_border: bool,
    /// Border type
    pub border_type: String,
    /// Date format
    pub date_format: String,
    /// Time format
    pub time_format: String,
    /// Show help bar
    pub show_help: bool,
    /// Show status bar
    pub show_status: bool,
}

impl Default for UIConfig {
    /// The default configuration values.
    fn default() -> (r: Self)
        ensures
            r.theme@ == "default"@,
            r.color_enabled == true,
            r.mouse_enabled == true,
            r.default_tab == 0,
            r.refresh_interval_ms == 250,
            r.animations == true,
            r.terminal_title@ == "xKippo - Honeypot Monitor"@,
            r.show_border == true,
            r.border_type@ == "rounded"@,
            r.date_format@ == "%Y-%m-%d"@,
            r.time_format@ == "%H:%M:%S"@,
            r.show_help == true,
            r.show_status == true,
    {
        UIConfig {
            theme: String::from_str("default"),
            color_enabled: default_true(),
            mouse_enabled: default_true(),
            default_tab: 0,
            refresh_interval_ms: default_refresh_interval(),
            animations: default_true(),
            terminal_title: String::from_str("xKippo - Honeypot Monitor"),
            show_border: default_true(),
            border_type: String::from_str("rounded"),
            date_format: String::from_str("%Y-%m-%d"),
            time_format: String::from_str("%H:%M:%S"),
            show_help: default_true(),
            show_status: default_true(),
        }
    }
}

/// A saved filter preset.
#[derive(Debug)]
pub struct FilterPreset {
    /// Preset name
    pub name: String,
    /// Source IP filter
    pub source_ip: Option<String>,
    /// Username filter
    pub username: Option<String>,
    /// Event type filter
    pub event_type: Option<String>,
    /// Search string
    pub search: Option<String>,
    /// Description
    pub description: Option<String>,
}

impl Default for FilterPreset {
    /// The default configuration values.
    fn default() -> (r: Self)
        ensures
            r.name@ == ""@,
            r.source_ip is None,
            r.username is None,
            r.event_type is None,
            r.search is None,
            r.description is None,
    {
        FilterPreset {
            name: String::from_str(""),
            source_ip: None,
            username: None,
            event_type: None,
            search: None,
            description: None,
        }
    }
}

/// Filtering configuration.
#[derive(Debug)]
pub struct FilterConfig {
    /// Default filter for event types
    pub default_event_types: Vec<String>,
    /// Case-sensitive search
    pub case_sensitive: bool,
    /// Filter presets
    pub presets: Vec<FilterPreset>,
    /// Maximum sessions to keep in memory
    pub max_sessions: usize,
    /// Maximum log entries to keep in memory
    pub max_logs: usize,
}

impl Default for FilterConfig {
    /// The default configuration values.
    fn default() -> (r: Self)
        ensures
            r.default_event_types@.len() == 0,
            r.case_sensitive == false,
            r.presets@.len() == 0,
            r.max_sessions == 1000,
            r.max_logs == 10000,
    {
        FilterConfig {
            default_event_types: Vec::new(),
            case_sensitive: false,
            presets: Vec::new(),
            max_sessions: default_max_sessions(),
            max_logs: default_max_logs(),
        }
    }
}

/// Logging configuration.
#[derive(Debug)]
pub struct LoggingConfig {
    /// Enable application logging
    pub enabled: bool,
    /// Log level
    pub level: String,
    /// Log file path
    pub file_path: Option<String>,
    /// Log to console
    pub console: bool,
    /// Maximum log file size (in MB)
    pub max_file_size: u64,
    /// Maximum number of log files to keep
    pub max_files: u32,
}

impl Default for LoggingConfig {
    /// The default configuration values.
    fn default() -> (r: Self)
        ensures
            r.enabled == true,
            r.level@ == "info"@,
            r.file_path is None,
            r.console == false,
            r.max_file_size == 10,
            r.max_files == 5,
    {
        LoggingConfig {
            enabled: default_true(),
            level: String::from_str("info"),
            file_path: None,
            console: false,
            max_file_size: default_log_size(),
            max_files: default_log_files(),
        }
    }
}

/// Alert configuration.
#[derive(Debug)]
pub struct AlertConfig {
    /// Enable alerts
    pub enabled: bool,
    /// Alert on successful login
    pub on_successful_login: bool,
    /// Alert on file upload
    pub on_file_upload: bool,
    /// Alert on command execution (specific command substrings)
    pub on_commands: Vec<String>,
    /// Alert on new source IP
    pub on_new_source_ip: bool,
    /// IP address blacklist
    pub ip_blacklist: Vec<String>,
    /// IP address whitelist
    pub ip_whitelist: Vec<String>,
    /// Sound alerts
    pub sound_enabled: bool,
    /// Visual alerts
    pub visual_enabled: bool,
}

impl Default for AlertConfig {
    /// The default configuration values.
    fn default() -> (r: Self)
        ensures
            r.enabled == true,
            r.on_successful_login == true,
            r.on_file_upload == true,
            r.on_commands@.len() == 0,
            r.on_new_source_ip == false,
            r.ip_blacklist@.len() == 0,
            r.ip_whitelist@.len() == 0,
            r.sound_enabled == false,
            r.visual_enabled == true,
    {
        AlertConfig {
            enabled: default_true(),
            on_successful_login: default_true(),
            on_file_upload: default_true(),
            on_commands: Vec::new(),
            on_new_source_ip: false,
            ip_blacklist: Vec::new(),
            ip_whitelist: Vec::new(),
            sound_enabled: false,
            visual_enabled: default_true(),
        }
    }
}

/// GeoIP configuration.
#[derive(Debug)]
pub struct GeoIPConfig {
    /// Enable GeoIP lookups
    pub enabled: bool,
    /// Path to GeoIP database
    pub database_path: Option<String>,
    /// Download database if missing
    pub auto_download: bool,
    /// License key for the database provider
    pub license_key: Option<String>,
}

impl Default for GeoIPConfig {
    /// The default configuration values.
    fn default() -> (r: Self)
        ensures
            r.enabled == true,
            r.database_path is None,
            r.auto_download == false,
            r.license_key is None,
    {
        GeoIPConfig {
            enabled: default_true(),
            database_path: None,
            auto_download: false,
            license_key: None,
        }
    }
}

/// Security analyst features configuration.
#[derive(Debug)]
pub struct SecurityAnalystConfig {
    /// Enable security analyst features
    pub enabled: bool,
    /// Log retention in days (0 = unlimited)
    pub log_retention: u32,
}

impl Default for SecurityAnalystConfig {
    /// The default configuration values.
    fn default() -> (r: Self)
        ensures
            r.enabled == true,
            r.log_retention == 0,
    {
        SecurityAnalystConfig {
            enabled: default_true(),
            log_retention: 0,
        }
    }
}

/// Threat intelligence configuration.
#[derive(Debug)]
pub struct ThreatIntelConfig {
    /// Enable threat intelligence
    pub enabled: bool,
    /// Auto-update frequency in hours (0 = disable)
    pub update_frequency: u32,
    /// Directory to store threat intelligence data
    pub data_dir: Option<String>,
    /// Threat intelligence feeds
    pub feeds: Vec<String>,
}

impl Default for ThreatIntelConfig {
    /// The default configuration values.
    fn default() -> (r: Self)
        ensures
            r.enabled == false,
            r.update_frequency == 24,
            r.data_dir is None,
            r.feeds@.len() == 0,
    {
        ThreatIntelConfig {
            enabled: false,
            update_frequency: default_ti_update_frequency(),
            data_dir: None,
            feeds: Vec::new(),
        }
    }
}

/// Malware analysis configuration.
#[derive(Debug)]
pub struct MalwareAnalysisConfig {
    /// Enable basic malware analysis for downloaded files
    pub enabled: bool,
    /// Maximum file size to analyze (in MB)
    pub max_file_size: u32,
    /// Save analysis reports
    pub save_reports: bool,
    /// Analysis report directory
    pub report_dir: Option<String>,
    /// Scanning service integration
    pub virustotal_enabled: bool,
    /// Scanning service key
    pub virustotal_api_key: Option<String>,
}

impl Default for MalwareAnalysisConfig {
    /// The default configuration values.
    fn default() -> (r: Self)
        ensures
            r.enabled == false,
            r.max_file_size == 5,
            r.save_reports == true,
            r.report_dir is None,
            r.virustotal_enabled == false,
            r.virustotal_api_key is None,
    {
        MalwareAnalysisConfig {
            enabled: false,
            max_file_size: default_malware_max_size(),
            save_reports: default_true(),
            report_dir: None,
            virustotal_enabled: false,
            virustotal_api_key: None,
        }
    }
}

/// SIEM integration configuration.
#[derive(Debug)]
pub struct SIEMIntegrationConfig {
    /// Enable SIEM integration
    pub enabled: bool,
    /// SIEM type (elk, splunk, graylog, custom)
    pub siem_type: String,
    /// SIEM endpoint URL
    pub siem_url: Option<String>,
    /// Authentication token (if needed)
    pub auth_token: Option<String>,
    /// Batch size for sending events
    pub batch_size: u32,
    /// Send interval in seconds
    pub send_interval: u32,
}

impl Default for SIEMIntegrationConfig {
    /// The default configuration values.
    fn default() -> (r: Self)
        ensures
            r.enabled == false,
            r.siem_type@ == "elk"@,
            r.siem_url is None,
            r.auth_token is None,
            r.batch_size == 100,
            r.send_interval == 30,
    {
        SIEMIntegrationConfig {
            enabled: false,
            siem_type: String::from_str("elk"),
            siem_url: None,
            auth_token: None,
            batch_size: default_batch_size(),
            send_interval: default_send_interval(),
        }
    }
}

/// Export configuration.
#[derive(Debug)]
pub struct ExportConfig {
    /// Enable data export
    pub enabled: bool,
    /// Available export formats
    pub formats: Vec<String>,
    /// Default export directory
    pub export_dir: Option<String>,
}

impl Default for ExportConfig {
    /// The default configuration values.
    fn default() -> (r: Self)
        ensures
            r.enabled == false,
            r.formats@.len() == 0,
            r.export_dir is None,
    {
        ExportConfig {
            enabled: false,
            formats: Vec::new(),
            export_dir: None,
        }
    }
}

/// Dashboard configuration.
#[derive(Debug)]
pub struct DashboardConfig {
    /// Dashboard layout type
    pub layout: String,
    /// Refresh interval in seconds
    pub refresh_interval: u32,
    /// Show attack map
    pub show_map: bool,
    /// Show statistics panel
    pub show_stats: bool,
    /// Show alerts panel
    pub show_alerts: bool,
    /// Show top attackers panel
    pub show_top_attackers: bool,
    /// Show command cloud
    pub show_command_cloud: bool,
}

impl Default for DashboardConfig {
    /// The default configuration values.
    fn default() -> (r: Self)
        ensures
            r.layout@ == "standard"@,
            r.refresh_interval == 10,
            r.show_map == true,
            r.show_stats == true,
            r.show_alerts == true,
            r.show_top_attackers == true,
            r.show_command_cloud == true,
    {
        DashboardConfig {
            layout: String::from_str("standard"),
            refresh_interval: default_dashboard_refresh(),
            show_map: default_true(),
            show_stats: default_true(),
            show_alerts: default_true(),
            show_top_attackers: default_true(),
            show_command_cloud: default_true(),
        }
    }
}

/// Rules configuration.
#[derive(Debug)]
pub struct RulesConfig {
    /// Directory for custom detection rules
    pub rules_dir: Option<String>,
    /// Auto-reload rules on change
    pub auto_reload: bool,
    /// Enable correlation engine
    pub enable_correlation: bool,
    /// Minimum risk score for alerts (0-100)
    pub min_risk_score: u8,
    /// Alert on new attacker IPs
    pub alert_new_ips: bool,
}

impl Default for RulesConfig {
    /// The default configuration values.
    fn default() -> (r: Self)
        ensures
            r.rules_dir is None,
            r.auto_reload == true,
            r.enable_correlation == false,
            r.min_risk_score == 50,
            r.alert_new_ips == false,
    {
        RulesConfig {
            rules_dir: None,
            auto_reload: default_true(),
            enable_correlation: false,
            min_risk_score: default_min_risk_score(),
            alert_new_ips: false,
        }
    }
}

/// Main application configuration.
#[derive(Debug)]
pub struct Config {
    /// Honeypot-specific configuration
    pub honeypot: HoneypotConfig,
    /// User interface configuration
    pub ui: UIConfig,
    /// Filtering configuration
    pub filter: FilterConfig,
    /// Logging configuration
    pub logging: LoggingConfig,
    /// Alert configuration
    pub alert: AlertConfig,
    /// GeoIP configuration
    pub geoip: GeoIPConfig,
    /// Security analyst features
    pub security_analyst: SecurityAnalystConfig,
    /// Threat intelligence features
    pub threat_intel: ThreatIntelConfig,
    /// Malware analysis features
    pub malware_analysis: MalwareAnalysisConfig,
    /// SIEM integration
    pub siem_integration: SIEMIntegrationConfig,
    /// Export configuration
    pub export: ExportConfig,
    /// Dashboard configuration
    pub dashboard: DashboardConfig,
    /// Rules configuration
    pub rules: RulesConfig,
}

impl Default for Config {
    /// The default configuration values.
    fn default() -> (r: Self)
        ensures
            r.filter.max_logs == 10000,
            r.filter.max_sessions == 1000,
            r.honeypot.history_hours == 24,
            r.alert.enabled == true,
            r.threat_intel.enabled == false,
    {
        Config {
            honeypot: HoneypotConfig::default(),
            ui: UIConfig::default(),
            filter: FilterConfig::default(),
            logging: LoggingConfig::default(),
            alert: AlertConfig::default(),
            geoip: GeoIPConfig::default(),
            security_analyst: SecurityAnalystConfig::default(),
            threat_intel: ThreatIntelConfig::default(),
            malware_analysis: MalwareAnalysisConfig::default(),
            siem_integration: SIEMIntegrationConfig::default(),
            export: ExportConfig::default(),
            dashboard: DashboardConfig::default(),
            rules: RulesConfig::default(),
        }
    }
}

} // verus!
