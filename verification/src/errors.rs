//! Application error types.  Each variant carries its detail as plain
//! text; the surrounding program renders foreign errors to text before
//! handing them in.

use vstd::prelude::*;

verus! {

/// Application error types.
#[derive(Debug)]
pub enum AppError {
    /// IO errors
    IoError(String),
    /// Configuration errors
    ConfigError(String),
    /// Plugin loading errors
    PluginLoadError(String),
    /// Plugin initialization errors
    PluginInitError(String, String),
    /// Plugin configuration errors
    PluginConfigError(String, String),
    /// Log parsing errors
    LogParseError(String),
    /// Database errors
    DatabaseError(String),
    /// Network errors
    NetworkError(String),
    /// UI errors
    UiError(String),
    /// Geolocation errors
    GeolocationError(String),
    /// Data validation errors
    ValidationError(String),
    /// External API errors
    ApiError(String),
    /// Other errors
    Other(String),
}

/// The rendered message of each error variant.
pub open spec fn spec_error_message(e: &AppError) -> Seq<char> {
    match e {
        AppError::IoError(d) => "IO Error: "@ + d@,
        AppError::ConfigError(d) => "Configuration Error: "@ + d@,
        AppError::PluginLoadError(d) => "Plugin Loading Error: "@ + d@,
        AppError::PluginInitError(p, d) => "Plugin '"@ + p@ + "' Initialization Error: "@ + d@,
        AppError::PluginConfigError(p, d) => "Plugin '"@ + p@ + "' Configuration Error: "@
            + d@,
        AppError::LogParseError(d) => "Log Parsing Error: "@ + d@,
        AppError::DatabaseError(d) => "Database Error: "@ + d@,
        AppError::NetworkError(d) => "Network Error: "@ + d@,
        AppError::UiError(d) => "UI Error: "@ + d@,
        AppError::GeolocationError(d) => "Geolocation Error: "@ + d@,
        AppError::ValidationError(d) => "Data Validation Error: "@ + d@,
        AppError::ApiError(d) => "API Error: "@ + d@,
        AppError::Other(d) => "Error: "@ + d@,
    }
}

impl AppError {
    /// Render the error as a human-readable message.
    pub fn message(&self) -> (r: String)
        ensures
            r@ == spec_error_message(self),
    {
        match self {
            AppError::IoError(d) => prefixed("IO Error: ", d),
            AppError::ConfigError(d) => prefixed("Configuration Error: ", d),
            AppError::PluginLoadError(d) => prefixed("Plugin Loading Error: ", d),
            AppError::PluginInitError(p, d) => {
                let mut m = String::from_str("Plugin '");
                m.append(p.as_str());
                m.append("' Initialization Error: ");
                m.append(d.as_str());
                m
            },
            AppError::PluginConfigError(p, d) => {
                let mut m = String::from_str("Plugin '");
                m.append(p.as_str());
                m.append("' Configuration Error: ");
                m.append(d.as_str());
                m
            },
            AppError::LogParseError(d) => prefixed("Log Parsing Error: ", d),
            AppError::DatabaseError(d) => prefixed("Database Error: ", d),
            AppError::NetworkError(d) => prefixed("Network Error: ", d),
            AppError::UiError(d) => prefixed("UI Error: ", d),
            AppError::GeolocationError(d) => prefixed("Geolocation Error: ", d),
            AppError::ValidationError(d) => prefixed("Data Validation Error: ", d),
            AppError::ApiError(d) => prefixed("API Error: ", d),
            AppError::Other(d) => prefixed("Error: ", d),
        }
    }
}

/// A message built from a fixed prefix and a detail text.
fn prefixed(prefix: &str, detail: &String) -> (r: String)
    ensures
        r@ == prefix@ + detail@,
{
    let mut m = String::from_str(prefix);
    m.append(detail.as_str());
    m
}

} // verus!
