//! Session-reconstruction and risk-scoring pipeline for an SSH/Telnet
//! honeypot's JSON event logs: an event parser and normalizer, a stateful
//! session aggregator with timeout-based finalization, a bounded in-memory
//! store with chronological eviction, a heuristic risk scorer, and an alert
//! detector.

pub mod alert_engine;
pub mod app_config;
pub mod app_state;
pub mod errors;
pub mod enhanced_log_analyzer;
pub mod helpers;
pub mod json;
pub mod laws;
pub mod log_analyzer;
pub mod log_watcher;
pub mod models;
pub mod patterns;
pub mod plugins;
pub mod session_manager;
pub mod settings;
pub mod store;
pub mod timestamp;
pub mod text;

