//! Verified core of a local meeting-recording assistant: audio import checks,
//! provider settings, sanitized errors, and meeting-minutes validation and rendering.

pub mod text;
pub mod minutes;
pub mod export;
pub mod domain;
pub mod config;
pub mod commands;
pub mod ingest;
pub mod providers;
pub mod endpoint;
pub mod logging;
pub mod json;
