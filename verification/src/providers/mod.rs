//! Provider-neutral contracts: sanitized errors, capability declarations, retry and
//! replay rules, HTTP profile checks, response mappings, and redacted credentials.

pub mod error;
pub mod contract;
pub mod retry;
pub mod secret;
pub mod mock;
pub mod mapping;
pub mod http;
pub mod minutes_mapping;
pub mod volcengine;
pub mod factory;
pub mod xiaomi_mimo;
pub mod attempt;
pub mod local_funasr;
