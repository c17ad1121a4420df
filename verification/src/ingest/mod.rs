//! Offline audio import: errors, container inspection of staged bytes, and the
//! import policy and batch rules.

pub mod error;
pub mod format;
pub mod iso;
pub mod policy;
pub mod batch;
