//! Import requests, resource limits and per-item results of offline audio import.

use vstd::prelude::*;

use super::error::{code_of, message_key_of, IngestError, IngestErrorCode};
use crate::text::copy_str;

verus! {

/// How the file dialog selects files; actual paths always come from the native dialog.
#[derive(Debug, Clone, Copy, PartialEq, Eq, Structural)]
pub enum ImportSelectionMode {
    Single,
    Batch,
}

/// A safe import request that accepts no arbitrary path.
#[derive(Debug, Clone, Copy, PartialEq, Eq, Structural)]
pub struct ImportRequest {
    pub selection_mode: ImportSelectionMode,
}

/// Resource limits of offline import, set by the trusted backend.
#[derive(Debug, Clone, Copy, PartialEq, Eq, Structural)]
pub struct IngestPolicy {
    pub max_file_bytes: u64,
    pub max_batch_items: usize,
    pub max_batch_total_bytes: u64,
}

/// Whether import limits are non-zero and consistent.
pub open spec fn policy_valid(max_file_bytes: u64, max_batch_items: usize, max_batch_total_bytes: u64) -> bool {
    max_file_bytes != 0 && max_batch_items != 0 && max_batch_total_bytes != 0 && max_file_bytes
        <= max_batch_total_bytes
}

impl IngestPolicy {
    /// Limits that are non-zero and internally consistent (one file never exceeds the
    /// batch total).
    pub fn new(max_file_bytes: u64, max_batch_items: usize, max_batch_total_bytes: u64) -> (r:
        Result<Self, IngestError>)
        ensures
            policy_valid(max_file_bytes, max_batch_items, max_batch_total_bytes) ==> r == Ok::<
                IngestPolicy,
                IngestError,
            >(IngestPolicy { max_file_bytes, max_batch_items, max_batch_total_bytes }),
            !policy_valid(max_file_bytes, max_batch_items, max_batch_total_bytes) ==> r == Err::<
                IngestPolicy,
                IngestError,
            >(IngestError::InvalidPolicy),
    {
        if max_file_bytes == 0 || max_batch_items == 0 || max_batch_total_bytes == 0 || max_file_bytes
            > max_batch_total_bytes {
            return Err(IngestError::InvalidPolicy);
        }
        Ok(IngestPolicy { max_file_bytes, max_batch_items, max_batch_total_bytes })
    }
}

/// Where audio comes from; only files the user picked in the dialog.
#[derive(Debug, Clone, Copy, PartialEq, Eq, Structural)]
pub enum AudioSourceKind {
    UserSelectedFile,
}

/// The final state of one selected item.
#[derive(Debug, Clone, Copy, PartialEq, Eq, Structural)]
pub enum ImportItemStatus {
    Ready,
    Duplicate,
    Failed,
}

/// An import error that is safe to show: a code and a message key, no path.
pub struct ImportItemError {
    pub code: IngestErrorCode,
    pub safe_message_key: String,
}

impl ImportItemError {
    /// The public form of an internal error.
    pub fn from_error(error: &IngestError) -> (r: Self)
        ensures
            r.code == code_of(*error),
            r.safe_message_key@ == message_key_of(*error)@,
    {
        ImportItemError { code: error.code(), safe_message_key: copy_str(error.safe_message_key()) }
    }
}

} // verus!
