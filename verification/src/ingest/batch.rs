//! The decisions of a batch import: which selections are refused as a whole, what a
//! source file's metadata and copy must satisfy, and the per-item results.
//! Files, hashing and clocks stay with the caller.

use vstd::prelude::*;

use super::error::{code_of, message_key_of, IngestError};
use super::policy::{AudioSourceKind, ImportItemError, ImportItemStatus, ImportSelectionMode, IngestPolicy};
use crate::config::{hex_encode, hex_lower, sha256, sha256_digest};
use crate::text::{push_str, str_eq};

verus! {

/// What was validated about a staged recording; the time of validation is RFC 3339 text.
pub struct StagingMetadata {
    pub mime_type: String,
    pub byte_length: u64,
    pub duration_ms: Option<u64>,
    pub sha256: Option<String>,
    pub validated_at: String,
}

/// The opaque reference of a managed recording that providers and tasks use.
pub struct AudioArtifactRef {
    pub id: String,
    pub import_batch_id: Option<String>,
    pub source_kind: AudioSourceKind,
    pub staging_metadata: StagingMetadata,
}

/// The final result of one selected file.
pub struct ImportItemResult {
    pub selection_index: usize,
    pub status: ImportItemStatus,
    pub artifact: Option<AudioArtifactRef>,
    pub duplicate_of_artifact_id: Option<String>,
    pub error: Option<ImportItemError>,
}

/// The per-file results of one dialog selection.
pub struct ImportBatchResponse {
    pub batch_id: String,
    pub items: Vec<ImportItemResult>,
}

/// The failed result of a selected file.
pub fn failed_item(selection_index: usize, error: &IngestError) -> (r: ImportItemResult)
    ensures
        r.selection_index == selection_index,
        r.status == ImportItemStatus::Failed,
        r.artifact is None,
        r.duplicate_of_artifact_id is None,
        r.error matches Some(e) && e.code == code_of(*error) && e.safe_message_key@ == message_key_of(*error)@,
{
    ImportItemResult {
        selection_index,
        status: ImportItemStatus::Failed,
        artifact: None,
        duplicate_of_artifact_id: None,
        error: Some(ImportItemError::from_error(error)),
    }
}

/// The summed size of the files whose size could be read.
pub open spec fn known_total(sizes: Seq<Option<u64>>) -> int
    decreases sizes.len(),
{
    if sizes.len() == 0 {
        0
    } else {
        known_total(sizes.drop_last()) + match sizes.last() {
            Some(n) => n as int,
            None => 0,
        }
    }
}

/// Whether the readable files of a selection together pass the batch byte limit.
pub fn batch_total_exceeds_limit(sizes: &[Option<u64>], max_total_bytes: u64) -> (r: bool)
    ensures
        r == (known_total(sizes@) > max_total_bytes),
{
    let mut total: u64 = 0;
    let mut i: usize = 0;
    while i < sizes.len()
        invariant
            i <= sizes@.len(),
            total == known_total(sizes@.take(i as int)),
            total <= max_total_bytes,
        decreases sizes@.len() - i,
    {
        proof {
            assert(sizes@.take(i + 1).drop_last() =~= sizes@.take(i as int));
        }
        match sizes[i] {
            Some(n) => {
                if n > max_total_bytes - total {
                    proof {
                        lemma_known_total_grows(sizes@, i as int + 1);
                        assert(sizes@.take(sizes@.len() as int) =~= sizes@);
                    }
                    return true;
                }
                total = total + n;
            },
            None => {},
        }
        i = i + 1;
    }
    proof {
        assert(sizes@.take(sizes@.len() as int) =~= sizes@);
    }
    false
}

/// The known total never shrinks as more files are counted.
proof fn lemma_known_total_grows(sizes: Seq<Option<u64>>, n: int)
    requires
        0 <= n <= sizes.len(),
    ensures
        known_total(sizes.take(n)) <= known_total(sizes.take(sizes.len() as int)),
    decreases sizes.len() - n,
{
    if n < sizes.len() {
        assert(sizes.take(n + 1).drop_last() =~= sizes.take(n));
        lemma_known_total_grows(sizes, n + 1);
    }
}

/// The error that refuses a whole selection before any file is read: more files than a
/// batch may hold, several files in single mode, or readable files over the batch byte
/// limit. An empty selection is refused by nothing.
pub open spec fn selection_error(mode: ImportSelectionMode, sizes: Seq<Option<u64>>, policy: IngestPolicy) -> Option<
    IngestError,
> {
    if sizes.len() == 0 {
        None
    } else if sizes.len() > policy.max_batch_items {
        Some(IngestError::BatchLimitExceeded)
    } else if mode == ImportSelectionMode::Single && sizes.len() != 1 {
        Some(IngestError::InvalidSelection)
    } else if known_total(sizes) > policy.max_batch_total_bytes {
        Some(IngestError::BatchLimitExceeded)
    } else {
        None
    }
}

/// Checks a selection as a whole; `sizes` holds each selected file's size where it could
/// be read.
pub fn check_selection(mode: ImportSelectionMode, sizes: &[Option<u64>], policy: &IngestPolicy) -> (r: Result<
    (),
    IngestError,
>)
    ensures
        match selection_error(mode, sizes@, *policy) {
            Some(e) => r == Err::<(), IngestError>(e),
            None => r is Ok,
        },
{
    if sizes.len() == 0 {
        return Ok(());
    }
    if sizes.len() > policy.max_batch_items {
        return Err(IngestError::BatchLimitExceeded);
    }
    match mode {
        ImportSelectionMode::Single => {
            if sizes.len() != 1 {
                return Err(IngestError::InvalidSelection);
            }
        },
        ImportSelectionMode::Batch => {},
    }
    if batch_total_exceeds_limit(sizes, policy.max_batch_total_bytes) {
        return Err(IngestError::BatchLimitExceeded);
    }
    Ok(())
}

/// The results of a selection refused as a whole: every file fails with the same error.
pub fn failed_batch(batch_id: String, count: usize, error: &IngestError) -> (r: ImportBatchResponse)
    ensures
        r.batch_id@ == batch_id@,
        r.items@.len() == count,
        forall|i: int|
            0 <= i < count ==> (#[trigger] r.items@[i]).selection_index == i && r.items@[i].status
                == ImportItemStatus::Failed && r.items@[i].artifact is None && (r.items@[i].error matches Some(
                e,
            ) && e.code == code_of(*error)),
{
    let mut items: Vec<ImportItemResult> = Vec::new();
    let mut i: usize = 0;
    while i < count
        invariant
            i <= count,
            items@.len() == i,
            forall|k: int|
                0 <= k < i ==> (#[trigger] items@[k]).selection_index == k && items@[k].status
                    == ImportItemStatus::Failed && items@[k].artifact is None && (items@[k].error matches Some(
                    e,
                ) && e.code == code_of(*error)),
        decreases count - i,
    {
        items.push(failed_item(i, error));
        i = i + 1;
    }
    ImportBatchResponse { batch_id, items }
}

/// What reading a source file's metadata found.
pub enum SourceProbe {
    NotFound,
    Unreadable,
    Found { is_file: bool, byte_length: u64 },
}

/// The size of a source file that may be imported, or why it may not: missing,
/// unreadable, not a regular file, empty, or over the per-file limit.
pub fn check_source(probe: SourceProbe, max_file_bytes: u64) -> (r: Result<u64, IngestError>)
    ensures
        match probe {
            SourceProbe::NotFound => r == Err::<u64, IngestError>(IngestError::SourceNotFound),
            SourceProbe::Unreadable => r == Err::<u64, IngestError>(IngestError::SourceUnreadable),
            SourceProbe::Found { is_file, byte_length } => r == (if !is_file {
                Err(IngestError::SourceNotFile)
            } else if byte_length == 0 {
                Err(IngestError::EmptyAudio)
            } else if byte_length > max_file_bytes {
                Err(IngestError::FileTooLarge)
            } else {
                Ok(byte_length)
            }),
        },
{
    match probe {
        SourceProbe::NotFound => Err(IngestError::SourceNotFound),
        SourceProbe::Unreadable => Err(IngestError::SourceUnreadable),
        SourceProbe::Found { is_file, byte_length } => {
            if !is_file {
                Err(IngestError::SourceNotFile)
            } else if byte_length == 0 {
                Err(IngestError::EmptyAudio)
            } else if byte_length > max_file_bytes {
                Err(IngestError::FileTooLarge)
            } else {
                Ok(byte_length)
            }
        },
    }
}

/// Admits one more chunk of a copy: the new count, unless the file grew past its first
/// size or the limit while it was read.
pub fn accept_copied_chunk(copied: u64, bytes_read: u64, max_file_bytes: u64, initial_length: u64) -> (r: Result<
    u64,
    IngestError,
>)
    ensures
        copied + bytes_read > u64::MAX ==> r == Err::<u64, IngestError>(IngestError::FileTooLarge),
        copied + bytes_read <= u64::MAX ==> r == (if copied + bytes_read > max_file_bytes || copied + bytes_read
            > initial_length {
            Err(IngestError::SourceChangedDuringImport)
        } else {
            Ok((copied + bytes_read) as u64)
        }),
{
    let next = match copied.checked_add(bytes_read) {
        Some(n) => n,
        None => {
            return Err(IngestError::FileTooLarge);
        },
    };
    if next > max_file_bytes || next > initial_length {
        return Err(IngestError::SourceChangedDuringImport);
    }
    Ok(next)
}

/// Refuses a copy whose source changed while it was read: a different length read, a
/// different length now, or a changed modification time.
pub fn check_copy_complete(
    copied: u64,
    initial_length: u64,
    handle_length_after: u64,
    path_length_after: u64,
    modified_changed: bool,
) -> (r: Result<(), IngestError>)
    ensures
        r is Ok <==> copied == initial_length && handle_length_after == initial_length && path_length_after
            == initial_length && !modified_changed,
        r is Err ==> r == Err::<(), IngestError>(IngestError::SourceChangedDuringImport),
{
    if copied != initial_length || handle_length_after != initial_length || path_length_after != initial_length
        || modified_changed {
        return Err(IngestError::SourceChangedDuringImport);
    }
    Ok(())
}

/// The hidden name of a copy in progress: `.`, the artifact ID, `.part`.
pub fn part_file_name(artifact_id: &str) -> (r: String)
    ensures
        r@ == "."@ + artifact_id@ + ".part"@,
{
    let mut name = ".".to_string();
    push_str(&mut name, artifact_id);
    push_str(&mut name, ".part");
    name
}

/// The name of a staged recording: the artifact ID and the extension of its format.
pub fn staged_file_name(artifact_id: &str, extension: &str) -> (r: String)
    ensures
        r@ == artifact_id@ + "."@ + extension@,
{
    let mut name = artifact_id.to_string();
    push_str(&mut name, ".");
    push_str(&mut name, extension);
    name
}

/// The content digest of a staged recording: its SHA-256 in lower-case hexadecimal.
pub fn content_digest(bytes: &[u8]) -> (r: String)
    ensures
        r@ == hex_lower(sha256_digest(bytes@)),
{
    let digest = sha256(bytes);
    hex_encode(digest.as_slice())
}

/// The identity under which identical recordings are recognized: content digest and
/// byte length.
pub struct ArtifactKey {
    pub sha256: String,
    pub byte_length: u64,
}

/// The position of the first known recording with the same digest and length, if any.
pub fn find_duplicate(known: &Vec<ArtifactKey>, sha256: &str, byte_length: u64) -> (r: Option<usize>)
    ensures
        match r {
            Some(i) => i < known@.len() && known@[i as int].sha256@ == sha256@ && known@[i as int].byte_length
                == byte_length && forall|k: int|
                0 <= k < i ==> !(#[trigger] known@[k].sha256@ == sha256@ && known@[k].byte_length == byte_length),
            None => forall|k: int|
                0 <= k < known@.len() ==> !(#[trigger] known@[k].sha256@ == sha256@ && known@[k].byte_length
                    == byte_length),
        },
{
    let mut i: usize = 0;
    while i < known.len()
        invariant
            i <= known@.len(),
            forall|k: int|
                0 <= k < i ==> !(#[trigger] known@[k].sha256@ == sha256@ && known@[k].byte_length == byte_length),
        decreases known@.len() - i,
    {
        if known[i].byte_length == byte_length && str_eq(known[i].sha256.as_str(), sha256) {
            return Some(i);
        }
        i = i + 1;
    }
    None
}

} // verus!
