//! Import command decisions: when selection may start, how staged capacity is checked,
//! and how candidates and error keys are presented.

use vstd::prelude::*;

use super::{command_error, CommandError, CommandErrorV};
use crate::domain::PublicSettings;
use crate::ingest::batch::{ImportBatchResponse, ImportItemResult};
use crate::ingest::policy::{ImportItemStatus, IngestPolicy};
use crate::text::{copy_str, decimal, push_decimal, push_str, str_eq};

verus! {

/// A candidate of the file review list, without paths or hashes.
#[derive(Debug)]
pub struct ImportCandidate {
    pub id: String,
    pub artifact_id: Option<String>,
    pub display_name: String,
    pub mime_type: Option<String>,
    pub size_bytes: Option<u64>,
    pub duration_ms: Option<u64>,
    pub validation_status: &'static str,
    pub safe_message: Option<String>,
}

/// Staged-artifact metadata the orchestrator needs but the interface never sees.
#[derive(Debug)]
pub struct RegisteredArtifact {
    pub id: String,
    pub display_name: String,
    pub source_path: String,
    pub mime_type: String,
    pub byte_length: u64,
    pub duration_ms: Option<u64>,
}

/// Allows the file dialog only when both services are ready.
pub fn ensure_audio_selection_ready(settings: &PublicSettings) -> (r: Result<(), CommandError>)
    ensures
        r is Ok <==> (settings.transcription.ready && settings.minutes.ready),
        r matches Err(e) ==> e@ == command_error(
            "provider_configuration_required"@,
            "请先完成语音转写和会议纪要服务配置，再选择音频"@,
            false,
        ),
{
    if settings.transcription.ready && settings.minutes.ready {
        Ok(())
    } else {
        Err(
            CommandError::new(
                "provider_configuration_required",
                "请先完成语音转写和会议纪要服务配置，再选择音频",
                false,
            ),
        )
    }
}

/// Whether a list of strings holds a value.
pub open spec fn listed(list: Seq<String>, x: Seq<char>) -> bool {
    exists|i: int| 0 <= i < list.len() && #[trigger] list[i]@ == x
}

/// Marks duplicates whose artifact an active task uses as not submittable: their
/// artifact is withdrawn and a safe message explains why; other candidates stay as
/// they were.
pub fn mark_active_artifacts_unavailable(candidates: &mut Vec<ImportCandidate>, active_artifacts: &[String])
    ensures
        final(candidates)@.len() == old(candidates)@.len(),
        forall|i: int|
            0 <= i < old(candidates)@.len() ==> {
                let before = #[trigger] old(candidates)@[i];
                let after = final(candidates)@[i];
                let active = match before.artifact_id {
                    Some(a) => listed(active_artifacts@, a@),
                    None => false,
                };
                &&& after.id == before.id
                &&& after.display_name == before.display_name
                &&& after.mime_type == before.mime_type
                &&& after.size_bytes == before.size_bytes
                &&& after.duration_ms == before.duration_ms
                &&& (active ==> after.artifact_id is None && after.validation_status@ == "invalid"@
                    && after.safe_message is Some && after.safe_message->Some_0@
                    == "该音频已有进行中的任务"@)
                &&& (!active ==> after.artifact_id == before.artifact_id && after.validation_status
                    == before.validation_status && after.safe_message == before.safe_message)
            },
{
    let ghost original = candidates@;
    let mut i: usize = 0;
    while i < candidates.len()
        invariant
            0 <= i <= candidates@.len(),
            candidates@.len() == original.len(),
            forall|k: int|
                i <= k < original.len() ==> #[trigger] candidates@[k] == original[k],
            forall|k: int|
                0 <= k < i ==> {
                    let before = #[trigger] original[k];
                    let after = candidates@[k];
                    let active = match before.artifact_id {
                        Some(a) => listed(active_artifacts@, a@),
                        None => false,
                    };
                    &&& after.id == before.id
                    &&& after.display_name == before.display_name
                    &&& after.mime_type == before.mime_type
                    &&& after.size_bytes == before.size_bytes
                    &&& after.duration_ms == before.duration_ms
                    &&& (active ==> after.artifact_id is None && after.validation_status@
                        == "invalid"@ && after.safe_message is Some && after.safe_message->Some_0@
                        == "该音频已有进行中的任务"@)
                    &&& (!active ==> after.artifact_id == before.artifact_id
                        && after.validation_status == before.validation_status
                        && after.safe_message == before.safe_message)
                },
        decreases original.len() - i,
    {
        let active = match &candidates[i].artifact_id {
            Some(a) => {
                let mut j: usize = 0;
                let mut found = false;
                while j < active_artifacts.len()
                    invariant
                        0 <= j <= active_artifacts@.len(),
                        found == exists|k: int| 0 <= k < j && #[trigger] active_artifacts@[k]@ == a@,
                    decreases active_artifacts@.len() - j,
                {
                    if str_eq(active_artifacts[j].as_str(), a.as_str()) {
                        found = true;
                    }
                    j = j + 1;
                }
                found
            },
            None => false,
        };
        if active {
            let mut c = candidates.remove(i);
            c.artifact_id = None;
            c.validation_status = "invalid";
            c.safe_message = Some(copy_str("该音频已有进行中的任务"));
            proof {
                reveal_strlit("invalid");
            }
            candidates.insert(i, c);
        }
        i = i + 1;
    }
}

/// Checks, before copying, that the staged items plus the new selection stay within the
/// batch limits: the item count, then the running byte total over the staged sizes and
/// the sizes of the new files that could be read (in selection order).
pub open spec fn staging_capacity_error(
    staged: Seq<u64>,
    prospective: Seq<Option<u64>>,
    policy: IngestPolicy,
) -> Option<Seq<char>> {
    if staged.len() + prospective.len() > usize::MAX {
        Some("暂存音频数量超过限制"@)
    } else if staged.len() + prospective.len() > policy.max_batch_items {
        Some("暂存音频数量超过限制，请先提交或清空当前列表"@)
    } else if sum_u64(staged) > u64::MAX {
        Some("暂存音频总大小超过限制"@)
    } else {
        running_total_error(prospective, sum_u64(staged), policy.max_batch_total_bytes)
    }
}

/// The sum of a list of sizes.
pub open spec fn sum_u64(s: Seq<u64>) -> nat
    decreases s.len(),
{
    if s.len() == 0 {
        0
    } else {
        sum_u64(s.drop_last()) + s.last() as nat
    }
}

/// The first error of adding the readable sizes one by one to a running total.
pub open spec fn running_total_error(sizes: Seq<Option<u64>>, total: nat, max_total: u64) -> Option<
    Seq<char>,
>
    decreases sizes.len(),
{
    if sizes.len() == 0 {
        None
    } else {
        match sizes[0] {
            None => running_total_error(sizes.skip(1), total, max_total),
            Some(n) => {
                let t: nat = total + n as nat;
                if t > u64::MAX {
                    Some("暂存音频总大小超过限制"@)
                } else if t > max_total {
                    Some("暂存音频总大小超过限制，请先提交或清空当前列表"@)
                } else {
                    running_total_error(sizes.skip(1), t, max_total)
                }
            },
        }
    }
}

/// Rejects a new selection that would push the staged items past the batch limits.
pub fn validate_staging_capacity(staged: &[u64], prospective: &[Option<u64>], policy: IngestPolicy) -> (r:
    Result<(), CommandError>)
    ensures
        match staging_capacity_error(staged@, prospective@, policy) {
            Some(m) => r is Err && r->Err_0@ == command_error("batch_limit_exceeded"@, m, false),
            None => r is Ok,
        },
{
    if staged.len() > usize::MAX - prospective.len() {
        return Err(CommandError::new("batch_limit_exceeded", "暂存音频数量超过限制", false));
    }
    if staged.len() + prospective.len() > policy.max_batch_items {
        return Err(
            CommandError::new("batch_limit_exceeded", "暂存音频数量超过限制，请先提交或清空当前列表", false),
        );
    }
    let mut total: u64 = 0;
    let mut i: usize = 0;
    while i < staged.len()
        invariant
            0 <= i <= staged@.len(),
            total as nat == sum_u64(staged@.take(i as int)),
            staged@.len() + prospective@.len() <= policy.max_batch_items,
            staged@.len() + prospective@.len() <= usize::MAX,
        decreases staged@.len() - i,
    {
        proof {
            assert(staged@.take(i + 1).drop_last() =~= staged@.take(i as int));
        }
        if staged[i] > u64::MAX - total {
            proof {
                lemma_sum_prefix_le(staged@, i + 1);
                assert(staged@.take(staged@.len() as int) =~= staged@);
            }
            return Err(CommandError::new("batch_limit_exceeded", "暂存音频总大小超过限制", false));
        }
        total = total + staged[i];
        i = i + 1;
    }
    proof {
        assert(staged@.take(staged@.len() as int) =~= staged@);
        assert(prospective@.skip(0) =~= prospective@);
    }
    let mut j: usize = 0;
    while j < prospective.len()
        invariant
            0 <= j <= prospective@.len(),
            running_total_error(prospective@, sum_u64(staged@), policy.max_batch_total_bytes)
                == running_total_error(prospective@.skip(j as int), total as nat, policy.max_batch_total_bytes),
            staged@.len() + prospective@.len() <= policy.max_batch_items,
            staged@.len() + prospective@.len() <= usize::MAX,
            sum_u64(staged@) <= u64::MAX,
        decreases prospective@.len() - j,
    {
        proof {
            assert(prospective@.skip(j as int).skip(1) =~= prospective@.skip(j + 1));
            assert(prospective@.skip(j as int)[0] == prospective@[j as int]);
        }
        match prospective[j] {
            None => {},
            Some(n) => {
                if n > u64::MAX - total {
                    return Err(CommandError::new("batch_limit_exceeded", "暂存音频总大小超过限制", false));
                }
                total = total + n;
                if total > policy.max_batch_total_bytes {
                    return Err(
                        CommandError::new(
                            "batch_limit_exceeded",
                            "暂存音频总大小超过限制，请先提交或清空当前列表",
                            false,
                        ),
                    );
                }
            },
        }
        j = j + 1;
    }
    proof {
        assert(prospective@.skip(prospective@.len() as int) =~= Seq::<Option<u64>>::empty());
    }
    Ok(())
}

/// Sums grow with longer prefixes.
proof fn lemma_sum_prefix_le(s: Seq<u64>, k: int)
    requires
        0 <= k <= s.len(),
    ensures
        sum_u64(s.take(k)) <= sum_u64(s),
    decreases s.len() - k,
{
    if k < s.len() {
        lemma_sum_prefix_le(s, k + 1);
        assert(s.take(k + 1).drop_last() =~= s.take(k));
    } else {
        assert(s.take(k) =~= s);
    }
}

/// The short Chinese message of an ingest error key; paths and parser details never show.
pub open spec fn ingest_message(key: Seq<char>) -> Seq<char> {
    if key == "ingest.error.empty_audio"@ {
        "媒体文件为空"@
    } else if key == "ingest.error.file_too_large"@ {
        "媒体文件超过大小限制"@
    } else if key == "ingest.error.unsupported_extension"@ {
        "仅支持 WAV、MP3、M4A、MP4 和 MOV"@
    } else if key == "ingest.error.extension_content_mismatch"@ {
        "文件扩展名与实际媒体格式不一致"@
    } else if key == "ingest.error.corrupt_audio"@ {
        "媒体文件已损坏或结构不完整"@
    } else if key == "ingest.error.missing_audio_track"@ {
        "视频中没有可转写的音轨"@
    } else if key == "ingest.error.batch_limit_exceeded"@ {
        "批量文件数量或总大小超过限制"@
    } else if key == "ingest.error.source_changed"@ {
        "导入期间源文件发生变化，请重新选择"@
    } else {
        "媒体文件无法导入，请检查文件后重试"@
    }
}

/// Turns a stable error key into a short Chinese message.
pub fn localize_ingest_error(key: &str) -> (r: String)
    ensures
        r@ == ingest_message(key@),
{
    let m = if str_eq(key, "ingest.error.empty_audio") {
        "媒体文件为空"
    } else if str_eq(key, "ingest.error.file_too_large") {
        "媒体文件超过大小限制"
    } else if str_eq(key, "ingest.error.unsupported_extension") {
        "仅支持 WAV、MP3、M4A、MP4 和 MOV"
    } else if str_eq(key, "ingest.error.extension_content_mismatch") {
        "文件扩展名与实际媒体格式不一致"
    } else if str_eq(key, "ingest.error.corrupt_audio") {
        "媒体文件已损坏或结构不完整"
    } else if str_eq(key, "ingest.error.missing_audio_track") {
        "视频中没有可转写的音轨"
    } else if str_eq(key, "ingest.error.batch_limit_exceeded") {
        "批量文件数量或总大小超过限制"
    } else if str_eq(key, "ingest.error.source_changed") {
        "导入期间源文件发生变化，请重新选择"
    } else {
        "媒体文件无法导入，请检查文件后重试"
    };
    copy_str(m)
}

/// The identifier a review-list row gets when it has no artifact of its own: the batch
/// ID, a hyphen, and the selection index.
pub open spec fn fallback_candidate_id(batch_id: Seq<char>, index: usize) -> Seq<char> {
    batch_id + "-"@ + decimal(index as nat)
}

/// Whether `c` is the review-list row of an import result: a duplicate gets the
/// fallback ID, no artifact and the duplicate message; other results keep their
/// artifact's ID and metadata and the localized message of their error; the display
/// name is the selected name at the item's index, or a placeholder.
pub open spec fn is_candidate_of(c: ImportCandidate, batch_id: Seq<char>, names: Seq<String>, item: ImportItemResult) -> bool {
    let dup = item.status == ImportItemStatus::Duplicate;
    &&& c.id@ == (if dup {
        fallback_candidate_id(batch_id, item.selection_index)
    } else {
        match item.artifact {
            Some(a) => a.id@,
            None => fallback_candidate_id(batch_id, item.selection_index),
        }
    })
    &&& (if dup {
        c.artifact_id is None
    } else {
        match item.artifact {
            Some(a) => c.artifact_id matches Some(x) && x@ == a.id@,
            None => c.artifact_id is None,
        }
    })
    &&& c.display_name@ == (if item.selection_index < names.len() {
        names[item.selection_index as int]@
    } else {
        "未命名音频"@
    })
    &&& match item.artifact {
        Some(a) => (c.mime_type matches Some(m) && m@ == a.staging_metadata.mime_type@) && c.size_bytes == Some(
            a.staging_metadata.byte_length,
        ) && c.duration_ms == a.staging_metadata.duration_ms,
        None => c.mime_type is None && c.size_bytes is None && c.duration_ms is None,
    }
    &&& c.validation_status@ == (if item.status == ImportItemStatus::Ready {
        "ready"@
    } else {
        "invalid"@
    })
    &&& (if dup {
        c.safe_message matches Some(m) && m@ == "该音频已在待处理列表或任务中"@
    } else {
        match item.error {
            Some(e) => c.safe_message matches Some(m) && m@ == ingest_message(e.safe_message_key@),
            None => c.safe_message is None,
        }
    })
}

/// The fallback row identifier.
fn fallback_id(batch_id: &str, index: usize) -> (r: String)
    ensures
        r@ == fallback_candidate_id(batch_id@, index),
{
    let mut id = batch_id.to_string();
    push_str(&mut id, "-");
    push_decimal(&mut id, index as u64);
    id
}

/// The review-list row of one import result.
fn candidate_of(batch_id: &str, display_names: &Vec<String>, item: &ImportItemResult) -> (r: ImportCandidate)
    ensures
        is_candidate_of(r, batch_id@, display_names@, *item),
{
    let dup = item.status == ImportItemStatus::Duplicate;
    let id = if dup {
        fallback_id(batch_id, item.selection_index)
    } else {
        match &item.artifact {
            Some(a) => a.id.clone(),
            None => fallback_id(batch_id, item.selection_index),
        }
    };
    let artifact_id = if dup {
        None
    } else {
        match &item.artifact {
            Some(a) => Some(a.id.clone()),
            None => None,
        }
    };
    let display_name = if item.selection_index < display_names.len() {
        display_names[item.selection_index].clone()
    } else {
        "未命名音频".to_string()
    };
    let (mime_type, size_bytes, duration_ms) = match &item.artifact {
        Some(a) => (
            Some(a.staging_metadata.mime_type.clone()),
            Some(a.staging_metadata.byte_length),
            a.staging_metadata.duration_ms,
        ),
        None => (None, None, None),
    };
    let validation_status: &'static str = match item.status {
        ImportItemStatus::Ready => "ready",
        _ => "invalid",
    };
    let safe_message = if dup {
        Some("该音频已在待处理列表或任务中".to_string())
    } else {
        match &item.error {
            Some(e) => Some(localize_ingest_error(e.safe_message_key.as_str())),
            None => None,
        }
    };
    ImportCandidate { id, artifact_id, display_name, mime_type, size_bytes, duration_ms, validation_status, safe_message }
}

/// Maps import results to review-list rows without paths or hashes, in result order.
pub fn map_candidates(response: ImportBatchResponse, display_names: Vec<String>) -> (r: Vec<ImportCandidate>)
    ensures
        r@.len() == response.items@.len(),
        forall|i: int|
            0 <= i < r@.len() ==> is_candidate_of(
                #[trigger] r@[i],
                response.batch_id@,
                display_names@,
                response.items@[i],
            ),
{
    let mut out: Vec<ImportCandidate> = Vec::new();
    let mut i: usize = 0;
    while i < response.items.len()
        invariant
            i <= response.items@.len(),
            out@.len() == i,
            forall|k: int|
                0 <= k < i ==> is_candidate_of(#[trigger] out@[k], response.batch_id@, display_names@, response.items@[k]),
        decreases response.items@.len() - i,
    {
        let c = candidate_of(response.batch_id.as_str(), &display_names, &response.items[i]);
        out.push(c);
        i = i + 1;
    }
    out
}

} // verus!
