//! Item semantics of minutes: low-confidence-only evidence, explicit decision markers,
//! owners and due dates that must appear verbatim in their evidence.

use vstd::prelude::*;

use super::dates::{explicit_due_date, normalize_explicit_due_date};
use super::error::{semantic_violation, MinutesError};
use super::evidence::{find_segment, segment_with_id};
use super::model::{opt_view, strs_view, ActionItem, ActionItemV, StatementV, SupportedStatement};
use super::normalize::{views, ViewEq};
use super::transcript::{SegmentV, Transcript, TranscriptSegment, TranscriptV};
use crate::text::{
    contains, lowercase, starts_with, str_contains, str_eq, to_lowercase, trim, trim_str,
};

verus! {

/// Whether a looked-up segment has a confidence below the threshold.
pub open spec fn segment_is_low(s: Option<SegmentV>, threshold: u64) -> bool {
    match s {
        Some(seg) => match seg.confidence_bits {
            Some(c) => c < threshold,
            None => false,
        },
        None => false,
    }
}

/// Whether a fact rests only on segments below the low-confidence threshold.
pub open spec fn low_confidence_only(
    ids: Seq<Seq<char>>,
    segs: Seq<SegmentV>,
    threshold: Option<u64>,
) -> bool {
    match threshold {
        None => false,
        Some(th) => ids.len() > 0 && forall|i: int|
            0 <= i < ids.len() ==> segment_is_low(segment_with_id(segs, #[trigger] ids[i]), th),
    }
}

/// Whether the evidence (or, without evidence, the whole transcript text) contains a
/// value verbatim.
pub open spec fn evidence_contains(ids: Seq<Seq<char>>, needle: Seq<char>, t: TranscriptV) -> bool {
    if ids.len() == 0 {
        contains(t.text, needle)
    } else {
        exists|i: int|
            0 <= i < ids.len() && match segment_with_id(t.segments, #[trigger] ids[i]) {
                Some(s) => contains(s.text, needle),
                None => false,
            }
    }
}

/// Whether a text, lower-cased, holds an explicit confirmation marker.
pub open spec fn has_confirmation_marker(text: Seq<char>) -> bool {
    let l = lowercase(text);
    ||| contains(l, "决定"@)
    ||| contains(l, "确认"@)
    ||| contains(l, "通过"@)
    ||| contains(l, "同意"@)
    ||| contains(l, "拍板"@)
    ||| contains(l, "agreed"@)
    ||| contains(l, "decided"@)
    ||| contains(l, "approved"@)
    ||| contains(l, "confirmed"@)
}

/// Whether the evidence (or the whole text without evidence) holds a confirmation marker.
pub open spec fn evidence_confirms(ids: Seq<Seq<char>>, t: TranscriptV) -> bool {
    if ids.len() == 0 {
        has_confirmation_marker(t.text)
    } else {
        exists|i: int|
            0 <= i < ids.len() && match segment_with_id(t.segments, #[trigger] ids[i]) {
                Some(s) => has_confirmation_marker(s.text),
                None => false,
            }
    }
}

/// Whether an owner is a pronoun or an anonymous speaker label rather than a name.
pub open spec fn forbidden_owner(owner: Seq<char>) -> bool {
    let n = lowercase(trim(owner));
    ||| n == "我"@
    ||| n == "我们"@
    ||| n == "他"@
    ||| n == "她"@
    ||| n == "他们"@
    ||| n == "她们"@
    ||| n == "这边"@
    ||| n == "那边"@
    ||| n == "i"@
    ||| n == "we"@
    ||| n == "he"@
    ||| n == "she"@
    ||| n == "they"@
    ||| n == "us"@
    ||| starts_with(n, "speaker "@)
    ||| starts_with(n, "speaker_"@)
    ||| starts_with(n, "说话人"@)
}

/// Whether an action item's owner is acceptable: absent, or a name found in the evidence.
pub open spec fn owner_supported(a: ActionItemV, t: TranscriptV) -> bool {
    match a.owner {
        None => true,
        Some(o) => !forbidden_owner(o) && evidence_contains(a.evidence, o, t),
    }
}

/// Whether an action item's due-date text is acceptable: absent, or found in the evidence.
pub open spec fn due_text_supported(a: ActionItemV, t: TranscriptV) -> bool {
    match a.due_date_text {
        None => true,
        Some(d) => evidence_contains(a.evidence, d, t),
    }
}

/// The normalized due date of an optional due-date text.
pub open spec fn due_date_of(due_text: Option<Seq<char>>) -> Option<Seq<char>> {
    match due_text {
        Some(d) => explicit_due_date(d),
        None => None,
    }
}

/// A kept model action item with unsupported owner and due-date text removed and the
/// due date computed from the remaining text.
pub open spec fn sanitized_action(a: ActionItemV, t: TranscriptV) -> ActionItemV {
    let due_text = if due_text_supported(a, t) {
        a.due_date_text
    } else {
        None
    };
    ActionItemV {
        owner: if owner_supported(a, t) {
            a.owner
        } else {
            None
        },
        due_date_text: due_text,
        due_date: due_date_of(due_text),
        ..a
    }
}

/// Model conclusions that do not rest only on low-confidence segments.
pub open spec fn kept_conclusions(items: Seq<StatementV>, t: TranscriptV, threshold: Option<u64>) -> Seq<
    StatementV,
>
    decreases items.len(),
{
    if items.len() == 0 {
        seq![]
    } else {
        let p = kept_conclusions(items.drop_last(), t, threshold);
        if low_confidence_only(items.last().evidence, t.segments, threshold) {
            p
        } else {
            p.push(items.last())
        }
    }
}

/// Model decisions that are confirmed and do not rest only on low-confidence segments.
pub open spec fn kept_decisions(items: Seq<StatementV>, t: TranscriptV, threshold: Option<u64>) -> Seq<
    StatementV,
>
    decreases items.len(),
{
    if items.len() == 0 {
        seq![]
    } else {
        let p = kept_decisions(items.drop_last(), t, threshold);
        let s = items.last();
        if !low_confidence_only(s.evidence, t.segments, threshold) && evidence_confirms(
            s.evidence,
            t,
        ) {
            p.push(s)
        } else {
            p
        }
    }
}

/// Model action items that do not rest only on low-confidence segments, sanitized.
pub open spec fn kept_actions(items: Seq<ActionItemV>, t: TranscriptV, threshold: Option<u64>) -> Seq<
    ActionItemV,
>
    decreases items.len(),
{
    if items.len() == 0 {
        seq![]
    } else {
        let p = kept_actions(items.drop_last(), t, threshold);
        let a = items.last();
        if low_confidence_only(a.evidence, t.segments, threshold) {
            p
        } else {
            p.push(sanitized_action(a, t))
        }
    }
}

/// The first semantic error among persisted statements of one kind; decisions must
/// also be confirmed.
pub open spec fn statements_semantic_error(
    items: Seq<StatementV>,
    t: TranscriptV,
    threshold: Option<u64>,
    decisions: bool,
) -> Option<MinutesError>
    decreases items.len(),
{
    if items.len() == 0 {
        None
    } else {
        match statements_semantic_error(items.drop_last(), t, threshold, decisions) {
            Some(e) => Some(e),
            None => {
                let s = items.last();
                if low_confidence_only(s.evidence, t.segments, threshold) {
                    Some(
                        semantic_violation(
                            "low_confidence_only_evidence",
                            if decisions {
                                "/decisions/evidenceSegmentIds"
                            } else {
                                "/conclusions/evidenceSegmentIds"
                            },
                        ),
                    )
                } else if decisions && !evidence_confirms(s.evidence, t) {
                    Some(semantic_violation("decision_not_explicit", "/decisions"))
                } else {
                    None
                }
            },
        }
    }
}

/// The semantic error of one persisted action item, if any.
pub open spec fn action_semantic_error(a: ActionItemV, t: TranscriptV, threshold: Option<u64>) -> Option<
    MinutesError,
> {
    if low_confidence_only(a.evidence, t.segments, threshold) {
        Some(semantic_violation("low_confidence_only_evidence", "/actionItems/evidenceSegmentIds"))
    } else if !owner_supported(a, t) {
        Some(semantic_violation("inferred_owner_rejected", "/actionItems/owner"))
    } else if !due_text_supported(a, t) {
        Some(semantic_violation("inferred_due_date_rejected", "/actionItems/dueDateText"))
    } else if a.due_date != due_date_of(a.due_date_text) {
        Some(semantic_violation("ambiguous_due_date", "/actionItems/dueDate"))
    } else {
        None
    }
}

/// The first semantic error among persisted action items.
pub open spec fn actions_semantic_error(
    items: Seq<ActionItemV>,
    t: TranscriptV,
    threshold: Option<u64>,
) -> Option<MinutesError>
    decreases items.len(),
{
    if items.len() == 0 {
        None
    } else {
        match actions_semantic_error(items.drop_last(), t, threshold) {
            Some(e) => Some(e),
            None => action_semantic_error(items.last(), t, threshold),
        }
    }
}

/// Whether every evidence segment is below the threshold.
pub fn is_low_confidence_only(
    ids: &Vec<String>,
    segs: &Vec<TranscriptSegment>,
    threshold: Option<u64>,
) -> (r: bool)
    ensures
        r == low_confidence_only(
            strs_view(*ids),
            segs@.map_values(|s: TranscriptSegment| s@),
            threshold,
        ),
{
    let ghost sv = segs@.map_values(|s: TranscriptSegment| s@);
    let ghost iv = strs_view(*ids);
    let th = match threshold {
        None => {
            return false;
        },
        Some(th) => th,
    };
    if ids.len() == 0 {
        return false;
    }
    let mut i: usize = 0;
    while i < ids.len()
        invariant
            0 <= i <= ids@.len(),
            iv == strs_view(*ids),
            iv.len() == ids@.len(),
            sv == segs@.map_values(|s: TranscriptSegment| s@),
            forall|k: int| 0 <= k < i ==> segment_is_low(segment_with_id(sv, #[trigger] iv[k]), th),
            threshold == Some(th),
            ids@.len() > 0,
        decreases ids@.len() - i,
    {
        let low = match find_segment(segs, ids[i].as_str()) {
            Some(seg) => match seg.confidence_bits {
                Some(c) => c < th,
                None => false,
            },
            None => false,
        };
        if !low {
            proof {
                assert(!segment_is_low(segment_with_id(sv, iv[i as int]), th));
            }
            return false;
        }
        i = i + 1;
    }
    true
}

/// Whether the evidence (or the whole text without evidence) contains a value verbatim.
pub fn evidence_contains_text(ids: &Vec<String>, needle: &str, transcript: &Transcript) -> (r: bool)
    ensures
        r == evidence_contains(strs_view(*ids), needle@, transcript@),
{
    let ghost iv = strs_view(*ids);
    let ghost tv = transcript@;
    if ids.len() == 0 {
        return str_contains(transcript.text.as_str(), needle);
    }
    let mut i: usize = 0;
    while i < ids.len()
        invariant
            0 <= i <= ids@.len(),
            iv == strs_view(*ids),
            iv.len() == ids@.len(),
            tv == transcript@,
            forall|k: int|
                0 <= k < i ==> !(match segment_with_id(tv.segments, #[trigger] iv[k]) {
                    Some(s) => contains(s.text, needle@),
                    None => false,
                }),
        decreases ids@.len() - i,
    {
        let found = match find_segment(&transcript.segments, ids[i].as_str()) {
            Some(seg) => str_contains(seg.text.as_str(), needle),
            None => false,
        };
        if found {
            proof {
                assert(match segment_with_id(tv.segments, iv[i as int]) {
                    Some(s) => contains(s.text, needle@),
                    None => false,
                });
            }
            return true;
        }
        i = i + 1;
    }
    false
}

/// Whether a text, lower-cased, holds an explicit confirmation marker.
pub fn contains_confirmation_marker(text: &str) -> (r: bool)
    ensures
        r == has_confirmation_marker(text@),
{
    let l = to_lowercase(text);
    let s = l.as_str();
    str_contains(s, "决定") || str_contains(s, "确认") || str_contains(s, "通过") || str_contains(
        s,
        "同意",
    ) || str_contains(s, "拍板") || str_contains(s, "agreed") || str_contains(s, "decided")
        || str_contains(s, "approved") || str_contains(s, "confirmed")
}

/// Whether the evidence (or the whole text without evidence) holds a confirmation marker.
pub fn evidence_has_confirmation(ids: &Vec<String>, transcript: &Transcript) -> (r: bool)
    ensures
        r == evidence_confirms(strs_view(*ids), transcript@),
{
    let ghost iv = strs_view(*ids);
    let ghost tv = transcript@;
    if ids.len() == 0 {
        return contains_confirmation_marker(transcript.text.as_str());
    }
    let mut i: usize = 0;
    while i < ids.len()
        invariant
            0 <= i <= ids@.len(),
            iv == strs_view(*ids),
            iv.len() == ids@.len(),
            tv == transcript@,
            forall|k: int|
                0 <= k < i ==> !(match segment_with_id(tv.segments, #[trigger] iv[k]) {
                    Some(s) => has_confirmation_marker(s.text),
                    None => false,
                }),
        decreases ids@.len() - i,
    {
        let found = match find_segment(&transcript.segments, ids[i].as_str()) {
            Some(seg) => contains_confirmation_marker(seg.text.as_str()),
            None => false,
        };
        if found {
            proof {
                assert(match segment_with_id(tv.segments, iv[i as int]) {
                    Some(s) => has_confirmation_marker(s.text),
                    None => false,
                });
            }
            return true;
        }
        i = i + 1;
    }
    false
}

/// Whether an owner is a pronoun or an anonymous speaker label.
pub fn is_forbidden_owner(owner: &str) -> (r: bool)
    ensures
        r == forbidden_owner(owner@),
{
    let t = trim_str(owner);
    let l = to_lowercase(t.as_str());
    let n = l.as_str();
    let lv = crate::text::chars_of(n);
    let p1 = crate::text::chars_of("speaker ");
    let p2 = crate::text::chars_of("speaker_");
    let p3 = crate::text::chars_of("说话人");
    str_eq(n, "我") || str_eq(n, "我们") || str_eq(n, "他") || str_eq(n, "她") || str_eq(n, "他们")
        || str_eq(n, "她们") || str_eq(n, "这边") || str_eq(n, "那边") || str_eq(n, "i") || str_eq(
        n,
        "we",
    ) || str_eq(n, "he") || str_eq(n, "she") || str_eq(n, "they") || str_eq(n, "us")
        || crate::text::starts_with_chars(lv.as_slice(), p1.as_slice())
        || crate::text::starts_with_chars(lv.as_slice(), p2.as_slice())
        || crate::text::starts_with_chars(lv.as_slice(), p3.as_slice())
}

/// Whether an action item's owner is absent or a name found in its evidence.
fn action_owner_supported(a: &ActionItem, transcript: &Transcript) -> (r: bool)
    ensures
        r == owner_supported(a@, transcript@),
{
    match &a.owner {
        None => true,
        Some(o) => !is_forbidden_owner(o.as_str()) && evidence_contains_text(
            &a.evidence_segment_ids,
            o.as_str(),
            transcript,
        ),
    }
}

/// Whether an action item's due-date text is absent or found in its evidence.
fn action_due_text_supported(a: &ActionItem, transcript: &Transcript) -> (r: bool)
    ensures
        r == due_text_supported(a@, transcript@),
{
    match &a.due_date_text {
        None => true,
        Some(d) => evidence_contains_text(&a.evidence_segment_ids, d.as_str(), transcript),
    }
}

/// The normalized due date of an optional due-date text.
fn due_date_for(due_text: &Option<String>) -> (r: Option<String>)
    ensures
        opt_view(r) == due_date_of(opt_view(*due_text)),
{
    match due_text {
        Some(d) => normalize_explicit_due_date(d.as_str()),
        None => None,
    }
}

/// Keeps the model conclusions that do not rest only on low-confidence segments.
pub fn keep_conclusions(
    items: &Vec<SupportedStatement>,
    transcript: &Transcript,
    threshold: Option<u64>,
) -> (r: Vec<SupportedStatement>)
    ensures
        views(r@) == kept_conclusions(views(items@), transcript@, threshold),
{
    let ghost sv = views(items@);
    let mut out: Vec<SupportedStatement> = Vec::new();
    proof {
        assert(sv.take(0) =~= Seq::<StatementV>::empty());
        assert(views(out@) =~= Seq::<StatementV>::empty());
    }
    let mut i: usize = 0;
    while i < items.len()
        invariant
            0 <= i <= items@.len(),
            sv == views(items@),
            sv.len() == items@.len(),
            views(out@) == kept_conclusions(sv.take(i as int), transcript@, threshold),
        decreases items@.len() - i,
    {
        let low = is_low_confidence_only(
            &items[i].evidence_segment_ids,
            &transcript.segments,
            threshold,
        );
        proof {
            let tk = sv.take(i + 1);
            assert(tk.drop_last() =~= sv.take(i as int));
            assert(tk.last() == items@[i as int]@);
        }
        if !low {
            let ghost before = views(out@);
            out.push(items[i].duplicate());
            proof {
                assert(views(out@) =~= before.push(items@[i as int]@));
            }
        }
        i = i + 1;
    }
    proof {
        assert(sv.take(sv.len() as int) =~= sv);
    }
    out
}

/// Keeps the confirmed model decisions that do not rest only on low-confidence segments.
pub fn keep_decisions(
    items: &Vec<SupportedStatement>,
    transcript: &Transcript,
    threshold: Option<u64>,
) -> (r: Vec<SupportedStatement>)
    ensures
        views(r@) == kept_decisions(views(items@), transcript@, threshold),
{
    let ghost sv = views(items@);
    let mut out: Vec<SupportedStatement> = Vec::new();
    proof {
        assert(sv.take(0) =~= Seq::<StatementV>::empty());
        assert(views(out@) =~= Seq::<StatementV>::empty());
    }
    let mut i: usize = 0;
    while i < items.len()
        invariant
            0 <= i <= items@.len(),
            sv == views(items@),
            sv.len() == items@.len(),
            views(out@) == kept_decisions(sv.take(i as int), transcript@, threshold),
        decreases items@.len() - i,
    {
        let keep = !is_low_confidence_only(
            &items[i].evidence_segment_ids,
            &transcript.segments,
            threshold,
        ) && evidence_has_confirmation(&items[i].evidence_segment_ids, transcript);
        proof {
            let tk = sv.take(i + 1);
            assert(tk.drop_last() =~= sv.take(i as int));
            assert(tk.last() == items@[i as int]@);
        }
        if keep {
            let ghost before = views(out@);
            out.push(items[i].duplicate());
            proof {
                assert(views(out@) =~= before.push(items@[i as int]@));
            }
        }
        i = i + 1;
    }
    proof {
        assert(sv.take(sv.len() as int) =~= sv);
    }
    out
}

/// Keeps the model action items that do not rest only on low-confidence segments,
/// clearing unsupported owners and due-date texts and recomputing due dates.
pub fn keep_actions(items: &Vec<ActionItem>, transcript: &Transcript, threshold: Option<u64>) -> (r:
    Vec<ActionItem>)
    ensures
        views(r@) == kept_actions(views(items@), transcript@, threshold),
{
    let ghost sv = views(items@);
    let mut out: Vec<ActionItem> = Vec::new();
    proof {
        assert(sv.take(0) =~= Seq::<ActionItemV>::empty());
        assert(views(out@) =~= Seq::<ActionItemV>::empty());
    }
    let mut i: usize = 0;
    while i < items.len()
        invariant
            0 <= i <= items@.len(),
            sv == views(items@),
            sv.len() == items@.len(),
            views(out@) == kept_actions(sv.take(i as int), transcript@, threshold),
        decreases items@.len() - i,
    {
        let item = &items[i];
        let low = is_low_confidence_only(&item.evidence_segment_ids, &transcript.segments, threshold);
        proof {
            let tk = sv.take(i + 1);
            assert(tk.drop_last() =~= sv.take(i as int));
            assert(tk.last() == items@[i as int]@);
        }
        if !low {
            let mut c = item.duplicate();
            if !action_owner_supported(item, transcript) {
                c.owner = None;
            }
            if !action_due_text_supported(item, transcript) {
                c.due_date_text = None;
            }
            c.due_date = due_date_for(&c.due_date_text);
            let ghost before = views(out@);
            out.push(c);
            proof {
                assert(c@ == sanitized_action(items@[i as int]@, transcript@));
                assert(views(out@) =~= before.push(c@));
            }
        }
        i = i + 1;
    }
    proof {
        assert(sv.take(sv.len() as int) =~= sv);
    }
    out
}

/// Checks the semantics of persisted statements; the first error wins.
pub fn check_statements(
    items: &Vec<SupportedStatement>,
    transcript: &Transcript,
    threshold: Option<u64>,
    decisions: bool,
) -> (r: Result<(), MinutesError>)
    ensures
        match statements_semantic_error(views(items@), transcript@, threshold, decisions) {
            Some(e) => r == Err::<(), MinutesError>(e),
            None => r is Ok,
        },
{
    let ghost sv = views(items@);
    let mut i: usize = 0;
    while i < items.len()
        invariant
            0 <= i <= items@.len(),
            sv == views(items@),
            sv.len() == items@.len(),
            statements_semantic_error(sv.take(i as int), transcript@, threshold, decisions) is None,
        decreases items@.len() - i,
    {
        proof {
            let tk = sv.take(i + 1);
            assert(tk.drop_last() =~= sv.take(i as int));
            assert(tk.last() == items@[i as int]@);
        }
        if is_low_confidence_only(&items[i].evidence_segment_ids, &transcript.segments, threshold) {
            let e = if decisions {
                MinutesError::SemanticViolation {
                    code: "low_confidence_only_evidence",
                    path: "/decisions/evidenceSegmentIds",
                }
            } else {
                MinutesError::SemanticViolation {
                    code: "low_confidence_only_evidence",
                    path: "/conclusions/evidenceSegmentIds",
                }
            };
            proof {
                lemma_statements_error_persists(sv, transcript@, threshold, decisions, i + 1, sv.len() as int);
                assert(sv.take(sv.len() as int) =~= sv);
            }
            return Err(e);
        }
        if decisions && !evidence_has_confirmation(&items[i].evidence_segment_ids, transcript) {
            proof {
                lemma_statements_error_persists(sv, transcript@, threshold, decisions, i + 1, sv.len() as int);
                assert(sv.take(sv.len() as int) =~= sv);
            }
            return Err(MinutesError::SemanticViolation { code: "decision_not_explicit", path: "/decisions" });
        }
        i = i + 1;
    }
    proof {
        assert(sv.take(sv.len() as int) =~= sv);
    }
    Ok(())
}

/// Once a statement prefix has a semantic error, longer prefixes report the same one.
pub proof fn lemma_statements_error_persists(
    items: Seq<StatementV>,
    t: TranscriptV,
    threshold: Option<u64>,
    decisions: bool,
    m: int,
    n: int,
)
    requires
        0 <= m <= n <= items.len(),
        statements_semantic_error(items.take(m), t, threshold, decisions) is Some,
    ensures
        statements_semantic_error(items.take(n), t, threshold, decisions)
            == statements_semantic_error(items.take(m), t, threshold, decisions),
    decreases n - m,
{
    if n > m {
        lemma_statements_error_persists(items, t, threshold, decisions, m, n - 1);
        assert(items.take(n).drop_last() =~= items.take(n - 1));
    }
}

/// Once an action prefix has a semantic error, longer prefixes report the same one.
pub proof fn lemma_actions_error_persists(
    items: Seq<ActionItemV>,
    t: TranscriptV,
    threshold: Option<u64>,
    m: int,
    n: int,
)
    requires
        0 <= m <= n <= items.len(),
        actions_semantic_error(items.take(m), t, threshold) is Some,
    ensures
        actions_semantic_error(items.take(n), t, threshold) == actions_semantic_error(
            items.take(m),
            t,
            threshold,
        ),
    decreases n - m,
{
    if n > m {
        lemma_actions_error_persists(items, t, threshold, m, n - 1);
        assert(items.take(n).drop_last() =~= items.take(n - 1));
    }
}

/// Checks the semantics of persisted action items; the first error wins.
pub fn check_actions(items: &Vec<ActionItem>, transcript: &Transcript, threshold: Option<u64>) -> (r:
    Result<(), MinutesError>)
    ensures
        match actions_semantic_error(views(items@), transcript@, threshold) {
            Some(e) => r == Err::<(), MinutesError>(e),
            None => r is Ok,
        },
{
    let ghost sv = views(items@);
    let mut i: usize = 0;
    while i < items.len()
        invariant
            0 <= i <= items@.len(),
            sv == views(items@),
            sv.len() == items@.len(),
            actions_semantic_error(sv.take(i as int), transcript@, threshold) is None,
        decreases items@.len() - i,
    {
        let item = &items[i];
        proof {
            let tk = sv.take(i + 1);
            assert(tk.drop_last() =~= sv.take(i as int));
            assert(tk.last() == items@[i as int]@);
        }
        let err = if is_low_confidence_only(&item.evidence_segment_ids, &transcript.segments, threshold) {
            Some(
                MinutesError::SemanticViolation {
                    code: "low_confidence_only_evidence",
                    path: "/actionItems/evidenceSegmentIds",
                },
            )
        } else if !action_owner_supported(item, transcript) {
            Some(MinutesError::SemanticViolation { code: "inferred_owner_rejected", path: "/actionItems/owner" })
        } else if !action_due_text_supported(item, transcript) {
            Some(
                MinutesError::SemanticViolation {
                    code: "inferred_due_date_rejected",
                    path: "/actionItems/dueDateText",
                },
            )
        } else {
            let normalized = due_date_for(&item.due_date_text);
            if !super::normalize::opt_str_eq(&item.due_date, &normalized) {
                Some(MinutesError::SemanticViolation { code: "ambiguous_due_date", path: "/actionItems/dueDate" })
            } else {
                None
            }
        };
        match err {
            Some(e) => {
                proof {
                    lemma_actions_error_persists(sv, transcript@, threshold, i + 1, sv.len() as int);
                    assert(sv.take(sv.len() as int) =~= sv);
                }
                return Err(e);
            },
            None => {},
        }
        i = i + 1;
    }
    proof {
        assert(sv.take(sv.len() as int) =~= sv);
    }
    Ok(())
}

/// An action item whose due date is the one computed from its own due-date text and
/// whose owner, if any, is not a pronoun or speaker label.
pub open spec fn action_sanitized(a: ActionItemV) -> bool {
    &&& a.due_date == due_date_of(a.due_date_text)
    &&& (a.owner matches Some(o) ==> !forbidden_owner(o))
}

/// Every kept model action item is sanitized.
pub proof fn lemma_kept_actions_sanitized(items: Seq<ActionItemV>, t: TranscriptV, threshold: Option<u64>)
    ensures
        forall|k: int|
            0 <= k < kept_actions(items, t, threshold).len() ==> action_sanitized(
                #[trigger] kept_actions(items, t, threshold)[k],
            ),
    decreases items.len(),
{
    if items.len() > 0 {
        lemma_kept_actions_sanitized(items.drop_last(), t, threshold);
        let prev = kept_actions(items.drop_last(), t, threshold);
        let a = items.last();
        let s = sanitized_action(a, t);
        assert(action_sanitized(s));
        if !low_confidence_only(a.evidence, t.segments, threshold) {
            assert(kept_actions(items, t, threshold) == prev.push(s));
            assert forall|k: int| 0 <= k < prev.push(s).len() implies action_sanitized(
                #[trigger] prev.push(s)[k],
            ) by {
                if k < prev.len() {
                    assert(prev.push(s)[k] == prev[k]);
                }
            }
        } else {
            assert(kept_actions(items, t, threshold) == prev);
        }
    }
}

/// Each explicit confirmation word (决定, 确认, 通过, 同意, 拍板, agreed, decided,
/// approved, confirmed), found anywhere in a text once lower-cased, marks that text as
/// confirming.
pub proof fn law_confirmation_words_confirm(text: Seq<char>)
    ensures
        contains(lowercase(text), "决定"@) ==> has_confirmation_marker(text),
        contains(lowercase(text), "确认"@) ==> has_confirmation_marker(text),
        contains(lowercase(text), "通过"@) ==> has_confirmation_marker(text),
        contains(lowercase(text), "同意"@) ==> has_confirmation_marker(text),
        contains(lowercase(text), "拍板"@) ==> has_confirmation_marker(text),
        contains(lowercase(text), "agreed"@) ==> has_confirmation_marker(text),
        contains(lowercase(text), "decided"@) ==> has_confirmation_marker(text),
        contains(lowercase(text), "approved"@) ==> has_confirmation_marker(text),
        contains(lowercase(text), "confirmed"@) ==> has_confirmation_marker(text),
{
}

/// Model decisions kept without a confidence threshold are exactly those whose evidence
/// confirms them, in their order.
proof fn lemma_kept_decisions_without_threshold(items: Seq<StatementV>, t: TranscriptV, k: int)
    requires
        0 <= k < items.len(),
        evidence_confirms(items[k].evidence, t),
    ensures
        kept_decisions(items, t, None).contains(items[k]),
    decreases items.len(),
{
    let p = kept_decisions(items.drop_last(), t, None);
    if k < items.len() - 1 {
        assert(items.drop_last()[k] == items[k]);
        lemma_kept_decisions_without_threshold(items.drop_last(), t, k);
        let j = choose|j: int| 0 <= j < p.len() && p[j] == items[k];
        assert(!low_confidence_only(items.last().evidence, t.segments, None));
        if evidence_confirms(items.last().evidence, t) {
            assert(p.push(items.last())[j] == items[k]);
        }
    } else {
        assert(!low_confidence_only(items.last().evidence, t.segments, None));
        assert(p.push(items.last())[p.len() as int] == items[k]);
    }
}

/// A model decision is kept (with no low-confidence threshold) when one of its evidence
/// segments says, in any letter case, that it was decided: the segment's text holds one
/// of 决定, 确认, 通过, 同意, 拍板, agreed, decided, approved or confirmed.
pub proof fn law_decision_with_confirming_segment_is_kept(
    items: Seq<StatementV>,
    t: TranscriptV,
    k: int,
    i: int,
    seg: SegmentV,
    marker: Seq<char>,
)
    requires
        0 <= k < items.len(),
        0 <= i < items[k].evidence.len(),
        segment_with_id(t.segments, items[k].evidence[i]) == Some(seg),
        marker == "决定"@ || marker == "确认"@ || marker == "通过"@ || marker == "同意"@ || marker == "拍板"@ || marker == "agreed"@ || marker == "decided"@ || marker == "approved"@ || marker == "confirmed"@,
        contains(lowercase(seg.text), marker),
    ensures
        kept_decisions(items, t, None).contains(items[k]),
{
    law_confirmation_words_confirm(seg.text);
    assert(has_confirmation_marker(seg.text));
    assert(evidence_confirms(items[k].evidence, t));
    lemma_kept_decisions_without_threshold(items, t, k);
}

} // verus!
