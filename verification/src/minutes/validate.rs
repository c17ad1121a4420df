//! Validation of meeting context and minutes: structural bounds, trusted-context
//! protection, evidence references and item semantics, for model candidates (which are
//! sanitized) and for persisted values (which must already be clean).

use vstd::prelude::*;

use super::dates::{meeting_time_error, validate_meeting_time};
use super::error::{schema_violation, semantic_violation, MinutesError};
use super::evidence::{
    check_items_evidence, items_evidence_check, items_sanitized, sanitize_items_evidence,
    segment_ids, EvidenceItem,
};
use super::model::{
    clone_opt, clone_strs, opt_view, strs_view, ActionItem, ActionItemV, ContentType, ContextV,
    MeetingContext, MeetingMinutes, MeetingTime, MeetingTimeV, MinutesV, RiskOrIssue, RiskV,
    StatementV, SupportedStatement, TitleSource, Topic, TopicV, MEETING_MINUTES_SCHEMA_VERSION,
};
use super::normalize::{
    normalize_optional_text, normalize_required_text, normalize_required_texts, optional_text,
    opt_str_eq, required_text, required_texts, stable_dedup, stable_dedup_spec, strs_eq, views,
    ViewEq, MAX_BODY_TEXT_CHARS, MAX_COLLECTION_ITEMS, MAX_EVIDENCE_ITEMS, MAX_SHORT_TEXT_CHARS,
    MAX_SUMMARY_CHARS, MAX_TITLE_CHARS,
};
use super::semantics::{
    actions_semantic_error, check_actions, check_statements, keep_actions, keep_conclusions,
    keep_decisions, kept_actions, kept_conclusions, kept_decisions, statements_semantic_error,
};
use super::transcript::{
    transcript_check, validate_transcript, Transcript, TranscriptSegment, TranscriptV,
    ValidationOptions,
};
use crate::text::{copy_str, is_blank, str_eq, str_is_blank, trim, trim_str};

verus! {

/// Whether minutes come from a model (and are sanitized) or were already validated
/// (and must pass unchanged).
#[derive(Clone, Copy, PartialEq, Eq, Structural)]
pub enum ValidationMode {
    ModelCandidate,
    VerifiedValue,
}

/// The normalized trusted context, or the first error: trimmed fields, participants
/// without duplicates and at most the collection limit, and a valid time range.
pub open spec fn context_check(c: ContextV) -> Result<ContextV, MinutesError> {
    match optional_text(c.known_title, MAX_TITLE_CHARS as nat, "/meetingContext/knownTitle") {
        Err(e) => Err(e),
        Ok(title) => match optional_text(
            c.known_start_at,
            MAX_SHORT_TEXT_CHARS as nat,
            "/meetingContext/knownStartAt",
        ) {
            Err(e) => Err(e),
            Ok(start) => match optional_text(
                c.known_end_at,
                MAX_SHORT_TEXT_CHARS as nat,
                "/meetingContext/knownEndAt",
            ) {
                Err(e) => Err(e),
                Ok(end) => match required_texts(
                    c.known_participants,
                    MAX_TITLE_CHARS as nat,
                    "/meetingContext/knownParticipants",
                ) {
                    Err(e) => Err(e),
                    Ok(ps) => {
                        let d = stable_dedup_spec(ps);
                        if d.len() > MAX_COLLECTION_ITEMS {
                            Err(
                                schema_violation(
                                    "collection_too_large",
                                    "/meetingContext/knownParticipants",
                                ),
                            )
                        } else {
                            match meeting_time_error(start, end, "/meetingContext") {
                                Some(e) => Err(e),
                                None => Ok(
                                    ContextV {
                                        known_title: title,
                                        known_start_at: start,
                                        known_end_at: end,
                                        known_participants: d,
                                    },
                                ),
                            }
                        }
                    },
                },
            },
        },
    }
}

/// Checks and normalizes trusted meeting context without taking anything from the
/// transcript.
pub fn normalize_meeting_context(context: &MeetingContext) -> (r: Result<
    MeetingContext,
    MinutesError,
>)
    ensures
        match context_check(context@) {
            Ok(c) => r is Ok && r->Ok_0@ == c,
            Err(e) => r == Err::<MeetingContext, MinutesError>(e),
        },
{
    let mut title = clone_opt(&context.known_title);
    normalize_optional_text(&mut title, MAX_TITLE_CHARS, "/meetingContext/knownTitle")?;
    let mut start = clone_opt(&context.known_start_at);
    normalize_optional_text(&mut start, MAX_SHORT_TEXT_CHARS, "/meetingContext/knownStartAt")?;
    let mut end = clone_opt(&context.known_end_at);
    normalize_optional_text(&mut end, MAX_SHORT_TEXT_CHARS, "/meetingContext/knownEndAt")?;
    let ps = normalize_required_texts(
        &context.known_participants,
        MAX_TITLE_CHARS,
        "/meetingContext/knownParticipants",
    )?;
    let d = stable_dedup(&ps);
    proof {
        assert(views(ps@) =~= strs_view(ps));
        assert(views(d@) =~= strs_view(d));
    }
    if d.len() > MAX_COLLECTION_ITEMS {
        return Err(
            MinutesError::SchemaViolation {
                code: "collection_too_large",
                path: "/meetingContext/knownParticipants",
            },
        );
    }
    validate_meeting_time(&start, &end, "/meetingContext")?;
    Ok(
        MeetingContext {
            known_title: title,
            known_start_at: start,
            known_end_at: end,
            known_participants: d,
        },
    )
}

/// The schema error of an evidence ID list, if any: too many IDs, or an ID that is
/// blank, too long, or has surrounding white space.
pub open spec fn evidence_shape_error(ids: Seq<Seq<char>>, path: &'static str) -> Option<
    MinutesError,
> {
    if ids.len() > MAX_EVIDENCE_ITEMS {
        Some(schema_violation("collection_too_large", path))
    } else if exists|i: int|
        0 <= i < ids.len() && (is_blank(#[trigger] ids[i]) || ids[i].len() > 200 || trim(ids[i])
            != ids[i]) {
        Some(schema_violation("invalid_evidence_id", path))
    } else {
        None
    }
}

/// Checks the size and shape of an evidence ID list.
fn validate_evidence_shape(ids: &Vec<String>, path: &'static str) -> (r: Result<(), MinutesError>)
    ensures
        match evidence_shape_error(strs_view(*ids), path) {
            Some(e) => r == Err::<(), MinutesError>(e),
            None => r is Ok,
        },
{
    let ghost iv = strs_view(*ids);
    if ids.len() > MAX_EVIDENCE_ITEMS {
        return Err(MinutesError::SchemaViolation { code: "collection_too_large", path });
    }
    let mut i: usize = 0;
    while i < ids.len()
        invariant
            0 <= i <= ids@.len(),
            iv == strs_view(*ids),
            iv.len() == ids@.len(),
            forall|k: int|
                0 <= k < i ==> !(is_blank(#[trigger] iv[k]) || iv[k].len() > 200 || trim(iv[k])
                    != iv[k]),
            ids@.len() <= MAX_EVIDENCE_ITEMS,
        decreases ids@.len() - i,
    {
        let id = ids[i].as_str();
        let t = trim_str(id);
        if str_is_blank(id) || id.unicode_len() > 200 || !str_eq(t.as_str(), id) {
            proof {
                assert(is_blank(iv[i as int]) || iv[i as int].len() > 200 || trim(iv[i as int])
                    != iv[i as int]);
                assert(exists|k: int|
                    0 <= k < iv.len() && (is_blank(#[trigger] iv[k]) || iv[k].len() > 200 || trim(
                        iv[k],
                    ) != iv[k]));
            }
            return Err(MinutesError::SchemaViolation { code: "invalid_evidence_id", path });
        }
        i = i + 1;
    }
    Ok(())
}

/// Items that normalize their own text fields and check their evidence shape.
pub trait NormalizeItem: ViewEq {
    /// The normalized item view, or the first schema error; `path` names the list.
    spec fn normalized_view(v: Self::V, path: &'static str) -> Result<Self::V, MinutesError>;

    /// The normalized item, or the first schema error.
    fn normalized(&self, path: &'static str) -> (r: Result<Self, MinutesError>)
        ensures
            match Self::normalized_view(self.view(), path) {
                Ok(v) => r is Ok && r->Ok_0.view() == v,
                Err(e) => r is Err && r->Err_0 == e,
            },
    ;
}

impl NormalizeItem for Topic {
    open spec fn normalized_view(v: TopicV, path: &'static str) -> Result<TopicV, MinutesError> {
        match required_text(v.title, MAX_SHORT_TEXT_CHARS as nat, "/topics/title") {
            Err(e) => Err(e),
            Ok(title) => match optional_text(v.summary, MAX_SUMMARY_CHARS as nat, "/topics/summary") {
                Err(e) => Err(e),
                Ok(summary) => match evidence_shape_error(v.evidence, "/topics/evidenceSegmentIds") {
                    Some(e) => Err(e),
                    None => Ok(TopicV { title, summary, evidence: v.evidence }),
                },
            },
        }
    }

    fn normalized(&self, path: &'static str) -> (r: Result<Self, MinutesError>) {
        let mut t = self.duplicate();
        normalize_required_text(&mut t.title, MAX_SHORT_TEXT_CHARS, "/topics/title")?;
        normalize_optional_text(&mut t.summary, MAX_SUMMARY_CHARS, "/topics/summary")?;
        validate_evidence_shape(&t.evidence_segment_ids, "/topics/evidenceSegmentIds")?;
        Ok(t)
    }
}

impl NormalizeItem for SupportedStatement {
    open spec fn normalized_view(v: StatementV, path: &'static str) -> Result<StatementV, MinutesError> {
        match required_text(v.content, MAX_BODY_TEXT_CHARS as nat, path) {
            Err(e) => Err(e),
            Ok(content) => match evidence_shape_error(v.evidence, path) {
                Some(e) => Err(e),
                None => Ok(StatementV { content, evidence: v.evidence }),
            },
        }
    }

    fn normalized(&self, path: &'static str) -> (r: Result<Self, MinutesError>) {
        let mut s = self.duplicate();
        normalize_required_text(&mut s.content, MAX_BODY_TEXT_CHARS, path)?;
        validate_evidence_shape(&s.evidence_segment_ids, path)?;
        Ok(s)
    }
}

impl NormalizeItem for ActionItem {
    open spec fn normalized_view(v: ActionItemV, path: &'static str) -> Result<ActionItemV, MinutesError> {
        match required_text(v.description, MAX_BODY_TEXT_CHARS as nat, "/actionItems/description") {
            Err(e) => Err(e),
            Ok(description) => match optional_text(
                v.owner,
                MAX_SHORT_TEXT_CHARS as nat,
                "/actionItems/owner",
            ) {
                Err(e) => Err(e),
                Ok(owner) => match optional_text(
                    v.due_date_text,
                    MAX_SHORT_TEXT_CHARS as nat,
                    "/actionItems/dueDateText",
                ) {
                    Err(e) => Err(e),
                    Ok(due_date_text) => match optional_text(
                        v.due_date,
                        MAX_SHORT_TEXT_CHARS as nat,
                        "/actionItems/dueDate",
                    ) {
                        Err(e) => Err(e),
                        Ok(due_date) => match evidence_shape_error(
                            v.evidence,
                            "/actionItems/evidenceSegmentIds",
                        ) {
                            Some(e) => Err(e),
                            None => Ok(
                                ActionItemV {
                                    description,
                                    owner,
                                    due_date_text,
                                    due_date,
                                    evidence: v.evidence,
                                },
                            ),
                        },
                    },
                },
            },
        }
    }

    fn normalized(&self, path: &'static str) -> (r: Result<Self, MinutesError>) {
        let mut a = self.duplicate();
        normalize_required_text(&mut a.description, MAX_BODY_TEXT_CHARS, "/actionItems/description")?;
        normalize_optional_text(&mut a.owner, MAX_SHORT_TEXT_CHARS, "/actionItems/owner")?;
        normalize_optional_text(&mut a.due_date_text, MAX_SHORT_TEXT_CHARS, "/actionItems/dueDateText")?;
        normalize_optional_text(&mut a.due_date, MAX_SHORT_TEXT_CHARS, "/actionItems/dueDate")?;
        validate_evidence_shape(&a.evidence_segment_ids, "/actionItems/evidenceSegmentIds")?;
        Ok(a)
    }
}

impl NormalizeItem for RiskOrIssue {
    open spec fn normalized_view(v: RiskV, path: &'static str) -> Result<RiskV, MinutesError> {
        match required_text(v.description, MAX_BODY_TEXT_CHARS as nat, "/risksAndIssues/description") {
            Err(e) => Err(e),
            Ok(description) => match optional_text(
                v.impact,
                MAX_SUMMARY_CHARS as nat,
                "/risksAndIssues/impact",
            ) {
                Err(e) => Err(e),
                Ok(impact) => match optional_text(
                    v.mitigation,
                    MAX_SUMMARY_CHARS as nat,
                    "/risksAndIssues/mitigation",
                ) {
                    Err(e) => Err(e),
                    Ok(mitigation) => match evidence_shape_error(
                        v.evidence,
                        "/risksAndIssues/evidenceSegmentIds",
                    ) {
                        Some(e) => Err(e),
                        None => Ok(
                            RiskV { kind: v.kind, description, impact, mitigation, evidence: v.evidence },
                        ),
                    },
                },
            },
        }
    }

    fn normalized(&self, path: &'static str) -> (r: Result<Self, MinutesError>) {
        let mut x = self.duplicate();
        normalize_required_text(&mut x.description, MAX_BODY_TEXT_CHARS, "/risksAndIssues/description")?;
        normalize_optional_text(&mut x.impact, MAX_SUMMARY_CHARS, "/risksAndIssues/impact")?;
        normalize_optional_text(&mut x.mitigation, MAX_SUMMARY_CHARS, "/risksAndIssues/mitigation")?;
        validate_evidence_shape(&x.evidence_segment_ids, "/risksAndIssues/evidenceSegmentIds")?;
        Ok(x)
    }
}

/// Every item of a list normalized; the first error wins.
pub open spec fn all_normalized<T: NormalizeItem>(items: Seq<T::V>, path: &'static str) -> Result<
    Seq<T::V>,
    MinutesError,
>
    decreases items.len(),
{
    if items.len() == 0 {
        Ok(seq![])
    } else {
        match all_normalized::<T>(items.drop_last(), path) {
            Err(e) => Err(e),
            Ok(p) => match T::normalized_view(items.last(), path) {
                Err(e) => Err(e),
                Ok(v) => Ok(p.push(v)),
            },
        }
    }
}

/// The list bounded by the collection limit, normalized, with duplicates removed.
pub open spec fn collection_check<T: NormalizeItem>(items: Seq<T::V>, path: &'static str) -> Result<
    Seq<T::V>,
    MinutesError,
> {
    if items.len() > MAX_COLLECTION_ITEMS {
        Err(schema_violation("collection_too_large", path))
    } else {
        match all_normalized::<T>(items, path) {
            Err(e) => Err(e),
            Ok(v) => Ok(v),
        }
    }
}

/// Once a prefix fails normalization, every longer prefix fails the same way.
pub proof fn lemma_all_normalized_error_persists<T: NormalizeItem>(
    items: Seq<T::V>,
    path: &'static str,
    m: int,
    n: int,
)
    requires
        0 <= m <= n <= items.len(),
        all_normalized::<T>(items.take(m), path) is Err,
    ensures
        all_normalized::<T>(items.take(n), path) == all_normalized::<T>(items.take(m), path),
    decreases n - m,
{
    if n > m {
        lemma_all_normalized_error_persists::<T>(items, path, m, n - 1);
        assert(items.take(n).drop_last() =~= items.take(n - 1));
    }
}

/// Checks the size of a list and normalizes every item; the first error wins.
pub fn normalize_collection<T: NormalizeItem>(items: &Vec<T>, path: &'static str) -> (r: Result<
    Vec<T>,
    MinutesError,
>)
    ensures
        match collection_check::<T>(views(items@), path) {
            Ok(v) => r is Ok && views(r->Ok_0@) == v,
            Err(e) => r is Err && r->Err_0 == e,
        },
{
    let ghost sv = views(items@);
    if items.len() > MAX_COLLECTION_ITEMS {
        return Err(MinutesError::SchemaViolation { code: "collection_too_large", path });
    }
    let mut out: Vec<T> = Vec::new();
    proof {
        assert(sv.take(0) =~= Seq::<T::V>::empty());
        assert(views(out@) =~= Seq::<T::V>::empty());
    }
    let mut i: usize = 0;
    while i < items.len()
        invariant
            0 <= i <= items@.len(),
            sv == views(items@),
            sv.len() == items@.len(),
            items@.len() <= MAX_COLLECTION_ITEMS,
            all_normalized::<T>(sv.take(i as int), path) == Ok::<Seq<T::V>, MinutesError>(
                views(out@),
            ),
        decreases items@.len() - i,
    {
        let res = items[i].normalized(path);
        proof {
            let tk = sv.take(i + 1);
            assert(tk.drop_last() =~= sv.take(i as int));
            assert(tk.last() == items@[i as int].view());
        }
        match res {
            Err(e) => {
                proof {
                    lemma_all_normalized_error_persists::<T>(sv, path, i + 1, sv.len() as int);
                    assert(sv.take(sv.len() as int) =~= sv);
                }
                return Err(e);
            },
            Ok(v) => {
                let ghost before = views(out@);
                out.push(v);
                proof {
                    assert(views(out@) =~= before.push(v.view()));
                }
            },
        }
        i = i + 1;
    }
    proof {
        assert(sv.take(sv.len() as int) =~= sv);
    }
    Ok(out)
}

/// Participants normalized one by one, each rejected as a duplicate of an earlier one.
pub open spec fn participants_check(ps: Seq<Seq<char>>) -> Result<Seq<Seq<char>>, MinutesError>
    decreases ps.len(),
{
    if ps.len() == 0 {
        Ok(seq![])
    } else {
        match participants_check(ps.drop_last()) {
            Err(e) => Err(e),
            Ok(p) => match required_text(ps.last(), MAX_TITLE_CHARS as nat, "/participants") {
                Err(e) => Err(e),
                Ok(t) => if p.contains(t) {
                    Err(schema_violation("duplicate_item", "/participants"))
                } else {
                    Ok(p.push(t))
                },
            },
        }
    }
}

/// Once a prefix fails, every longer prefix fails the same way.
pub proof fn lemma_participants_error_persists(ps: Seq<Seq<char>>, m: int, n: int)
    requires
        0 <= m <= n <= ps.len(),
        participants_check(ps.take(m)) is Err,
    ensures
        participants_check(ps.take(n)) == participants_check(ps.take(m)),
    decreases n - m,
{
    if n > m {
        lemma_participants_error_persists(ps, m, n - 1);
        assert(ps.take(n).drop_last() =~= ps.take(n - 1));
    }
}

/// Normalizes the participants and rejects duplicates; the first error wins.
fn normalize_participants(ps: &Vec<String>) -> (r: Result<Vec<String>, MinutesError>)
    ensures
        match participants_check(strs_view(*ps)) {
            Ok(v) => r is Ok && strs_view(r->Ok_0) == v,
            Err(e) => r is Err && r->Err_0 == e,
        },
{
    let ghost sv = strs_view(*ps);
    let mut out: Vec<String> = Vec::new();
    proof {
        assert(sv.take(0) =~= Seq::<Seq<char>>::empty());
        assert(strs_view(out) =~= Seq::<Seq<char>>::empty());
    }
    let mut i: usize = 0;
    while i < ps.len()
        invariant
            0 <= i <= ps@.len(),
            sv == strs_view(*ps),
            sv.len() == ps@.len(),
            participants_check(sv.take(i as int)) == Ok::<Seq<Seq<char>>, MinutesError>(
                strs_view(out),
            ),
        decreases ps@.len() - i,
    {
        let mut t = copy_str(ps[i].as_str());
        let res = normalize_required_text(&mut t, MAX_TITLE_CHARS, "/participants");
        proof {
            let tk = sv.take(i + 1);
            assert(tk.drop_last() =~= sv.take(i as int));
            assert(tk.last() == ps@[i as int]@);
        }
        match res {
            Err(e) => {
                proof {
                    lemma_participants_error_persists(sv, i + 1, sv.len() as int);
                    assert(sv.take(sv.len() as int) =~= sv);
                }
                return Err(e);
            },
            Ok(()) => {},
        }
        let dup = super::evidence::strs_contain(&out, t.as_str());
        if dup {
            proof {
                lemma_participants_error_persists(sv, i + 1, sv.len() as int);
                assert(sv.take(sv.len() as int) =~= sv);
            }
            return Err(MinutesError::SchemaViolation { code: "duplicate_item", path: "/participants" });
        }
        let ghost before = strs_view(out);
        out.push(t);
        proof {
            assert(strs_view(out) =~= before.push(t@));
        }
        i = i + 1;
    }
    proof {
        assert(sv.take(sv.len() as int) =~= sv);
    }
    Ok(out)
}

/// The minutes with text normalized and bounds checked, collections without exact
/// duplicates, and a valid meeting time range; or the first error.
pub open spec fn structure_check(m: MinutesV) -> Result<MinutesV, MinutesError> {
    match optional_text(m.title, MAX_TITLE_CHARS as nat, "/title") {
        Err(e) => Err(e),
        Ok(title) => match optional_text(m.summary, MAX_SUMMARY_CHARS as nat, "/summary") {
            Err(e) => Err(e),
            Ok(summary) => if m.participants.len() > MAX_COLLECTION_ITEMS {
                Err(schema_violation("collection_too_large", "/participants"))
            } else {
                match participants_check(m.participants) {
                    Err(e) => Err(e),
                    Ok(ps) => match collection_check::<Topic>(m.topics, "/topics") {
                        Err(e) => Err(e),
                        Ok(ts) => match collection_check::<SupportedStatement>(
                            m.conclusions,
                            "/conclusions",
                        ) {
                            Err(e) => Err(e),
                            Ok(cs) => match collection_check::<SupportedStatement>(
                                m.decisions,
                                "/decisions",
                            ) {
                                Err(e) => Err(e),
                                Ok(ds) => match collection_check::<ActionItem>(
                                    m.action_items,
                                    "/actionItems",
                                ) {
                                    Err(e) => Err(e),
                                    Ok(acts) => match collection_check::<RiskOrIssue>(
                                        m.risks_and_issues,
                                        "/risksAndIssues",
                                    ) {
                                        Err(e) => Err(e),
                                        Ok(rs) => match meeting_time_error(
                                            m.meeting_time.start_at,
                                            m.meeting_time.end_at,
                                            "/meetingTime",
                                        ) {
                                            Some(e) => Err(e),
                                            None => Ok(
                                                MinutesV {
                                                    title,
                                                    summary,
                                                    participants: ps,
                                                    topics: stable_dedup_spec(ts),
                                                    conclusions: stable_dedup_spec(cs),
                                                    decisions: stable_dedup_spec(ds),
                                                    action_items: stable_dedup_spec(acts),
                                                    risks_and_issues: stable_dedup_spec(rs),
                                                    ..m
                                                },
                                            ),
                                        },
                                    },
                                },
                            },
                        },
                    },
                }
            },
        },
    }
}

/// The minutes with protected fields taken from (model candidates) or checked
/// against (persisted values) the trusted context.
pub open spec fn protected_check(m: MinutesV, c: ContextV, mode: ValidationMode) -> Result<
    MinutesV,
    MinutesError,
> {
    if mode == ValidationMode::ModelCandidate {
        Ok(
            MinutesV {
                title: if c.known_title is Some {
                    c.known_title
                } else {
                    m.title
                },
                title_source: if c.known_title is Some {
                    TitleSource::Context
                } else if m.title is Some {
                    TitleSource::Generated
                } else {
                    TitleSource::Unknown
                },
                meeting_time: MeetingTimeV { start_at: c.known_start_at, end_at: c.known_end_at },
                participants: c.known_participants,
                ..m
            },
        )
    } else if c.known_title is Some && (m.title != c.known_title || m.title_source
        != TitleSource::Context) {
        Err(semantic_violation("context_field_mismatch", "/title"))
    } else if c.known_title is None && !((m.title is None && m.title_source == TitleSource::Unknown)
        || (m.title is Some && m.title_source == TitleSource::Generated)) {
        Err(semantic_violation("invalid_title_source", "/titleSource"))
    } else if m.meeting_time.start_at != c.known_start_at || m.meeting_time.end_at
        != c.known_end_at {
        Err(semantic_violation("context_field_mismatch", "/meetingTime"))
    } else if m.participants != c.known_participants {
        Err(semantic_violation("inferred_identity_rejected", "/participants"))
    } else {
        Ok(m)
    }
}

/// The minutes with evidence sanitized (model candidates) or checked and ordered
/// (persisted values).
pub open spec fn evidence_stage(m: MinutesV, sids: Seq<Seq<char>>, mode: ValidationMode) -> Result<
    MinutesV,
    MinutesError,
> {
    let req = sids.len() > 0;
    if mode == ValidationMode::ModelCandidate {
        Ok(
            MinutesV {
                topics: items_sanitized::<Topic>(m.topics, sids),
                conclusions: items_sanitized::<SupportedStatement>(m.conclusions, sids),
                decisions: items_sanitized::<SupportedStatement>(m.decisions, sids),
                action_items: items_sanitized::<ActionItem>(m.action_items, sids),
                risks_and_issues: items_sanitized::<RiskOrIssue>(m.risks_and_issues, sids),
                ..m
            },
        )
    } else {
        match items_evidence_check::<Topic>(m.topics, sids, req, "/topics/evidenceSegmentIds") {
            Err(e) => Err(e),
            Ok(ts) => match items_evidence_check::<SupportedStatement>(
                m.conclusions,
                sids,
                req,
                "/conclusions/evidenceSegmentIds",
            ) {
                Err(e) => Err(e),
                Ok(cs) => match items_evidence_check::<SupportedStatement>(
                    m.decisions,
                    sids,
                    req,
                    "/decisions/evidenceSegmentIds",
                ) {
                    Err(e) => Err(e),
                    Ok(ds) => match items_evidence_check::<ActionItem>(
                        m.action_items,
                        sids,
                        req,
                        "/actionItems/evidenceSegmentIds",
                    ) {
                        Err(e) => Err(e),
                        Ok(acts) => match items_evidence_check::<RiskOrIssue>(
                            m.risks_and_issues,
                            sids,
                            req,
                            "/risksAndIssues/evidenceSegmentIds",
                        ) {
                            Err(e) => Err(e),
                            Ok(rs) => Ok(
                                MinutesV {
                                    topics: ts,
                                    conclusions: cs,
                                    decisions: ds,
                                    action_items: acts,
                                    risks_and_issues: rs,
                                    ..m
                                },
                            ),
                        },
                    },
                },
            },
        }
    }
}

/// The minutes with unsupported high-impact items dropped or cleared (model
/// candidates), or checked for them (persisted values).
pub open spec fn semantics_stage(
    m: MinutesV,
    t: TranscriptV,
    threshold: Option<u64>,
    mode: ValidationMode,
) -> Result<MinutesV, MinutesError> {
    if mode == ValidationMode::ModelCandidate {
        Ok(
            MinutesV {
                conclusions: kept_conclusions(m.conclusions, t, threshold),
                decisions: kept_decisions(m.decisions, t, threshold),
                action_items: kept_actions(m.action_items, t, threshold),
                ..m
            },
        )
    } else {
        match statements_semantic_error(m.conclusions, t, threshold, false) {
            Some(e) => Err(e),
            None => match statements_semantic_error(m.decisions, t, threshold, true) {
                Some(e) => Err(e),
                None => match actions_semantic_error(m.action_items, t, threshold) {
                    Some(e) => Err(e),
                    None => Ok(m),
                },
            },
        }
    }
}

/// The outcome of minutes validation: the transcript, the trusted context and the
/// schema version are checked first, then structure, protected context, evidence and
/// item semantics, in that order; the first error wins.
pub open spec fn minutes_check(
    m: MinutesV,
    expected_schema_version: Seq<char>,
    t: TranscriptV,
    c: ContextV,
    options: ValidationOptions,
    mode: ValidationMode,
) -> Result<MinutesV, MinutesError> {
    match transcript_check(t, options) {
        Err(e) => Err(e),
        Ok(_) => match context_check(c) {
            Err(e) => Err(e),
            Ok(ctx) => if expected_schema_version != MEETING_MINUTES_SCHEMA_VERSION@
                || m.schema_version != expected_schema_version {
                Err(MinutesError::SchemaVersionMismatch)
            } else {
                match structure_check(m) {
                    Err(e) => Err(e),
                    Ok(m1) => match protected_check(m1, ctx, mode) {
                        Err(e) => Err(e),
                        Ok(m2) => match evidence_stage(
                            m2,
                            super::evidence::segment_ids(t.segments),
                            mode,
                        ) {
                            Err(e) => Err(e),
                            Ok(m3) => semantics_stage(
                                m3,
                                t,
                                options.low_confidence_threshold_bits,
                                mode,
                            ),
                        },
                    },
                }
            },
        },
    }
}

/// Normalizes and checks the text fields, collection sizes and meeting time.
fn normalize_and_validate_structure(minutes: MeetingMinutes) -> (r: Result<
    MeetingMinutes,
    MinutesError,
>)
    ensures
        match structure_check(minutes@) {
            Ok(v) => r is Ok && r->Ok_0@ == v,
            Err(e) => r is Err && r->Err_0 == e,
        },
{
    let ghost mv = minutes@;
    let mut title = clone_opt(&minutes.title);
    normalize_optional_text(&mut title, MAX_TITLE_CHARS, "/title")?;
    let mut summary = clone_opt(&minutes.summary);
    normalize_optional_text(&mut summary, MAX_SUMMARY_CHARS, "/summary")?;
    if minutes.participants.len() > MAX_COLLECTION_ITEMS {
        return Err(MinutesError::SchemaViolation { code: "collection_too_large", path: "/participants" });
    }
    let participants = normalize_participants(&minutes.participants)?;
    let topics = normalize_collection(&minutes.topics, "/topics")?;
    let conclusions = normalize_collection(&minutes.conclusions, "/conclusions")?;
    let decisions = normalize_collection(&minutes.decisions, "/decisions")?;
    let action_items = normalize_collection(&minutes.action_items, "/actionItems")?;
    let risks = normalize_collection(&minutes.risks_and_issues, "/risksAndIssues")?;
    let topics = stable_dedup(&topics);
    let conclusions = stable_dedup(&conclusions);
    let decisions = stable_dedup(&decisions);
    let action_items = stable_dedup(&action_items);
    let risks = stable_dedup(&risks);
    validate_meeting_time(
        &minutes.meeting_time.start_at,
        &minutes.meeting_time.end_at,
        "/meetingTime",
    )?;
    let r = MeetingMinutes {
        schema_version: minutes.schema_version,
        content_type: minutes.content_type,
        title,
        title_source: minutes.title_source,
        meeting_time: minutes.meeting_time,
        participants,
        summary,
        topics,
        conclusions,
        decisions,
        action_items,
        risks_and_issues: risks,
    };
    proof {
        assert(r@.topics == views(topics@));
        assert(r@ == structure_check(mv)->Ok_0);
    }
    Ok(r)
}

/// Takes protected fields from, or checks them against, the trusted context.
fn validate_protected_context(
    minutes: MeetingMinutes,
    context: &MeetingContext,
    mode: ValidationMode,
) -> (r: Result<MeetingMinutes, MinutesError>)
    ensures
        match protected_check(minutes@, context@, mode) {
            Ok(v) => r is Ok && r->Ok_0@ == v,
            Err(e) => r is Err && r->Err_0 == e,
        },
{
    let mut m = minutes;
    if mode == ValidationMode::ModelCandidate {
        match &context.known_title {
            Some(t) => {
                m.title = Some(copy_str(t.as_str()));
                m.title_source = TitleSource::Context;
            },
            None => {
                m.title_source = if m.title.is_some() {
                    TitleSource::Generated
                } else {
                    TitleSource::Unknown
                };
            },
        }
        m.meeting_time = MeetingTime {
            start_at: clone_opt(&context.known_start_at),
            end_at: clone_opt(&context.known_end_at),
        };
        m.participants = clone_strs(&context.known_participants);
        return Ok(m);
    }
    match &context.known_title {
        Some(t) => {
            let same = match &m.title {
                Some(mt) => str_eq(mt.as_str(), t.as_str()),
                None => false,
            };
            if !same || m.title_source != TitleSource::Context {
                return Err(MinutesError::SemanticViolation { code: "context_field_mismatch", path: "/title" });
            }
        },
        None => {
            let ok = match (&m.title, m.title_source) {
                (None, TitleSource::Unknown) => true,
                (Some(_), TitleSource::Generated) => true,
                _ => false,
            };
            if !ok {
                return Err(MinutesError::SemanticViolation { code: "invalid_title_source", path: "/titleSource" });
            }
        },
    }
    if !opt_str_eq(&m.meeting_time.start_at, &context.known_start_at) || !opt_str_eq(
        &m.meeting_time.end_at,
        &context.known_end_at,
    ) {
        return Err(MinutesError::SemanticViolation { code: "context_field_mismatch", path: "/meetingTime" });
    }
    if !strs_eq(&m.participants, &context.known_participants) {
        return Err(
            MinutesError::SemanticViolation {
                code: "inferred_identity_rejected",
                path: "/participants",
            },
        );
    }
    Ok(m)
}

/// Sanitizes or checks the evidence of every item.
fn normalize_all_evidence(
    minutes: MeetingMinutes,
    segs: &Vec<TranscriptSegment>,
    mode: ValidationMode,
) -> (r: Result<MeetingMinutes, MinutesError>)
    ensures
        match evidence_stage(
            minutes@,
            segment_ids(segs@.map_values(|s: TranscriptSegment| s@)),
            mode,
        ) {
            Ok(v) => r is Ok && r->Ok_0@ == v,
            Err(e) => r is Err && r->Err_0 == e,
        },
{
    let ghost sids = segment_ids(segs@.map_values(|s: TranscriptSegment| s@));
    let mut m = minutes;
    if mode == ValidationMode::ModelCandidate {
        m.topics = sanitize_items_evidence(&m.topics, segs);
        m.conclusions = sanitize_items_evidence(&m.conclusions, segs);
        m.decisions = sanitize_items_evidence(&m.decisions, segs);
        m.action_items = sanitize_items_evidence(&m.action_items, segs);
        m.risks_and_issues = sanitize_items_evidence(&m.risks_and_issues, segs);
        return Ok(m);
    }
    let req = segs.len() > 0;
    proof {
        assert(sids.len() == segs@.len());
    }
    let topics = check_items_evidence(&m.topics, segs, req, "/topics/evidenceSegmentIds")?;
    let conclusions = check_items_evidence(
        &m.conclusions,
        segs,
        req,
        "/conclusions/evidenceSegmentIds",
    )?;
    let decisions = check_items_evidence(&m.decisions, segs, req, "/decisions/evidenceSegmentIds")?;
    let action_items = check_items_evidence(
        &m.action_items,
        segs,
        req,
        "/actionItems/evidenceSegmentIds",
    )?;
    let risks = check_items_evidence(
        &m.risks_and_issues,
        segs,
        req,
        "/risksAndIssues/evidenceSegmentIds",
    )?;
    m.topics = topics;
    m.conclusions = conclusions;
    m.decisions = decisions;
    m.action_items = action_items;
    m.risks_and_issues = risks;
    Ok(m)
}

/// Sanitizes or checks owners, due dates, decision markers and low-confidence evidence.
fn validate_item_semantics(
    minutes: MeetingMinutes,
    transcript: &Transcript,
    options: ValidationOptions,
    mode: ValidationMode,
) -> (r: Result<MeetingMinutes, MinutesError>)
    ensures
        match semantics_stage(
            minutes@,
            transcript@,
            options.low_confidence_threshold_bits,
            mode,
        ) {
            Ok(v) => r is Ok && r->Ok_0@ == v,
            Err(e) => r is Err && r->Err_0 == e,
        },
{
    let th = options.low_confidence_threshold_bits;
    let mut m = minutes;
    if mode == ValidationMode::ModelCandidate {
        m.conclusions = keep_conclusions(&m.conclusions, transcript, th);
        m.decisions = keep_decisions(&m.decisions, transcript, th);
        m.action_items = keep_actions(&m.action_items, transcript, th);
        return Ok(m);
    }
    check_statements(&m.conclusions, transcript, th, false)?;
    check_statements(&m.decisions, transcript, th, true)?;
    check_actions(&m.action_items, transcript, th)?;
    Ok(m)
}

/// Runs every validation stage in order.
fn validate_minutes(
    minutes: MeetingMinutes,
    expected_schema_version: &str,
    transcript: &Transcript,
    context: &MeetingContext,
    options: ValidationOptions,
    mode: ValidationMode,
) -> (r: Result<MeetingMinutes, MinutesError>)
    ensures
        match minutes_check(
            minutes@,
            expected_schema_version@,
            transcript@,
            context@,
            options,
            mode,
        ) {
            Ok(v) => r is Ok && r->Ok_0@ == v,
            Err(e) => r is Err && r->Err_0 == e,
        },
{
    validate_transcript(transcript, options)?;
    let ctx = normalize_meeting_context(context)?;
    if !str_eq(expected_schema_version, MEETING_MINUTES_SCHEMA_VERSION) || !str_eq(
        minutes.schema_version.as_str(),
        expected_schema_version,
    ) {
        return Err(MinutesError::SchemaVersionMismatch);
    }
    let m1 = normalize_and_validate_structure(minutes)?;
    let m2 = validate_protected_context(m1, &ctx, mode)?;
    let m3 = normalize_all_evidence(m2, &transcript.segments, mode)?;
    proof {
        assert(transcript@.segments == transcript.segments@.map_values(
            |s: TranscriptSegment| s@,
        ));
    }
    validate_item_semantics(m3, transcript, options, mode)
}

/// Validates a model candidate: protected fields are replaced by trusted context, and
/// items without enough evidence or support are dropped or cleared rather than rejected.
pub fn validate_model_minutes(
    minutes: MeetingMinutes,
    expected_schema_version: &str,
    transcript: &Transcript,
    context: &MeetingContext,
    options: ValidationOptions,
) -> (r: Result<MeetingMinutes, MinutesError>)
    ensures
        match minutes_check(
            minutes@,
            expected_schema_version@,
            transcript@,
            context@,
            options,
            ValidationMode::ModelCandidate,
        ) {
            Ok(v) => r is Ok && r->Ok_0@ == v,
            Err(e) => r is Err && r->Err_0 == e,
        },
{
    validate_minutes(
        minutes,
        expected_schema_version,
        transcript,
        context,
        options,
        ValidationMode::ModelCandidate,
    )
}

/// Re-validates persisted minutes: every protected field, evidence list and item must
/// already be correct.
pub fn validate_verified_minutes(
    minutes: MeetingMinutes,
    expected_schema_version: &str,
    transcript: &Transcript,
    context: &MeetingContext,
    options: ValidationOptions,
) -> (r: Result<MeetingMinutes, MinutesError>)
    ensures
        match minutes_check(
            minutes@,
            expected_schema_version@,
            transcript@,
            context@,
            options,
            ValidationMode::VerifiedValue,
        ) {
            Ok(v) => r is Ok && r->Ok_0@ == v,
            Err(e) => r is Err && r->Err_0 == e,
        },
{
    validate_minutes(
        minutes,
        expected_schema_version,
        transcript,
        context,
        options,
        ValidationMode::VerifiedValue,
    )
}

/// Accepted model minutes carry exactly the trusted context's participants and
/// meeting time, and its title whenever the context has one: none of these is ever
/// taken from the model or the transcript.
pub proof fn law_model_minutes_keep_trusted_context(
    m: MinutesV,
    expected_schema_version: Seq<char>,
    t: TranscriptV,
    c: ContextV,
    options: ValidationOptions,
)
    requires
        minutes_check(m, expected_schema_version, t, c, options, ValidationMode::ModelCandidate) is Ok,
    ensures
        context_check(c) is Ok,
        ({
            let r = minutes_check(
                m,
                expected_schema_version,
                t,
                c,
                options,
                ValidationMode::ModelCandidate,
            )->Ok_0;
            let ctx = context_check(c)->Ok_0;
            &&& r.participants == ctx.known_participants
            &&& r.meeting_time.start_at == ctx.known_start_at
            &&& r.meeting_time.end_at == ctx.known_end_at
            &&& (ctx.known_title is Some ==> r.title == ctx.known_title && r.title_source
                == TitleSource::Context)
        }),
{
}

/// Accepted persisted minutes are returned with the same participants, meeting time,
/// title and title source they were stored with.
pub proof fn law_verified_minutes_keep_protected_fields(
    m: MinutesV,
    expected_schema_version: Seq<char>,
    t: TranscriptV,
    c: ContextV,
    options: ValidationOptions,
)
    requires
        minutes_check(m, expected_schema_version, t, c, options, ValidationMode::VerifiedValue) is Ok,
    ensures
        ({
            let r = minutes_check(
                m,
                expected_schema_version,
                t,
                c,
                options,
                ValidationMode::VerifiedValue,
            )->Ok_0;
            let ctx = context_check(c)->Ok_0;
            &&& r.participants == ctx.known_participants
            &&& r.meeting_time.start_at == ctx.known_start_at
            &&& r.meeting_time.end_at == ctx.known_end_at
            &&& r.title_source == m.title_source
        }),
{
}

/// Whether a non-meeting content type may keep explicitly assigned tasks (exercises of
/// a course, writing tasks of article material).
pub open spec fn keeps_action_items(ct: ContentType) -> bool {
    ct == ContentType::Course || ct == ContentType::ArticleMaterial
}

/// The minutes with meeting-only fields removed for non-meeting content: no meeting
/// time, participants or decisions, and action items only where the content type
/// keeps them.
pub open spec fn content_type_fields(m: MinutesV) -> MinutesV {
    if m.content_type == ContentType::Meeting {
        m
    } else {
        MinutesV {
            meeting_time: MeetingTimeV { start_at: None, end_at: None },
            participants: seq![],
            decisions: seq![],
            action_items: if keeps_action_items(m.content_type) {
                m.action_items
            } else {
                seq![]
            },
            ..m
        }
    }
}

/// Removes meeting-only fields from minutes of non-meeting content.
pub fn normalize_content_type_fields(minutes: &mut MeetingMinutes)
    ensures
        final(minutes)@ == content_type_fields(old(minutes)@),
{
    if minutes.content_type == ContentType::Meeting {
        return;
    }
    minutes.meeting_time = MeetingTime { start_at: None, end_at: None };
    minutes.participants = Vec::new();
    minutes.decisions = Vec::new();
    if !(minutes.content_type == ContentType::Course || minutes.content_type
        == ContentType::ArticleMaterial) {
        minutes.action_items = Vec::new();
    }
    proof {
        assert(minutes@.participants =~= Seq::<Seq<char>>::empty());
        assert(minutes@.decisions =~= Seq::<StatementV>::empty());
        if !keeps_action_items(old(minutes)@.content_type) {
            assert(minutes@.action_items =~= Seq::<ActionItemV>::empty());
        }
        assert(minutes@ =~= content_type_fields(old(minutes)@));
    }
}

/// Accepted model minutes carry only sanitized action items: each due date is the one
/// normalized from the item's kept due-date text, and no owner is a pronoun or speaker
/// label.
pub proof fn law_model_actions_are_sanitized(
    m: MinutesV,
    expected_schema_version: Seq<char>,
    t: TranscriptV,
    c: ContextV,
    options: ValidationOptions,
)
    requires
        minutes_check(m, expected_schema_version, t, c, options, ValidationMode::ModelCandidate) is Ok,
    ensures
        ({
            let r = minutes_check(m, expected_schema_version, t, c, options, ValidationMode::ModelCandidate)->Ok_0;
            forall|k: int|
                0 <= k < r.action_items.len() ==> super::semantics::action_sanitized(#[trigger] r.action_items[k])
        }),
{
    let ctx = context_check(c)->Ok_0;
    let m1 = structure_check(m)->Ok_0;
    let m2 = protected_check(m1, ctx, ValidationMode::ModelCandidate)->Ok_0;
    let m3 = evidence_stage(m2, super::evidence::segment_ids(t.segments), ValidationMode::ModelCandidate)->Ok_0;
    super::semantics::lemma_kept_actions_sanitized(m3.action_items, t, options.low_confidence_threshold_bits);
}

/// Normalizing trusted context trims the title and times, trims the participants and
/// keeps each at its first occurrence; normalizing the result again changes nothing.
pub proof fn law_context_normalization_is_stable(c: ContextV)
    requires
        context_check(c) is Ok,
    ensures
        ({
            let n = context_check(c)->Ok_0;
            &&& context_check(n) == Ok::<ContextV, MinutesError>(n)
            &&& n.known_title == (match c.known_title {
                Some(t) => Some(trim(t)),
                None => None,
            })
            &&& n.known_participants == super::normalize::stable_dedup_spec(
                required_texts(c.known_participants, MAX_TITLE_CHARS as nat, "/meetingContext/knownParticipants")->Ok_0,
            )
        }),
{
    let n = context_check(c)->Ok_0;
    if let Some(t) = c.known_title {
        super::normalize::lemma_required_text_fixed(t, MAX_TITLE_CHARS as nat, "/meetingContext/knownTitle");
    }
    if let Some(t) = c.known_start_at {
        super::normalize::lemma_required_text_fixed(t, MAX_SHORT_TEXT_CHARS as nat, "/meetingContext/knownStartAt");
    }
    if let Some(t) = c.known_end_at {
        super::normalize::lemma_required_text_fixed(t, MAX_SHORT_TEXT_CHARS as nat, "/meetingContext/knownEndAt");
    }
    let path = "/meetingContext/knownParticipants";
    let ps = required_texts(c.known_participants, MAX_TITLE_CHARS as nat, path)->Ok_0;
    super::normalize::lemma_required_texts_fixed(c.known_participants, MAX_TITLE_CHARS as nat, path);
    let d = super::normalize::stable_dedup_spec(ps);
    super::normalize::lemma_dedup_shape(ps);
    assert forall|k: int| 0 <= k < d.len() implies required_text(#[trigger] d[k], MAX_TITLE_CHARS as nat, path)
        == Ok::<Seq<char>, MinutesError>(d[k]) by {
        assert(ps.contains(d[k]));
        let j = choose|j: int| 0 <= j < ps.len() && ps[j] == d[k];
        assert(required_text(ps[j], MAX_TITLE_CHARS as nat, path) == Ok::<Seq<char>, MinutesError>(ps[j]));
    }
    super::normalize::lemma_required_texts_of_fixed(d, MAX_TITLE_CHARS as nat, path);
    super::normalize::lemma_dedup_of_unique(d);
}

/// Persisted minutes whose (normalized) meeting time or participants differ from the
/// trusted context are refused: nothing inferred by a model is accepted back.
pub proof fn law_verified_minutes_refuse_inferred_context(
    m: MinutesV,
    expected_schema_version: Seq<char>,
    t: TranscriptV,
    c: ContextV,
    options: ValidationOptions,
)
    requires
        context_check(c) is Ok,
        structure_check(m) is Ok,
        ({
            let ctx = context_check(c)->Ok_0;
            let m1 = structure_check(m)->Ok_0;
            m1.meeting_time.start_at != ctx.known_start_at || m1.meeting_time.end_at != ctx.known_end_at
                || m1.participants != ctx.known_participants
        }),
    ensures
        minutes_check(m, expected_schema_version, t, c, options, ValidationMode::VerifiedValue) is Err,
{
}

} // verus!
