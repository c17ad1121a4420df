//! The validated meeting-minutes model and its mathematical views.

use vstd::prelude::*;

verus! {

/// The only supported MeetingMinutes schema version.
pub const MEETING_MINUTES_SCHEMA_VERSION: &'static str = "1.1.0";

/// The main form of the recorded content; drives template constraints and rendering.
#[derive(Debug, Clone, Copy, PartialEq, Eq, Structural)]
pub enum ContentType {
    Meeting,
    Speech,
    Lecture,
    Course,
    Interview,
    Report,
    ArticleMaterial,
    Other,
}

/// Where the title came from: trusted context, model summary, or unknown.
#[derive(Debug, Clone, Copy, PartialEq, Eq, Structural)]
pub enum TitleSource {
    Context,
    Generated,
    Unknown,
}

/// Distinguishes a risk from a current issue.
#[derive(Debug, Clone, Copy, PartialEq, Eq, Structural)]
pub enum RiskKind {
    Risk,
    Issue,
}

/// Meeting start and end, only ever copied from trusted context.
#[derive(Debug)]
pub struct MeetingTime {
    pub start_at: Option<String>,
    pub end_at: Option<String>,
}

/// A main topic with optional summary and evidence.
#[derive(Debug)]
pub struct Topic {
    pub title: String,
    pub summary: Option<String>,
    pub evidence_segment_ids: Vec<String>,
}

/// A conclusion or decision with explicit transcript evidence.
#[derive(Debug)]
pub struct SupportedStatement {
    pub content: String,
    pub evidence_segment_ids: Vec<String>,
}

/// An explicit action item with uninferred owner and due date.
#[derive(Debug)]
pub struct ActionItem {
    pub description: String,
    pub owner: Option<String>,
    pub due_date_text: Option<String>,
    pub due_date: Option<String>,
    pub evidence_segment_ids: Vec<String>,
}

/// A risk or an unresolved issue.
#[derive(Debug)]
pub struct RiskOrIssue {
    pub kind: RiskKind,
    pub description: String,
    pub impact: Option<String>,
    pub mitigation: Option<String>,
    pub evidence_segment_ids: Vec<String>,
}

/// Meeting minutes that passed structural and semantic validation.
#[derive(Debug)]
pub struct MeetingMinutes {
    pub schema_version: String,
    pub content_type: ContentType,
    pub title: Option<String>,
    pub title_source: TitleSource,
    pub meeting_time: MeetingTime,
    pub participants: Vec<String>,
    pub summary: Option<String>,
    pub topics: Vec<Topic>,
    pub conclusions: Vec<SupportedStatement>,
    pub decisions: Vec<SupportedStatement>,
    pub action_items: Vec<ActionItem>,
    pub risks_and_issues: Vec<RiskOrIssue>,
}

/// Meeting context supplied explicitly by the user or a trusted layer.
#[derive(Debug)]
pub struct MeetingContext {
    pub known_title: Option<String>,
    pub known_start_at: Option<String>,
    pub known_end_at: Option<String>,
    pub known_participants: Vec<String>,
}

/// The view of an optional string.
pub open spec fn opt_view(o: Option<String>) -> Option<Seq<char>> {
    match o {
        Some(s) => Some(s@),
        None => None,
    }
}

/// The view of a list of strings.
pub open spec fn strs_view(v: Vec<String>) -> Seq<Seq<char>> {
    v@.map_values(|s: String| s@)
}

pub struct MeetingTimeV {
    pub start_at: Option<Seq<char>>,
    pub end_at: Option<Seq<char>>,
}

pub struct TopicV {
    pub title: Seq<char>,
    pub summary: Option<Seq<char>>,
    pub evidence: Seq<Seq<char>>,
}

pub struct StatementV {
    pub content: Seq<char>,
    pub evidence: Seq<Seq<char>>,
}

pub struct ActionItemV {
    pub description: Seq<char>,
    pub owner: Option<Seq<char>>,
    pub due_date_text: Option<Seq<char>>,
    pub due_date: Option<Seq<char>>,
    pub evidence: Seq<Seq<char>>,
}

pub struct RiskV {
    pub kind: RiskKind,
    pub description: Seq<char>,
    pub impact: Option<Seq<char>>,
    pub mitigation: Option<Seq<char>>,
    pub evidence: Seq<Seq<char>>,
}

pub struct MinutesV {
    pub schema_version: Seq<char>,
    pub content_type: ContentType,
    pub title: Option<Seq<char>>,
    pub title_source: TitleSource,
    pub meeting_time: MeetingTimeV,
    pub participants: Seq<Seq<char>>,
    pub summary: Option<Seq<char>>,
    pub topics: Seq<TopicV>,
    pub conclusions: Seq<StatementV>,
    pub decisions: Seq<StatementV>,
    pub action_items: Seq<ActionItemV>,
    pub risks_and_issues: Seq<RiskV>,
}

pub struct ContextV {
    pub known_title: Option<Seq<char>>,
    pub known_start_at: Option<Seq<char>>,
    pub known_end_at: Option<Seq<char>>,
    pub known_participants: Seq<Seq<char>>,
}

impl View for MeetingTime {
    type V = MeetingTimeV;

    open spec fn view(&self) -> MeetingTimeV {
        MeetingTimeV { start_at: opt_view(self.start_at), end_at: opt_view(self.end_at) }
    }
}

impl View for Topic {
    type V = TopicV;

    open spec fn view(&self) -> TopicV {
        TopicV {
            title: self.title@,
            summary: opt_view(self.summary),
            evidence: strs_view(self.evidence_segment_ids),
        }
    }
}

impl View for SupportedStatement {
    type V = StatementV;

    open spec fn view(&self) -> StatementV {
        StatementV { content: self.content@, evidence: strs_view(self.evidence_segment_ids) }
    }
}

impl View for ActionItem {
    type V = ActionItemV;

    open spec fn view(&self) -> ActionItemV {
        ActionItemV {
            description: self.description@,
            owner: opt_view(self.owner),
            due_date_text: opt_view(self.due_date_text),
            due_date: opt_view(self.due_date),
            evidence: strs_view(self.evidence_segment_ids),
        }
    }
}

impl View for RiskOrIssue {
    type V = RiskV;

    open spec fn view(&self) -> RiskV {
        RiskV {
            kind: self.kind,
            description: self.description@,
            impact: opt_view(self.impact),
            mitigation: opt_view(self.mitigation),
            evidence: strs_view(self.evidence_segment_ids),
        }
    }
}

impl View for MeetingMinutes {
    type V = MinutesV;

    open spec fn view(&self) -> MinutesV {
        MinutesV {
            schema_version: self.schema_version@,
            content_type: self.content_type,
            title: opt_view(self.title),
            title_source: self.title_source,
            meeting_time: self.meeting_time@,
            participants: strs_view(self.participants),
            summary: opt_view(self.summary),
            topics: self.topics@.map_values(|t: Topic| t@),
            conclusions: self.conclusions@.map_values(|s: SupportedStatement| s@),
            decisions: self.decisions@.map_values(|s: SupportedStatement| s@),
            action_items: self.action_items@.map_values(|a: ActionItem| a@),
            risks_and_issues: self.risks_and_issues@.map_values(|r: RiskOrIssue| r@),
        }
    }
}

impl View for MeetingContext {
    type V = ContextV;

    open spec fn view(&self) -> ContextV {
        ContextV {
            known_title: opt_view(self.known_title),
            known_start_at: opt_view(self.known_start_at),
            known_end_at: opt_view(self.known_end_at),
            known_participants: strs_view(self.known_participants),
        }
    }
}

/// A copy of an optional string.
pub fn clone_opt(o: &Option<String>) -> (r: Option<String>)
    ensures
        opt_view(r) == opt_view(*o),
{
    match o {
        Some(s) => Some(s.clone()),
        None => None,
    }
}

/// A copy of a list of strings.
pub fn clone_strs(v: &Vec<String>) -> (r: Vec<String>)
    ensures
        strs_view(r) == strs_view(*v),
        r@.len() == v@.len(),
{
    let mut r: Vec<String> = Vec::new();
    let mut i: usize = 0;
    while i < v.len()
        invariant
            0 <= i <= v@.len(),
            r@.len() == i,
            forall|k: int| 0 <= k < i ==> #[trigger] r@[k]@ == v@[k]@,
        decreases v@.len() - i,
    {
        r.push(v[i].clone());
        i = i + 1;
    }
    proof {
        assert(strs_view(r) =~= strs_view(*v));
    }
    r
}

impl Topic {
    /// A copy of this topic.
    pub fn copy(&self) -> (r: Topic)
        ensures
            r@ == self@,
    {
        Topic {
            title: self.title.clone(),
            summary: clone_opt(&self.summary),
            evidence_segment_ids: clone_strs(&self.evidence_segment_ids),
        }
    }
}

impl SupportedStatement {
    /// A copy of this statement.
    pub fn copy(&self) -> (r: SupportedStatement)
        ensures
            r@ == self@,
    {
        SupportedStatement {
            content: self.content.clone(),
            evidence_segment_ids: clone_strs(&self.evidence_segment_ids),
        }
    }
}

impl ActionItem {
    /// A copy of this action item.
    pub fn copy(&self) -> (r: ActionItem)
        ensures
            r@ == self@,
    {
        ActionItem {
            description: self.description.clone(),
            owner: clone_opt(&self.owner),
            due_date_text: clone_opt(&self.due_date_text),
            due_date: clone_opt(&self.due_date),
            evidence_segment_ids: clone_strs(&self.evidence_segment_ids),
        }
    }
}

impl RiskOrIssue {
    /// A copy of this risk or issue.
    pub fn copy(&self) -> (r: RiskOrIssue)
        ensures
            r@ == self@,
    {
        RiskOrIssue {
            kind: self.kind,
            description: self.description.clone(),
            impact: clone_opt(&self.impact),
            mitigation: clone_opt(&self.mitigation),
            evidence_segment_ids: clone_strs(&self.evidence_segment_ids),
        }
    }
}

impl MeetingContext {
    /// A copy of this context.
    pub fn copy(&self) -> (r: MeetingContext)
        ensures
            r@ == self@,
    {
        MeetingContext {
            known_title: clone_opt(&self.known_title),
            known_start_at: clone_opt(&self.known_start_at),
            known_end_at: clone_opt(&self.known_end_at),
            known_participants: clone_strs(&self.known_participants),
        }
    }
}

} // verus!
