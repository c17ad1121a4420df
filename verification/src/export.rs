//! Export of meeting minutes into a format-neutral document model: formats,
//! content selection, per-content-type wording, and text helpers.

use vstd::prelude::*;
use vstd::seq_lib::lemma_flatten_concat;

use crate::minutes::model::{
    opt_view, strs_view, ActionItem, ActionItemV, ContentType, MeetingMinutes, MinutesV, RiskKind,
    RiskOrIssue, RiskV, StatementV, SupportedStatement, Topic, TopicV,
};
use crate::commands::meetings::{text_lines, text_lines_of};
use crate::config::join_labels;
use crate::minutes::transcript::{SegmentV, Transcript, TranscriptSegment, TranscriptV};
use crate::text::{
    chars_of, copy_str, decimal_pad2, push_char, push_decimal_pad2, push_str, string_from_chars,
    trim, trim_chars,
};

verus! {

/// A document format the user can choose.
#[derive(Debug, Clone, Copy, PartialEq, Eq, Structural)]
pub enum ExportFormat {
    Docx,
    Pdf,
}

/// A part of the recording that the user can select for export.
#[derive(Debug, Clone, Copy, PartialEq, Eq, Structural)]
pub enum ExportContent {
    Summary,
    Transcript,
    Minutes,
}

/// The file extension of an export format.
pub open spec fn format_extension(format: ExportFormat) -> Seq<char> {
    match format {
        ExportFormat::Docx => "docx"@,
        ExportFormat::Pdf => "pdf"@,
    }
}

impl ExportFormat {
    /// The safe file extension of this format.
    pub fn extension(self) -> (r: &'static str)
        ensures
            r@ == format_extension(self),
    {
        match self {
            ExportFormat::Docx => "docx",
            ExportFormat::Pdf => "pdf",
        }
    }
}

/// Document subtitle of a content type.
pub open spec fn subtitle_of(ct: ContentType) -> Seq<char> {
    match ct {
        ContentType::Meeting => "AI 会议纪要"@,
        ContentType::Speech => "演讲内容整理"@,
        ContentType::Lecture => "讲座内容整理"@,
        ContentType::Course => "课程内容整理"@,
        ContentType::Interview => "访谈内容整理"@,
        ContentType::Report => "汇报内容整理"@,
        ContentType::ArticleMaterial => "口述素材整理"@,
        ContentType::Other => "录音内容整理"@,
    }
}

/// Summary section heading of a content type.
pub open spec fn summary_heading_of(ct: ContentType) -> Seq<char> {
    match ct {
        ContentType::Meeting => "会议摘要"@,
        ContentType::Speech => "内容摘要"@,
        ContentType::Lecture => "内容摘要"@,
        ContentType::Course => "课程摘要"@,
        ContentType::Interview => "访谈摘要"@,
        ContentType::Report => "汇报摘要"@,
        ContentType::ArticleMaterial => "内容摘要"@,
        ContentType::Other => "内容摘要"@,
    }
}

/// Topic section heading of a content type.
pub open spec fn topics_heading_of(ct: ContentType) -> Seq<char> {
    match ct {
        ContentType::Meeting => "主要议题"@,
        ContentType::Speech => "演讲脉络"@,
        ContentType::Lecture => "讲座脉络"@,
        ContentType::Course => "知识脉络"@,
        ContentType::Interview => "话题脉络"@,
        ContentType::Report => "内容脉络"@,
        ContentType::ArticleMaterial => "章节结构"@,
        ContentType::Other => "主题脉络"@,
    }
}

/// Conclusion section heading of a content type.
pub open spec fn conclusions_heading_of(ct: ContentType) -> Seq<char> {
    match ct {
        ContentType::Meeting => "关键结论"@,
        ContentType::Speech => "核心观点"@,
        ContentType::Lecture => "核心观点"@,
        ContentType::Course => "核心知识点"@,
        ContentType::Interview => "关键洞察"@,
        ContentType::Report => "关键结论"@,
        ContentType::ArticleMaterial => "核心观点"@,
        ContentType::Other => "内容要点"@,
    }
}

/// The stable Chinese name of a content type.
pub open spec fn content_label_of(ct: ContentType) -> Seq<char> {
    match ct {
        ContentType::Meeting => "会议"@,
        ContentType::Speech => "演讲"@,
        ContentType::Lecture => "讲座"@,
        ContentType::Course => "课程"@,
        ContentType::Interview => "访谈"@,
        ContentType::Report => "汇报"@,
        ContentType::ArticleMaterial => "口述素材"@,
        ContentType::Other => "其他内容"@,
    }
}

/// The subtitle and the summary, topic and conclusion headings of a content type.
pub fn content_headings(ct: ContentType) -> (r: (&'static str, &'static str, &'static str, &'static str))
    ensures
        r.0@ == subtitle_of(ct),
        r.1@ == summary_heading_of(ct),
        r.2@ == topics_heading_of(ct),
        r.3@ == conclusions_heading_of(ct),
{
    match ct {
        ContentType::Meeting => ("AI 会议纪要", "会议摘要", "主要议题", "关键结论"),
        ContentType::Speech => ("演讲内容整理", "内容摘要", "演讲脉络", "核心观点"),
        ContentType::Lecture => ("讲座内容整理", "内容摘要", "讲座脉络", "核心观点"),
        ContentType::Course => ("课程内容整理", "课程摘要", "知识脉络", "核心知识点"),
        ContentType::Interview => ("访谈内容整理", "访谈摘要", "话题脉络", "关键洞察"),
        ContentType::Report => ("汇报内容整理", "汇报摘要", "内容脉络", "关键结论"),
        ContentType::ArticleMaterial => ("口述素材整理", "内容摘要", "章节结构", "核心观点"),
        ContentType::Other => ("录音内容整理", "内容摘要", "主题脉络", "内容要点"),
    }
}

/// The stable Chinese name of a content type.
pub fn content_type_label(ct: ContentType) -> (r: &'static str)
    ensures
        r@ == content_label_of(ct),
{
    match ct {
        ContentType::Meeting => "会议",
        ContentType::Speech => "演讲",
        ContentType::Lecture => "讲座",
        ContentType::Course => "课程",
        ContentType::Interview => "访谈",
        ContentType::Report => "汇报",
        ContentType::ArticleMaterial => "口述素材",
        ContentType::Other => "其他内容",
    }
}

/// A block of an export section.
pub enum ExportBlock {
    Paragraph(String),
    Entry { label: String, text: String },
    Table { headers: Vec<String>, rows: Vec<Vec<String>> },
}

/// The view of an export block.
pub enum BlockV {
    Paragraph(Seq<char>),
    Entry { label: Seq<char>, text: Seq<char> },
    Table { headers: Seq<Seq<char>>, rows: Seq<Seq<Seq<char>>> },
}

/// The view of the rows of a table.
pub open spec fn rows_view(rows: Seq<Vec<String>>) -> Seq<Seq<Seq<char>>> {
    rows.map_values(|r: Vec<String>| strs_view(r))
}

impl View for ExportBlock {
    type V = BlockV;

    open spec fn view(&self) -> BlockV {
        match self {
            ExportBlock::Paragraph(t) => BlockV::Paragraph(t@),
            ExportBlock::Entry { label, text } => BlockV::Entry { label: label@, text: text@ },
            ExportBlock::Table { headers, rows } => BlockV::Table {
                headers: strs_view(*headers),
                rows: rows_view(rows@),
            },
        }
    }
}

/// The view of a list of blocks.
pub open spec fn blocks_view(v: Seq<ExportBlock>) -> Seq<BlockV> {
    v.map_values(|b: ExportBlock| b@)
}

/// A titled section of an export document.
pub struct ExportSection {
    pub heading: String,
    pub blocks: Vec<ExportBlock>,
    pub page_break_before: bool,
}

/// The view of an export section.
pub struct SectionV {
    pub heading: Seq<char>,
    pub blocks: Seq<BlockV>,
    pub page_break_before: bool,
}

impl View for ExportSection {
    type V = SectionV;

    open spec fn view(&self) -> SectionV {
        SectionV {
            heading: self.heading@,
            blocks: blocks_view(self.blocks@),
            page_break_before: self.page_break_before,
        }
    }
}

/// The view of a list of sections.
pub open spec fn sections_view(v: Seq<ExportSection>) -> Seq<SectionV> {
    v.map_values(|s: ExportSection| s@)
}

/// A format-neutral export document.
pub struct ExportDocument {
    pub title: String,
    pub subtitle: String,
    pub metadata: Vec<(String, String)>,
    pub sections: Vec<ExportSection>,
}

/// The view of an export document.
pub struct DocumentV {
    pub title: Seq<char>,
    pub subtitle: Seq<char>,
    pub metadata: Seq<(Seq<char>, Seq<char>)>,
    pub sections: Seq<SectionV>,
}

/// The view of the metadata pairs.
pub open spec fn pairs_view(v: Seq<(String, String)>) -> Seq<(Seq<char>, Seq<char>)> {
    v.map_values(|p: (String, String)| (p.0@, p.1@))
}

impl View for ExportDocument {
    type V = DocumentV;

    open spec fn view(&self) -> DocumentV {
        DocumentV {
            title: self.title@,
            subtitle: self.subtitle@,
            metadata: pairs_view(self.metadata@),
            sections: sections_view(self.sections@),
        }
    }
}

/// A section that does not start on a new page.
pub open spec fn plain_section(heading: Seq<char>, blocks: Seq<BlockV>) -> SectionV {
    SectionV { heading, blocks, page_break_before: false }
}

/// `s` with every trailing copy of a non-empty `p` removed, as `str::trim_end_matches`.
pub open spec fn trim_end_repeat(s: Seq<char>, p: Seq<char>) -> Seq<char>
    decreases s.len(),
{
    if p.len() > 0 && p.len() <= s.len() && s.subrange(s.len() - p.len(), s.len() as int) == p {
        trim_end_repeat(s.subrange(0, s.len() - p.len()), p)
    } else {
        s
    }
}

/// The label of the `n`-th topic (counted from one), with at least two digits.
pub open spec fn topic_label(n: nat) -> Seq<char> {
    "主题 "@ + decimal_pad2(n)
}

/// A topic's title, followed on its own line by its summary when there is one.
pub open spec fn topic_text(t: TopicV) -> Seq<char> {
    match t.summary {
        Some(s) => t.title + "\n"@ + s,
        None => t.title,
    }
}

/// The blocks of the topic section.
pub open spec fn topic_blocks(topics: Seq<TopicV>) -> Seq<BlockV> {
    if topics.len() == 0 {
        seq![BlockV::Paragraph("未提取到主题内容"@)]
    } else {
        Seq::new(
            topics.len(),
            |i: int| BlockV::Entry { label: topic_label((i + 1) as nat), text: topic_text(topics[i]) },
        )
    }
}

/// A section of conclusions or decisions, each labelled by the heading without a
/// trailing "事项".
pub open spec fn statement_section_of(heading: Seq<char>, stmts: Seq<StatementV>) -> SectionV {
    plain_section(
        heading,
        if stmts.len() == 0 {
            seq![BlockV::Paragraph("无明确内容"@)]
        } else {
            Seq::new(
                stmts.len(),
                |i: int|
                    BlockV::Entry {
                        label: trim_end_repeat(heading, "事项"@),
                        text: stmts[i].content,
                    },
            )
        },
    )
}

/// A value, or "未指定" when it is absent.
pub open spec fn or_unset(o: Option<Seq<char>>) -> Seq<char> {
    match o {
        Some(v) => v,
        None => "未指定"@,
    }
}

/// The table row of an action item: description, owner, and the normalized due date,
/// else the due-date text.
pub open spec fn action_row(a: ActionItemV) -> Seq<Seq<char>> {
    seq![
        a.description,
        or_unset(a.owner),
        or_unset(
            match a.due_date {
                Some(d) => Some(d),
                None => a.due_date_text,
            },
        ),
    ]
}

/// The action-item section: one table, or a note that there is nothing to do.
pub open spec fn action_section_of(items: Seq<ActionItemV>) -> SectionV {
    plain_section(
        "待办事项"@,
        if items.len() == 0 {
            seq![BlockV::Paragraph("无明确待办"@)]
        } else {
            seq![
                BlockV::Table {
                    headers: seq!["事项"@, "负责人"@, "截止日期"@],
                    rows: Seq::new(items.len(), |i: int| action_row(items[i])),
                },
            ]
        },
    )
}

/// The label of a risk or an issue.
pub open spec fn risk_label(k: RiskKind) -> Seq<char> {
    match k {
        RiskKind::Risk => "风险"@,
        RiskKind::Issue => "问题"@,
    }
}

/// A risk's description, then its impact and mitigation on their own lines.
pub open spec fn risk_text(r: RiskV) -> Seq<char> {
    r.description + (match r.impact {
        Some(i) => "\n影响："@ + i,
        None => Seq::<char>::empty(),
    }) + (match r.mitigation {
        Some(m) => "\n应对："@ + m,
        None => Seq::<char>::empty(),
    })
}

/// The risk and issue section.
pub open spec fn risk_section_of(items: Seq<RiskV>) -> SectionV {
    plain_section(
        "风险和问题"@,
        if items.len() == 0 {
            seq![BlockV::Paragraph("无明确风险或问题"@)]
        } else {
            Seq::new(
                items.len(),
                |i: int| BlockV::Entry { label: risk_label(items[i].kind), text: risk_text(items[i]) },
            )
        },
    )
}

/// The structured sections of the minutes: topics and conclusions always; decisions,
/// action items and risks for meetings, and for other content only when present.
pub open spec fn minutes_sections(m: MinutesV, topics_heading: Seq<char>, conclusions_heading: Seq<
    char,
>) -> Seq<SectionV> {
    let meeting = m.content_type == ContentType::Meeting;
    seq![
        plain_section(topics_heading, topic_blocks(m.topics)),
        statement_section_of(conclusions_heading, m.conclusions),
    ] + (if meeting || m.decisions.len() > 0 {
        seq![statement_section_of("决策事项"@, m.decisions)]
    } else {
        Seq::<SectionV>::empty()
    }) + (if meeting || m.action_items.len() > 0 {
        seq![action_section_of(m.action_items)]
    } else {
        Seq::<SectionV>::empty()
    }) + (if meeting || m.risks_and_issues.len() > 0 {
        seq![risk_section_of(m.risks_and_issues)]
    } else {
        Seq::<SectionV>::empty()
    })
}

/// `s` without its trailing copies of `pat`, as `str::trim_end_matches` gives it.
pub fn trim_end_matches_str(s: &str, pat: &str) -> (r: String)
    ensures
        r@ == trim_end_repeat(s@, pat@),
{
    let v = chars_of(s);
    let p = chars_of(pat);
    let ghost sv = v@;
    let ghost pv = p@;
    let mut end: usize = v.len();
    proof {
        assert(sv.subrange(0, end as int) =~= sv);
    }
    if p.len() > 0 {
        loop
            invariant
                end <= v@.len(),
                sv == v@,
                pv == p@,
                p@.len() > 0,
                trim_end_repeat(sv, pv) == trim_end_repeat(sv.subrange(0, end as int), pv),
            ensures
                end <= v@.len(),
                trim_end_repeat(sv, pv) == sv.subrange(0, end as int),
            decreases end,
        {
            if p.len() > end {
                proof {
                    let cur = sv.subrange(0, end as int);
                    assert(trim_end_repeat(cur, pv) == cur);
                }
                break;
            }
            let start = end - p.len();
            let mut k: usize = 0;
            let mut same = true;
            while k < p.len()
                invariant
                    k <= p@.len(),
                    start + p@.len() == end,
                    end <= v@.len(),
                    same == (forall|j: int| 0 <= j < k ==> v@[start + j] == p@[j]),
                decreases p@.len() - k,
            {
                if v[start + k] != p[k] {
                    same = false;
                }
                k = k + 1;
            }
            let ghost cur = sv.subrange(0, end as int);
            proof {
                if same {
                    assert(cur.subrange(cur.len() - pv.len(), cur.len() as int) =~= pv);
                    assert(cur.subrange(0, cur.len() - pv.len()) =~= sv.subrange(0, start as int));
                } else {
                    let j = choose|j: int| 0 <= j < p@.len() && v@[start + j] != p@[j];
                    assert(cur.subrange(cur.len() - pv.len(), cur.len() as int)[j] != pv[j]);
                }
            }
            if !same {
                proof {
                    assert(trim_end_repeat(cur, pv) == cur);
                }
                break;
            }
            end = start;
        }
    }
    let mut out: Vec<char> = Vec::new();
    let mut i: usize = 0;
    while i < end
        invariant
            i <= end <= v@.len(),
            sv == v@,
            out@ == sv.subrange(0, i as int),
        decreases end - i,
    {
        out.push(v[i]);
        i = i + 1;
        proof {
            assert(out@ =~= sv.subrange(0, i as int));
        }
    }
    proof {
        if pv.len() == 0 {
            assert(trim_end_repeat(sv, pv) == sv);
        }
        assert(out@ =~= trim_end_repeat(sv, pv));
    }
    string_from_chars(out.as_slice())
}

/// A section of conclusions or decisions.
pub fn statement_section(heading: &str, statements: &Vec<SupportedStatement>) -> (r: ExportSection)
    ensures
        r@ == statement_section_of(heading@, statements@.map_values(|st: SupportedStatement| st@)),
{
    let ghost sv = statements@.map_values(|st: SupportedStatement| st@);
    let mut blocks: Vec<ExportBlock> = Vec::new();
    if statements.len() == 0 {
        blocks.push(ExportBlock::Paragraph(copy_str("无明确内容")));
        proof {
            assert(blocks_view(blocks@) =~= seq![BlockV::Paragraph("无明确内容"@)]);
        }
    } else {
        let label = trim_end_matches_str(heading, "事项");
        let mut i: usize = 0;
        while i < statements.len()
            invariant
                i <= statements@.len(),
                sv == statements@.map_values(|st: SupportedStatement| st@),
                label@ == trim_end_repeat(heading@, "事项"@),
                blocks@.len() == i,
                forall|j: int|
                    0 <= j < i ==> (#[trigger] blocks@[j])@ == (BlockV::Entry {
                        label: label@,
                        text: sv[j].content,
                    }),
            decreases statements@.len() - i,
        {
            blocks.push(
                ExportBlock::Entry { label: label.clone(), text: statements[i].content.clone() },
            );
            i = i + 1;
        }
        proof {
            assert(blocks_view(blocks@) =~= Seq::new(
                sv.len(),
                |j: int| BlockV::Entry { label: trim_end_repeat(heading@, "事项"@), text: sv[j].content },
            ));
        }
    }
    ExportSection { heading: copy_str(heading), blocks, page_break_before: false }
}

/// The topic section under a heading.
pub fn topics_section(heading: &str, topics: &Vec<Topic>) -> (r: ExportSection)
    ensures
        r@ == plain_section(heading@, topic_blocks(topics@.map_values(|t: Topic| t@))),
{
    let ghost tv = topics@.map_values(|t: Topic| t@);
    let mut blocks: Vec<ExportBlock> = Vec::new();
    if topics.len() == 0 {
        blocks.push(ExportBlock::Paragraph(copy_str("未提取到主题内容")));
        proof {
            assert(blocks_view(blocks@) =~= seq![BlockV::Paragraph("未提取到主题内容"@)]);
        }
    } else {
        let mut i: usize = 0;
        while i < topics.len()
            invariant
                i <= topics@.len(),
                tv == topics@.map_values(|t: Topic| t@),
                blocks@.len() == i,
                forall|j: int|
                    0 <= j < i ==> (#[trigger] blocks@[j])@ == (BlockV::Entry {
                        label: topic_label((j + 1) as nat),
                        text: topic_text(tv[j]),
                    }),
            decreases topics@.len() - i,
        {
            let mut label = copy_str("主题 ");
            push_decimal_pad2(&mut label, (i + 1) as u64);
            let mut text = topics[i].title.clone();
            match &topics[i].summary {
                Some(summary) => {
                    push_char(&mut text, '\n');
                    push_str(&mut text, summary.as_str());
                },
                None => {},
            }
            proof {
                reveal_strlit("\n");
                assert(text@ =~= topic_text(tv[i as int]));
            }
            blocks.push(ExportBlock::Entry { label, text });
            i = i + 1;
        }
        proof {
            assert(blocks_view(blocks@) =~= Seq::new(
                tv.len(),
                |j: int| BlockV::Entry { label: topic_label((j + 1) as nat), text: topic_text(tv[j]) },
            ));
        }
    }
    ExportSection { heading: copy_str(heading), blocks, page_break_before: false }
}

/// A value, or "未指定" when it is absent.
fn value_or_unset(o: &Option<String>) -> (r: String)
    ensures
        r@ == or_unset(opt_view(*o)),
{
    match o {
        Some(v) => v.clone(),
        None => copy_str("未指定"),
    }
}

/// The table row of an action item.
fn action_row_of(item: &ActionItem) -> (r: Vec<String>)
    ensures
        strs_view(r) == action_row(item@),
{
    let due = match &item.due_date {
        Some(d) => Some(d.clone()),
        None => crate::minutes::model::clone_opt(&item.due_date_text),
    };
    let mut row: Vec<String> = Vec::new();
    row.push(item.description.clone());
    row.push(value_or_unset(&item.owner));
    row.push(value_or_unset(&due));
    proof {
        assert(strs_view(row) =~= action_row(item@));
    }
    row
}

/// The action-item section.
pub fn action_section(items: &Vec<ActionItem>) -> (r: ExportSection)
    ensures
        r@ == action_section_of(items@.map_values(|a: ActionItem| a@)),
{
    let ghost av = items@.map_values(|a: ActionItem| a@);
    let mut blocks: Vec<ExportBlock> = Vec::new();
    if items.len() == 0 {
        blocks.push(ExportBlock::Paragraph(copy_str("无明确待办")));
        proof {
            assert(blocks_view(blocks@) =~= seq![BlockV::Paragraph("无明确待办"@)]);
        }
    } else {
        let mut rows: Vec<Vec<String>> = Vec::new();
        let mut i: usize = 0;
        while i < items.len()
            invariant
                i <= items@.len(),
                av == items@.map_values(|a: ActionItem| a@),
                rows@.len() == i,
                forall|j: int| 0 <= j < i ==> strs_view(#[trigger] rows@[j]) == action_row(av[j]),
            decreases items@.len() - i,
        {
            rows.push(action_row_of(&items[i]));
            i = i + 1;
        }
        let mut headers: Vec<String> = Vec::new();
        headers.push(copy_str("事项"));
        headers.push(copy_str("负责人"));
        headers.push(copy_str("截止日期"));
        proof {
            assert(strs_view(headers) =~= seq!["事项"@, "负责人"@, "截止日期"@]);
            assert(rows_view(rows@) =~= Seq::new(av.len(), |j: int| action_row(av[j])));
        }
        blocks.push(ExportBlock::Table { headers, rows });
        proof {
            assert(blocks_view(blocks@) =~= seq![
                BlockV::Table {
                    headers: seq!["事项"@, "负责人"@, "截止日期"@],
                    rows: Seq::new(av.len(), |j: int| action_row(av[j])),
                },
            ]);
        }
    }
    ExportSection { heading: copy_str("待办事项"), blocks, page_break_before: false }
}

/// The text of a risk or an issue.
fn risk_text_of(item: &RiskOrIssue) -> (r: String)
    ensures
        r@ == risk_text(item@),
{
    let mut text = item.description.clone();
    match &item.impact {
        Some(impact) => {
            push_str(&mut text, "\n影响：");
            push_str(&mut text, impact.as_str());
        },
        None => {},
    }
    let ghost mid = text@;
    match &item.mitigation {
        Some(mitigation) => {
            push_str(&mut text, "\n应对：");
            push_str(&mut text, mitigation.as_str());
        },
        None => {},
    }
    proof {
        assert(text@ =~= risk_text(item@));
    }
    text
}

/// The risk and issue section.
pub fn risk_section(items: &Vec<RiskOrIssue>) -> (r: ExportSection)
    ensures
        r@ == risk_section_of(items@.map_values(|x: RiskOrIssue| x@)),
{
    let ghost rv = items@.map_values(|x: RiskOrIssue| x@);
    let mut blocks: Vec<ExportBlock> = Vec::new();
    if items.len() == 0 {
        blocks.push(ExportBlock::Paragraph(copy_str("无明确风险或问题")));
        proof {
            assert(blocks_view(blocks@) =~= seq![BlockV::Paragraph("无明确风险或问题"@)]);
        }
    } else {
        let mut i: usize = 0;
        while i < items.len()
            invariant
                i <= items@.len(),
                rv == items@.map_values(|x: RiskOrIssue| x@),
                blocks@.len() == i,
                forall|j: int|
                    0 <= j < i ==> (#[trigger] blocks@[j])@ == (BlockV::Entry {
                        label: risk_label(rv[j].kind),
                        text: risk_text(rv[j]),
                    }),
            decreases items@.len() - i,
        {
            let label = match items[i].kind {
                RiskKind::Risk => copy_str("风险"),
                RiskKind::Issue => copy_str("问题"),
            };
            blocks.push(ExportBlock::Entry { label, text: risk_text_of(&items[i]) });
            i = i + 1;
        }
        proof {
            assert(blocks_view(blocks@) =~= Seq::new(
                rv.len(),
                |j: int| BlockV::Entry { label: risk_label(rv[j].kind), text: risk_text(rv[j]) },
            ));
        }
    }
    ExportSection { heading: copy_str("风险和问题"), blocks, page_break_before: false }
}

/// Appends a section and keeps the view of the list in step.
fn push_section(sections: &mut Vec<ExportSection>, section: ExportSection)
    ensures
        sections_view(final(sections)@) == sections_view(old(sections)@).push(section@),
{
    sections.push(section);
    proof {
        assert(sections_view(sections@) =~= sections_view(old(sections)@).push(section@));
    }
}

/// Appends the structured minutes as their own sections, so that they do not repeat a
/// separately exported summary.
pub fn append_minutes_sections(
    sections: &mut Vec<ExportSection>,
    minutes: &MeetingMinutes,
    topics_heading: &str,
    conclusions_heading: &str,
)
    ensures
        sections_view(final(sections)@) == sections_view(old(sections)@) + minutes_sections(
            minutes@,
            topics_heading@,
            conclusions_heading@,
        ),
{
    let ghost m = minutes@;
    let meeting = minutes.content_type == ContentType::Meeting;
    push_section(sections, topics_section(topics_heading, &minutes.topics));
    push_section(sections, statement_section(conclusions_heading, &minutes.conclusions));
    let ghost after_two = sections_view(sections@);
    if meeting || minutes.decisions.len() > 0 {
        push_section(sections, statement_section("决策事项", &minutes.decisions));
    }
    let ghost after_decisions = sections_view(sections@);
    if meeting || minutes.action_items.len() > 0 {
        push_section(sections, action_section(&minutes.action_items));
    }
    let ghost after_actions = sections_view(sections@);
    if meeting || minutes.risks_and_issues.len() > 0 {
        push_section(sections, risk_section(&minutes.risks_and_issues));
    }
    proof {
        assert(sections_view(sections@) =~= sections_view(old(sections)@) + minutes_sections(
            m,
            topics_heading@,
            conclusions_heading@,
        ));
    }
}

/// The length at which a transcript paragraph is closed at the next sentence end.
pub const PARAGRAPH_TARGET_CHARS: usize = 180;

/// A timestamp as `MM:SS`, or `HH:MM:SS` from the first hour on.
pub open spec fn timestamp_text(ms: u64) -> Seq<char> {
    let secs = ms / 1000;
    let hours = secs / 3600;
    let minutes = (secs % 3600) / 60;
    let seconds = secs % 60;
    if hours > 0 {
        decimal_pad2(hours as nat) + ":"@ + decimal_pad2(minutes as nat) + ":"@ + decimal_pad2(
            seconds as nat,
        )
    } else {
        decimal_pad2(minutes as nat) + ":"@ + decimal_pad2(seconds as nat)
    }
}

/// Formats a millisecond timestamp for the transcript.
pub fn format_timestamp(milliseconds: u64) -> (r: String)
    ensures
        r@ == timestamp_text(milliseconds),
{
    let secs = milliseconds / 1000;
    let hours = secs / 3600;
    let minutes = (secs % 3600) / 60;
    let seconds = secs % 60;
    let mut out = String::new();
    if hours > 0 {
        push_decimal_pad2(&mut out, hours);
        push_char(&mut out, ':');
    }
    push_decimal_pad2(&mut out, minutes);
    push_char(&mut out, ':');
    push_decimal_pad2(&mut out, seconds);
    proof {
        reveal_strlit(":");
        assert(out@ =~= timestamp_text(milliseconds));
    }
    out
}

/// The label of a transcript segment: its start time and speaker, or the speaker alone.
pub open spec fn segment_label(seg: SegmentV) -> Seq<char> {
    let speaker = match seg.speaker_label {
        Some(s) => s,
        None => "录音内容"@,
    };
    match seg.start_ms {
        Some(ms) => timestamp_text(ms) + "  "@ + speaker,
        None => speaker,
    }
}

/// The entries of the segments whose trimmed text is not empty, in order.
pub open spec fn segment_blocks(segs: Seq<SegmentV>) -> Seq<BlockV>
    decreases segs.len(),
{
    if segs.len() == 0 {
        Seq::empty()
    } else {
        let rest = segment_blocks(segs.drop_last());
        let seg = segs.last();
        if trim(seg.text).len() == 0 {
            rest
        } else {
            rest.push(BlockV::Entry { label: segment_label(seg), text: trim(seg.text) })
        }
    }
}

/// Whether a character closes a sentence.
pub open spec fn ends_sentence(c: char) -> bool {
    c == '。' || c == '！' || c == '？' || c == '；' || c == '.' || c == '!' || c == '?'
}

/// The paragraphs of one line: characters are gathered after `acc`, and a paragraph
/// closes at a sentence end once it holds the target number of characters.
pub open spec fn chunk_line(chars: Seq<char>, acc: Seq<char>) -> Seq<Seq<char>>
    decreases chars.len(),
{
    if chars.len() == 0 {
        if acc.len() == 0 {
            Seq::empty()
        } else {
            seq![acc]
        }
    } else {
        let p = acc.push(chars[0]);
        if p.len() >= PARAGRAPH_TARGET_CHARS && ends_sentence(chars[0]) {
            seq![p] + chunk_line(chars.skip(1), Seq::empty())
        } else {
            chunk_line(chars.skip(1), p)
        }
    }
}

/// The paragraphs of the trimmed, non-empty lines, in order.
pub open spec fn line_paragraphs(lines: Seq<Seq<char>>) -> Seq<Seq<char>>
    decreases lines.len(),
{
    if lines.len() == 0 {
        Seq::empty()
    } else {
        let t = trim(lines.last());
        line_paragraphs(lines.drop_last()) + (if t.len() == 0 {
            Seq::<Seq<char>>::empty()
        } else {
            chunk_line(t, Seq::empty())
        })
    }
}

/// The readable paragraphs of a transcript without segments.
pub open spec fn plain_paragraphs(text: Seq<char>) -> Seq<Seq<char>> {
    line_paragraphs(text_lines(text))
}

/// The transcript blocks: segment entries when there are segments, else the plain
/// paragraphs, else a note that there is no transcript.
pub open spec fn transcript_blocks_of(t: TranscriptV) -> Seq<BlockV> {
    if t.segments.len() > 0 {
        segment_blocks(t.segments)
    } else {
        let ps = plain_paragraphs(t.text);
        if ps.len() == 0 {
            seq![BlockV::Paragraph("无可用逐字稿"@)]
        } else {
            ps.map_values(|p: Seq<char>| BlockV::Paragraph(p))
        }
    }
}

/// Appends the paragraphs of one trimmed line.
fn push_line_paragraphs(out: &mut Vec<String>, line: &[char])
    ensures
        strs_view(*final(out)) == strs_view(*old(out)) + chunk_line(line@, Seq::empty()),
{
    let ghost start = strs_view(*out);
    let ghost lv = line@;
    let mut para: Vec<char> = Vec::new();
    let mut i: usize = 0;
    proof {
        assert(lv.skip(0) =~= lv);
        assert(strs_view(*out) =~= start);
    }
    while i < line.len()
        invariant
            i <= line@.len(),
            lv == line@,
            strs_view(*out) + chunk_line(lv.skip(i as int), para@) == start + chunk_line(
                lv,
                Seq::empty(),
            ),
        decreases line@.len() - i,
    {
        let c = line[i];
        let ghost before = para@;
        let ghost rest = lv.skip(i as int);
        proof {
            assert(rest[0] == c);
            assert(rest.skip(1) =~= lv.skip(i + 1));
        }
        para.push(c);
        if para.len() >= PARAGRAPH_TARGET_CHARS && (c == '。' || c == '！' || c == '？' || c == '；'
            || c == '.' || c == '!' || c == '?') {
            let ghost done = strs_view(*out);
            out.push(string_from_chars(para.as_slice()));
            proof {
                assert(strs_view(*out) =~= done.push(para@));
                assert(chunk_line(rest, before) == seq![para@] + chunk_line(lv.skip(i + 1), Seq::empty()));
                assert(done + chunk_line(rest, before) =~= strs_view(*out) + chunk_line(
                    lv.skip(i + 1),
                    Seq::empty(),
                ));
            }
            para = Vec::new();
            proof {
                assert(para@ =~= Seq::<char>::empty());
            }
        }
        i = i + 1;
    }
    let ghost done = strs_view(*out);
    proof {
        assert(lv.skip(i as int) =~= Seq::<char>::empty());
    }
    if para.len() > 0 {
        out.push(string_from_chars(para.as_slice()));
        proof {
            assert(strs_view(*out) =~= done.push(para@));
            assert(chunk_line(Seq::<char>::empty(), para@) == seq![para@]);
            assert(strs_view(*out) =~= start + chunk_line(lv, Seq::empty()));
        }
    } else {
        proof {
            assert(chunk_line(Seq::<char>::empty(), para@) =~= Seq::<Seq<char>>::empty());
            assert(strs_view(*out) =~= start + chunk_line(lv, Seq::empty()));
        }
    }
}

/// Turns a transcript without segments into readable paragraphs: lines are trimmed,
/// blank lines dropped, and long lines split at sentence ends.
pub fn split_plain_transcript(text: &str) -> (r: Vec<String>)
    ensures
        strs_view(r) == plain_paragraphs(text@),
{
    let lines = text_lines_of(text);
    let ghost lv = lines@.map_values(|l: Vec<char>| l@);
    let mut out: Vec<String> = Vec::new();
    let mut i: usize = 0;
    proof {
        assert(lv.take(0) =~= Seq::<Seq<char>>::empty());
        assert(strs_view(out) =~= Seq::<Seq<char>>::empty());
    }
    while i < lines.len()
        invariant
            i <= lines@.len(),
            lv == lines@.map_values(|l: Vec<char>| l@),
            lv == text_lines(text@),
            strs_view(out) == line_paragraphs(lv.take(i as int)),
        decreases lines@.len() - i,
    {
        let t = trim_chars(lines[i].as_slice());
        proof {
            assert(lv.take(i + 1).drop_last() =~= lv.take(i as int));
            assert(lv.take(i + 1).last() == lines@[i as int]@);
        }
        if t.len() > 0 {
            push_line_paragraphs(&mut out, t.as_slice());
        } else {
            proof {
                assert(line_paragraphs(lv.take(i + 1)) =~= line_paragraphs(lv.take(i as int)));
            }
        }
        i = i + 1;
    }
    proof {
        assert(lv.take(lines@.len() as int) =~= lv);
    }
    out
}

/// The entry of one segment, or nothing when its text is blank.
fn segment_entry(seg: &TranscriptSegment) -> (r: Option<ExportBlock>)
    ensures
        trim(seg@.text).len() == 0 ==> r is None,
        trim(seg@.text).len() > 0 ==> (r matches Some(b) && b@ == (BlockV::Entry {
            label: segment_label(seg@),
            text: trim(seg@.text),
        })),
{
    let v = chars_of(seg.text.as_str());
    let t = trim_chars(v.as_slice());
    if t.len() == 0 {
        return None;
    }
    let speaker = match &seg.speaker_label {
        Some(s) => s.clone(),
        None => copy_str("录音内容"),
    };
    let label = match seg.start_ms {
        Some(ms) => {
            let mut l = format_timestamp(ms);
            push_str(&mut l, "  ");
            push_str(&mut l, speaker.as_str());
            l
        },
        None => speaker,
    };
    proof {
        assert(label@ =~= segment_label(seg@));
    }
    Some(ExportBlock::Entry { label, text: string_from_chars(t.as_slice()) })
}

/// The transcript blocks of a document.
pub fn transcript_blocks(transcript: &Transcript) -> (r: Vec<ExportBlock>)
    ensures
        blocks_view(r@) == transcript_blocks_of(transcript@),
{
    let ghost sv = transcript@.segments;
    let mut blocks: Vec<ExportBlock> = Vec::new();
    if transcript.segments.len() > 0 {
        let mut i: usize = 0;
        proof {
            assert(sv.take(0) =~= Seq::<SegmentV>::empty());
            assert(blocks_view(blocks@) =~= Seq::<BlockV>::empty());
        }
        while i < transcript.segments.len()
            invariant
                i <= transcript.segments@.len(),
                sv == transcript@.segments,
                sv.len() == transcript.segments@.len(),
                blocks_view(blocks@) == segment_blocks(sv.take(i as int)),
            decreases transcript.segments@.len() - i,
        {
            proof {
                assert(sv.take(i + 1).drop_last() =~= sv.take(i as int));
                assert(sv.take(i + 1).last() == transcript.segments@[i as int]@);
            }
            match segment_entry(&transcript.segments[i]) {
                Some(b) => {
                    let ghost before = blocks@;
                    blocks.push(b);
                    proof {
                        assert(blocks_view(blocks@) =~= blocks_view(before).push(b@));
                    }
                },
                None => {},
            }
            i = i + 1;
        }
        proof {
            assert(sv.take(sv.len() as int) =~= sv);
        }
    } else {
        let paragraphs = split_plain_transcript(transcript.text.as_str());
        if paragraphs.len() == 0 {
            blocks.push(ExportBlock::Paragraph(copy_str("无可用逐字稿")));
            proof {
                assert(blocks_view(blocks@) =~= seq![BlockV::Paragraph("无可用逐字稿"@)]);
            }
        } else {
            let ghost pv = strs_view(paragraphs);
            let mut i: usize = 0;
            while i < paragraphs.len()
                invariant
                    i <= paragraphs@.len(),
                    pv == strs_view(paragraphs),
                    blocks@.len() == i,
                    forall|j: int| 0 <= j < i ==> (#[trigger] blocks@[j])@ == BlockV::Paragraph(pv[j]),
                decreases paragraphs@.len() - i,
            {
                blocks.push(ExportBlock::Paragraph(paragraphs[i].clone()));
                i = i + 1;
            }
            proof {
                assert(blocks_view(blocks@) =~= pv.map_values(|p: Seq<char>| BlockV::Paragraph(p)));
            }
        }
    }
    blocks
}

/// The metadata lines: the content type, and for meetings the start time and the
/// participants when known.
pub open spec fn metadata_of(m: MinutesV) -> Seq<(Seq<char>, Seq<char>)> {
    let first = seq![("内容类型"@, content_label_of(m.content_type))];
    if m.content_type == ContentType::Meeting {
        first + (match m.meeting_time.start_at {
            Some(start) => seq![("开始时间"@, start)],
            None => Seq::empty(),
        }) + (if m.participants.len() > 0 {
            seq![("参会人"@, join_labels(m.participants))]
        } else {
            Seq::empty()
        })
    } else {
        first
    }
}

/// The sections of the chosen contents, in a fixed order: summary, minutes, transcript;
/// the transcript starts on a new page when something precedes it.
pub open spec fn document_sections(cs: Seq<ExportContent>, m: MinutesV, t: TranscriptV) -> Seq<
    SectionV,
> {
    let ct = m.content_type;
    let with_summary = if cs.contains(ExportContent::Summary) {
        seq![
            plain_section(
                summary_heading_of(ct),
                seq![
                    BlockV::Paragraph(
                        match m.summary {
                            Some(x) => x,
                            None => "未提取到摘要"@,
                        },
                    ),
                ],
            ),
        ]
    } else {
        Seq::empty()
    };
    let with_minutes = if cs.contains(ExportContent::Minutes) {
        with_summary + minutes_sections(m, topics_heading_of(ct), conclusions_heading_of(ct))
    } else {
        with_summary
    };
    if cs.contains(ExportContent::Transcript) {
        with_minutes.push(
            SectionV {
                heading: "逐字稿"@,
                blocks: transcript_blocks_of(t),
                page_break_before: with_minutes.len() > 0,
            },
        )
    } else {
        with_minutes
    }
}

/// The export document of minutes and their transcript.
pub open spec fn document_of(cs: Seq<ExportContent>, m: MinutesV, t: TranscriptV) -> DocumentV {
    DocumentV {
        title: match m.title {
            Some(x) => x,
            None => subtitle_of(m.content_type),
        },
        subtitle: subtitle_of(m.content_type),
        metadata: metadata_of(m),
        sections: document_sections(cs, m, t),
    }
}

/// Whether a content was selected.
fn has_content(contents: &[ExportContent], c: ExportContent) -> (r: bool)
    ensures
        r == contents@.contains(c),
{
    let mut i: usize = 0;
    while i < contents.len()
        invariant
            i <= contents@.len(),
            forall|j: int| 0 <= j < i ==> contents@[j] != c,
        decreases contents@.len() - i,
    {
        if contents[i] == c {
            proof {
                assert(contents@[i as int] == c);
            }
            return true;
        }
        i = i + 1;
    }
    false
}

/// Joins names with the Chinese enumeration comma.
fn join_names_text(names: &Vec<String>) -> (r: String)
    ensures
        r@ == join_labels(strs_view(*names)),
{
    let ghost nv = strs_view(*names);
    let mut out = String::new();
    let mut i: usize = 0;
    proof {
        assert(nv.take(0) =~= Seq::<Seq<char>>::empty());
    }
    while i < names.len()
        invariant
            i <= names@.len(),
            nv == strs_view(*names),
            nv.len() == names@.len(),
            out@ == join_labels(nv.take(i as int)),
        decreases names@.len() - i,
    {
        proof {
            assert(nv.take(i + 1).drop_last() =~= nv.take(i as int));
            assert(nv.take(i + 1).last() == names@[i as int]@);
        }
        if i > 0 {
            push_str(&mut out, "、");
        }
        push_str(&mut out, names[i].as_str());
        proof {
            if i == 0 {
                assert(nv.take(1) =~= seq![names@[0]@]);
            }
        }
        i = i + 1;
    }
    proof {
        assert(nv.take(nv.len() as int) =~= nv);
    }
    out
}

/// The metadata lines of a document.
fn document_metadata(minutes: &MeetingMinutes) -> (r: Vec<(String, String)>)
    ensures
        pairs_view(r@) == metadata_of(minutes@),
{
    let mut metadata: Vec<(String, String)> = Vec::new();
    metadata.push((copy_str("内容类型"), copy_str(content_type_label(minutes.content_type))));
    let ghost first = pairs_view(metadata@);
    proof {
        assert(first =~= seq![("内容类型"@, content_label_of(minutes.content_type))]);
    }
    if minutes.content_type == ContentType::Meeting {
        match &minutes.meeting_time.start_at {
            Some(start) => {
                metadata.push((copy_str("开始时间"), start.clone()));
            },
            None => {},
        }
        let ghost mid = pairs_view(metadata@);
        proof {
            assert(mid =~= first + (match minutes@.meeting_time.start_at {
                Some(start) => seq![("开始时间"@, start)],
                None => Seq::<(Seq<char>, Seq<char>)>::empty(),
            }));
        }
        if minutes.participants.len() > 0 {
            metadata.push((copy_str("参会人"), join_names_text(&minutes.participants)));
        }
        proof {
            assert(pairs_view(metadata@) =~= metadata_of(minutes@));
        }
    }
    metadata
}

/// Gathers the structured minutes and the transcript into a format-neutral document.
pub fn build_export_document(
    contents: &[ExportContent],
    minutes: &MeetingMinutes,
    transcript: &Transcript,
) -> (r: ExportDocument)
    ensures
        r@ == document_of(contents@, minutes@, transcript@),
{
    let ct = minutes.content_type;
    let (subtitle, summary_heading, topics_heading, conclusions_heading) = content_headings(ct);
    let metadata = document_metadata(minutes);
    let mut sections: Vec<ExportSection> = Vec::new();
    if has_content(contents, ExportContent::Summary) {
        let text = match &minutes.summary {
            Some(x) => x.clone(),
            None => copy_str("未提取到摘要"),
        };
        let mut blocks: Vec<ExportBlock> = Vec::new();
        blocks.push(ExportBlock::Paragraph(text));
        proof {
            assert(blocks_view(blocks@) =~= seq![
                BlockV::Paragraph(
                    match minutes@.summary {
                        Some(x) => x,
                        None => "未提取到摘要"@,
                    },
                ),
            ]);
        }
        push_section(
            &mut sections,
            ExportSection { heading: copy_str(summary_heading), blocks, page_break_before: false },
        );
    }
    proof {
        assert(sections_view(sections@) =~= (if contents@.contains(ExportContent::Summary) {
            seq![
                plain_section(
                    summary_heading_of(ct),
                    seq![
                        BlockV::Paragraph(
                            match minutes@.summary {
                                Some(x) => x,
                                None => "未提取到摘要"@,
                            },
                        ),
                    ],
                ),
            ]
        } else {
            Seq::<SectionV>::empty()
        }));
    }
    if has_content(contents, ExportContent::Minutes) {
        append_minutes_sections(&mut sections, minutes, topics_heading, conclusions_heading);
    }
    if has_content(contents, ExportContent::Transcript) {
        let page_break_before = sections.len() > 0;
        let blocks = transcript_blocks(transcript);
        push_section(
            &mut sections,
            ExportSection { heading: copy_str("逐字稿"), blocks, page_break_before },
        );
    }
    let title = match &minutes.title {
        Some(x) => x.clone(),
        None => copy_str(subtitle),
    };
    let r = ExportDocument { title, subtitle: copy_str(subtitle), metadata, sections };
    proof {
        assert(r@.sections =~= document_sections(contents@, minutes@, transcript@));
    }
    r
}

/// Whether a character stays inside a Latin word of the PDF text.
pub open spec fn is_pdf_word_char(c: char) -> bool {
    ||| ('a' <= c && c <= 'z')
    ||| ('A' <= c && c <= 'Z')
    ||| ('0' <= c && c <= '9')
    ||| c == '_'
    ||| c == '-'
    ||| c == '/'
    ||| c == '.'
    ||| c == ':'
}

/// The line-breakable tokens of PDF text after a pending Latin word: Latin runs stay
/// whole and every other character is a token of its own.
pub open spec fn pdf_tokens_from(chars: Seq<char>, word: Seq<char>) -> Seq<Seq<char>>
    decreases chars.len(),
{
    if chars.len() == 0 {
        if word.len() == 0 {
            Seq::empty()
        } else {
            seq![word]
        }
    } else if is_pdf_word_char(chars[0]) {
        pdf_tokens_from(chars.skip(1), word.push(chars[0]))
    } else {
        (if word.len() == 0 {
            Seq::<Seq<char>>::empty()
        } else {
            seq![word]
        }) + seq![seq![chars[0]]] + pdf_tokens_from(chars.skip(1), Seq::empty())
    }
}

/// The line-breakable tokens of a PDF text.
pub open spec fn pdf_token_list(text: Seq<char>) -> Seq<Seq<char>> {
    pdf_tokens_from(text, Seq::empty())
}

/// Splits text into line-breakable tokens for PDF paragraphs, so that Chinese text can
/// wrap between characters while Latin words and version strings stay whole.
pub fn pdf_tokens(text: &str) -> (r: Vec<String>)
    ensures
        strs_view(r) == pdf_token_list(text@),
{
    let v = chars_of(text);
    let ghost cv = v@;
    let mut tokens: Vec<String> = Vec::new();
    let mut word: Vec<char> = Vec::new();
    let mut i: usize = 0;
    proof {
        assert(cv.skip(0) =~= cv);
        assert(strs_view(tokens) =~= Seq::<Seq<char>>::empty());
    }
    while i < v.len()
        invariant
            i <= v@.len(),
            cv == v@,
            cv == text@,
            strs_view(tokens) + pdf_tokens_from(cv.skip(i as int), word@) == pdf_token_list(cv),
        decreases v@.len() - i,
    {
        let c = v[i];
        let ghost rest = cv.skip(i as int);
        let ghost before = word@;
        proof {
            assert(rest[0] == c);
            assert(rest.skip(1) =~= cv.skip(i + 1));
        }
        if ('a' <= c && c <= 'z') || ('A' <= c && c <= 'Z') || ('0' <= c && c <= '9') || c == '_'
            || c == '-' || c == '/' || c == '.' || c == ':' {
            word.push(c);
        } else {
            let ghost done = strs_view(tokens);
            if word.len() > 0 {
                tokens.push(string_from_chars(word.as_slice()));
                word = Vec::new();
            }
            let mut single = String::new();
            push_char(&mut single, c);
            tokens.push(single);
            proof {
                let pending = if before.len() == 0 {
                    Seq::<Seq<char>>::empty()
                } else {
                    seq![before]
                };
                assert(strs_view(tokens) =~= done + pending + seq![seq![c]]);
                assert(word@ =~= Seq::<char>::empty());
                assert(strs_view(tokens) + pdf_tokens_from(cv.skip(i + 1), word@) =~= done
                    + pdf_tokens_from(rest, before));
            }
        }
        i = i + 1;
    }
    proof {
        assert(cv.skip(i as int) =~= Seq::<char>::empty());
    }
    if word.len() > 0 {
        let ghost done = strs_view(tokens);
        tokens.push(string_from_chars(word.as_slice()));
        proof {
            assert(strs_view(tokens) =~= done.push(word@));
        }
    } else {
        proof {
            assert(strs_view(tokens) + Seq::<Seq<char>>::empty() =~= strs_view(tokens));
        }
    }
    tokens
}

/// A single sequence flattens to itself.
proof fn lemma_flatten_one(x: Seq<char>)
    ensures
        seq![x].flatten() == x,
{
    assert(seq![x].drop_first() =~= Seq::<Seq<char>>::empty());
    assert(Seq::<Seq<char>>::empty().flatten() =~= Seq::<char>::empty());
    assert(seq![x].flatten() == x + seq![x].drop_first().flatten());
    assert(x + Seq::<char>::empty() =~= x);
}

/// The tokens after a pending word give back the word and the characters, none empty.
proof fn lemma_pdf_tokens_from(chars: Seq<char>, word: Seq<char>)
    ensures
        pdf_tokens_from(chars, word).flatten() == word + chars,
        forall|i: int|
            0 <= i < pdf_tokens_from(chars, word).len() ==> (#[trigger] pdf_tokens_from(
                chars,
                word,
            )[i]).len() > 0,
    decreases chars.len(),
{
    if chars.len() == 0 {
        if word.len() == 0 {
            assert(word + chars =~= Seq::<char>::empty());
            assert(Seq::<Seq<char>>::empty().flatten() =~= Seq::<char>::empty());
        } else {
            lemma_flatten_one(word);
            assert(word + chars =~= word);
        }
    } else if is_pdf_word_char(chars[0]) {
        lemma_pdf_tokens_from(chars.skip(1), word.push(chars[0]));
        assert(word.push(chars[0]) + chars.skip(1) =~= word + chars);
    } else {
        let pending = if word.len() == 0 {
            Seq::<Seq<char>>::empty()
        } else {
            seq![word]
        };
        let tail = pdf_tokens_from(chars.skip(1), Seq::empty());
        lemma_pdf_tokens_from(chars.skip(1), Seq::empty());
        lemma_flatten_concat(pending + seq![seq![chars[0]]], tail);
        lemma_flatten_concat(pending, seq![seq![chars[0]]]);
        if word.len() == 0 {
            assert(pending.flatten() =~= Seq::<char>::empty());
        } else {
            lemma_flatten_one(word);
        }
        lemma_flatten_one(seq![chars[0]]);
        assert(Seq::<char>::empty() + chars.skip(1) =~= chars.skip(1));
        assert(word + seq![chars[0]] + chars.skip(1) =~= word + chars);
        let all = pending + seq![seq![chars[0]]] + tail;
        assert forall|i: int| 0 <= i < all.len() implies (#[trigger] all[i]).len() > 0 by {
            if i >= pending.len() + 1 {
                assert(all[i] == tail[i - pending.len() - 1]);
            }
        }
    }
}

/// Splitting text into PDF tokens loses nothing and adds nothing: the tokens joined
/// again are the text, and no token is empty.
pub proof fn law_pdf_tokens_keep_text(text: Seq<char>)
    ensures
        pdf_token_list(text).flatten() == text,
        forall|i: int|
            0 <= i < pdf_token_list(text).len() ==> (#[trigger] pdf_token_list(text)[i]).len() > 0,
{
    lemma_pdf_tokens_from(text, Seq::empty());
    assert(Seq::<char>::empty() + text =~= text);
}

/// Every risk becomes one labelled entry of the risk section, and its text keeps every
/// field: it starts with the description, holds "\n影响：" and the impact when there is
/// one, and ends with "\n应对：" and the mitigation when there is one.
pub proof fn law_risk_entries_keep_every_field(items: Seq<RiskV>, k: int)
    requires
        0 <= k < items.len(),
    ensures
        risk_section_of(items).blocks[k] matches BlockV::Entry { label, text } && label == risk_label(items[k].kind)
            && crate::text::starts_with(text, items[k].description) && (items[k].impact matches Some(i)
            ==> crate::text::contains(text, "\n影响："@ + i)) && (items[k].mitigation matches Some(m)
            ==> crate::text::ends_with(text, "\n应对："@ + m)),
{
    let r = items[k];
    let imp = match r.impact {
        Some(i) => "\n影响："@ + i,
        None => Seq::<char>::empty(),
    };
    let mit = match r.mitigation {
        Some(m) => "\n应对："@ + m,
        None => Seq::<char>::empty(),
    };
    let text = risk_text(r);
    assert(text =~= r.description + imp + mit);
    assert(text.subrange(0, r.description.len() as int) =~= r.description);
    assert(text.subrange(r.description.len() as int, (r.description.len() + imp.len()) as int) =~= imp);
    assert(crate::text::occurs_at(text, imp, r.description.len() as int));
    assert(text.subrange(text.len() - mit.len(), text.len() as int) =~= mit);
    assert(risk_section_of(items).blocks[k] == BlockV::Entry { label: risk_label(items[k].kind), text: risk_text(items[k]) });
}

} // verus!
