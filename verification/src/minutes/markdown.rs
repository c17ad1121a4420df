//! Markdown rendering of validated minutes, in a fixed section order, with every
//! user-visible value escaped; the transcript is never an input.

use vstd::prelude::*;

use super::model::{
    ActionItem, ActionItemV, ContentType, MeetingMinutes, MinutesV, RiskKind, RiskOrIssue, RiskV,
    StatementV, SupportedStatement, Topic, TopicV,
};
use crate::export::{
    content_headings, content_label_of, content_type_label, conclusions_heading_of,
    topics_heading_of,
};
use crate::text::{chars_of, decimal, push_char, push_decimal, push_str};

verus! {

/// What one character becomes in escaped Markdown: inline control characters are
/// backslash-escaped, HTML-significant characters become entities, and line breaks
/// become spaces.
pub open spec fn escape_char(c: char) -> Seq<char> {
    if c == '&' {
        seq!['&', 'a', 'm', 'p', ';']
    } else if c == '<' {
        seq!['&', 'l', 't', ';']
    } else if c == '>' {
        seq!['&', 'g', 't', ';']
    } else if c == '\\' || c == '`' || c == '*' || c == '_' || c == '[' || c == ']' {
        seq!['\\', c]
    } else if c == '\r' || c == '\n' {
        seq![' ']
    } else {
        seq![c]
    }
}

/// What one character becomes in an escaped table cell: additionally `|` is escaped.
pub open spec fn escape_cell_char(c: char) -> Seq<char> {
    if c == '|' {
        seq!['\\', '|']
    } else {
        escape_char(c)
    }
}

/// A text escaped character by character, for a table cell when `cell` holds.
pub open spec fn escape_text(s: Seq<char>, cell: bool) -> Seq<char>
    decreases s.len(),
{
    if s.len() == 0 {
        seq![]
    } else {
        escape_text(s.drop_last(), cell) + if cell {
            escape_cell_char(s.last())
        } else {
            escape_char(s.last())
        }
    }
}

/// Escaped inline Markdown text.
pub open spec fn escape_markdown(s: Seq<char>) -> Seq<char> {
    escape_text(s, false)
}

/// Escaped Markdown table-cell text.
pub open spec fn escape_table_cell(s: Seq<char>) -> Seq<char> {
    escape_text(s, true)
}

/// Lines joined by line breaks.
pub open spec fn join_lines(lines: Seq<Seq<char>>) -> Seq<char>
    decreases lines.len(),
{
    if lines.len() == 0 {
        seq![]
    } else if lines.len() == 1 {
        lines[0]
    } else {
        join_lines(lines.drop_last()) + seq!['\n'] + lines.last()
    }
}

/// An optional value escaped, or the "not provided" placeholder.
pub open spec fn render_optional(v: Option<Seq<char>>) -> Seq<char> {
    match v {
        Some(s) => escape_markdown(s),
        None => "未提供"@,
    }
}

/// Escaped values separated by the Chinese enumeration comma.
pub open spec fn join_names(names: Seq<Seq<char>>) -> Seq<char>
    decreases names.len(),
{
    if names.len() == 0 {
        seq![]
    } else if names.len() == 1 {
        escape_markdown(names[0])
    } else {
        join_names(names.drop_last()) + "、"@ + escape_markdown(names.last())
    }
}

/// The numbered line of topic `i`.
pub open spec fn topic_line(t: TopicV, i: int) -> Seq<char> {
    decimal((i + 1) as nat) + ". **"@ + escape_markdown(t.title) + "**"@ + match t.summary {
        Some(s) => "："@ + escape_markdown(s),
        None => seq![],
    }
}

/// The bullet line of a statement.
pub open spec fn statement_line(s: StatementV) -> Seq<char> {
    "- "@ + escape_markdown(s.content)
}

/// The table row of an action item; the due date prefers the normalized date.
pub open spec fn action_row(a: ActionItemV) -> Seq<char> {
    let owner = match a.owner {
        Some(o) => o,
        None => "未指定"@,
    };
    let due = match a.due_date {
        Some(d) => d,
        None => match a.due_date_text {
            Some(d) => d,
            None => "未指定"@,
        },
    };
    "| "@ + escape_table_cell(a.description) + " | "@ + escape_table_cell(owner) + " | "@
        + escape_table_cell(due) + " |"@
}

/// The label of a risk kind.
pub open spec fn risk_label(k: RiskKind) -> Seq<char> {
    match k {
        RiskKind::Risk => "风险"@,
        RiskKind::Issue => "问题"@,
    }
}

/// The bullet line of a risk or issue.
pub open spec fn risk_line(r: RiskV) -> Seq<char> {
    "- **"@ + risk_label(r.kind) + "**："@ + escape_markdown(r.description) + match r.impact {
        Some(s) => "；影响："@ + escape_markdown(s),
        None => seq![],
    } + match r.mitigation {
        Some(s) => "；原文措施："@ + escape_markdown(s),
        None => seq![],
    }
}

/// The opening of a section: a blank line, then a level-two heading and a blank line.
pub open spec fn section_open(heading: Seq<char>) -> Seq<char> {
    "\n\n## "@ + heading + "\n\n"@
}

/// The title line and the metadata lines.
pub open spec fn header_text(m: MinutesV) -> Seq<char> {
    let title = match m.title {
        Some(t) => t,
        None => "会议纪要"@,
    };
    "# "@ + escape_markdown(title) + "\n\n"@ + if m.content_type == ContentType::Meeting {
        "- 会议开始："@ + render_optional(m.meeting_time.start_at) + "\n- 会议结束："@
            + render_optional(m.meeting_time.end_at) + "\n- 参会人："@ + if m.participants.len()
            == 0 {
            "未提供"@
        } else {
            join_names(m.participants)
        }
    } else {
        "- 内容类型："@ + content_label_of(m.content_type)
    }
}

/// The summary section.
pub open spec fn summary_text(m: MinutesV) -> Seq<char> {
    section_open(
        if m.content_type == ContentType::Meeting {
            "会议摘要"@
        } else {
            "内容概览"@
        },
    ) + render_optional(m.summary)
}

/// The topic section.
pub open spec fn topics_text(m: MinutesV) -> Seq<char> {
    section_open(topics_heading_of(m.content_type)) + if m.topics.len() == 0 {
        if m.content_type == ContentType::Meeting {
            "无明确议题"@
        } else {
            "未提取到主题内容"@
        }
    } else {
        join_lines(Seq::new(m.topics.len(), |i: int| topic_line(m.topics[i], i)))
    }
}

/// A conclusion or decision section.
pub open spec fn statements_text(heading: Seq<char>, items: Seq<StatementV>) -> Seq<char> {
    section_open(heading) + if items.len() == 0 {
        "无明确内容"@
    } else {
        join_lines(items.map_values(|s: StatementV| statement_line(s)))
    }
}

/// The action-item section.
pub open spec fn actions_text(items: Seq<ActionItemV>) -> Seq<char> {
    section_open("待办事项"@) + if items.len() == 0 {
        "无明确待办"@
    } else {
        "| 事项 | 负责人 | 截止日期 |\n| --- | --- | --- |\n"@ + join_lines(
            items.map_values(|a: ActionItemV| action_row(a)),
        )
    }
}

/// The risk and issue section.
pub open spec fn risks_text(items: Seq<RiskV>) -> Seq<char> {
    section_open("风险和问题"@) + if items.len() == 0 {
        "无明确风险或问题"@
    } else {
        join_lines(items.map_values(|r: RiskV| risk_line(r)))
    }
}

/// Whether a meeting-only section appears: always for meetings, otherwise only when
/// it has content.
pub open spec fn shows_section(ct: ContentType, len: nat) -> bool {
    ct == ContentType::Meeting || len > 0
}

/// The whole Markdown document of the minutes.
pub open spec fn minutes_markdown(m: MinutesV) -> Seq<char> {
    header_text(m) + summary_text(m) + topics_text(m) + statements_text(
        conclusions_heading_of(m.content_type),
        m.conclusions,
    ) + if shows_section(m.content_type, m.decisions.len()) {
        statements_text("决策事项"@, m.decisions)
    } else {
        seq![]
    } + if shows_section(m.content_type, m.action_items.len()) {
        actions_text(m.action_items)
    } else {
        seq![]
    } + if shows_section(m.content_type, m.risks_and_issues.len()) {
        risks_text(m.risks_and_issues)
    } else {
        seq![]
    } + "\n"@
}

/// Appends the escaped form of one character.
fn push_escaped_char(out: &mut String, c: char, cell: bool)
    ensures
        final(out)@ == old(out)@ + if cell {
            escape_cell_char(c)
        } else {
            escape_char(c)
        },
{
    let ghost start = out@;
    if cell && c == '|' {
        push_char(out, '\\');
        push_char(out, '|');
    } else if c == '&' {
        push_char(out, '&');
        push_char(out, 'a');
        push_char(out, 'm');
        push_char(out, 'p');
        push_char(out, ';');
    } else if c == '<' {
        push_char(out, '&');
        push_char(out, 'l');
        push_char(out, 't');
        push_char(out, ';');
    } else if c == '>' {
        push_char(out, '&');
        push_char(out, 'g');
        push_char(out, 't');
        push_char(out, ';');
    } else if c == '\\' || c == '`' || c == '*' || c == '_' || c == '[' || c == ']' {
        push_char(out, '\\');
        push_char(out, c);
    } else if c == '\r' || c == '\n' {
        push_char(out, ' ');
    } else {
        push_char(out, c);
    }
    proof {
        let e = if cell {
            escape_cell_char(c)
        } else {
            escape_char(c)
        };
        assert(out@ =~= start + e);
    }
}

/// Appends an escaped text (for a table cell when `cell` holds).
fn push_escaped(out: &mut String, s: &str, cell: bool)
    ensures
        final(out)@ == old(out)@ + escape_text(s@, cell),
{
    let v = chars_of(s);
    let ghost start = out@;
    let mut i: usize = 0;
    while i < v.len()
        invariant
            0 <= i <= v@.len(),
            v@ == s@,
            out@ == start + escape_text(v@.take(i as int), cell),
        decreases v@.len() - i,
    {
        let ghost before = out@;
        push_escaped_char(out, v[i], cell);
        proof {
            let t = v@.take(i + 1);
            assert(t.drop_last() =~= v@.take(i as int));
            assert(t.last() == v@[i as int]);
            assert(out@ =~= start + escape_text(t, cell));
        }
        i = i + 1;
    }
    proof {
        assert(v@.take(v@.len() as int) =~= v@);
    }
}

/// Appends an optional value escaped, or the placeholder.
fn push_optional(out: &mut String, v: &Option<String>)
    ensures
        final(out)@ == old(out)@ + render_optional(super::model::opt_view(*v)),
{
    match v {
        Some(s) => push_escaped(out, s.as_str(), false),
        None => push_str(out, "未提供"),
    }
}

/// Appends the participant names joined by the enumeration comma.
fn push_names(out: &mut String, names: &Vec<String>)
    ensures
        final(out)@ == old(out)@ + join_names(super::model::strs_view(*names)),
{
    let ghost sv = super::model::strs_view(*names);
    let ghost start = out@;
    let mut i: usize = 0;
    while i < names.len()
        invariant
            0 <= i <= names@.len(),
            sv == super::model::strs_view(*names),
            sv.len() == names@.len(),
            out@ == start + join_names(sv.take(i as int)),
        decreases names@.len() - i,
    {
        if i > 0 {
            push_str(out, "、");
        }
        push_escaped(out, names[i].as_str(), false);
        proof {
            let t = sv.take(i + 1);
            assert(t.drop_last() =~= sv.take(i as int));
            assert(t.last() == names@[i as int]@);
            if i == 0 {
                assert(sv.take(0) =~= Seq::<Seq<char>>::empty());
            }
            assert(out@ =~= start + join_names(t));
        }
        i = i + 1;
    }
    proof {
        assert(sv.take(sv.len() as int) =~= sv);
    }
}

/// Appends the numbered topic lines.
#[verifier::rlimit(50)]
fn push_topics(out: &mut String, topics: &Vec<Topic>)
    ensures
        final(out)@ == old(out)@ + join_lines(
            Seq::new(topics@.len(), |i: int| topic_line(topics@[i]@, i)),
        ),
{
    let ghost lines = Seq::new(topics@.len(), |i: int| topic_line(topics@[i]@, i));
    let ghost start = out@;
    let mut i: usize = 0;
    while i < topics.len()
        invariant
            0 <= i <= topics@.len(),
            lines == Seq::new(topics@.len(), |i: int| topic_line(topics@[i]@, i)),
            out@ == start + join_lines(lines.take(i as int)),
        decreases topics@.len() - i,
    {
        let ghost before = out@;
        if i > 0 {
            push_char(out, '\n');
        }
        let ghost mid = out@;
        let t = &topics[i];
        push_decimal(out, (i + 1) as u64);
        push_str(out, ". **");
        push_escaped(out, t.title.as_str(), false);
        push_str(out, "**");
        match &t.summary {
            Some(s) => {
                push_str(out, "：");
                push_escaped(out, s.as_str(), false);
            },
            None => {},
        }
        proof {
            assert(out@ =~= mid + topic_line(topics@[i as int]@, i as int));
            let tk = lines.take(i + 1);
            assert(tk.drop_last() =~= lines.take(i as int));
            assert(tk.last() == topic_line(topics@[i as int]@, i as int));
            if i == 0 {
                assert(lines.take(0) =~= Seq::<Seq<char>>::empty());
            }
            assert(out@ =~= start + join_lines(tk));
        }
        i = i + 1;
    }
    proof {
        assert(lines.take(lines.len() as int) =~= lines);
    }
}

/// Appends a conclusion or decision section.
fn push_statements(out: &mut String, heading: &str, items: &Vec<SupportedStatement>)
    ensures
        final(out)@ == old(out)@ + statements_text(
            heading@,
            items@.map_values(|s: SupportedStatement| s@),
        ),
{
    let ghost sv = items@.map_values(|s: SupportedStatement| s@);
    let ghost lines = sv.map_values(|s: StatementV| statement_line(s));
    let ghost start = out@;
    push_str(out, "\n\n## ");
    push_str(out, heading);
    push_str(out, "\n\n");
    let ghost opened = out@;
    if items.len() == 0 {
        push_str(out, "无明确内容");
        proof {
            assert(out@ =~= start + statements_text(heading@, sv));
        }
        return;
    }
    let mut i: usize = 0;
    while i < items.len()
        invariant
            0 <= i <= items@.len(),
            sv == items@.map_values(|s: SupportedStatement| s@),
            lines == sv.map_values(|s: StatementV| statement_line(s)),
            out@ == opened + join_lines(lines.take(i as int)),
        decreases items@.len() - i,
    {
        if i > 0 {
            push_char(out, '\n');
        }
        let ghost mid = out@;
        push_str(out, "- ");
        push_escaped(out, items[i].content.as_str(), false);
        proof {
            assert(out@ =~= mid + statement_line(sv[i as int]));
            let tk = lines.take(i + 1);
            assert(tk.drop_last() =~= lines.take(i as int));
            if i == 0 {
                assert(lines.take(0) =~= Seq::<Seq<char>>::empty());
            }
            assert(out@ =~= opened + join_lines(tk));
        }
        i = i + 1;
    }
    proof {
        assert(lines.take(lines.len() as int) =~= lines);
        assert(out@ =~= start + statements_text(heading@, sv));
    }
}

/// Appends the table row of one action item.
fn push_action_row(out: &mut String, a: &ActionItem)
    ensures
        final(out)@ == old(out)@ + action_row(a@),
{
    let ghost start = out@;
    push_str(out, "| ");
    push_escaped(out, a.description.as_str(), true);
    push_str(out, " | ");
    match &a.owner {
        Some(o) => push_escaped(out, o.as_str(), true),
        None => push_escaped(out, "未指定", true),
    }
    push_str(out, " | ");
    match &a.due_date {
        Some(d) => push_escaped(out, d.as_str(), true),
        None => match &a.due_date_text {
            Some(d) => push_escaped(out, d.as_str(), true),
            None => push_escaped(out, "未指定", true),
        },
    }
    push_str(out, " |");
    proof {
        assert(out@ =~= start + action_row(a@));
    }
}

/// Appends the action-item section.
fn push_actions(out: &mut String, items: &Vec<ActionItem>)
    ensures
        final(out)@ == old(out)@ + actions_text(items@.map_values(|a: ActionItem| a@)),
{
    let ghost sv = items@.map_values(|a: ActionItem| a@);
    let ghost lines = sv.map_values(|a: ActionItemV| action_row(a));
    let ghost start = out@;
    push_str(out, "\n\n## ");
    push_str(out, "待办事项");
    push_str(out, "\n\n");
    if items.len() == 0 {
        push_str(out, "无明确待办");
        proof {
            assert(out@ =~= start + actions_text(sv));
        }
        return;
    }
    push_str(out, "| 事项 | 负责人 | 截止日期 |\n| --- | --- | --- |\n");
    let ghost opened = out@;
    let mut i: usize = 0;
    while i < items.len()
        invariant
            0 <= i <= items@.len(),
            sv == items@.map_values(|a: ActionItem| a@),
            lines == sv.map_values(|a: ActionItemV| action_row(a)),
            out@ == opened + join_lines(lines.take(i as int)),
        decreases items@.len() - i,
    {
        if i > 0 {
            push_char(out, '\n');
        }
        let ghost mid = out@;
        push_action_row(out, &items[i]);
        proof {
            let tk = lines.take(i + 1);
            assert(tk.drop_last() =~= lines.take(i as int));
            if i == 0 {
                assert(lines.take(0) =~= Seq::<Seq<char>>::empty());
            }
            assert(out@ =~= opened + join_lines(tk));
        }
        i = i + 1;
    }
    proof {
        assert(lines.take(lines.len() as int) =~= lines);
        assert(out@ =~= start + actions_text(sv));
    }
}

/// Appends the line of one risk or issue.
fn push_risk_line(out: &mut String, r: &RiskOrIssue)
    ensures
        final(out)@ == old(out)@ + risk_line(r@),
{
    let ghost start = out@;
    push_str(out, "- **");
    match r.kind {
        RiskKind::Risk => push_str(out, "风险"),
        RiskKind::Issue => push_str(out, "问题"),
    }
    push_str(out, "**：");
    push_escaped(out, r.description.as_str(), false);
    match &r.impact {
        Some(s) => {
            push_str(out, "；影响：");
            push_escaped(out, s.as_str(), false);
        },
        None => {},
    }
    match &r.mitigation {
        Some(s) => {
            push_str(out, "；原文措施：");
            push_escaped(out, s.as_str(), false);
        },
        None => {},
    }
    proof {
        assert(out@ =~= start + risk_line(r@));
    }
}

/// Appends the risk and issue section.
fn push_risks(out: &mut String, items: &Vec<RiskOrIssue>)
    ensures
        final(out)@ == old(out)@ + risks_text(items@.map_values(|r: RiskOrIssue| r@)),
{
    let ghost sv = items@.map_values(|r: RiskOrIssue| r@);
    let ghost lines = sv.map_values(|r: RiskV| risk_line(r));
    let ghost start = out@;
    push_str(out, "\n\n## ");
    push_str(out, "风险和问题");
    push_str(out, "\n\n");
    let ghost opened = out@;
    if items.len() == 0 {
        push_str(out, "无明确风险或问题");
        proof {
            assert(out@ =~= start + risks_text(sv));
        }
        return;
    }
    let mut i: usize = 0;
    while i < items.len()
        invariant
            0 <= i <= items@.len(),
            sv == items@.map_values(|r: RiskOrIssue| r@),
            lines == sv.map_values(|r: RiskV| risk_line(r)),
            out@ == opened + join_lines(lines.take(i as int)),
        decreases items@.len() - i,
    {
        if i > 0 {
            push_char(out, '\n');
        }
        push_risk_line(out, &items[i]);
        proof {
            let tk = lines.take(i + 1);
            assert(tk.drop_last() =~= lines.take(i as int));
            if i == 0 {
                assert(lines.take(0) =~= Seq::<Seq<char>>::empty());
            }
            assert(out@ =~= opened + join_lines(tk));
        }
        i = i + 1;
    }
    proof {
        assert(lines.take(lines.len() as int) =~= lines);
        assert(out@ =~= start + risks_text(sv));
    }
}

/// Appends the title and metadata lines.
#[verifier::rlimit(50)]
fn push_header(out: &mut String, minutes: &MeetingMinutes)
    ensures
        final(out)@ == old(out)@ + header_text(minutes@),
{
    let ghost start = out@;
    let is_meeting = minutes.content_type == ContentType::Meeting;
    push_str(out, "# ");
    match &minutes.title {
        Some(t) => push_escaped(out, t.as_str(), false),
        None => push_escaped(out, "会议纪要", false),
    }
    push_str(out, "\n\n");
    let ghost mid = out@;
    if is_meeting {
        push_str(out, "- 会议开始：");
        push_optional(out, &minutes.meeting_time.start_at);
        push_str(out, "\n- 会议结束：");
        push_optional(out, &minutes.meeting_time.end_at);
        push_str(out, "\n- 参会人：");
        if minutes.participants.len() == 0 {
            push_str(out, "未提供");
        } else {
            push_names(out, &minutes.participants);
        }
    } else {
        push_str(out, "- 内容类型：");
        push_str(out, content_type_label(minutes.content_type));
    }
    proof {
        assert(out@ =~= start + header_text(minutes@));
    }
}

/// Renders validated minutes as Markdown in a fixed section order.
///
/// Meetings show their time and participants and always list the summary, topic,
/// conclusion, decision, action-item and risk sections; other content types show
/// their content type, use content headings, and leave out empty decision,
/// action-item and risk sections. Every user-visible value is escaped.
pub fn render_minutes_markdown(minutes: &MeetingMinutes) -> (r: String)
    ensures
        r@ == minutes_markdown(minutes@),
{
    let ghost m = minutes@;
    let headings = content_headings(minutes.content_type);
    let ct = minutes.content_type;
    let is_meeting = ct == ContentType::Meeting;
    let mut out = String::new();
    push_header(&mut out, minutes);
    let ghost p1 = out@;
    push_str(&mut out, "\n\n## ");
    if is_meeting {
        push_str(&mut out, "会议摘要");
    } else {
        push_str(&mut out, "内容概览");
    }
    push_str(&mut out, "\n\n");
    push_optional(&mut out, &minutes.summary);
    proof {
        assert(out@ =~= p1 + summary_text(m));
    }
    let ghost p2 = out@;
    push_str(&mut out, "\n\n## ");
    push_str(&mut out, headings.2);
    push_str(&mut out, "\n\n");
    if minutes.topics.len() == 0 {
        if is_meeting {
            push_str(&mut out, "无明确议题");
        } else {
            push_str(&mut out, "未提取到主题内容");
        }
    } else {
        push_topics(&mut out, &minutes.topics);
    }
    proof {
        assert(Seq::new(m.topics.len(), |i: int| topic_line(m.topics[i], i)) =~= Seq::new(
            minutes.topics@.len(),
            |i: int| topic_line(minutes.topics@[i]@, i),
        ));
        assert(out@ =~= p2 + topics_text(m));
    }
    let ghost p3 = out@;
    push_statements(&mut out, headings.3, &minutes.conclusions);
    let ghost p4 = out@;
    if is_meeting || minutes.decisions.len() > 0 {
        push_statements(&mut out, "决策事项", &minutes.decisions);
    }
    let ghost p5 = out@;
    if is_meeting || minutes.action_items.len() > 0 {
        push_actions(&mut out, &minutes.action_items);
    }
    let ghost p6 = out@;
    if is_meeting || minutes.risks_and_issues.len() > 0 {
        push_risks(&mut out, &minutes.risks_and_issues);
    }
    let ghost p7 = out@;
    push_char(&mut out, '\n');
    proof {
        reveal_strlit("\n");
        assert(p1 =~= header_text(m));
        assert(out@ =~= minutes_markdown(m));
    }
    out
}

/// Whether a character could open an HTML tag or break a Markdown line.
pub open spec fn is_markup_char(c: char) -> bool {
    c == '<' || c == '>' || c == '\n' || c == '\r'
}

/// Escaped text never holds a raw `<`, `>` or line break, whatever the input: no HTML
/// tag and no new Markdown block can come out of a user-visible value.
pub proof fn law_escaped_text_has_no_markup(s: Seq<char>, cell: bool)
    ensures
        forall|i: int|
            0 <= i < escape_text(s, cell).len() ==> !is_markup_char(#[trigger] escape_text(s, cell)[i]),
    decreases s.len(),
{
    if s.len() > 0 {
        law_escaped_text_has_no_markup(s.drop_last(), cell);
        let p = escape_text(s.drop_last(), cell);
        let c = s.last();
        let e = if cell {
            escape_cell_char(c)
        } else {
            escape_char(c)
        };
        assert(forall|k: int| 0 <= k < e.len() ==> !is_markup_char(#[trigger] e[k]));
        assert(escape_text(s, cell) == p + e);
        assert forall|i: int| 0 <= i < escape_text(s, cell).len() implies !is_markup_char(
            #[trigger] escape_text(s, cell)[i],
        ) by {
            if i < p.len() {
                assert(escape_text(s, cell)[i] == p[i]);
            } else {
                assert(escape_text(s, cell)[i] == e[i - p.len()]);
            }
        }
    }
}

/// Rendered minutes open with their escaped title line, and a meeting's summary section
/// (the "会议摘要" heading and the escaped summary) follows the header directly.
pub proof fn law_markdown_opens_with_title_and_summary(m: MinutesV)
    ensures
        m.title matches Some(t) ==> crate::text::starts_with(minutes_markdown(m), "# "@ + escape_markdown(t) + "\n\n"@),
        m.content_type == ContentType::Meeting ==> crate::text::occurs_at(
            minutes_markdown(m),
            section_open("会议摘要"@) + render_optional(m.summary),
            header_text(m).len() as int,
        ),
{
    let md = minutes_markdown(m);
    let h = header_text(m);
    let st = summary_text(m);
    lemma_prefix_of_sum(h + st, md.subrange((h + st).len() as int, md.len() as int));
    assert(md =~= (h + st) + md.subrange((h + st).len() as int, md.len() as int));
    assert(md.subrange(0, (h + st).len() as int) =~= h + st);
    if let Some(t) = m.title {
        let line = "# "@ + escape_markdown(t) + "\n\n"@;
        assert(h =~= line + h.subrange(line.len() as int, h.len() as int));
        assert(md.subrange(0, line.len() as int) =~= line);
    }
    if m.content_type == ContentType::Meeting {
        assert(md.subrange(h.len() as int, (h.len() + st.len()) as int) =~= st);
    }
}

/// The first part of a concatenation is its prefix.
proof fn lemma_prefix_of_sum(a: Seq<char>, b: Seq<char>)
    ensures
        (a + b).subrange(0, a.len() as int) =~= a,
{
}

/// Each line of a list occurs in the lines joined.
proof fn lemma_join_lines_contains(lines: Seq<Seq<char>>, k: int)
    requires
        0 <= k < lines.len(),
    ensures
        crate::text::contains(join_lines(lines), lines[k]),
    decreases lines.len(),
{
    let j = join_lines(lines);
    if lines.len() == 1 {
        assert(j.subrange(0, lines[0].len() as int) =~= lines[0]);
        assert(crate::text::occurs_at(j, lines[k], 0));
    } else {
        let p = join_lines(lines.drop_last());
        assert(j == p + seq!['\n'] + lines.last());
        if k == lines.len() - 1 {
            let at = p.len() + 1;
            assert(j.subrange(at as int, (at + lines[k].len()) as int) =~= lines[k]);
            assert(crate::text::occurs_at(j, lines[k], at as int));
        } else {
            assert(lines.drop_last()[k] == lines[k]);
            lemma_join_lines_contains(lines.drop_last(), k);
            let at = choose|at: int| crate::text::occurs_at(p, lines[k], at);
            assert(j.subrange(at, at + lines[k].len()) =~= p.subrange(at, at + lines[k].len()));
            assert(crate::text::occurs_at(j, lines[k], at));
        }
    }
}

/// A risk's Markdown line keeps every field: it opens with the bold kind label and the
/// escaped description, holds the escaped impact after "；影响：" when there is one, and
/// ends with the escaped mitigation after "；原文措施：" when there is one; the risk
/// section holds the line of every risk.
pub proof fn law_risk_lines_keep_every_field(items: Seq<RiskV>, k: int)
    requires
        0 <= k < items.len(),
    ensures
        crate::text::starts_with(
            risk_line(items[k]),
            "- **"@ + risk_label(items[k].kind) + "**："@ + escape_markdown(items[k].description),
        ),
        items[k].impact matches Some(i) ==> crate::text::contains(risk_line(items[k]), "；影响："@ + escape_markdown(i)),
        items[k].mitigation matches Some(m) ==> crate::text::ends_with(
            risk_line(items[k]),
            "；原文措施："@ + escape_markdown(m),
        ),
        crate::text::contains(risks_text(items), risk_line(items[k])),
{
    let r = items[k];
    let head = "- **"@ + risk_label(r.kind) + "**："@ + escape_markdown(r.description);
    let imp = match r.impact {
        Some(s) => "；影响："@ + escape_markdown(s),
        None => seq![],
    };
    let mit = match r.mitigation {
        Some(s) => "；原文措施："@ + escape_markdown(s),
        None => seq![],
    };
    let line = risk_line(r);
    assert(line =~= head + imp + mit);
    assert(line.subrange(0, head.len() as int) =~= head);
    assert(line.subrange(head.len() as int, (head.len() + imp.len()) as int) =~= imp);
    assert(crate::text::occurs_at(line, imp, head.len() as int));
    assert(line.subrange(line.len() - mit.len(), line.len() as int) =~= mit);
    let lines = items.map_values(|x: RiskV| risk_line(x));
    assert(lines[k] == line);
    lemma_join_lines_contains(lines, k);
    let jl = join_lines(lines);
    let at = choose|at: int| crate::text::occurs_at(jl, line, at);
    let so = section_open("风险和问题"@);
    let rt = risks_text(items);
    assert(rt == so + jl);
    assert(rt.subrange(so.len() + at, so.len() + at + line.len()) =~= jl.subrange(at, at + line.len()));
    assert(crate::text::occurs_at(rt, line, so.len() + at));
}

} // verus!
