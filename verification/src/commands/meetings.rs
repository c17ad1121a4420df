//! Meeting history presentation: template names, export file names, and the Markdown
//! export that joins the rendered minutes with the full transcript.

use vstd::prelude::*;

use super::{command_error, CommandError};
use crate::minutes::dates::first_index_from;
use crate::minutes::markdown::{join_lines, minutes_markdown, render_minutes_markdown};
use crate::minutes::model::MeetingMinutes;
use crate::minutes::templates::{
    builtin_template, get_template, is_builtin_id, list_templates, BUILTIN_TEMPLATE_VERSION,
    TEMPLATE_COUNT,
};
use super::tasks::{elapsed_ms_between, rfc3339_elapsed_ms, TaskRecord};
use crate::domain::TaskStatus;
use crate::minutes::model::opt_view;
use crate::text::{
    ascii_lower_seq, chars_of, contains, copy_str, is_blank, lowercase, push_char, push_str,
    str_contains, str_eq, str_is_blank, to_lowercase, trim, trim_chars, trim_str,
};

use crate::json::{entries_view, items_view, json_view, member_of, push_entry, JsonV, JsonValue};

verus! {

/// A meeting of the history list.
pub struct MeetingSummary {
    pub id: String,
    pub title: Option<String>,
    pub summary: Option<String>,
    pub meeting_start_at: Option<String>,
    pub duration_ms: Option<u64>,
    pub processing_duration_ms: Option<u64>,
    pub updated_at: String,
    pub template_name: String,
}

/// The public metadata of a built-in template.
#[derive(Debug, Clone, Copy)]
pub struct MinutesTemplateResponse {
    pub id: &'static str,
    pub version: &'static str,
    pub name: &'static str,
    pub description: &'static str,
}

/// Whether a Markdown export finished or was cancelled.
pub struct ExportResult {
    pub status: &'static str,
    pub display_name: Option<String>,
}

/// Every built-in template's public metadata, in the stable order.
pub fn list_minutes_templates() -> (r: Vec<MinutesTemplateResponse>)
    ensures
        r@.len() == TEMPLATE_COUNT,
        forall|i: int|
            0 <= i < TEMPLATE_COUNT ==> {
                let t = builtin_template(i);
                &&& (#[trigger] r@[i]).id == t.id
                &&& r@[i].version == t.version
                &&& r@[i].name == t.display_name
                &&& r@[i].description == t.description
            },
{
    let templates = list_templates();
    let mut out: Vec<MinutesTemplateResponse> = Vec::new();
    let mut i: usize = 0;
    while i < templates.len()
        invariant
            0 <= i <= templates@.len(),
            templates@ == Seq::new(TEMPLATE_COUNT as nat, |k: int| builtin_template(k)),
            out@.len() == i,
            forall|k: int|
                0 <= k < i ==> {
                    let t = builtin_template(k);
                    &&& (#[trigger] out@[k]).id == t.id
                    &&& out@[k].version == t.version
                    &&& out@[k].name == t.display_name
                    &&& out@[k].description == t.description
                },
        decreases templates@.len() - i,
    {
        let t = templates[i];
        out.push(
            MinutesTemplateResponse {
                id: t.id,
                version: t.version,
                name: t.display_name,
                description: t.description,
            },
        );
        i = i + 1;
    }
    out
}

/// The display name of a template, or "unknown template".
pub fn template_name(template_id: &str) -> (r: &'static str)
    ensures
        is_builtin_id(template_id@) ==> exists|i: int|
            0 <= i < TEMPLATE_COUNT && builtin_template(i).id@ == template_id@ && r
                == builtin_template(i).display_name,
        !is_builtin_id(template_id@) ==> r@ == "未知模板"@,
{
    match get_template(template_id, BUILTIN_TEMPLATE_VERSION) {
        Ok(t) => t.display_name,
        Err(_) => "未知模板",
    }
}

/// Whether a character is not allowed in Windows file names.
pub open spec fn forbidden_file_char(c: char) -> bool {
    c == '<' || c == '>' || c == ':' || c == '"' || c == '/' || c == '\\' || c == '|' || c == '?'
        || c == '*'
}

/// A text with trailing dots and spaces removed.
pub open spec fn strip_trailing_dots(s: Seq<char>) -> Seq<char>
    decreases s.len(),
{
    if s.len() > 0 && (s.last() == '.' || s.last() == ' ') {
        strip_trailing_dots(s.drop_last())
    } else {
        s
    }
}

/// The export file stem of a title: forbidden characters become `_`, surrounding white
/// space and trailing dots and spaces go, at most 80 characters stay, and an empty
/// result falls back to the default title.
pub open spec fn file_stem(title: Option<Seq<char>>) -> Seq<char> {
    let s = match title {
        Some(t) => t,
        None => "会议纪要"@,
    };
    let replaced = s.map_values(|c: char| if forbidden_file_char(c) {
        '_'
    } else {
        c
    });
    let t = strip_trailing_dots(trim(replaced));
    if t.len() == 0 {
        "会议纪要"@
    } else if t.len() > 80 {
        t.take(80)
    } else {
        t
    }
}

/// A file-name stem without characters Windows rejects.
pub fn safe_file_stem(title: Option<&str>) -> (r: String)
    ensures
        r@ == file_stem(
            match title {
                Some(t) => Some(t@),
                None => None,
            },
        ),
{
    let src = match title {
        Some(t) => chars_of(t),
        None => chars_of("会议纪要"),
    };
    let ghost s = src@;
    let mut replaced: Vec<char> = Vec::new();
    let mut i: usize = 0;
    while i < src.len()
        invariant
            0 <= i <= src@.len(),
            s == src@,
            replaced@ == s.take(i as int).map_values(|c: char| if forbidden_file_char(c) {
                '_'
            } else {
                c
            }),
        decreases src@.len() - i,
    {
        let c = src[i];
        let d = if c == '<' || c == '>' || c == ':' || c == '"' || c == '/' || c == '\\' || c == '|'
            || c == '?' || c == '*' {
            '_'
        } else {
            c
        };
        replaced.push(d);
        i = i + 1;
        proof {
            assert(s.take(i as int).map_values(|c: char| if forbidden_file_char(c) {
                '_'
            } else {
                c
            }) =~= s.take((i - 1) as int).map_values(|c: char| if forbidden_file_char(c) {
                '_'
            } else {
                c
            }).push(d));
        }
    }
    proof {
        assert(s.take(s.len() as int) =~= s);
    }
    let t = trim_chars(replaced.as_slice());
    let mut n: usize = t.len();
    proof {
        assert(t@.take(n as int) =~= t@);
    }
    while n > 0 && (t[n - 1] == '.' || t[n - 1] == ' ')
        invariant
            0 <= n <= t@.len(),
            strip_trailing_dots(t@) == strip_trailing_dots(t@.take(n as int)),
        decreases n,
    {
        proof {
            assert(t@.take(n as int).drop_last() =~= t@.take(n - 1));
        }
        n = n - 1;
    }
    proof {
        assert(t@.take(0) =~= Seq::<char>::empty());
        assert(t@ =~= t@.take(t@.len() as int));
        assert(strip_trailing_dots(t@.take(n as int)) == t@.take(n as int));
    }
    if n == 0 {
        return copy_str("会议纪要");
    }
    let keep: usize = if n > 80 {
        80
    } else {
        n
    };
    let mut out = String::new();
    let mut k: usize = 0;
    while k < keep
        invariant
            0 <= k <= keep,
            keep <= n,
            n <= t@.len(),
            out@ == t@.take(k as int),
        decreases keep - k,
    {
        push_char(&mut out, t[k]);
        k = k + 1;
        proof {
            assert(t@.take(k as int) =~= t@.take((k - 1) as int).push(t@[k - 1]));
        }
    }
    proof {
        assert(t@.take(n as int).take(keep as int) =~= t@.take(keep as int));
        if n <= 80 {
            assert(t@.take(n as int) =~= t@.take(keep as int));
        }
    }
    out
}

/// Requires the chosen export target to have the `md` extension (any ASCII case).
pub fn ensure_markdown_extension(extension: Option<&str>) -> (r: Result<(), CommandError>)
    ensures
        r is Ok <==> (extension matches Some(e) && ascii_lower_seq(e@) == "md"@),
        r matches Err(e) ==> e@ == command_error(
            "export_extension_invalid"@,
            "导出文件必须使用 .md 扩展名"@,
            false,
        ),
{
    let ok = match extension {
        Some(e) => {
            let v = chars_of(e);
            if v.len() == 2 {
                let a = crate::text::ascii_lower_char(v[0]);
                let b = crate::text::ascii_lower_char(v[1]);
                let r = a == 'm' && b == 'd';
                proof {
                    reveal_strlit("md");
                    if r {
                        assert(ascii_lower_seq(e@) =~= "md"@);
                    } else if ascii_lower_seq(e@) == "md"@ {
                        assert(ascii_lower_seq(e@)[0] == 'm');
                        assert(ascii_lower_seq(e@)[1] == 'd');
                    }
                }
                r
            } else {
                proof {
                    reveal_strlit("md");
                    assert(ascii_lower_seq(e@).len() != 2);
                }
                false
            }
        },
        None => false,
    };
    if ok {
        Ok(())
    } else {
        Err(CommandError::new("export_extension_invalid", "导出文件必须使用 .md 扩展名", false))
    }
}

/// The lines of a text as `str::lines` gives them: split at line feeds, a carriage return
/// before a line feed dropped, and no empty last line after a final line feed.
pub open spec fn text_lines(s: Seq<char>) -> Seq<Seq<char>>
    decreases s.len(),
{
    match first_index_from(s, '\n', 0) {
        None => if s.len() == 0 {
            seq![]
        } else {
            seq![s]
        },
        Some(k) => {
            if 0 <= k < s.len() {
                let line = s.take(k);
                let line = if line.len() > 0 && line.last() == '\r' {
                    line.drop_last()
                } else {
                    line
                };
                seq![line] + text_lines(s.skip(k + 1))
            } else {
                seq![]
            }
        },
    }
}

/// The export's transcript block: every line indented by four spaces (an indented code
/// block keeps the text as it is), or a placeholder for a blank transcript.
pub open spec fn transcript_block(t: Seq<char>) -> Seq<char> {
    if is_blank(t) {
        "无可用逐字稿"@
    } else {
        join_lines(text_lines(t).map_values(|l: Seq<char>| "    "@ + l))
    }
}

/// The Markdown export: the rendered minutes, then the full transcript.
pub open spec fn export_markdown(m: crate::minutes::model::MinutesV, t: Seq<char>) -> Seq<char> {
    minutes_markdown(m) + "\n\n## 完整逐字稿\n\n"@ + transcript_block(t) + "\n"@
}

/// Without a line feed from `i` to `j`, the first line feed from `i` is the one from `j`.
proof fn lemma_first_index_skip(s: Seq<char>, c: char, i: int, j: int)
    requires
        0 <= i <= j <= s.len(),
        forall|k: int| i <= k < j ==> s[k] != c,
    ensures
        first_index_from(s, c, i) == first_index_from(s, c, j),
    decreases j - i,
{
    if i < j {
        lemma_first_index_skip(s, c, i + 1, j);
    }
}

/// Appends the indented transcript lines.
#[verifier::rlimit(60)]
fn push_transcript_lines(out: &mut String, text: &str)
    ensures
        final(out)@ == old(out)@ + join_lines(text_lines(text@).map_values(|l: Seq<char>| "    "@ + l)),
{
    let v = chars_of(text);
    let ghost s = v@;
    let ghost start = out@;
    let ghost mut emitted: Seq<Seq<char>> = seq![];
    let mut line_start: usize = 0;
    let mut i: usize = 0;
    let mut first = true;
    proof {
        assert(s.skip(0) =~= s);
        assert(emitted + text_lines(s.skip(0)) =~= text_lines(s));
        assert(emitted.map_values(|l: Seq<char>| "    "@ + l) =~= Seq::<Seq<char>>::empty());
        assert(out@ =~= start + join_lines(emitted.map_values(|l: Seq<char>| "    "@ + l)));
    }
    while i < v.len()
        invariant
            0 <= line_start <= i <= v@.len(),
            s == v@,
            s == text@,
            forall|k: int| line_start <= k < i ==> s[k] != '\n',
            text_lines(s) == emitted + text_lines(s.skip(line_start as int)),
            first == (emitted.len() == 0),
            out@ == start + join_lines(emitted.map_values(|l: Seq<char>| "    "@ + l)),
        decreases v@.len() - i,
    {
        if v[i] == '\n' {
            let mut end = i;
            if end > line_start && v[end - 1] == '\r' {
                end = end - 1;
            }
            let ghost rest = s.skip(line_start as int);
            proof {
                assert forall|k: int| 0 <= k < (i - line_start) implies rest[k] != '\n' by {
                    assert(rest[k] == s[line_start + k]);
                }
                lemma_first_index_skip(rest, '\n', 0, (i - line_start) as int);
                assert(rest[(i - line_start) as int] == '\n');
                assert(first_index_from(rest, '\n', (i - line_start) as int) == Some((i - line_start) as int));
                assert(rest.skip((i - line_start) + 1) =~= s.skip(i + 1));
                let raw = rest.take((i - line_start) as int);
                assert(raw =~= s.subrange(line_start as int, i as int));
            }
            let ghost line = s.subrange(line_start as int, end as int);
            proof {
                let raw = rest.take((i - line_start) as int);
                if end < i {
                    assert(raw.drop_last() =~= line);
                } else {
                    assert(raw =~= line);
                }
                assert(text_lines(rest) == seq![line] + text_lines(s.skip(i + 1)));
            }
            let ghost before = out@;
            if !first {
                push_char(out, '\n');
            }
            push_str(out, "    ");
            let mut k: usize = line_start;
            while k < end
                invariant
                    line_start <= k <= end,
                    end <= v@.len(),
                    s == v@,
                    out@ == before + (if first {
                        Seq::<char>::empty()
                    } else {
                        seq!['\n']
                    }) + "    "@ + s.subrange(line_start as int, k as int),
                decreases end - k,
            {
                push_char(out, v[k]);
                k = k + 1;
                proof {
                    assert(s.subrange(line_start as int, k as int) =~= s.subrange(
                        line_start as int,
                        (k - 1) as int,
                    ).push(s[k - 1]));
                }
            }
            proof {
                let ne = emitted.push(line);
                let mv = ne.map_values(|l: Seq<char>| "    "@ + l);
                assert(mv.drop_last() =~= emitted.map_values(|l: Seq<char>| "    "@ + l));
                assert(mv.last() == "    "@ + line);
                if first {
                    assert(emitted.map_values(|l: Seq<char>| "    "@ + l) =~= Seq::<Seq<char>>::empty());
                    assert(mv =~= seq!["    "@ + line]);
                }
                assert(out@ =~= start + join_lines(mv));
                assert(text_lines(s) =~= ne + text_lines(s.skip(i + 1)));
                emitted = ne;
            }
            first = false;
            line_start = i + 1;
        }
        i = i + 1;
    }
    let ghost rest = s.skip(line_start as int);
    proof {
        assert forall|k: int| 0 <= k < rest.len() implies rest[k] != '\n' by {
            assert(rest[k] == s[line_start + k]);
        }
        lemma_first_index_skip(rest, '\n', 0, rest.len() as int);
    }
    if line_start < v.len() {
        let ghost line = rest;
        let ghost before = out@;
        if !first {
            push_char(out, '\n');
        }
        push_str(out, "    ");
        let mut k: usize = line_start;
        while k < v.len()
            invariant
                line_start <= k <= v@.len(),
                s == v@,
                out@ == before + (if first {
                    Seq::<char>::empty()
                } else {
                    seq!['\n']
                }) + "    "@ + s.subrange(line_start as int, k as int),
            decreases v@.len() - k,
        {
            push_char(out, v[k]);
            k = k + 1;
            proof {
                assert(s.subrange(line_start as int, k as int) =~= s.subrange(
                    line_start as int,
                    (k - 1) as int,
                ).push(s[k - 1]));
            }
        }
        proof {
            assert(s.subrange(line_start as int, v@.len() as int) =~= rest);
            assert(text_lines(rest) == seq![rest]);
            let ne = emitted.push(rest);
            let mv = ne.map_values(|l: Seq<char>| "    "@ + l);
            assert(mv.drop_last() =~= emitted.map_values(|l: Seq<char>| "    "@ + l));
            if first {
                assert(emitted.map_values(|l: Seq<char>| "    "@ + l) =~= Seq::<Seq<char>>::empty());
                assert(mv =~= seq!["    "@ + rest]);
            }
            assert(out@ =~= start + join_lines(mv));
            assert(text_lines(s) =~= ne);
        }
    } else {
        proof {
            assert(rest.len() == 0);
            assert(text_lines(rest) =~= Seq::<Seq<char>>::empty());
            assert(text_lines(s) =~= emitted);
        }
    }
}

/// The lines of a text as `str::lines` yields them, as character vectors.
pub fn text_lines_of(text: &str) -> (r: Vec<Vec<char>>)
    ensures
        r@.map_values(|l: Vec<char>| l@) == text_lines(text@),
{
    let v = chars_of(text);
    let ghost s = v@;
    let mut out: Vec<Vec<char>> = Vec::new();
    let mut line_start: usize = 0;
    let mut i: usize = 0;
    proof {
        assert(s.skip(0) =~= s);
        assert(out@.map_values(|l: Vec<char>| l@) + text_lines(s.skip(0)) =~= text_lines(s));
    }
    while i < v.len()
        invariant
            0 <= line_start <= i <= v@.len(),
            s == v@,
            s == text@,
            forall|k: int| line_start <= k < i ==> s[k] != '\n',
            text_lines(s) == out@.map_values(|l: Vec<char>| l@) + text_lines(s.skip(line_start as int)),
        decreases v@.len() - i,
    {
        if v[i] == '\n' {
            let mut end = i;
            if end > line_start && v[end - 1] == '\r' {
                end = end - 1;
            }
            let ghost rest = s.skip(line_start as int);
            proof {
                assert forall|k: int| 0 <= k < (i - line_start) implies rest[k] != '\n' by {
                    assert(rest[k] == s[line_start + k]);
                }
                lemma_first_index_skip(rest, '\n', 0, (i - line_start) as int);
                assert(rest[(i - line_start) as int] == '\n');
                assert(rest.skip((i - line_start) + 1) =~= s.skip(i + 1));
            }
            let mut line: Vec<char> = Vec::new();
            let mut k: usize = line_start;
            while k < end
                invariant
                    line_start <= k <= end,
                    end <= v@.len(),
                    s == v@,
                    line@ == s.subrange(line_start as int, k as int),
                decreases end - k,
            {
                line.push(v[k]);
                k = k + 1;
                proof {
                    assert(line@ =~= s.subrange(line_start as int, k as int));
                }
            }
            proof {
                let raw = rest.take((i - line_start) as int);
                assert(raw =~= s.subrange(line_start as int, i as int));
                if end < i {
                    assert(raw.drop_last() =~= line@);
                } else {
                    assert(raw =~= line@);
                }
                assert(text_lines(rest) == seq![line@] + text_lines(s.skip(i + 1)));
            }
            let ghost before = out@;
            out.push(line);
            proof {
                assert(out@.map_values(|l: Vec<char>| l@) =~= before.map_values(|l: Vec<char>| l@).push(
                    out@.last()@,
                ));
                assert(text_lines(s) =~= out@.map_values(|l: Vec<char>| l@) + text_lines(
                    s.skip(i + 1),
                ));
            }
            line_start = i + 1;
        }
        i = i + 1;
    }
    let ghost rest = s.skip(line_start as int);
    proof {
        assert forall|k: int| 0 <= k < rest.len() implies rest[k] != '\n' by {
            assert(rest[k] == s[line_start + k]);
        }
        lemma_first_index_skip(rest, '\n', 0, rest.len() as int);
    }
    if line_start < v.len() {
        let mut line: Vec<char> = Vec::new();
        let mut k: usize = line_start;
        while k < v.len()
            invariant
                line_start <= k <= v@.len(),
                s == v@,
                line@ == s.subrange(line_start as int, k as int),
            decreases v@.len() - k,
        {
            line.push(v[k]);
            k = k + 1;
            proof {
                assert(line@ =~= s.subrange(line_start as int, k as int));
            }
        }
        let ghost before = out@;
        out.push(line);
        proof {
            assert(s.subrange(line_start as int, v@.len() as int) =~= rest);
            assert(text_lines(rest) == seq![rest]);
            assert(out@.map_values(|l: Vec<char>| l@) =~= before.map_values(|l: Vec<char>| l@).push(
                rest,
            ));
        }
    } else {
        proof {
            assert(rest.len() == 0);
            assert(text_lines(rest) =~= Seq::<Seq<char>>::empty());
        }
    }
    out
}

/// The Markdown export of a meeting: rendered minutes followed by the transcript,
/// indented so that it stays as it was spoken.
pub fn render_export_markdown(minutes: &MeetingMinutes, transcript: &str) -> (r: String)
    ensures
        r@ == export_markdown(minutes@, transcript@),
{
    let mut out = render_minutes_markdown(minutes);
    let ghost p0 = out@;
    push_str(&mut out, "\n\n## 完整逐字稿\n\n");
    let ghost p1 = out@;
    if str_is_blank(transcript) {
        push_str(&mut out, "无可用逐字稿");
    } else {
        push_transcript_lines(&mut out, transcript);
    }
    push_char(&mut out, '\n');
    proof {
        reveal_strlit("\n");
        assert(out@ =~= export_markdown(minutes@, transcript@));
    }
    out
}

/// The text a meeting search looks through: title, summary and transcript, separated
/// by spaces.
pub open spec fn search_text(title: Option<Seq<char>>, summary: Option<Seq<char>>, transcript: Seq<
    char,
>) -> Seq<char> {
    (match title {
        Some(t) => t,
        None => Seq::empty(),
    }) + " "@ + (match summary {
        Some(s) => s,
        None => Seq::empty(),
    }) + " "@ + transcript
}

/// Whether a meeting matches a search: no (or a blank) query matches everything;
/// otherwise the lower-cased trimmed query must occur in the lower-cased search text.
pub open spec fn matches_query(
    title: Option<Seq<char>>,
    summary: Option<Seq<char>>,
    transcript: Seq<char>,
    query: Option<Seq<char>>,
) -> bool {
    let needle = lowercase(
        trim(
            match query {
                Some(q) => q,
                None => Seq::empty(),
            },
        ),
    );
    needle.len() == 0 || contains(lowercase(search_text(title, summary, transcript)), needle)
}

/// Whether a meeting of the history matches a search query.
pub fn meeting_matches_query(
    title: &Option<String>,
    summary: &Option<String>,
    transcript: &str,
    query: &Option<String>,
) -> (r: bool)
    ensures
        r == matches_query(opt_view(*title), opt_view(*summary), transcript@, opt_view(*query)),
{
    let trimmed = match query {
        Some(q) => trim_str(q.as_str()),
        None => String::new(),
    };
    let needle = to_lowercase(trimmed.as_str());
    if needle.as_str().unicode_len() == 0 {
        return true;
    }
    let mut hay = String::new();
    match title {
        Some(t) => push_str(&mut hay, t.as_str()),
        None => {},
    }
    push_str(&mut hay, " ");
    match summary {
        Some(s) => push_str(&mut hay, s.as_str()),
        None => {},
    }
    push_str(&mut hay, " ");
    push_str(&mut hay, transcript);
    proof {
        assert(hay@ =~= search_text(opt_view(*title), opt_view(*summary), transcript@));
        if query is None {
            assert(trimmed@ =~= trim(Seq::<char>::empty()));
        }
    }
    let lowered = to_lowercase(hay.as_str());
    str_contains(lowered.as_str(), needle.as_str())
}

/// The first completed task of a meeting.
pub open spec fn completed_task_of(tasks: Seq<TaskRecord>, meeting_id: Seq<char>, i: int) -> Option<int>
    decreases tasks.len() - i,
{
    if i < 0 || i >= tasks.len() {
        None
    } else if tasks[i].status == TaskStatus::Completed && opt_view(tasks[i].meeting_id) == Some(
        meeting_id,
    ) {
        Some(i)
    } else {
        completed_task_of(tasks, meeting_id, i + 1)
    }
}

/// The wall-clock processing time of a meeting: from the creation to the last update of
/// its first completed task, unknown when a time does not parse or runs backwards.
pub open spec fn meeting_processing_time(tasks: Seq<TaskRecord>, meeting_id: Seq<char>) -> Option<u64> {
    match completed_task_of(tasks, meeting_id, 0) {
        None => None,
        Some(k) => match rfc3339_elapsed_ms(tasks[k].updated_at@, tasks[k].created_at@) {
            Some(ms) => if ms >= 0 {
                Some(ms as u64)
            } else {
                None
            },
            None => None,
        },
    }
}

/// Derives a meeting's processing time from its completed task.
pub fn processing_duration_for_meeting(tasks: &[TaskRecord], meeting_id: &str) -> (r: Option<u64>)
    ensures
        r == meeting_processing_time(tasks@, meeting_id@),
{
    let mut i: usize = 0;
    while i < tasks.len()
        invariant
            i <= tasks@.len(),
            completed_task_of(tasks@, meeting_id@, 0) == completed_task_of(tasks@, meeting_id@, i as int),
        decreases tasks@.len() - i,
    {
        let t = &tasks[i];
        let matches_meeting = match &t.meeting_id {
            Some(m) => str_eq(m.as_str(), meeting_id),
            None => false,
        };
        if t.status == TaskStatus::Completed && matches_meeting {
            return match elapsed_ms_between(t.updated_at.as_str(), t.created_at.as_str()) {
                Some(ms) => if ms >= 0 {
                    Some(ms as u64)
                } else {
                    None
                },
                None => None,
            };
        }
        i = i + 1;
    }
    None
}

/// The stored transcript of a meeting as a full transcript object: an object with a
/// `text` member is kept; older records, which stored only the segments array, are
/// wrapped with the meeting's text and no language or duration.
pub open spec fn normalized_transcript_view(text: Seq<char>, stored: JsonV) -> JsonV {
    if stored is Object && member_of(stored, "text"@) is Some {
        stored
    } else {
        wrapped_transcript_view(
            text,
            match stored {
                JsonV::Array(items) => JsonV::Array(items),
                _ => JsonV::Array(Seq::empty()),
            },
        )
    }
}

/// A transcript object around a segments array, with no language or duration.
pub open spec fn wrapped_transcript_view(text: Seq<char>, segments: JsonV) -> JsonV {
    JsonV::Object(
        seq![
            ("schemaVersion"@, JsonV::Str("1"@)),
            ("text"@, JsonV::Str(text)),
            ("language"@, JsonV::Null),
            ("durationMs"@, JsonV::Null),
            ("segments"@, segments),
        ],
    )
}

/// Upgrades a stored transcript to the full transcript object.
pub fn normalize_transcript(text: &str, stored: JsonValue) -> (r: JsonValue)
    ensures
        json_view(r) == normalized_transcript_view(text@, json_view(stored)),
{
    if stored.is_object() && stored.get_member("text").is_some() {
        return stored;
    }
    let segments = match stored {
        JsonValue::Array(items) => JsonValue::Array(items),
        _ => JsonValue::Array(Vec::new()),
    };
    proof {
        assert(items_view(Seq::<JsonValue>::empty()) =~= Seq::empty());
        assert(entries_view(Seq::<(String, JsonValue)>::empty()) =~= Seq::empty());
    }
    let ghost segments_v = json_view(segments);
    let mut entries: Vec<(String, JsonValue)> = Vec::new();
    push_entry(&mut entries, "schemaVersion", JsonValue::String("1".to_string()));
    push_entry(&mut entries, "text", JsonValue::String(text.to_string()));
    push_entry(&mut entries, "language", JsonValue::Null);
    push_entry(&mut entries, "durationMs", JsonValue::Null);
    push_entry(&mut entries, "segments", segments);
    assert(entries_view(entries@) =~= seq![
        ("schemaVersion"@, JsonV::Str("1"@)),
        ("text"@, JsonV::Str(text@)),
        ("language"@, JsonV::Null),
        ("durationMs"@, JsonV::Null),
        ("segments"@, segments_v),
    ]);
    let out = JsonValue::Object(entries);
    out
}

/// A file stem usable on every desktop platform: not empty, at most 80 characters, and
/// without a character that file systems refuse.
pub open spec fn safe_stem(s: Seq<char>) -> bool {
    0 < s.len() <= 80 && forall|i: int| 0 <= i < s.len() ==> !forbidden_file_char(#[trigger] s[i])
}

/// Removing trailing dots and spaces keeps a prefix of the text.
proof fn lemma_strip_trailing_dots_prefix(s: Seq<char>)
    ensures
        strip_trailing_dots(s).len() <= s.len(),
        forall|i: int| 0 <= i < strip_trailing_dots(s).len() ==> #[trigger] strip_trailing_dots(s)[i] == s[i],
    decreases s.len(),
{
    if s.len() > 0 && (s.last() == '.' || s.last() == ' ') {
        lemma_strip_trailing_dots_prefix(s.drop_last());
    }
}

/// Every export file name stem is safe, whatever the title: not empty, at most 80
/// characters, and free of `< > : " / \\ | ? *`.
pub proof fn law_file_stem_is_safe(title: Option<Seq<char>>)
    ensures
        safe_stem(file_stem(title)),
{
    reveal_strlit("会议纪要");
    let s = match title {
        Some(t) => t,
        None => "会议纪要"@,
    };
    let replaced = s.map_values(|c: char| if forbidden_file_char(c) {
        '_'
    } else {
        c
    });
    assert(forall|i: int| 0 <= i < replaced.len() ==> !forbidden_file_char(#[trigger] replaced[i]));
    crate::text::lemma_trim_lo_bounds(replaced, 0);
    crate::text::lemma_trim_hi_bounds(replaced, replaced.len() as int);
    let tr = trim(replaced);
    assert(forall|i: int| 0 <= i < tr.len() ==> !forbidden_file_char(#[trigger] tr[i]));
    let t = strip_trailing_dots(tr);
    lemma_strip_trailing_dots_prefix(tr);
    assert(forall|i: int| 0 <= i < t.len() ==> !forbidden_file_char(#[trigger] t[i]));
    let d = "会议纪要"@;
    assert(d.len() == 4);
    assert(forall|i: int| 0 <= i < d.len() ==> !forbidden_file_char(#[trigger] d[i]));
}

} // verus!
