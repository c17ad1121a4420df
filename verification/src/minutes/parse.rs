//! Strict framing of model output: at most one JSON object, optionally inside a
//! single JSON code fence, never picked out of surrounding prose.

use vstd::prelude::*;

use super::error::MinutesError;
use crate::json::{json_document, json_view, member_of, parse_json_text, JsonValue};
use crate::text::{
    ascii_lower_seq, chars_of, contains, contains_chars, ends_with, ends_with_chars, starts_with,
    starts_with_chars, string_from_chars, trim, trim_chars,
};

verus! {

/// The largest model output accepted, in UTF-8 bytes.
pub const MAX_MODEL_OUTPUT_BYTES: usize = 1048576;

/// The three backticks that open and close a code fence.
pub open spec fn fence() -> Seq<char> {
    seq!['`', '`', '`']
}

/// The inside of a single fenced JSON block: the fence header names no language or
/// `json` (in any ASCII case), the text ends with the closing fence, and the trimmed
/// inside holds no further fence.
pub open spec fn fenced_json(t: Seq<char>) -> Option<Seq<char>> {
    match super::dates::first_index_from(t, '\n', 0) {
        None => None,
        Some(h) => {
            let language = trim(t.subrange(3, h));
            if language.len() != 0 && ascii_lower_seq(language) != seq!['j', 's', 'o', 'n'] {
                None
            } else if !ends_with(t, fence()) || h + 1 > t.len() - 3 {
                None
            } else {
                let inner = trim(t.subrange(h + 1, t.len() - 3));
                if contains(inner, fence()) {
                    None
                } else {
                    Some(inner)
                }
            }
        },
    }
}

/// The JSON text framed by model output, or why the output is refused.
pub open spec fn model_json_text(raw: Seq<char>, byte_len: nat) -> Result<Seq<char>, MinutesError> {
    if byte_len > MAX_MODEL_OUTPUT_BYTES {
        Err(MinutesError::ModelOutputTooLarge)
    } else {
        let t = trim(raw);
        if t.len() == 0 {
            Err(MinutesError::InvalidModelOutput)
        } else {
            let framed = if starts_with(t, fence()) {
                fenced_json(t)
            } else {
                Some(t)
            };
            match framed {
                None => Err(MinutesError::InvalidModelOutput),
                Some(j) => if j.len() == 0 || j[0] != '{' || j.last() != '}' {
                    Err(MinutesError::InvalidModelOutput)
                } else {
                    Ok(j)
                },
            }
        }
    }
}

/// The first line break at or after `start`.
fn find_newline(v: &[char]) -> (r: Option<usize>)
    ensures
        r is None <==> super::dates::first_index_from(v@, '\n', 0) is None,
        r matches Some(k) ==> super::dates::first_index_from(v@, '\n', 0) == Some(k as int) && k
            < v@.len() && v@[k as int] == '\n',
{
    let mut i: usize = 0;
    while i < v.len()
        invariant
            0 <= i <= v@.len(),
            super::dates::first_index_from(v@, '\n', 0) == super::dates::first_index_from(
                v@,
                '\n',
                i as int,
            ),
        decreases v@.len() - i,
    {
        if v[i] == '\n' {
            return Some(i);
        }
        i = i + 1;
    }
    None
}

/// The characters `v[lo..hi]`.
fn sub_chars(v: &[char], lo: usize, hi: usize) -> (r: Vec<char>)
    requires
        lo <= hi <= v@.len(),
    ensures
        r@ == v@.subrange(lo as int, hi as int),
{
    let mut r: Vec<char> = Vec::new();
    let mut i: usize = lo;
    while i < hi
        invariant
            lo <= i <= hi,
            hi <= v@.len(),
            r@ == v@.subrange(lo as int, i as int),
        decreases hi - i,
    {
        r.push(v[i]);
        i = i + 1;
        proof {
            assert(v@.subrange(lo as int, i as int) =~= v@.subrange(lo as int, (i - 1) as int).push(
                v@[i - 1],
            ));
        }
    }
    r
}

/// Whether a four-character text is `json` in any ASCII case.
fn is_json_word(v: &[char]) -> (r: bool)
    ensures
        r == (ascii_lower_seq(v@) == seq!['j', 's', 'o', 'n']),
{
    if v.len() != 4 {
        proof {
            assert(ascii_lower_seq(v@).len() != 4);
        }
        return false;
    }
    let a = crate::text::ascii_lower_char(v[0]);
    let b = crate::text::ascii_lower_char(v[1]);
    let c = crate::text::ascii_lower_char(v[2]);
    let d = crate::text::ascii_lower_char(v[3]);
    let r = a == 'j' && b == 's' && c == 'o' && d == 'n';
    proof {
        if r {
            assert(ascii_lower_seq(v@) =~= seq!['j', 's', 'o', 'n']);
        } else {
            if ascii_lower_seq(v@) == seq!['j', 's', 'o', 'n'] {
                assert(ascii_lower_seq(v@)[0] == 'j');
                assert(ascii_lower_seq(v@)[1] == 's');
                assert(ascii_lower_seq(v@)[2] == 'o');
                assert(ascii_lower_seq(v@)[3] == 'n');
            }
        }
    }
    r
}

/// The inside of a single fenced JSON block.
fn extract_single_fenced_json(t: &[char]) -> (r: Option<Vec<char>>)
    requires
        starts_with(t@, fence()),
    ensures
        match fenced_json(t@) {
            Some(j) => r is Some && r->Some_0@ == j,
            None => r is None,
        },
{
    assert(t@.len() >= 3);
    let h = match find_newline(t) {
        None => {
            return None;
        },
        Some(h) => h,
    };
    if h < 3 {
        proof {
            assert(t@[h as int] == '\n');
            assert(t@.subrange(0, 3) == fence());
            assert(t@.subrange(0, 3)[h as int] == t@[h as int]);
        }
        return None;
    }
    let header = sub_chars(t, 3, h);
    let language = trim_chars(header.as_slice());
    if language.len() != 0 && !is_json_word(language.as_slice()) {
        return None;
    }
    let f: [char; 3] = ['`', '`', '`'];
    let fv = f.as_slice();
    proof {
        assert(fv@ =~= fence());
    }
    if !ends_with_chars(t, fv) || h >= t.len() - 3 {
        return None;
    }
    let body = sub_chars(t, h + 1, t.len() - 3);
    let inner = trim_chars(body.as_slice());
    if contains_chars(inner.as_slice(), fv) {
        return None;
    }
    Some(inner)
}

/// The JSON text that model output frames, or why the output is refused.
pub fn model_json_text_of(raw_output: &str) -> (r: Result<String, MinutesError>)
    ensures
        match model_json_text(raw_output@, raw_output.len() as nat) {
            Ok(j) => r is Ok && r->Ok_0@ == j,
            Err(e) => r == Err::<String, MinutesError>(e),
        },
{
    if raw_output.len() > MAX_MODEL_OUTPUT_BYTES {
        return Err(MinutesError::ModelOutputTooLarge);
    }
    let v = chars_of(raw_output);
    let t = trim_chars(v.as_slice());
    if t.len() == 0 {
        return Err(MinutesError::InvalidModelOutput);
    }
    let f: [char; 3] = ['`', '`', '`'];
    let fv = f.as_slice();
    proof {
        assert(fv@ =~= fence());
    }
    let j = if starts_with_chars(t.as_slice(), fv) {
        match extract_single_fenced_json(t.as_slice()) {
            Some(j) => j,
            None => {
                return Err(MinutesError::InvalidModelOutput);
            },
        }
    } else {
        t
    };
    if j.len() == 0 || j[0] != '{' || j[j.len() - 1] != '}' {
        return Err(MinutesError::InvalidModelOutput);
    }
    Ok(string_from_chars(j.as_slice()))
}

/// Extracts exactly one root JSON object from model output; explanations around it,
/// more than one fence, or a non-object value are refused.
pub fn extract_model_json(raw_output: &str) -> (r: Result<JsonValue, MinutesError>)
    ensures
        match model_json_text(raw_output@, raw_output.len() as nat) {
            Ok(j) => match json_document(j) {
                Some(v) => if v is Object {
                    r is Ok && json_view(r->Ok_0) == v
                } else {
                    r == Err::<JsonValue, MinutesError>(MinutesError::InvalidModelOutput)
                },
                None => r == Err::<JsonValue, MinutesError>(MinutesError::InvalidModelOutput),
            },
            Err(e) => r == Err::<JsonValue, MinutesError>(e),
        },
{
    let text = model_json_text_of(raw_output)?;
    match parse_json_text(text.as_str()) {
        Some(v) => if v.is_object() {
            Ok(v)
        } else {
            Err(MinutesError::InvalidModelOutput)
        },
        None => Err(MinutesError::InvalidModelOutput),
    }
}

/// A candidate must declare its content type before it is read as minutes: a value that
/// is not an object, or has no `contentType` member, is refused.
pub fn require_content_type(value: &JsonValue) -> (r: Result<(), MinutesError>)
    ensures
        member_of(json_view(*value), "contentType"@) is Some ==> r is Ok,
        member_of(json_view(*value), "contentType"@) is None ==> r == Err::<(), MinutesError>(
            MinutesError::SchemaViolation { code: "missing_content_type", path: "/contentType" },
        ),
{
    match value.get_member("contentType") {
        Some(_) => Ok(()),
        None => Err(MinutesError::SchemaViolation { code: "missing_content_type", path: "/contentType" }),
    }
}

} // verus!
