//! The reviewed JSON request template and response mapping of a configurable minutes
//! provider: exact-value placeholders, no embedded credentials, explicit paths.

use vstd::prelude::*;

use super::contract::MinutesCapabilities;
use super::error::{configuration_error, protocol_error, ProviderError, ProviderErrorV};
use super::http::{header_name_accepted, header_name_parses, HttpMethod};
use super::mapping::{looks_secret, looks_secret_field, path_valid, select_path, JsonContentMode, JsonPath};
use crate::json::{
    entries_view, items_view, json_document, json_document_bytes, json_view, lemma_entries_view, lemma_items_view,
    parse_json_bytes, parse_json_text, JsonV, JsonValue,
};
use crate::text::str_eq;

verus! {

/// How many string values of a JSON value equal `p` exactly.
pub open spec fn placeholder_count(v: JsonV, p: Seq<char>) -> nat
    decreases v,
{
    match v {
        JsonV::Str(s) => if s == p {
            1
        } else {
            0
        },
        JsonV::Array(items) => items_placeholder_count(items, p),
        JsonV::Object(entries) => entries_placeholder_count(entries, p),
        _ => 0,
    }
}

/// The placeholder count summed over a sequence of values.
pub open spec fn items_placeholder_count(s: Seq<JsonV>, p: Seq<char>) -> nat
    decreases s,
{
    if s.len() == 0 {
        0
    } else {
        items_placeholder_count(s.subrange(0, s.len() - 1), p) + placeholder_count(s[s.len() - 1], p)
    }
}

/// The placeholder count summed over the values of object entries.
pub open spec fn entries_placeholder_count(s: Seq<(Seq<char>, JsonV)>, p: Seq<char>) -> nat
    decreases s,
{
    if s.len() == 0 {
        0
    } else {
        entries_placeholder_count(s.subrange(0, s.len() - 1), p) + placeholder_count(s[s.len() - 1].1, p)
    }
}

/// A count held in a `usize`, with counts beyond its range held as its largest value.
pub open spec fn saturated(n: nat) -> usize {
    if n <= usize::MAX {
        n as usize
    } else {
        usize::MAX
    }
}

/// Whether some object key inside a JSON value looks like a credential.
pub open spec fn has_secret_key(v: JsonV) -> bool
    decreases v,
{
    match v {
        JsonV::Array(items) => items_have_secret_key(items),
        JsonV::Object(entries) => entries_have_secret_key(entries),
        _ => false,
    }
}

/// Whether some value of a sequence holds a credential-like key.
pub open spec fn items_have_secret_key(s: Seq<JsonV>) -> bool
    decreases s,
{
    s.len() > 0 && (items_have_secret_key(s.subrange(0, s.len() - 1)) || has_secret_key(
        s[s.len() - 1],
    ))
}

/// Whether some entry has a credential-like key or holds one in its value.
pub open spec fn entries_have_secret_key(s: Seq<(Seq<char>, JsonV)>) -> bool
    decreases s,
{
    s.len() > 0 && (entries_have_secret_key(s.subrange(0, s.len() - 1)) || looks_secret(
        s[s.len() - 1].0,
    ) || has_secret_key(s[s.len() - 1].1))
}

/// The value with every string equal to `p` replaced by `r`.
pub open spec fn replaced(v: JsonV, p: Seq<char>, r: JsonV) -> JsonV
    decreases v,
{
    match v {
        JsonV::Str(s) => if s == p {
            r
        } else {
            v
        },
        JsonV::Array(items) => JsonV::Array(items_replaced(items, p, r)),
        JsonV::Object(entries) => JsonV::Object(entries_replaced(entries, p, r)),
        _ => v,
    }
}

/// Replacement applied to each value of a sequence.
pub open spec fn items_replaced(s: Seq<JsonV>, p: Seq<char>, r: JsonV) -> Seq<JsonV>
    decreases s,
{
    if s.len() == 0 {
        s
    } else {
        items_replaced(s.subrange(0, s.len() - 1), p, r).push(replaced(s[s.len() - 1], p, r))
    }
}

/// Replacement applied to each entry's value; keys stay.
pub open spec fn entries_replaced(s: Seq<(Seq<char>, JsonV)>, p: Seq<char>, r: JsonV) -> Seq<
    (Seq<char>, JsonV),
>
    decreases s,
{
    if s.len() == 0 {
        s
    } else {
        entries_replaced(s.subrange(0, s.len() - 1), p, r).push(
            (s[s.len() - 1].0, replaced(s[s.len() - 1].1, p, r)),
        )
    }
}

/// Replacement over a sequence, element by element.
pub proof fn lemma_items_replaced(s: Seq<JsonV>, p: Seq<char>, r: JsonV)
    ensures
        items_replaced(s, p, r).len() == s.len(),
        forall|k: int| 0 <= k < s.len() ==> #[trigger] items_replaced(s, p, r)[k] == replaced(s[k], p, r),
    decreases s.len(),
{
    if s.len() > 0 {
        lemma_items_replaced(s.subrange(0, s.len() - 1), p, r);
    }
}

/// Replacement over entries, entry by entry.
pub proof fn lemma_entries_replaced(s: Seq<(Seq<char>, JsonV)>, p: Seq<char>, r: JsonV)
    ensures
        entries_replaced(s, p, r).len() == s.len(),
        forall|k: int|
            0 <= k < s.len() ==> #[trigger] entries_replaced(s, p, r)[k] == (s[k].0, replaced(s[k].1, p, r)),
    decreases s.len(),
{
    if s.len() > 0 {
        lemma_entries_replaced(s.subrange(0, s.len() - 1), p, r);
    }
}

/// Counts the string values equal to `placeholder`; a count beyond `usize` reads as its
/// largest value.
pub fn count_placeholder(value: &JsonValue, placeholder: &str) -> (r: usize)
    ensures
        r == saturated(placeholder_count(json_view(*value), placeholder@)),
    decreases value,
{
    match value {
        JsonValue::String(s) => {
            if str_eq(s.as_str(), placeholder) {
                1
            } else {
                0
            }
        },
        JsonValue::Array(items) => {
            let ghost iv = items_view(items@);
            proof {
                lemma_items_view(items@);
            }
            let mut total: usize = 0;
            let mut i: usize = 0;
            while i < items.len()
                invariant
                    i <= items@.len(),
                    *value == JsonValue::Array(*items),
                    iv == items_view(items@),
                    iv.len() == items@.len(),
                    forall|k: int| 0 <= k < items@.len() ==> #[trigger] iv[k] == json_view(items@[k]),
                    total == saturated(items_placeholder_count(iv.subrange(0, i as int), placeholder@)),
                decreases items@.len() - i,
            {
                proof {
                    assert(decreases_to!(*value => value->Array_0));
                    assert(decreases_to!(*items => items[i as int]));
                }
                let c = count_placeholder(&items[i], placeholder);
                proof {
                    let sub = iv.subrange(0, i as int + 1);
                    assert(sub.subrange(0, i as int) =~= iv.subrange(0, i as int));
                    assert(sub[i as int] == iv[i as int]);
                }
                total = if total > usize::MAX - c {
                    usize::MAX
                } else {
                    total + c
                };
                i = i + 1;
            }
            proof {
                assert(iv.subrange(0, iv.len() as int) =~= iv);
            }
            total
        },
        JsonValue::Object(entries) => {
            let ghost ev = entries_view(entries@);
            proof {
                lemma_entries_view(entries@);
            }
            let mut total: usize = 0;
            let mut i: usize = 0;
            while i < entries.len()
                invariant
                    i <= entries@.len(),
                    *value == JsonValue::Object(*entries),
                    ev == entries_view(entries@),
                    ev.len() == entries@.len(),
                    forall|k: int|
                        0 <= k < entries@.len() ==> #[trigger] ev[k] == (
                            entries@[k].0@,
                            json_view(entries@[k].1),
                        ),
                    total == saturated(entries_placeholder_count(ev.subrange(0, i as int), placeholder@)),
                decreases entries@.len() - i,
            {
                proof {
                    assert(decreases_to!(*value => value->Object_0));
                    assert(decreases_to!(*entries => entries[i as int]));
                }
                let c = count_placeholder(&entries[i].1, placeholder);
                proof {
                    let sub = ev.subrange(0, i as int + 1);
                    assert(sub.subrange(0, i as int) =~= ev.subrange(0, i as int));
                    assert(sub[i as int] == ev[i as int]);
                }
                total = if total > usize::MAX - c {
                    usize::MAX
                } else {
                    total + c
                };
                i = i + 1;
            }
            proof {
                assert(ev.subrange(0, ev.len() as int) =~= ev);
            }
            total
        },
        _ => 0,
    }
}

/// Whether any object key in the value, at any depth, looks like a credential.
pub fn contains_secret_key(value: &JsonValue) -> (r: bool)
    ensures
        r == has_secret_key(json_view(*value)),
    decreases value,
{
    match value {
        JsonValue::Array(items) => {
            let ghost iv = items_view(items@);
            proof {
                lemma_items_view(items@);
            }
            let mut i: usize = 0;
            while i < items.len()
                invariant
                    i <= items@.len(),
                    *value == JsonValue::Array(*items),
                    iv == items_view(items@),
                    iv.len() == items@.len(),
                    forall|k: int| 0 <= k < items@.len() ==> #[trigger] iv[k] == json_view(items@[k]),
                    !items_have_secret_key(iv.subrange(0, i as int)),
                decreases items@.len() - i,
            {
                proof {
                    assert(decreases_to!(*value => value->Array_0));
                    assert(decreases_to!(*items => items[i as int]));
                }
                let found = contains_secret_key(&items[i]);
                proof {
                    let sub = iv.subrange(0, i as int + 1);
                    assert(sub.subrange(0, i as int) =~= iv.subrange(0, i as int));
                    assert(sub[i as int] == iv[i as int]);
                }
                if found {
                    proof {
                        let sub = iv.subrange(0, i as int + 1);
                        assert(items_have_secret_key(sub));
                        lemma_items_secret_grows(iv, i as int + 1);
                        assert(iv.subrange(0, iv.len() as int) =~= iv);
                    }
                    return true;
                }
                i = i + 1;
            }
            proof {
                assert(iv.subrange(0, iv.len() as int) =~= iv);
            }
            false
        },
        JsonValue::Object(entries) => {
            let ghost ev = entries_view(entries@);
            proof {
                lemma_entries_view(entries@);
            }
            let mut i: usize = 0;
            while i < entries.len()
                invariant
                    i <= entries@.len(),
                    *value == JsonValue::Object(*entries),
                    ev == entries_view(entries@),
                    ev.len() == entries@.len(),
                    forall|k: int|
                        0 <= k < entries@.len() ==> #[trigger] ev[k] == (
                            entries@[k].0@,
                            json_view(entries@[k].1),
                        ),
                    !entries_have_secret_key(ev.subrange(0, i as int)),
                decreases entries@.len() - i,
            {
                proof {
                    assert(decreases_to!(*value => value->Object_0));
                    assert(decreases_to!(*entries => entries[i as int]));
                }
                let found = looks_secret_field(entries[i].0.as_str()) || contains_secret_key(
                    &entries[i].1,
                );
                proof {
                    let sub = ev.subrange(0, i as int + 1);
                    assert(sub.subrange(0, i as int) =~= ev.subrange(0, i as int));
                    assert(sub[i as int] == ev[i as int]);
                }
                if found {
                    proof {
                        let sub = ev.subrange(0, i as int + 1);
                        assert(entries_have_secret_key(sub));
                        lemma_entries_secret_grows(ev, i as int + 1);
                        assert(ev.subrange(0, ev.len() as int) =~= ev);
                    }
                    return true;
                }
                i = i + 1;
            }
            proof {
                assert(ev.subrange(0, ev.len() as int) =~= ev);
            }
            false
        },
        _ => false,
    }
}

/// A credential-like key found in a prefix is found in every longer prefix.
proof fn lemma_items_secret_grows(s: Seq<JsonV>, n: int)
    requires
        0 <= n <= s.len(),
        items_have_secret_key(s.subrange(0, n)),
    ensures
        items_have_secret_key(s.subrange(0, s.len() as int)),
    decreases s.len() - n,
{
    if n < s.len() {
        let longer = s.subrange(0, n + 1);
        assert(longer.subrange(0, n) =~= s.subrange(0, n));
        lemma_items_secret_grows(s, n + 1);
    }
}

/// A credential-like key found in a prefix of entries is found in every longer prefix.
proof fn lemma_entries_secret_grows(s: Seq<(Seq<char>, JsonV)>, n: int)
    requires
        0 <= n <= s.len(),
        entries_have_secret_key(s.subrange(0, n)),
    ensures
        entries_have_secret_key(s.subrange(0, s.len() as int)),
    decreases s.len() - n,
{
    if n < s.len() {
        let longer = s.subrange(0, n + 1);
        assert(longer.subrange(0, n) =~= s.subrange(0, n));
        lemma_entries_secret_grows(s, n + 1);
    }
}

/// A new value: `value` with every string equal to `placeholder` replaced by a copy of
/// `replacement`.
pub fn replaced_value(value: &JsonValue, placeholder: &str, replacement: &JsonValue) -> (r: JsonValue)
    ensures
        json_view(r) == replaced(json_view(*value), placeholder@, json_view(*replacement)),
    decreases value,
{
    let ghost rv = json_view(*replacement);
    match value {
        JsonValue::String(s) => {
            if str_eq(s.as_str(), placeholder) {
                replacement.copy()
            } else {
                value.copy()
            }
        },
        JsonValue::Array(items) => {
            let mut out: Vec<JsonValue> = Vec::new();
            let mut i: usize = 0;
            while i < items.len()
                invariant
                    i <= items@.len(),
                    *value == JsonValue::Array(*items),
                    rv == json_view(*replacement),
                    out@.len() == i,
                    forall|k: int|
                        0 <= k < i ==> json_view(#[trigger] out@[k]) == replaced(
                            json_view(items@[k]),
                            placeholder@,
                            rv,
                        ),
                decreases items@.len() - i,
            {
                proof {
                    assert(decreases_to!(*value => value->Array_0));
                    assert(decreases_to!(*items => items[i as int]));
                }
                let c = replaced_value(&items[i], placeholder, replacement);
                out.push(c);
                i = i + 1;
            }
            proof {
                let iv = items_view(items@);
                lemma_items_view(items@);
                lemma_items_view(out@);
                lemma_items_replaced(iv, placeholder@, rv);
                assert(items_view(out@) =~= items_replaced(iv, placeholder@, rv));
            }
            JsonValue::Array(out)
        },
        JsonValue::Object(entries) => {
            let mut out: Vec<(String, JsonValue)> = Vec::new();
            let mut i: usize = 0;
            while i < entries.len()
                invariant
                    i <= entries@.len(),
                    *value == JsonValue::Object(*entries),
                    rv == json_view(*replacement),
                    out@.len() == i,
                    forall|k: int|
                        0 <= k < i ==> (#[trigger] out@[k]).0@ == entries@[k].0@ && json_view(out@[k].1)
                            == replaced(json_view(entries@[k].1), placeholder@, rv),
                decreases entries@.len() - i,
            {
                proof {
                    assert(decreases_to!(*value => value->Object_0));
                    assert(decreases_to!(*entries => entries[i as int]));
                }
                let c = replaced_value(&entries[i].1, placeholder, replacement);
                out.push((entries[i].0.clone(), c));
                i = i + 1;
            }
            proof {
                let ev = entries_view(entries@);
                lemma_entries_view(entries@);
                lemma_entries_view(out@);
                lemma_entries_replaced(ev, placeholder@, rv);
                assert(entries_view(out@) =~= entries_replaced(ev, placeholder@, rv));
            }
            JsonValue::Object(out)
        },
        _ => value.copy(),
    }
}

/// Replaces, in place, every string equal to `placeholder` with `replacement`.
pub fn replace_placeholder(value: &mut JsonValue, placeholder: &str, replacement: JsonValue)
    ensures
        json_view(*final(value)) == replaced(json_view(*old(value)), placeholder@, json_view(replacement)),
{
    let next = replaced_value(value, placeholder, &replacement);
    *value = next;
}

/// A configurable minutes endpoint: the reviewed JSON body template with exact-value
/// placeholders, and the path of the generated content in the response.
pub struct MinutesHttpMapping {
    pub method: HttpMethod,
    pub body_template: JsonValue,
    pub model_placeholder: String,
    pub prompt_placeholder: String,
    pub schema_placeholder: Option<String>,
    pub response_content_path: JsonPath,
    pub response_content_mode: JsonContentMode,
    pub remote_request_id_header: Option<String>,
    pub capabilities: MinutesCapabilities,
}

/// The error of a malformed request template.
pub open spec fn template_error(message: Seq<char>) -> (Seq<char>, Seq<char>) {
    ("invalid_minutes_request_template"@, message)
}

/// The first problem of a minutes mapping, checked in order: the template is an object;
/// model and prompt placeholders are non-empty and distinct; each occurs exactly once;
/// a schema placeholder, when configured, is non-empty, distinct and occurs exactly
/// once, and one is configured whenever JSON Schema support is declared; no key looks
/// like a credential; the response path and header are valid.
pub open spec fn minutes_mapping_problem(m: MinutesHttpMapping) -> Option<(Seq<char>, Seq<char>)> {
    let t = json_view(m.body_template);
    let model = m.model_placeholder@;
    let prompt = m.prompt_placeholder@;
    if !(t is Object) {
        Some(template_error("纪要请求模板必须是 JSON 对象"@))
    } else if model.len() == 0 || prompt.len() == 0 || model == prompt {
        Some(template_error("纪要请求占位符无效"@))
    } else if placeholder_count(t, model) != 1 || placeholder_count(t, prompt) != 1 {
        Some(template_error("模型和 Prompt 占位符必须各出现一次"@))
    } else if m.schema_placeholder matches Some(sp) && (sp@.len() == 0 || sp@ == model || sp@ == prompt
        || placeholder_count(t, sp@) != 1) {
        Some(template_error("Schema 占位符必须唯一且出现一次"@))
    } else if m.schema_placeholder is None && m.capabilities.supports_json_schema {
        Some(("missing_schema_mapping"@, "声明支持 JSON Schema 时必须显式配置 Schema 占位符"@))
    } else if has_secret_key(t) {
        Some(("secret_in_request_mapping"@, "密钥只能通过受控认证配置注入"@))
    } else if !path_valid(m.response_content_path@) {
        Some(("invalid_response_mapping"@, "Provider 响应字段映射无效"@))
    } else if m.remote_request_id_header matches Some(h) && !header_name_accepted(
        vstd::utf8::encode_utf8(h@),
    ) {
        Some(("invalid_response_mapping"@, "Provider 响应 Header 映射无效"@))
    } else {
        None
    }
}

/// The body a template renders to: the model, then the prompt, then (when a schema
/// placeholder is configured) the output schema put in place of their placeholders.
pub open spec fn rendered_body(m: MinutesHttpMapping, model: Seq<char>, prompt: Seq<char>, schema: JsonV) -> JsonV {
    let with_model = replaced(json_view(m.body_template), m.model_placeholder@, JsonV::Str(model));
    let with_prompt = replaced(with_model, m.prompt_placeholder@, JsonV::Str(prompt));
    match m.schema_placeholder {
        Some(sp) => replaced(with_prompt, sp@, schema),
        None => with_prompt,
    }
}

/// The generated content of a minutes response, as the mapping reads it.
#[derive(Debug)]
pub enum MinutesContent {
    /// The JSON value at the configured path.
    Value(JsonValue),
    /// The text at the configured path, which is to hold an encoded JSON candidate.
    EncodedJson(String),
}

/// The content a mapping reads from a parsed response body (`None`: the body was not
/// JSON), or the protocol error of a reply that does not fit it.
pub open spec fn minutes_content_outcome(m: MinutesHttpMapping, body: Option<JsonV>) -> Result<
    JsonV,
    (Seq<char>, Seq<char>),
> {
    match body {
        None => Err(("invalid_provider_response"@, "Provider 返回的纪要响应不是有效 JSON"@)),
        Some(b) => match select_path(m.response_content_path@, b, 0) {
            None => Err(("invalid_provider_response"@, "Provider 纪要响应缺少已配置字段"@)),
            Some(x) => match m.response_content_mode {
                JsonContentMode::JsonValue => Ok(x),
                JsonContentMode::JsonEncodedString => if x is Str {
                    Ok(x)
                } else {
                    Err(("invalid_provider_response"@, "Provider 纪要字段类型与配置不一致"@))
                },
            },
        },
    }
}

impl MinutesHttpMapping {
    /// Validates placeholders and the response mapping without imposing provider fields.
    pub fn validate(&self) -> (r: Result<(), ProviderError>)
        ensures
            match minutes_mapping_problem(*self) {
                Some(e) => r is Err && r->Err_0@ == configuration_error(e.0, e.1),
                None => r is Ok,
            },
    {
        let ghost t = json_view(self.body_template);
        if !self.body_template.is_object() {
            return Err(
                ProviderError::configuration(
                    "invalid_minutes_request_template",
                    "纪要请求模板必须是 JSON 对象",
                ),
            );
        }
        let model = self.model_placeholder.as_str();
        let prompt = self.prompt_placeholder.as_str();
        if model.unicode_len() == 0 || prompt.unicode_len() == 0 || str_eq(model, prompt) {
            return Err(
                ProviderError::configuration("invalid_minutes_request_template", "纪要请求占位符无效"),
            );
        }
        if count_placeholder(&self.body_template, model) != 1 || count_placeholder(
            &self.body_template,
            prompt,
        ) != 1 {
            return Err(
                ProviderError::configuration(
                    "invalid_minutes_request_template",
                    "模型和 Prompt 占位符必须各出现一次",
                ),
            );
        }
        match &self.schema_placeholder {
            Some(sp) => {
                let sps = sp.as_str();
                if sps.unicode_len() == 0 || str_eq(sps, model) || str_eq(sps, prompt)
                    || count_placeholder(&self.body_template, sps) != 1 {
                    return Err(
                        ProviderError::configuration(
                            "invalid_minutes_request_template",
                            "Schema 占位符必须唯一且出现一次",
                        ),
                    );
                }
            },
            None => {
                if self.capabilities.supports_json_schema {
                    return Err(
                        ProviderError::configuration(
                            "missing_schema_mapping",
                            "声明支持 JSON Schema 时必须显式配置 Schema 占位符",
                        ),
                    );
                }
            },
        }
        if contains_secret_key(&self.body_template) {
            return Err(
                ProviderError::configuration("secret_in_request_mapping", "密钥只能通过受控认证配置注入"),
            );
        }
        if self.response_content_path.validate().is_err() {
            return Err(
                ProviderError::configuration("invalid_response_mapping", "Provider 响应字段映射无效"),
            );
        }
        match &self.remote_request_id_header {
            Some(h) => {
                if !header_name_parses(h.as_str().as_bytes()) {
                    return Err(
                        ProviderError::configuration(
                            "invalid_response_mapping",
                            "Provider 响应 Header 映射无效",
                        ),
                    );
                }
            },
            None => {},
        }
        Ok(())
    }

    /// Renders the reviewed template by exact-value placeholder replacement.
    pub fn render_body(&self, model: &str, prompt: &str, output_schema: &JsonValue) -> (r: JsonValue)
        ensures
            json_view(r) == rendered_body(*self, model@, prompt@, json_view(*output_schema)),
    {
        let mut body = self.body_template.copy();
        replace_placeholder(&mut body, self.model_placeholder.as_str(), JsonValue::String(model.to_string()));
        replace_placeholder(
            &mut body,
            self.prompt_placeholder.as_str(),
            JsonValue::String(prompt.to_string()),
        );
        match &self.schema_placeholder {
            Some(sp) => {
                replace_placeholder(&mut body, sp.as_str(), output_schema.copy());
            },
            None => {},
        }
        body
    }

    /// Reads the generated content out of a parsed response body; `None` stands for a
    /// body that was not JSON.
    pub fn response_content(&self, body: Option<&JsonValue>) -> (r: Result<MinutesContent, ProviderError>)
        ensures
            match minutes_content_outcome(
                *self,
                match body {
                    Some(b) => Some(json_view(*b)),
                    None => None,
                },
            ) {
                Ok(x) => match r {
                    Ok(MinutesContent::Value(v)) => self.response_content_mode == JsonContentMode::JsonValue
                        && json_view(v) == x,
                    Ok(MinutesContent::EncodedJson(s)) => self.response_content_mode
                        == JsonContentMode::JsonEncodedString && x == JsonV::Str(s@),
                    Err(_) => false,
                },
                Err(e) => r is Err && r->Err_0@ == protocol_error(e.0, e.1),
            },
    {
        let root = match body {
            Some(b) => b,
            None => {
                return Err(
                    ProviderError::protocol("invalid_provider_response", "Provider 返回的纪要响应不是有效 JSON"),
                );
            },
        };
        let content = match self.response_content_path.select(root) {
            Some(c) => c,
            None => {
                return Err(
                    ProviderError::protocol("invalid_provider_response", "Provider 纪要响应缺少已配置字段"),
                );
            },
        };
        match self.response_content_mode {
            JsonContentMode::JsonValue => Ok(MinutesContent::Value(content.copy())),
            JsonContentMode::JsonEncodedString => match content {
                JsonValue::String(s) => Ok(MinutesContent::EncodedJson(s.clone())),
                _ => Err(
                    ProviderError::protocol(
                        "invalid_provider_response",
                        "Provider 纪要字段类型与配置不一致",
                    ),
                ),
            },
        }
    }
}

/// The candidate decoded from an encoded JSON text, or the protocol error of a text that
/// was not JSON (`None`).
pub fn decoded_minutes_candidate(parsed: Option<JsonValue>) -> (r: Result<JsonValue, ProviderError>)
    ensures
        match parsed {
            Some(v) => r is Ok && json_view(r->Ok_0) == json_view(v),
            None => r is Err && r->Err_0@ == protocol_error(
                "invalid_minutes_json"@,
                "Provider 纪要候选不是有效 JSON"@,
            ),
        },
{
    match parsed {
        Some(v) => Ok(v),
        None => Err(ProviderError::protocol("invalid_minutes_json", "Provider 纪要候选不是有效 JSON")),
    }
}

/// Whether a list of supported versions admits a version: an empty list admits any.
pub open spec fn version_supported(versions: Seq<String>, version: Seq<char>) -> bool {
    versions.len() == 0 || exists|i: int| 0 <= i < versions.len() && (#[trigger] versions[i])@ == version
}

/// The refusal of a minutes request before it is sent: a blank prompt, an unsupported
/// schema version, or a prompt over the known character limit, in that order.
pub open spec fn minutes_request_problem(
    caps: MinutesCapabilities,
    prompt: Seq<char>,
    schema_version: Seq<char>,
) -> Option<(Seq<char>, Seq<char>)> {
    if crate::text::is_blank(prompt) {
        Some(("empty_minutes_prompt"@, "纪要 Prompt 不能为空"@))
    } else if !version_supported(caps.supported_schema_versions@, schema_version) {
        Some(("unsupported_schema_version"@, "当前 Provider 配置不支持目标纪要 Schema 版本"@))
    } else if caps.max_input_characters matches Some(limit) && prompt.len() > limit {
        Some(("minutes_input_too_large"@, "纪要输入超过当前 Provider 的已知限制"@))
    } else {
        None
    }
}

/// Refuses a minutes request that the configured provider cannot take.
pub fn check_minutes_request(caps: &MinutesCapabilities, prompt: &str, schema_version: &str) -> (r: Result<
    (),
    ProviderError,
>)
    ensures
        match minutes_request_problem(*caps, prompt@, schema_version@) {
            Some(e) => r is Err && r->Err_0@ == super::mapping::input_error(e.0, e.1),
            None => r is Ok,
        },
{
    if crate::text::str_is_blank(prompt) {
        return Err(ProviderError::input("empty_minutes_prompt", "纪要 Prompt 不能为空"));
    }
    let versions = &caps.supported_schema_versions;
    if versions.len() > 0 {
        let mut found = false;
        let mut i: usize = 0;
        while i < versions.len()
            invariant
                i <= versions@.len(),
                found ==> version_supported(versions@, schema_version@),
                !found ==> forall|k: int| 0 <= k < i ==> (#[trigger] versions@[k])@ != schema_version@,
            decreases versions@.len() - i,
        {
            if str_eq(versions[i].as_str(), schema_version) {
                found = true;
            }
            i = i + 1;
        }
        if !found {
            return Err(
                ProviderError::input(
                    "unsupported_schema_version",
                    "当前 Provider 配置不支持目标纪要 Schema 版本",
                ),
            );
        }
    }
    match caps.max_input_characters {
        Some(limit) => {
            if prompt.unicode_len() as u64 > limit {
                return Err(
                    ProviderError::input("minutes_input_too_large", "纪要输入超过当前 Provider 的已知限制"),
                );
            }
        },
        None => {},
    }
    Ok(())
}

/// The count of indicator `[p == q]` times `n`.
pub open spec fn same_times(p: Seq<char>, q: Seq<char>, n: nat) -> nat {
    if p == q {
        n
    } else {
        0
    }
}

/// Replacing the placeholder `p` by `r` removes the occurrences of `p` and brings, for
/// each of them, the occurrences that `r` holds: for any string `q`, the count of `q`
/// afterwards, plus the removed occurrences when `q` is `p`, equals the count of `q`
/// before plus the count of `p` times the count of `q` in `r`. In particular, when `r`
/// holds no `p`, no `p` is left.
pub proof fn law_replacement_count(v: JsonV, p: Seq<char>, r: JsonV, q: Seq<char>)
    ensures
        placeholder_count(replaced(v, p, r), q) + same_times(p, q, placeholder_count(v, p))
            == placeholder_count(v, q) + placeholder_count(v, p) * placeholder_count(r, q),
    decreases v,
{
    let n = placeholder_count(v, p);
    let c = placeholder_count(r, q);
    match v {
        JsonV::Array(items) => {
            lemma_items_replacement_count(items, p, r, q);
        },
        JsonV::Object(entries) => {
            lemma_entries_replacement_count(entries, p, r, q);
        },
        _ => {
            assert(n <= 1);
            assert(n * c == if n == 1 { c } else { 0 }) by (nonlinear_arith)
                requires
                    n <= 1,
            ;
        },
    }
}

/// The replacement count over a sequence of values.
proof fn lemma_items_replacement_count(s: Seq<JsonV>, p: Seq<char>, r: JsonV, q: Seq<char>)
    ensures
        items_placeholder_count(items_replaced(s, p, r), q) + same_times(
            p,
            q,
            items_placeholder_count(s, p),
        ) == items_placeholder_count(s, q) + items_placeholder_count(s, p) * placeholder_count(r, q),
    decreases s,
{
    if s.len() == 0 {
        let c = placeholder_count(r, q);
        assert(0 * c == 0) by (nonlinear_arith);
    } else {
        let init = s.subrange(0, s.len() - 1);
        let last = s[s.len() - 1];
        lemma_items_replacement_count(init, p, r, q);
        law_replacement_count(last, p, r, q);
        let t = items_replaced(s, p, r);
        assert(t.subrange(0, t.len() - 1) =~= items_replaced(init, p, r));
        assert(t[t.len() - 1] == replaced(last, p, r));
        assert(items_placeholder_count(t, q) == items_placeholder_count(items_replaced(init, p, r), q)
            + placeholder_count(replaced(last, p, r), q));
        assert(items_placeholder_count(s, q) == items_placeholder_count(init, q) + placeholder_count(last, q));
        let a = items_placeholder_count(init, p);
        let b = placeholder_count(last, p);
        let c = placeholder_count(r, q);
        assert(items_placeholder_count(s, p) == a + b);
        assert((a + b) * c == a * c + b * c) by (nonlinear_arith);
    }
}

/// The replacement count over object entries.
proof fn lemma_entries_replacement_count(
    s: Seq<(Seq<char>, JsonV)>,
    p: Seq<char>,
    r: JsonV,
    q: Seq<char>,
)
    ensures
        entries_placeholder_count(entries_replaced(s, p, r), q) + same_times(
            p,
            q,
            entries_placeholder_count(s, p),
        ) == entries_placeholder_count(s, q) + entries_placeholder_count(s, p) * placeholder_count(r, q),
    decreases s,
{
    if s.len() == 0 {
        let c = placeholder_count(r, q);
        assert(0 * c == 0) by (nonlinear_arith);
    } else {
        let init = s.subrange(0, s.len() - 1);
        let last = s[s.len() - 1];
        lemma_entries_replacement_count(init, p, r, q);
        law_replacement_count(last.1, p, r, q);
        let t = entries_replaced(s, p, r);
        assert(t.subrange(0, t.len() - 1) =~= entries_replaced(init, p, r));
        let a = entries_placeholder_count(init, p);
        let b = placeholder_count(last.1, p);
        let c = placeholder_count(r, q);
        assert((a + b) * c == a * c + b * c) by (nonlinear_arith);
    }
}

/// The candidate encoded in a text: the JSON document it holds, or the protocol error
/// of a text that is not JSON.
pub fn decode_minutes_candidate(encoded: &str) -> (r: Result<JsonValue, ProviderError>)
    ensures
        match json_document(encoded@) {
            Some(v) => r is Ok && json_view(r->Ok_0) == v,
            None => r is Err && r->Err_0@ == protocol_error(
                "invalid_minutes_json"@,
                "Provider 纪要候选不是有效 JSON"@,
            ),
        },
{
    decoded_minutes_candidate(parse_json_text(encoded))
}

/// The minutes candidate a raw response body carries under a mapping: the document of
/// the body, the value at the configured path, and for an encoded string the document
/// that string holds; each failure is the protocol error that names it.
pub open spec fn minutes_candidate_outcome(m: MinutesHttpMapping, body: Seq<u8>) -> Result<JsonV, ProviderErrorV> {
    match minutes_content_outcome(m, json_document_bytes(body)) {
        Err(e) => Err(protocol_error(e.0, e.1)),
        Ok(x) => match x {
            JsonV::Str(t) if m.response_content_mode == JsonContentMode::JsonEncodedString => match json_document(t) {
                Some(v) => Ok(v),
                None => Err(protocol_error("invalid_minutes_json"@, "Provider 纪要候选不是有效 JSON"@)),
            },
            _ => Ok(x),
        },
    }
}

impl MinutesHttpMapping {
    /// Reads the minutes candidate out of a raw response body.
    pub fn minutes_candidate_of_body(&self, body: &[u8]) -> (r: Result<JsonValue, ProviderError>)
        ensures
            match minutes_candidate_outcome(*self, body@) {
                Ok(v) => r is Ok && json_view(r->Ok_0) == v,
                Err(e) => r is Err && r->Err_0@ == e,
            },
    {
        let parsed = parse_json_bytes(body);
        let content = match &parsed {
            Some(b) => self.response_content(Some(b)),
            None => self.response_content(None),
        };
        match content {
            Err(e) => Err(e),
            Ok(MinutesContent::Value(v)) => Ok(v),
            Ok(MinutesContent::EncodedJson(s)) => decode_minutes_candidate(s.as_str()),
        }
    }
}

} // verus!
