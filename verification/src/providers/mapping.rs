//! Declarative JSON response mappings of configurable providers.

use vstd::prelude::*;

use super::contract::{CapabilityEvidence, TranscriptionCapabilities, TranscriptionOptions};
use super::error::{configuration_error, protocol_error, provider_error, ProviderError, ProviderErrorCategory, ProviderErrorV};
use super::contract::OperationOutcome;
use super::http::{ascii_lowercase, header_name_accepted, header_name_parses, HttpMethod, MultipartBody, MultipartFile};
use crate::json::{json_document_bytes, json_view, lemma_items_view, member_of, parse_json_bytes, JsonV, JsonValue};
use crate::text::{ascii_lower_seq, chars_of, contains, copy_str, str_contains, str_eq};

verus! {

/// One step of a JSON path: an object key or an array index.
pub enum JsonPathSegment {
    Key(String),
    Index(usize),
}

/// A path into a JSON response.
pub struct JsonPath(pub Vec<JsonPathSegment>);

/// The view of a path step.
pub enum SegmentV {
    Key(Seq<char>),
    Index(usize),
}

impl View for JsonPathSegment {
    type V = SegmentV;

    open spec fn view(&self) -> SegmentV {
        match self {
            JsonPathSegment::Key(k) => SegmentV::Key(k@),
            JsonPathSegment::Index(i) => SegmentV::Index(*i),
        }
    }
}

impl View for JsonPath {
    type V = Seq<SegmentV>;

    open spec fn view(&self) -> Seq<SegmentV> {
        self.0@.map_values(|s: JsonPathSegment| s@)
    }
}

/// Whether a path is usable: not empty and without empty keys.
pub open spec fn path_valid(p: Seq<SegmentV>) -> bool {
    p.len() > 0 && forall|i: int| 0 <= i < p.len() ==> !(#[trigger] p[i] matches SegmentV::Key(k)
        && k.len() == 0)
}

impl JsonPath {
    /// A path of object keys.
    pub fn keys(keys: &[&str]) -> (r: Self)
        ensures
            r@ == keys@.map_values(|k: &str| SegmentV::Key(k@)),
    {
        let mut v: Vec<JsonPathSegment> = Vec::new();
        let mut i: usize = 0;
        while i < keys.len()
            invariant
                0 <= i <= keys@.len(),
                v@.map_values(|s: JsonPathSegment| s@) == keys@.take(i as int).map_values(
                    |k: &str| SegmentV::Key(k@),
                ),
            decreases keys@.len() - i,
        {
            let ghost before = v@.map_values(|s: JsonPathSegment| s@);
            v.push(JsonPathSegment::Key(copy_str(keys[i])));
            i = i + 1;
            proof {
                assert(v@.map_values(|s: JsonPathSegment| s@) =~= before.push(SegmentV::Key(keys@[i - 1]@)));
                assert(keys@.take(i as int).map_values(|k: &str| SegmentV::Key(k@)) =~= keys@.take(
                    (i - 1) as int,
                ).map_values(|k: &str| SegmentV::Key(k@)).push(SegmentV::Key(keys@[i - 1]@)));
            }
        }
        proof {
            assert(keys@.take(keys@.len() as int) =~= keys@);
        }
        JsonPath(v)
    }

    /// Rejects an empty path or one with an empty key.
    pub fn validate(&self) -> (r: Result<(), ProviderError>)
        ensures
            r is Ok <==> path_valid(self@),
            r matches Err(e) ==> e@ == configuration_error(
                "invalid_response_mapping"@,
                "Provider 响应字段映射无效"@,
            ),
    {
        let ghost pv = self@;
        if self.0.len() == 0 {
            return Err(ProviderError::configuration("invalid_response_mapping", "Provider 响应字段映射无效"));
        }
        let mut i: usize = 0;
        while i < self.0.len()
            invariant
                0 <= i <= self.0@.len(),
                pv == self@,
                pv.len() == self.0@.len(),
                forall|k: int| 0 <= k < i ==> !(#[trigger] pv[k] matches SegmentV::Key(s) && s.len() == 0),
            decreases self.0@.len() - i,
        {
            let empty = match &self.0[i] {
                JsonPathSegment::Key(k) => k.as_str().unicode_len() == 0,
                JsonPathSegment::Index(_) => false,
            };
            if empty {
                proof {
                    assert(pv[i as int] matches SegmentV::Key(s) && s.len() == 0);
                }
                return Err(ProviderError::configuration("invalid_response_mapping", "Provider 响应字段映射无效"));
            }
            i = i + 1;
        }
        Ok(())
    }
}

/// One step of a path: an object member by key, or an array element by index.
pub open spec fn path_step(v: JsonV, seg: SegmentV) -> Option<JsonV> {
    match seg {
        SegmentV::Key(k) => match v {
            JsonV::Object(_) => member_of(v, k),
            _ => None,
        },
        SegmentV::Index(i) => match v {
            JsonV::Array(items) => if i < items.len() {
                Some(items[i as int])
            } else {
                None
            },
            _ => None,
        },
    }
}

/// The value a path selects, following its steps from `i` on.
pub open spec fn select_path(path: Seq<SegmentV>, v: JsonV, i: int) -> Option<JsonV>
    decreases path.len() - i,
{
    if i < 0 || i >= path.len() {
        Some(v)
    } else {
        match path_step(v, path[i]) {
            Some(n) => select_path(path, n, i + 1),
            None => None,
        }
    }
}

impl JsonPath {
    /// The value the path selects in `root`, if every step exists.
    pub fn select<'a>(&self, root: &'a JsonValue) -> (r: Option<&'a JsonValue>)
        ensures
            match select_path(self@, json_view(*root), 0) {
                Some(x) => r is Some && json_view(*r->Some_0) == x,
                None => r is None,
            },
    {
        let ghost pv = self@;
        let mut current: &JsonValue = root;
        let mut i: usize = 0;
        while i < self.0.len()
            invariant
                i <= self.0@.len(),
                pv == self@,
                pv.len() == self.0@.len(),
                select_path(pv, json_view(*root), 0) == select_path(pv, json_view(*current), i as int),
            decreases self.0@.len() - i,
        {
            assert(pv[i as int] == self.0@[i as int]@);
            let next: Option<&JsonValue> = match &self.0[i] {
                JsonPathSegment::Key(k) => current.get_member(k.as_str()),
                JsonPathSegment::Index(idx) => match current {
                    JsonValue::Array(items) => {
                        proof {
                            lemma_items_view(items@);
                        }
                        if *idx < items.len() {
                            Some(&items[*idx])
                        } else {
                            None
                        }
                    },
                    _ => None,
                },
            };
            match next {
                Some(n) => {
                    current = n;
                },
                None => {
                    return None;
                },
            }
            i = i + 1;
        }
        Some(current)
    }
}

/// The text a path selects, when it selects a string.
pub open spec fn selected_text(path: Seq<SegmentV>, root: JsonV) -> Option<Seq<char>> {
    match select_path(path, root, 0) {
        Some(JsonV::Str(s)) => Some(s),
        _ => None,
    }
}

/// Reads a required string; a missing or non-string value is a protocol error that
/// repeats nothing of the reply.
pub fn required_string(path: &JsonPath, root: &JsonValue) -> (r: Result<String, ProviderError>)
    ensures
        match selected_text(path@, json_view(*root)) {
            Some(s) => r is Ok && r->Ok_0@ == s,
            None => r is Err && r->Err_0@ == protocol_error(
                "invalid_provider_response"@,
                "Provider 响应缺少已配置的文本字段"@,
            ),
        },
{
    match path.select(root) {
        Some(JsonValue::String(s)) => Ok(s.clone()),
        _ => Err(ProviderError::protocol("invalid_provider_response", "Provider 响应缺少已配置的文本字段")),
    }
}

/// The outcome of an optional string: no path, a missing value or `null` give nothing, a
/// string gives its text, and any other value is refused.
pub open spec fn optional_text_outcome(path: Option<Seq<SegmentV>>, root: JsonV) -> Result<Option<Seq<char>>, ()> {
    match path {
        None => Ok(None),
        Some(p) => match select_path(p, root, 0) {
            None => Ok(None),
            Some(JsonV::Null) => Ok(None),
            Some(JsonV::Str(s)) => Ok(Some(s)),
            Some(_) => Err(()),
        },
    }
}

/// The view of an optional path.
pub open spec fn opt_path_view(p: Option<&JsonPath>) -> Option<Seq<SegmentV>> {
    match p {
        Some(x) => Some(x@),
        None => None,
    }
}

/// The view of an optional text.
pub open spec fn opt_string_view(s: Option<String>) -> Option<Seq<char>> {
    match s {
        Some(x) => Some(x@),
        None => None,
    }
}

/// Reads an optional string while refusing a configured value of another type.
pub fn optional_string(path: Option<&JsonPath>, root: &JsonValue) -> (r: Result<Option<String>, ProviderError>)
    ensures
        match optional_text_outcome(opt_path_view(path), json_view(*root)) {
            Ok(t) => r is Ok && opt_string_view(r->Ok_0) == t,
            Err(_) => r is Err && r->Err_0@ == protocol_error(
                "invalid_provider_response"@,
                "Provider 响应字段类型与配置不一致"@,
            ),
        },
{
    let p = match path {
        Some(p) => p,
        None => {
            return Ok(None);
        },
    };
    match p.select(root) {
        None => Ok(None),
        Some(JsonValue::Null) => Ok(None),
        Some(JsonValue::String(s)) => Ok(Some(s.clone())),
        Some(_) => Err(ProviderError::protocol("invalid_provider_response", "Provider 响应字段类型与配置不一致")),
    }
}

/// The text of a scalar: a string's own text, or a number's text.
pub open spec fn scalar_text(v: JsonV) -> Option<Seq<char>> {
    match v {
        JsonV::Str(s) => Some(s),
        JsonV::Number(t, _) => Some(t),
        _ => None,
    }
}

/// Reads a required scalar as a stable identifier.
pub fn required_scalar_string(path: &JsonPath, root: &JsonValue) -> (r: Result<String, ProviderError>)
    ensures
        match select_path(path@, json_view(*root), 0) {
            Some(v) if scalar_text(v) is Some => r is Ok && r->Ok_0@ == scalar_text(v)->Some_0,
            _ => r is Err && r->Err_0@ == protocol_error(
                "invalid_provider_response"@,
                "Provider segment 标识字段无效"@,
            ),
        },
{
    match path.select(root) {
        Some(JsonValue::String(s)) => Ok(s.clone()),
        Some(JsonValue::Number(n)) => Ok(n.text.clone()),
        _ => Err(ProviderError::protocol("invalid_provider_response", "Provider segment 标识字段无效")),
    }
}

/// The outcome of an optional scalar: no path, a missing value or `null` give nothing, a
/// string or number gives its text, and any other value is refused.
pub open spec fn optional_scalar_outcome(path: Option<Seq<SegmentV>>, root: JsonV) -> Result<Option<Seq<char>>, ()> {
    match path {
        None => Ok(None),
        Some(p) => match select_path(p, root, 0) {
            None => Ok(None),
            Some(JsonV::Null) => Ok(None),
            Some(v) => match scalar_text(v) {
                Some(t) => Ok(Some(t)),
                None => Err(()),
            },
        },
    }
}

/// Reads an optional scalar as text without inventing missing values.
pub fn optional_scalar_string(path: Option<&JsonPath>, root: &JsonValue) -> (r: Result<Option<String>, ProviderError>)
    ensures
        match optional_scalar_outcome(opt_path_view(path), json_view(*root)) {
            Ok(t) => r is Ok && opt_string_view(r->Ok_0) == t,
            Err(_) => r is Err && r->Err_0@ == protocol_error(
                "invalid_provider_response"@,
                "Provider segment 字段类型无效"@,
            ),
        },
{
    let p = match path {
        Some(p) => p,
        None => {
            return Ok(None);
        },
    };
    match p.select(root) {
        None => Ok(None),
        Some(JsonValue::Null) => Ok(None),
        Some(JsonValue::String(s)) => Ok(Some(s.clone())),
        Some(JsonValue::Number(n)) => Ok(Some(n.text.clone())),
        Some(_) => Err(ProviderError::protocol("invalid_provider_response", "Provider segment 字段类型无效")),
    }
}

/// The view of an optional owned path.
pub open spec fn opt_owned_path_view(p: Option<JsonPath>) -> Option<Seq<SegmentV>> {
    match p {
        Some(x) => Some(x@),
        None => None,
    }
}

/// The transcript text and language a response mapping reads from a parsed body (`None`:
/// the body was not JSON), or the protocol error of a reply that does not fit it.
pub open spec fn transcript_text_outcome(m: TranscriptionResponseMapping, body: Option<JsonV>) -> Result<
    (Seq<char>, Option<Seq<char>>),
    (Seq<char>, Seq<char>),
> {
    match body {
        None => Err(("invalid_provider_response"@, "Provider 返回的转写响应不是有效 JSON"@)),
        Some(b) => match selected_text(m.text_path@, b) {
            None => Err(("invalid_provider_response"@, "Provider 响应缺少已配置的文本字段"@)),
            Some(t) => if crate::text::is_blank(t) {
                Err(("empty_transcript"@, "Provider 返回了空转写"@))
            } else {
                match optional_text_outcome(opt_owned_path_view(m.language_path), b) {
                    Ok(l) => Ok((t, l)),
                    Err(_) => Err(("invalid_provider_response"@, "Provider 响应字段类型与配置不一致"@)),
                }
            },
        },
    }
}

impl TranscriptionResponseMapping {
    /// Reads the transcript text and optional language of a successful response.
    pub fn transcript_text(&self, body: Option<&JsonValue>) -> (r: Result<(String, Option<String>), ProviderError>)
        ensures
            match transcript_text_outcome(
                *self,
                match body {
                    Some(b) => Some(json_view(*b)),
                    None => None,
                },
            ) {
                Ok((t, l)) => r is Ok && r->Ok_0.0@ == t && opt_string_view(r->Ok_0.1) == l,
                Err(e) => r is Err && r->Err_0@ == protocol_error(e.0, e.1),
            },
    {
        let root = match body {
            Some(b) => b,
            None => {
                return Err(
                    ProviderError::protocol("invalid_provider_response", "Provider 返回的转写响应不是有效 JSON"),
                );
            },
        };
        let text = required_string(&self.text_path, root)?;
        if crate::text::str_is_blank(text.as_str()) {
            return Err(ProviderError::protocol("empty_transcript", "Provider 返回了空转写"));
        }
        let language = optional_string(self.language_path.as_ref(), root)?;
        Ok((text, language))
    }
}

/// The text fields a list stands for: each entry in turn sets its name to its value.
pub open spec fn fields_map(s: Seq<(String, String)>) -> Map<Seq<char>, Seq<char>>
    decreases s.len(),
{
    if s.len() == 0 {
        Map::empty()
    } else {
        fields_map(s.drop_last()).insert(s.last().0@, s.last().1@)
    }
}

/// Whether no two entries have the same name.
pub open spec fn names_unique(s: Seq<(String, String)>) -> bool {
    forall|i: int, j: int| 0 <= i < j < s.len() ==> (#[trigger] s[i]).0@ != (#[trigger] s[j]).0@
}

/// With distinct names, the map holds exactly the entries' names, each with its value.
pub proof fn lemma_fields_map(s: Seq<(String, String)>)
    requires
        names_unique(s),
    ensures
        forall|k: Seq<char>| #[trigger] fields_map(s).contains_key(k) <==> exists|i: int| 0 <= i < s.len() && s[i].0@ == k,
        forall|i: int| 0 <= i < s.len() ==> #[trigger] fields_map(s)[s[i].0@] == s[i].1@,
    decreases s.len(),
{
    if s.len() > 0 {
        let init = s.drop_last();
        assert(names_unique(init)) by {
            assert forall|i: int, j: int| 0 <= i < j < init.len() implies (#[trigger] init[i]).0@ != (
            #[trigger] init[j]).0@ by {
                assert(init[i] == s[i] && init[j] == s[j]);
            }
        }
        lemma_fields_map(init);
        assert forall|k: Seq<char>| #[trigger] fields_map(s).contains_key(k) <==> exists|i: int|
            0 <= i < s.len() && s[i].0@ == k by {
            if fields_map(s).contains_key(k) && k != s.last().0@ {
                assert(fields_map(init).contains_key(k));
                let i = choose|i: int| 0 <= i < init.len() && init[i].0@ == k;
                assert(s[i] == init[i]);
            }
            if exists|i: int| 0 <= i < s.len() && s[i].0@ == k {
                let i = choose|i: int| 0 <= i < s.len() && s[i].0@ == k;
                if i < s.len() - 1 {
                    assert(init[i] == s[i]);
                    assert(fields_map(init).contains_key(k));
                }
            }
        }
        assert forall|i: int| 0 <= i < s.len() implies #[trigger] fields_map(s)[s[i].0@] == s[i].1@ by {
            if i < s.len() - 1 {
                assert(init[i] == s[i]);
                assert(s[i].0@ != s[s.len() - 1].0@);
                assert(fields_map(init)[init[i].0@] == init[i].1@);
            }
        }
    }
}

/// Replacing the value of the entry at `i`, which keeps its name, sets that name in the map.
proof fn lemma_fields_map_update(
    before: Seq<(String, String)>,
    i: int,
    name: Seq<char>,
    value: Seq<char>,
    after: Seq<(String, String)>,
)
    requires
        names_unique(before),
        0 <= i < before.len(),
        before[i].0@ == name,
        after.len() == before.len(),
        after[i].0@ == name,
        after[i].1@ == value,
        forall|j: int| 0 <= j < before.len() && j != i ==> after[j] == before[j],
    ensures
        names_unique(after),
        fields_map(after) == fields_map(before).insert(name, value),
{
    assert(names_unique(after)) by {
        assert forall|a: int, b: int| 0 <= a < b < after.len() implies (#[trigger] after[a]).0@ != (
        #[trigger] after[b]).0@ by {
            assert(before[a].0@ != before[b].0@);
        }
    }
    lemma_fields_map(before);
    lemma_fields_map(after);
    let expected = fields_map(before).insert(name, value);
    assert forall|k: Seq<char>| #[trigger] fields_map(after).contains_key(k) <==> expected.contains_key(k) by {
        if fields_map(after).contains_key(k) {
            let j = choose|j: int| 0 <= j < after.len() && after[j].0@ == k;
            if j != i {
                assert(before[j].0@ == k);
                assert(fields_map(before).contains_key(k));
            }
        }
        if fields_map(before).contains_key(k) {
            let j = choose|j: int| 0 <= j < before.len() && before[j].0@ == k;
            if j != i {
                assert(after[j].0@ == k);
            } else {
                assert(after[i].0@ == k);
            }
        }
        if k == name {
            assert(after[i].0@ == k);
        }
    }
    assert forall|k: Seq<char>| #[trigger] fields_map(after).contains_key(k) implies fields_map(after)[k]
        == expected[k] by {
        let j = choose|j: int| 0 <= j < after.len() && after[j].0@ == k;
        if j != i {
            assert(before[j] == after[j]);
            assert(fields_map(before)[before[j].0@] == before[j].1@);
        } else {
            assert(fields_map(after)[after[i].0@] == after[i].1@);
        }
    }
    assert(fields_map(after) =~= expected);
}

/// Sets a text field: a field of that name takes the new value in place, else the field
/// is added at the end.
pub fn insert_text_field(fields: &mut Vec<(String, String)>, name: &str, value: &str)
    requires
        names_unique(old(fields)@),
    ensures
        names_unique(final(fields)@),
        fields_map(final(fields)@) == fields_map(old(fields)@).insert(name@, value@),
{
    let ghost before = fields@;
    proof {
        lemma_fields_map(before);
    }
    let mut i: usize = 0;
    while i < fields.len()
        invariant
            i <= fields@.len(),
            fields@ == before,
            before == old(fields)@,
            names_unique(before),
            forall|k: int| 0 <= k < i ==> (#[trigger] fields@[k]).0@ != name@,
        decreases fields@.len() - i,
    {
        if str_eq(fields[i].0.as_str(), name) {
            fields.set(i, (name.to_string(), value.to_string()));
            proof {
                lemma_fields_map_update(before, i as int, name@, value@, fields@);
            }
            return;
        }
        i = i + 1;
    }
    fields.push((name.to_string(), value.to_string()));
    proof {
        let after = fields@;
        assert(after.drop_last() =~= before);
        assert(names_unique(after)) by {
            assert forall|a: int, b: int| 0 <= a < b < after.len() implies (#[trigger] after[a]).0@ != (
            #[trigger] after[b]).0@ by {
                if b < after.len() - 1 {
                    assert(after[a] == before[a] && after[b] == before[b]);
                } else {
                    assert(after[a] == before[a]);
                }
            }
        }
    }
}

/// The text fields with one feature toggle applied: its enabled value when requested,
/// else its disabled value when one is configured.
pub open spec fn toggle_applied(m: Map<Seq<char>, Seq<char>>, t: Option<ToggleFieldMapping>, enabled: bool) -> Map<
    Seq<char>,
    Seq<char>,
> {
    match t {
        Some(x) => if enabled {
            m.insert(x.field_name@, x.enabled_value@)
        } else {
            match x.disabled_value {
                Some(d) => m.insert(x.field_name@, d@),
                None => m,
            }
        },
        None => m,
    }
}

/// The text fields of a multipart transcription request: the static fields, then the
/// model, the language hint, and the three feature toggles, each set in that order.
pub open spec fn request_text_fields(m: TranscriptionHttpMapping, model: Seq<char>, options: TranscriptionOptions) -> Map<
    Seq<char>,
    Seq<char>,
> {
    let base = fields_map(m.static_text_fields@);
    let with_model = match m.model_field {
        Some(f) => base.insert(f@, model),
        None => base,
    };
    let with_language = match (m.language_field, options.language_hint) {
        (Some(f), Some(l)) => with_model.insert(f@, l@),
        _ => with_model,
    };
    let with_timestamps = toggle_applied(with_language, m.timestamps_field, options.enable_timestamps);
    let with_speakers = toggle_applied(with_timestamps, m.speaker_labels_field, options.enable_speaker_labels);
    toggle_applied(with_speakers, m.confidence_field, options.enable_confidence)
}

/// Applies one toggle to fields under construction.
fn apply_toggle(fields: &mut Vec<(String, String)>, toggle: &Option<ToggleFieldMapping>, enabled: bool)
    requires
        names_unique(old(fields)@),
    ensures
        names_unique(final(fields)@),
        fields_map(final(fields)@) == toggle_applied(fields_map(old(fields)@), *toggle, enabled),
{
    match toggle {
        Some(t) => {
            if enabled {
                insert_text_field(fields, t.field_name.as_str(), t.enabled_value.as_str());
            } else {
                match &t.disabled_value {
                    Some(d) => insert_text_field(fields, t.field_name.as_str(), d.as_str()),
                    None => {},
                }
            }
        },
        None => {},
    }
}

impl TranscriptionHttpMapping {
    /// The multipart text fields of a request, each name once; a static field named twice
    /// takes its last value.
    pub fn text_fields(&self, model: &str, options: &TranscriptionOptions) -> (r: Vec<(String, String)>)
        ensures
            names_unique(r@),
            fields_map(r@) == request_text_fields(*self, model@, *options),
    {
        let mut fields: Vec<(String, String)> = Vec::new();
        let mut i: usize = 0;
        while i < self.static_text_fields.len()
            invariant
                i <= self.static_text_fields@.len(),
                names_unique(fields@),
                fields_map(fields@) == fields_map(self.static_text_fields@.take(i as int)),
            decreases self.static_text_fields@.len() - i,
        {
            insert_text_field(
                &mut fields,
                self.static_text_fields[i].0.as_str(),
                self.static_text_fields[i].1.as_str(),
            );
            proof {
                let next = self.static_text_fields@.take(i + 1);
                assert(next.drop_last() =~= self.static_text_fields@.take(i as int));
            }
            i = i + 1;
        }
        proof {
            assert(self.static_text_fields@.take(self.static_text_fields@.len() as int) =~= self.static_text_fields@);
        }
        match &self.model_field {
            Some(f) => insert_text_field(&mut fields, f.as_str(), model),
            None => {},
        }
        match (&self.language_field, &options.language_hint) {
            (Some(f), Some(l)) => insert_text_field(&mut fields, f.as_str(), l.as_str()),
            _ => {},
        }
        apply_toggle(&mut fields, &self.timestamps_field, options.enable_timestamps);
        apply_toggle(&mut fields, &self.speaker_labels_field, options.enable_speaker_labels);
        apply_toggle(&mut fields, &self.confidence_field, options.enable_confidence);
        fields
    }
}

/// The provider's text values for one optional boolean transcription feature.
pub struct ToggleFieldMapping {
    pub field_name: String,
    pub enabled_value: String,
    pub disabled_value: Option<String>,
}

/// The unit of configured segment timestamps.
#[derive(Debug, Clone, Copy, PartialEq, Eq, Structural)]
pub enum TimestampUnit {
    Milliseconds,
    Seconds,
}

/// The JSON paths that normalize one provider segment.
pub struct SegmentResponseMapping {
    pub segments_path: JsonPath,
    pub id_path: Option<JsonPath>,
    pub text_path: JsonPath,
    pub start_path: Option<JsonPath>,
    pub end_path: Option<JsonPath>,
    pub speaker_path: Option<JsonPath>,
    pub confidence_path: Option<JsonPath>,
    pub timestamp_unit: TimestampUnit,
}

/// The JSON paths that normalize one transcription response.
pub struct TranscriptionResponseMapping {
    pub text_path: JsonPath,
    pub language_path: Option<JsonPath>,
    pub segments: Option<SegmentResponseMapping>,
    pub remote_request_id_header: Option<String>,
}

/// The multipart request and response mapping of a compatible transcription endpoint;
/// the static text fields are set in list order, a repeated name keeping its last value.
pub struct TranscriptionHttpMapping {
    pub method: HttpMethod,
    pub audio_field: String,
    pub upload_file_name: String,
    pub model_field: Option<String>,
    pub language_field: Option<String>,
    pub timestamps_field: Option<ToggleFieldMapping>,
    pub speaker_labels_field: Option<ToggleFieldMapping>,
    pub confidence_field: Option<ToggleFieldMapping>,
    pub static_text_fields: Vec<(String, String)>,
    pub response: TranscriptionResponseMapping,
    pub capabilities: TranscriptionCapabilities,
}

/// How a mapped minutes response value becomes a JSON candidate.
#[derive(Debug, Clone, Copy, PartialEq, Eq, Structural)]
pub enum JsonContentMode {
    JsonValue,
    JsonEncodedString,
}

/// A character allowed in a multipart field name.
pub open spec fn multipart_char(c: char) -> bool {
    ||| ('a' <= c && c <= 'z')
    ||| ('A' <= c && c <= 'Z')
    ||| ('0' <= c && c <= '9')
    ||| c == '_'
    ||| c == '-'
    ||| c == '.'
    ||| c == '['
    ||| c == ']'
}

/// Whether a multipart field name is a short printable token: one to 128 allowed
/// characters (all ASCII, so characters and bytes count alike).
pub open spec fn multipart_field_ok(f: Seq<char>) -> bool {
    0 < f.len() <= 128 && forall|i: int| 0 <= i < f.len() ==> multipart_char(#[trigger] f[i])
}

/// The error of an invalid multipart field name.
pub open spec fn field_error() -> (Seq<char>, Seq<char>) {
    ("invalid_request_mapping"@, "Provider multipart 字段名无效"@)
}

/// Whether a text holds a line break.
pub open spec fn has_line_break(s: Seq<char>) -> bool {
    s.contains('\r') || s.contains('\n')
}

/// The problem of a toggle field, if any.
pub open spec fn toggle_problem(t: ToggleFieldMapping) -> Option<(Seq<char>, Seq<char>)> {
    if !multipart_field_ok(t.field_name@) {
        Some(field_error())
    } else if has_line_break(t.enabled_value@) || (t.disabled_value matches Some(d) && has_line_break(
        d@,
    )) {
        Some(("invalid_request_mapping"@, "Provider 选项值包含非法字符"@))
    } else {
        None
    }
}

/// The problem of an optional toggle field, if any.
pub open spec fn opt_toggle_problem(t: Option<ToggleFieldMapping>) -> Option<(Seq<char>, Seq<char>)> {
    match t {
        Some(x) => toggle_problem(x),
        None => None,
    }
}

/// Whether a field name looks like an embedded credential.
pub open spec fn looks_secret(f: Seq<char>) -> bool {
    let l = ascii_lower_seq(f);
    ||| contains(l, "api_key"@)
    ||| contains(l, "apikey"@)
    ||| contains(l, "token"@)
    ||| contains(l, "secret"@)
    ||| contains(l, "password"@)
    ||| contains(l, "authorization"@)
    ||| contains(l, "cookie"@)
    ||| contains(l, "credential"@)
}

/// The problem of the static text fields from `i` on, in order.
pub open spec fn static_fields_problem(fields: Seq<(String, String)>, i: int) -> Option<
    (Seq<char>, Seq<char>),
>
    decreases fields.len() - i,
{
    if i < 0 || i >= fields.len() {
        None
    } else if !multipart_field_ok(fields[i].0@) {
        Some(field_error())
    } else if looks_secret(fields[i].0@) {
        Some(("secret_in_request_mapping"@, "密钥只能通过受控认证配置注入"@))
    } else {
        static_fields_problem(fields, i + 1)
    }
}

/// The error of an invalid response path.
pub open spec fn path_error() -> (Seq<char>, Seq<char>) {
    ("invalid_response_mapping"@, "Provider 响应字段映射无效"@)
}

/// Whether an optional path is absent or valid.
pub open spec fn opt_path_ok(p: Option<JsonPath>) -> bool {
    match p {
        Some(x) => path_valid(x@),
        None => true,
    }
}

/// Whether every path of a segment mapping is valid.
pub open spec fn segment_mapping_ok(m: SegmentResponseMapping) -> bool {
    path_valid(m.segments_path@) && path_valid(m.text_path@) && opt_path_ok(m.id_path) && opt_path_ok(
        m.start_path,
    ) && opt_path_ok(m.end_path) && opt_path_ok(m.speaker_path) && opt_path_ok(m.confidence_path)
}

/// The problem of a response mapping, if any.
pub open spec fn response_problem(r: TranscriptionResponseMapping) -> Option<(Seq<char>, Seq<char>)> {
    if !path_valid(r.text_path@) || !opt_path_ok(r.language_path) || (r.segments matches Some(s)
        && !segment_mapping_ok(s)) {
        Some(path_error())
    } else if r.remote_request_id_header matches Some(h) && !header_name_accepted(
        vstd::utf8::encode_utf8(h@),
    ) {
        Some(("invalid_response_mapping"@, "Provider 响应 Header 映射无效"@))
    } else {
        None
    }
}

/// The first problem of a transcription mapping, checked in order: the audio field, the
/// upload file name, the model and language fields, the feature toggles, the static
/// fields, and the response mapping.
pub open spec fn transcription_mapping_problem(m: TranscriptionHttpMapping) -> Option<
    (Seq<char>, Seq<char>),
> {
    let name = m.upload_file_name@;
    if !multipart_field_ok(m.audio_field@) {
        Some(field_error())
    } else if name.len() == 0 || name.contains('/') || name.contains('\\') || name.contains('\r')
        || name.contains('\n') {
        Some(("invalid_upload_file_name"@, "上传文件名配置无效"@))
    } else if (m.model_field matches Some(f) && !multipart_field_ok(f@)) || (
    m.language_field matches Some(f) && !multipart_field_ok(f@)) {
        Some(field_error())
    } else if opt_toggle_problem(m.timestamps_field) is Some {
        opt_toggle_problem(m.timestamps_field)
    } else if opt_toggle_problem(m.speaker_labels_field) is Some {
        opt_toggle_problem(m.speaker_labels_field)
    } else if opt_toggle_problem(m.confidence_field) is Some {
        opt_toggle_problem(m.confidence_field)
    } else if static_fields_problem(m.static_text_fields@, 0) is Some {
        static_fields_problem(m.static_text_fields@, 0)
    } else {
        response_problem(m.response)
    }
}

/// Checks a multipart field name.
fn multipart_field_valid(field: &str) -> (r: bool)
    ensures
        r == multipart_field_ok(field@),
{
    let v = chars_of(field);
    if v.len() == 0 || v.len() > 128 {
        return false;
    }
    let mut i: usize = 0;
    while i < v.len()
        invariant
            i <= v@.len(),
            v@ == field@,
            forall|k: int| 0 <= k < i ==> multipart_char(#[trigger] v@[k]),
        decreases v@.len() - i,
    {
        let c = v[i];
        if !(('a' <= c && c <= 'z') || ('A' <= c && c <= 'Z') || ('0' <= c && c <= '9') || c == '_'
            || c == '-' || c == '.' || c == '[' || c == ']') {
            return false;
        }
        i = i + 1;
    }
    true
}

/// Whether a text holds a carriage return or a line feed.
fn line_break_in(s: &str) -> (r: bool)
    ensures
        r == has_line_break(s@),
{
    let v = chars_of(s);
    let mut i: usize = 0;
    while i < v.len()
        invariant
            i <= v@.len(),
            v@ == s@,
            forall|k: int| 0 <= k < i ==> v@[k] != '\r' && v@[k] != '\n',
        decreases v@.len() - i,
    {
        if v[i] == '\r' || v[i] == '\n' {
            proof {
                assert(v@[i as int] == '\r' ==> s@.contains('\r'));
                assert(v@[i as int] == '\n' ==> s@.contains('\n'));
            }
            return true;
        }
        i = i + 1;
    }
    false
}

/// Whether a text holds a character.
fn has_char(s: &str, c: char) -> (r: bool)
    ensures
        r == s@.contains(c),
{
    let v = chars_of(s);
    let mut i: usize = 0;
    while i < v.len()
        invariant
            i <= v@.len(),
            v@ == s@,
            forall|k: int| 0 <= k < i ==> v@[k] != c,
        decreases v@.len() - i,
    {
        if v[i] == c {
            proof {
                assert(s@[i as int] == c);
            }
            return true;
        }
        i = i + 1;
    }
    false
}

/// A configuration error from a code and message.
fn mapping_error(code: &str, message: &str) -> (r: ProviderError)
    ensures
        r@ == configuration_error(code@, message@),
{
    ProviderError::configuration(code, message)
}

/// Checks a feature toggle.
fn validate_toggle_field(t: &ToggleFieldMapping) -> (r: Result<(), ProviderError>)
    ensures
        match toggle_problem(*t) {
            Some(e) => r is Err && r->Err_0@ == configuration_error(e.0, e.1),
            None => r is Ok,
        },
{
    if !multipart_field_valid(t.field_name.as_str()) {
        return Err(mapping_error("invalid_request_mapping", "Provider multipart 字段名无效"));
    }
    let disabled_breaks = match &t.disabled_value {
        Some(d) => line_break_in(d.as_str()),
        None => false,
    };
    if line_break_in(t.enabled_value.as_str()) || disabled_breaks {
        return Err(mapping_error("invalid_request_mapping", "Provider 选项值包含非法字符"));
    }
    Ok(())
}

/// Checks an optional feature toggle.
fn validate_opt_toggle(t: &Option<ToggleFieldMapping>) -> (r: Result<(), ProviderError>)
    ensures
        match opt_toggle_problem(*t) {
            Some(e) => r is Err && r->Err_0@ == configuration_error(e.0, e.1),
            None => r is Ok,
        },
{
    match t {
        Some(x) => validate_toggle_field(x),
        None => Ok(()),
    }
}

/// Whether a field name looks like an embedded credential.
pub fn looks_secret_field(field: &str) -> (r: bool)
    ensures
        r == looks_secret(field@),
{
    let l = ascii_lowercase(field);
    let ls = l.as_str();
    str_contains(ls, "api_key") || str_contains(ls, "apikey") || str_contains(ls, "token")
        || str_contains(ls, "secret") || str_contains(ls, "password") || str_contains(
        ls,
        "authorization",
    ) || str_contains(ls, "cookie") || str_contains(ls, "credential")
}

/// Whether an optional path is absent or valid.
fn opt_path_valid(p: &Option<JsonPath>) -> (r: bool)
    ensures
        r == opt_path_ok(*p),
{
    match p {
        Some(x) => x.validate().is_ok(),
        None => true,
    }
}

/// Checks every path of a segment mapping.
fn segment_mapping_valid(m: &SegmentResponseMapping) -> (r: bool)
    ensures
        r == segment_mapping_ok(*m),
{
    m.segments_path.validate().is_ok() && m.text_path.validate().is_ok() && opt_path_valid(&m.id_path)
        && opt_path_valid(&m.start_path) && opt_path_valid(&m.end_path) && opt_path_valid(
        &m.speaker_path,
    ) && opt_path_valid(&m.confidence_path)
}

impl TranscriptionHttpMapping {
    /// Validates every provider-specific field mapping, assuming no defaults.
    pub fn validate(&self) -> (r: Result<(), ProviderError>)
        ensures
            match transcription_mapping_problem(*self) {
                Some(e) => r is Err && r->Err_0@ == configuration_error(e.0, e.1),
                None => r is Ok,
            },
    {
        if !multipart_field_valid(self.audio_field.as_str()) {
            return Err(mapping_error("invalid_request_mapping", "Provider multipart 字段名无效"));
        }
        let name = self.upload_file_name.as_str();
        if name.unicode_len() == 0 || has_char(name, '/') || has_char(name, '\\') || has_char(
            name,
            '\r',
        ) || has_char(name, '\n') {
            return Err(mapping_error("invalid_upload_file_name", "上传文件名配置无效"));
        }
        let model_bad = match &self.model_field {
            Some(f) => !multipart_field_valid(f.as_str()),
            None => false,
        };
        let language_bad = match &self.language_field {
            Some(f) => !multipart_field_valid(f.as_str()),
            None => false,
        };
        if model_bad || language_bad {
            return Err(mapping_error("invalid_request_mapping", "Provider multipart 字段名无效"));
        }
        validate_opt_toggle(&self.timestamps_field)?;
        validate_opt_toggle(&self.speaker_labels_field)?;
        validate_opt_toggle(&self.confidence_field)?;
        let fields = &self.static_text_fields;
        let mut i: usize = 0;
        proof {
            assert(transcription_mapping_problem(*self) == (if static_fields_problem(fields@, 0) is Some {
                static_fields_problem(fields@, 0)
            } else {
                response_problem(self.response)
            }));
        }
        while i < fields.len()
            invariant
                i <= fields@.len(),
                fields@ == self.static_text_fields@,
                transcription_mapping_problem(*self) == (if static_fields_problem(fields@, 0) is Some {
                    static_fields_problem(fields@, 0)
                } else {
                    response_problem(self.response)
                }),
                static_fields_problem(fields@, 0) == static_fields_problem(fields@, i as int),
            decreases fields@.len() - i,
        {
            let key = fields[i].0.as_str();
            if !multipart_field_valid(key) {
                return Err(mapping_error("invalid_request_mapping", "Provider multipart 字段名无效"));
            }
            if looks_secret_field(key) {
                return Err(mapping_error("secret_in_request_mapping", "密钥只能通过受控认证配置注入"));
            }
            i = i + 1;
        }
        let response = &self.response;
        let segments_bad = match &response.segments {
            Some(sm) => !segment_mapping_valid(sm),
            None => false,
        };
        if response.text_path.validate().is_err() || !opt_path_valid(&response.language_path)
            || segments_bad {
            return Err(mapping_error("invalid_response_mapping", "Provider 响应字段映射无效"));
        }
        match &response.remote_request_id_header {
            Some(h) => {
                if !header_name_parses(h.as_str().as_bytes()) {
                    return Err(mapping_error("invalid_response_mapping", "Provider 响应 Header 映射无效"));
                }
            },
            None => {},
        }
        Ok(())
    }
}

/// An input error: the request is refused before anything is sent.
pub open spec fn input_error(code: Seq<char>, message: Seq<char>) -> ProviderErrorV {
    provider_error(
        code,
        ProviderErrorCategory::Input,
        false,
        false,
        message,
        None,
        None,
        OperationOutcome::NotSent,
    )
}

/// Whether a media type is accepted: any is when the list is empty, else one entry must
/// match it without regard to ASCII case.
pub open spec fn media_type_accepted(accepted: Seq<String>, mime: Seq<char>) -> bool {
    accepted.len() == 0 || exists|i: int|
        0 <= i < accepted.len() && ascii_lower_seq((#[trigger] accepted[i])@) == ascii_lower_seq(mime)
}

/// The refusal of requested transcription features that the mapping cannot carry.
pub open spec fn feature_problem(options: TranscriptionOptions, m: TranscriptionHttpMapping) -> Option<
    (Seq<char>, Seq<char>),
> {
    if options.language_hint is Some && m.language_field is None {
        Some(("unsupported_option"@, "当前 Provider 未配置语言提示字段"@))
    } else if (options.enable_timestamps && (!m.capabilities.supports_timestamps
        || m.timestamps_field is None)) || (options.enable_speaker_labels && (
    !m.capabilities.supports_speaker_labels || m.speaker_labels_field is None)) || (
    options.enable_confidence && (!m.capabilities.supports_confidence || m.confidence_field is None)) {
        Some(("unsupported_option"@, "当前 Provider 未配置所请求的转写能力"@))
    } else {
        None
    }
}

/// The refusal of an audio upload before it is sent, checked in order: empty audio, an
/// unaccepted media type, a size or a duration over the known limits, then the
/// requested features.
pub open spec fn preflight_problem(
    mime: Seq<char>,
    byte_length: u64,
    duration_ms: Option<u64>,
    options: TranscriptionOptions,
    m: TranscriptionHttpMapping,
) -> Option<(Seq<char>, Seq<char>)> {
    if byte_length == 0 {
        Some(("empty_audio"@, "音频文件为空"@))
    } else if !media_type_accepted(m.capabilities.accepted_media_types@, mime) {
        Some(("unsupported_audio"@, "当前 Provider 不支持该音频媒体类型"@))
    } else if m.capabilities.max_audio_bytes matches Some(limit) && byte_length > limit {
        Some(("file_too_large"@, "音频文件超过当前 Provider 的已知限制"@))
    } else if duration_ms matches Some(d) && m.capabilities.max_duration_ms matches Some(limit) && d
        > limit {
        Some(("duration_limit_exceeded"@, "音频时长超过当前 Provider 的已知限制"@))
    } else {
        feature_problem(options, m)
    }
}

/// Refuses requested features that the mapping cannot carry.
pub fn validate_requested_features(options: &TranscriptionOptions, mapping: &TranscriptionHttpMapping) -> (r:
    Result<(), ProviderError>)
    ensures
        match feature_problem(*options, *mapping) {
            Some(e) => r is Err && r->Err_0@ == input_error(e.0, e.1),
            None => r is Ok,
        },
{
    if options.language_hint.is_some() && mapping.language_field.is_none() {
        return Err(ProviderError::input("unsupported_option", "当前 Provider 未配置语言提示字段"));
    }
    let caps = &mapping.capabilities;
    if (options.enable_timestamps && (!caps.supports_timestamps || mapping.timestamps_field.is_none()))
        || (options.enable_speaker_labels && (!caps.supports_speaker_labels
        || mapping.speaker_labels_field.is_none())) || (options.enable_confidence && (
    !caps.supports_confidence || mapping.confidence_field.is_none())) {
        return Err(ProviderError::input("unsupported_option", "当前 Provider 未配置所请求的转写能力"));
    }
    Ok(())
}

/// Whether a media type is accepted by the mapping's capabilities.
fn media_type_allowed(accepted: &Vec<String>, mime: &str) -> (r: bool)
    ensures
        r == media_type_accepted(accepted@, mime@),
{
    if accepted.len() == 0 {
        return true;
    }
    let wanted = ascii_lowercase(mime);
    let mut i: usize = 0;
    while i < accepted.len()
        invariant
            i <= accepted@.len(),
            wanted@ == ascii_lower_seq(mime@),
            forall|k: int| 0 <= k < i ==> ascii_lower_seq((#[trigger] accepted@[k])@) != ascii_lower_seq(mime@),
        decreases accepted@.len() - i,
    {
        let candidate = ascii_lowercase(accepted[i].as_str());
        if crate::text::str_eq(candidate.as_str(), wanted.as_str()) {
            return true;
        }
        i = i + 1;
    }
    false
}

/// Refuses an upload that the provider is known not to take, before anything is sent.
pub fn transcription_preflight(
    mime_type: &str,
    byte_length: u64,
    duration_ms: Option<u64>,
    options: &TranscriptionOptions,
    mapping: &TranscriptionHttpMapping,
) -> (r: Result<(), ProviderError>)
    ensures
        match preflight_problem(mime_type@, byte_length, duration_ms, *options, *mapping) {
            Some(e) => r is Err && r->Err_0@ == input_error(e.0, e.1),
            None => r is Ok,
        },
{
    if byte_length == 0 {
        return Err(ProviderError::input("empty_audio", "音频文件为空"));
    }
    let caps = &mapping.capabilities;
    if !media_type_allowed(&caps.accepted_media_types, mime_type) {
        return Err(ProviderError::input("unsupported_audio", "当前 Provider 不支持该音频媒体类型"));
    }
    match caps.max_audio_bytes {
        Some(limit) => {
            if byte_length > limit {
                return Err(ProviderError::input("file_too_large", "音频文件超过当前 Provider 的已知限制"));
            }
        },
        None => {},
    }
    match (duration_ms, caps.max_duration_ms) {
        (Some(d), Some(limit)) => {
            if d > limit {
                return Err(
                    ProviderError::input("duration_limit_exceeded", "音频时长超过当前 Provider 的已知限制"),
                );
            }
        },
        _ => {},
    }
    validate_requested_features(options, mapping)
}

/// The refusal of capability claims a synchronous HTTP adapter cannot honour: mock
/// evidence, asynchronous jobs or remote cancellation.
pub open spec fn capability_evidence_problem(
    evidence: CapabilityEvidence,
    supports_async_jobs: bool,
    supports_remote_cancel: bool,
) -> Option<(Seq<char>, Seq<char>)> {
    if evidence == CapabilityEvidence::Mock {
        Some(("invalid_capability_evidence"@, "真实 HTTP Provider 不能声明为 Mock 能力"@))
    } else if supports_async_jobs || supports_remote_cancel {
        Some(("unsupported_capability_config"@, "当前 HTTP adapter 尚未实现异步作业或远端撤销"@))
    } else {
        None
    }
}

/// Refuses capability claims that the synchronous HTTP adapter cannot implement.
pub fn validate_http_capability_evidence(
    evidence: CapabilityEvidence,
    supports_async_jobs: bool,
    supports_remote_cancel: bool,
) -> (r: Result<(), ProviderError>)
    ensures
        match capability_evidence_problem(evidence, supports_async_jobs, supports_remote_cancel) {
            Some(e) => r is Err && r->Err_0@ == configuration_error(e.0, e.1),
            None => r is Ok,
        },
{
    if evidence == CapabilityEvidence::Mock {
        return Err(
            ProviderError::configuration("invalid_capability_evidence", "真实 HTTP Provider 不能声明为 Mock 能力"),
        );
    }
    if supports_async_jobs || supports_remote_cancel {
        return Err(
            ProviderError::configuration(
                "unsupported_capability_config",
                "当前 HTTP adapter 尚未实现异步作业或远端撤销",
            ),
        );
    }
    Ok(())
}

impl TranscriptionResponseMapping {
    /// The transcript text and language read from a raw response body: the mapping's
    /// outcome on the JSON document of the body.
    pub fn transcript_text_of_body(&self, body: &[u8]) -> (r: Result<(String, Option<String>), ProviderError>)
        ensures
            match transcript_text_outcome(*self, json_document_bytes(body@)) {
                Ok((t, l)) => r is Ok && r->Ok_0.0@ == t && opt_string_view(r->Ok_0.1) == l,
                Err(e) => r is Err && r->Err_0@ == protocol_error(e.0, e.1),
            },
    {
        let parsed = parse_json_bytes(body);
        match &parsed {
            Some(b) => self.transcript_text(Some(b)),
            None => self.transcript_text(None),
        }
    }
}

impl TranscriptionHttpMapping {
    /// The multipart body of a transcription request: the staged recording under the
    /// configured audio field and upload name, and the mapped text fields.
    pub fn multipart_body(
        &self,
        model: &str,
        options: &TranscriptionOptions,
        media_type: &str,
        byte_length: u64,
    ) -> (r: MultipartBody)
        ensures
            r.file.field_name@ == self.audio_field@,
            r.file.upload_file_name@ == self.upload_file_name@,
            r.file.media_type@ == media_type@,
            r.file.byte_length == byte_length,
            names_unique(r.text_fields@),
            fields_map(r.text_fields@) == request_text_fields(*self, model@, *options),
    {
        MultipartBody {
            file: MultipartFile {
                field_name: self.audio_field.clone(),
                upload_file_name: self.upload_file_name.clone(),
                media_type: copy_str(media_type),
                byte_length,
            },
            text_fields: self.text_fields(model, options),
        }
    }
}

proof fn lemma_static_fields_clean(fields: Seq<(String, String)>, i: int)
    requires
        0 <= i <= fields.len(),
        static_fields_problem(fields, i) is None,
    ensures
        forall|k: int|
            i <= k < fields.len() ==> multipart_field_ok(#[trigger] fields[k].0@) && !looks_secret(fields[k].0@),
    decreases fields.len() - i,
{
    if i < fields.len() {
        lemma_static_fields_clean(fields, i + 1);
    }
}

/// An accepted transcription mapping never embeds a credential-like static field:
/// every static field name is a valid multipart name that does not look like a secret.
pub proof fn law_mapping_holds_no_secret_field(m: TranscriptionHttpMapping)
    ensures
        transcription_mapping_problem(m) is None ==> forall|k: int|
            0 <= k < m.static_text_fields@.len() ==> multipart_field_ok(#[trigger] m.static_text_fields@[k].0@)
                && !looks_secret(m.static_text_fields@[k].0@),
{
    if transcription_mapping_problem(m) is None {
        lemma_static_fields_clean(m.static_text_fields@, 0);
    }
}

/// Adding one valid but credential-like static field to an accepted mapping without
/// static fields makes it refused as a secret in the mapping.
pub proof fn law_secret_field_is_refused(base: TranscriptionHttpMapping, m: TranscriptionHttpMapping)
    requires
        base.static_text_fields@.len() == 0,
        transcription_mapping_problem(base) is None,
        m == (TranscriptionHttpMapping { static_text_fields: m.static_text_fields, ..base }),
        m.static_text_fields@.len() == 1,
        multipart_field_ok(m.static_text_fields@[0].0@),
        looks_secret(m.static_text_fields@[0].0@),
    ensures
        transcription_mapping_problem(m) == Some(("secret_in_request_mapping"@, "密钥只能通过受控认证配置注入"@)),
{
}

} // verus!
