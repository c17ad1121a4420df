//! Field normalization shared by minutes validation: trimmed required and optional
//! text with length and placeholder checks, and stable removal of duplicates.

use vstd::prelude::*;

use super::error::{schema_violation, MinutesError};
use super::model::{
    clone_opt, clone_strs, opt_view, strs_view, ActionItem, RiskOrIssue, SupportedStatement,
    Topic,
};
use crate::text::{copy_str, lowercase, str_eq, to_lowercase, trim, trim_str};

verus! {

/// Longest title or participant name, in characters.
pub const MAX_TITLE_CHARS: usize = 200;

/// Longest short text (times, owners, due dates), in characters.
pub const MAX_SHORT_TEXT_CHARS: usize = 500;

/// Longest statement or item description, in characters.
pub const MAX_BODY_TEXT_CHARS: usize = 2000;

/// Longest summary, impact or mitigation, in characters.
pub const MAX_SUMMARY_CHARS: usize = 5000;

/// Most items in one collection of the minutes.
pub const MAX_COLLECTION_ITEMS: usize = 100;

/// Most evidence IDs on one item.
pub const MAX_EVIDENCE_ITEMS: usize = 100;

/// Display placeholders that must never stand in for `null` or an empty list.
pub open spec fn is_placeholder_word(w: Seq<char>) -> bool {
    ||| w == "未知"@
    ||| w == "无"@
    ||| w == "待定"@
    ||| w == "n/a"@
    ||| w == "na"@
    ||| w == "none"@
    ||| w == "null"@
}

/// Whether a value, trimmed and lower-cased, is a display placeholder.
pub open spec fn unknown_placeholder(v: Seq<char>) -> bool {
    is_placeholder_word(lowercase(trim(v)))
}

/// The normalized form of a required text field, or the schema error it violates.
pub open spec fn required_text(
    v: Seq<char>,
    max_chars: nat,
    path: &'static str,
) -> Result<Seq<char>, MinutesError> {
    let t = trim(v);
    if t.len() == 0 {
        Err(schema_violation("blank_string", path))
    } else if t.len() > max_chars {
        Err(schema_violation("string_too_long", path))
    } else if unknown_placeholder(t) {
        Err(schema_violation("unknown_placeholder", path))
    } else {
        Ok(t)
    }
}

/// The normalized form of an optional text field, or the schema error it violates.
pub open spec fn optional_text(
    v: Option<Seq<char>>,
    max_chars: nat,
    path: &'static str,
) -> Result<Option<Seq<char>>, MinutesError> {
    match v {
        None => Ok(None),
        Some(s) => match required_text(s, max_chars, path) {
            Ok(t) => Ok(Some(t)),
            Err(e) => Err(e),
        },
    }
}

/// Every value of a list normalized as required text; the first error wins.
pub open spec fn required_texts(
    vs: Seq<Seq<char>>,
    max_chars: nat,
    path: &'static str,
) -> Result<Seq<Seq<char>>, MinutesError>
    decreases vs.len(),
{
    if vs.len() == 0 {
        Ok(seq![])
    } else {
        match required_texts(vs.drop_last(), max_chars, path) {
            Err(e) => Err(e),
            Ok(p) => match required_text(vs.last(), max_chars, path) {
                Err(e) => Err(e),
                Ok(t) => Ok(p.push(t)),
            },
        }
    }
}

/// The values in first-occurrence order with later duplicates removed.
pub open spec fn stable_dedup_spec<A>(s: Seq<A>) -> Seq<A>
    decreases s.len(),
{
    if s.len() == 0 {
        seq![]
    } else {
        let d = stable_dedup_spec(s.drop_last());
        if d.contains(s.last()) {
            d
        } else {
            d.push(s.last())
        }
    }
}

/// Whether a value, trimmed and lower-cased, is a display placeholder.
pub fn is_unknown_placeholder(value: &str) -> (r: bool)
    ensures
        r == unknown_placeholder(value@),
{
    let t = trim_str(value);
    let l = to_lowercase(t.as_str());
    let w = l.as_str();
    str_eq(w, "未知") || str_eq(w, "无") || str_eq(w, "待定") || str_eq(w, "n/a") || str_eq(w, "na")
        || str_eq(w, "none") || str_eq(w, "null")
}

/// Trims a required text field in place after checking that it is not blank, not
/// too long and not a placeholder; on error the value is left unchanged.
pub fn normalize_required_text(value: &mut String, max_chars: usize, path: &'static str) -> (r:
    Result<(), MinutesError>)
    ensures
        match required_text(old(value)@, max_chars as nat, path) {
            Ok(t) => r is Ok && final(value)@ == t,
            Err(e) => r == Err::<(), MinutesError>(e) && final(value)@ == old(value)@,
        },
{
    let trimmed = trim_str(value.as_str());
    let n = trimmed.as_str().unicode_len();
    if n == 0 {
        return Err(MinutesError::SchemaViolation { code: "blank_string", path });
    }
    if n > max_chars {
        return Err(MinutesError::SchemaViolation { code: "string_too_long", path });
    }
    if is_unknown_placeholder(trimmed.as_str()) {
        return Err(MinutesError::SchemaViolation { code: "unknown_placeholder", path });
    }
    *value = trimmed;
    Ok(())
}

/// Normalizes an optional text field in place like a required one when present.
pub fn normalize_optional_text(
    value: &mut Option<String>,
    max_chars: usize,
    path: &'static str,
) -> (r: Result<(), MinutesError>)
    ensures
        match optional_text(opt_view(*old(value)), max_chars as nat, path) {
            Ok(t) => r is Ok && opt_view(*final(value)) == t,
            Err(e) => r == Err::<(), MinutesError>(e),
        },
{
    match value {
        None => Ok(()),
        Some(s) => {
            let mut t = copy_str(s.as_str());
            let res = normalize_required_text(&mut t, max_chars, path);
            match res {
                Ok(()) => {
                    *value = Some(t);
                    Ok(())
                },
                Err(e) => Err(e),
            }
        },
    }
}

/// Normalizes every value of a list as required text; the first error wins.
pub fn normalize_required_texts(values: &Vec<String>, max_chars: usize, path: &'static str) -> (r:
    Result<Vec<String>, MinutesError>)
    ensures
        match required_texts(strs_view(*values), max_chars as nat, path) {
            Ok(t) => r is Ok && strs_view(r->Ok_0) == t,
            Err(e) => r == Err::<Vec<String>, MinutesError>(e),
        },
{
    let ghost sv = strs_view(*values);
    let mut out: Vec<String> = Vec::new();
    proof {
        assert(sv.take(0) =~= Seq::<Seq<char>>::empty());
        assert(strs_view(out) =~= Seq::<Seq<char>>::empty());
    }
    let mut i: usize = 0;
    while i < values.len()
        invariant
            0 <= i <= values@.len(),
            sv == strs_view(*values),
            sv.len() == values@.len(),
            required_texts(sv.take(i as int), max_chars as nat, path) == Ok::<
                Seq<Seq<char>>,
                MinutesError,
            >(strs_view(out)),
        decreases values@.len() - i,
    {
        let mut t = copy_str(values[i].as_str());
        let res = normalize_required_text(&mut t, max_chars, path);
        proof {
            let tk = sv.take(i + 1);
            assert(tk.drop_last() =~= sv.take(i as int));
            assert(tk.last() == values@[i as int]@);
        }
        match res {
            Err(e) => {
                proof {
                    lemma_required_texts_error_persists(sv, i + 1, sv.len() as int, max_chars as nat, path);
                    assert(sv.take(sv.len() as int) =~= sv);
                }
                return Err(e);
            },
            Ok(()) => {},
        }
        let ghost before = strs_view(out);
        out.push(t);
        proof {
            assert(strs_view(out) =~= before.push(t@));
        }
        i = i + 1;
    }
    proof {
        assert(sv.take(sv.len() as int) =~= sv);
    }
    Ok(out)
}

/// Once a prefix of a list fails normalization, every longer prefix fails the same way.
pub proof fn lemma_required_texts_error_persists(
    vs: Seq<Seq<char>>,
    m: int,
    n: int,
    max_chars: nat,
    path: &'static str,
)
    requires
        0 <= m <= n <= vs.len(),
        required_texts(vs.take(m), max_chars, path) is Err,
    ensures
        required_texts(vs.take(n), max_chars, path) == required_texts(vs.take(m), max_chars, path),
    decreases n - m,
{
    if n > m {
        lemma_required_texts_error_persists(vs, m, n - 1, max_chars, path);
        assert(vs.take(n).drop_last() =~= vs.take(n - 1));
    }
}

/// Values whose equality is decided by their views, with a view-preserving copy.
pub trait ViewEq: View + Sized {
    /// Whether two values have the same view.
    fn view_eq(&self, other: &Self) -> (r: bool)
        ensures
            r == (self.view() == other.view()),
    ;

    /// A copy with the same view.
    fn duplicate(&self) -> (r: Self)
        ensures
            r.view() == self.view(),
    ;
}

/// Whether two optional strings are equal.
pub fn opt_str_eq(a: &Option<String>, b: &Option<String>) -> (r: bool)
    ensures
        r == (opt_view(*a) == opt_view(*b)),
{
    match (a, b) {
        (Some(x), Some(y)) => str_eq(x.as_str(), y.as_str()),
        (None, None) => true,
        _ => false,
    }
}

/// Whether two lists of strings are equal.
pub fn strs_eq(a: &Vec<String>, b: &Vec<String>) -> (r: bool)
    ensures
        r == (strs_view(*a) == strs_view(*b)),
{
    if a.len() != b.len() {
        proof {
            assert(strs_view(*a).len() != strs_view(*b).len());
        }
        return false;
    }
    let mut i: usize = 0;
    while i < a.len()
        invariant
            0 <= i <= a@.len(),
            a@.len() == b@.len(),
            forall|k: int| 0 <= k < i ==> #[trigger] a@[k]@ == b@[k]@,
        decreases a@.len() - i,
    {
        if !str_eq(a[i].as_str(), b[i].as_str()) {
            proof {
                assert(strs_view(*a)[i as int] != strs_view(*b)[i as int]);
            }
            return false;
        }
        i = i + 1;
    }
    proof {
        assert(strs_view(*a) =~= strs_view(*b));
    }
    true
}

impl ViewEq for String {
    fn view_eq(&self, other: &Self) -> (r: bool) {
        str_eq(self.as_str(), other.as_str())
    }

    fn duplicate(&self) -> (r: Self) {
        copy_str(self.as_str())
    }
}

impl ViewEq for Topic {
    fn view_eq(&self, other: &Self) -> (r: bool) {
        str_eq(self.title.as_str(), other.title.as_str()) && opt_str_eq(&self.summary, &other.summary)
            && strs_eq(&self.evidence_segment_ids, &other.evidence_segment_ids)
    }

    fn duplicate(&self) -> (r: Self) {
        self.copy()
    }
}

impl ViewEq for SupportedStatement {
    fn view_eq(&self, other: &Self) -> (r: bool) {
        str_eq(self.content.as_str(), other.content.as_str()) && strs_eq(
            &self.evidence_segment_ids,
            &other.evidence_segment_ids,
        )
    }

    fn duplicate(&self) -> (r: Self) {
        self.copy()
    }
}

impl ViewEq for ActionItem {
    fn view_eq(&self, other: &Self) -> (r: bool) {
        str_eq(self.description.as_str(), other.description.as_str()) && opt_str_eq(
            &self.owner,
            &other.owner,
        ) && opt_str_eq(&self.due_date_text, &other.due_date_text) && opt_str_eq(
            &self.due_date,
            &other.due_date,
        ) && strs_eq(&self.evidence_segment_ids, &other.evidence_segment_ids)
    }

    fn duplicate(&self) -> (r: Self) {
        self.copy()
    }
}

impl ViewEq for RiskOrIssue {
    fn view_eq(&self, other: &Self) -> (r: bool) {
        self.kind == other.kind && str_eq(self.description.as_str(), other.description.as_str())
            && opt_str_eq(&self.impact, &other.impact) && opt_str_eq(
            &self.mitigation,
            &other.mitigation,
        ) && strs_eq(&self.evidence_segment_ids, &other.evidence_segment_ids)
    }

    fn duplicate(&self) -> (r: Self) {
        self.copy()
    }
}

/// The views of a list of values.
pub open spec fn views<T: View>(v: Seq<T>) -> Seq<T::V> {
    v.map_values(|t: T| t.view())
}

/// Whether a value's view occurs in a list.
fn contains_view<T: ViewEq>(list: &Vec<T>, x: &T) -> (r: bool)
    ensures
        r == views(list@).contains(x.view()),
{
    let mut j: usize = 0;
    while j < list.len()
        invariant
            0 <= j <= list@.len(),
            forall|k: int| 0 <= k < j ==> #[trigger] list@[k].view() != x.view(),
        decreases list@.len() - j,
    {
        if list[j].view_eq(x) {
            proof {
                assert(views(list@)[j as int] == x.view());
            }
            return true;
        }
        j = j + 1;
    }
    proof {
        if views(list@).contains(x.view()) {
            let k = choose|k: int| 0 <= k < views(list@).len() && views(list@)[k] == x.view();
            assert(list@[k].view() == x.view());
        }
    }
    false
}

/// Copies the values, keeping only the first occurrence of each view.
pub fn stable_dedup<T: ViewEq>(values: &Vec<T>) -> (r: Vec<T>)
    ensures
        views(r@) == stable_dedup_spec(views(values@)),
{
    let ghost sv = views(values@);
    let mut out: Vec<T> = Vec::new();
    proof {
        assert(sv.take(0) =~= Seq::<T::V>::empty());
        assert(views(out@) =~= Seq::<T::V>::empty());
    }
    let mut i: usize = 0;
    while i < values.len()
        invariant
            0 <= i <= values@.len(),
            sv == views(values@),
            sv.len() == values@.len(),
            views(out@) == stable_dedup_spec(sv.take(i as int)),
        decreases values@.len() - i,
    {
        let present = contains_view(&out, &values[i]);
        proof {
            let tk = sv.take(i + 1);
            assert(tk.drop_last() =~= sv.take(i as int));
            assert(tk.last() == values@[i as int].view());
        }
        if !present {
            let ghost before = views(out@);
            let c = values[i].duplicate();
            out.push(c);
            proof {
                assert(views(out@) =~= before.push(values@[i as int].view()));
            }
        }
        i = i + 1;
    }
    proof {
        assert(sv.take(sv.len() as int) =~= sv);
    }
    out
}

/// A normalized required text normalizes to itself.
pub proof fn lemma_required_text_fixed(v: Seq<char>, max_chars: nat, path: &'static str)
    requires
        required_text(v, max_chars, path) is Ok,
    ensures
        ({
            let t = required_text(v, max_chars, path)->Ok_0;
            required_text(t, max_chars, path) == Ok::<Seq<char>, MinutesError>(t)
        }),
{
    crate::text::lemma_trim_idempotent(v);
}

/// Every value of a normalized list normalizes to itself.
pub proof fn lemma_required_texts_fixed(vs: Seq<Seq<char>>, max_chars: nat, path: &'static str)
    requires
        required_texts(vs, max_chars, path) is Ok,
    ensures
        ({
            let ps = required_texts(vs, max_chars, path)->Ok_0;
            &&& ps.len() == vs.len()
            &&& forall|k: int| 0 <= k < ps.len() ==> required_text(#[trigger] ps[k], max_chars, path) == Ok::<
                Seq<char>,
                MinutesError,
            >(ps[k])
        }),
    decreases vs.len(),
{
    if vs.len() > 0 {
        lemma_required_texts_fixed(vs.drop_last(), max_chars, path);
        lemma_required_text_fixed(vs.last(), max_chars, path);
        let p = required_texts(vs.drop_last(), max_chars, path)->Ok_0;
        let t = required_text(vs.last(), max_chars, path)->Ok_0;
        assert forall|k: int| 0 <= k < p.push(t).len() implies required_text(
            #[trigger] p.push(t)[k],
            max_chars,
            path,
        ) == Ok::<Seq<char>, MinutesError>(p.push(t)[k]) by {
            if k < p.len() {
                assert(p.push(t)[k] == p[k]);
            }
        }
    }
}

/// A list of fixed points normalizes to itself.
pub proof fn lemma_required_texts_of_fixed(xs: Seq<Seq<char>>, max_chars: nat, path: &'static str)
    requires
        forall|k: int| 0 <= k < xs.len() ==> required_text(#[trigger] xs[k], max_chars, path) == Ok::<
            Seq<char>,
            MinutesError,
        >(xs[k]),
    ensures
        required_texts(xs, max_chars, path) == Ok::<Seq<Seq<char>>, MinutesError>(xs),
    decreases xs.len(),
{
    if xs.len() > 0 {
        let p = xs.drop_last();
        assert forall|k: int| 0 <= k < p.len() implies required_text(#[trigger] p[k], max_chars, path) == Ok::<
            Seq<char>,
            MinutesError,
        >(p[k]) by {
            assert(p[k] == xs[k]);
        }
        lemma_required_texts_of_fixed(p, max_chars, path);
        assert(required_text(xs.last(), max_chars, path) == Ok::<Seq<char>, MinutesError>(xs[xs.len() - 1]));
        assert(p.push(xs.last()) =~= xs);
    } else {
        assert(xs =~= Seq::<Seq<char>>::empty());
    }
}

/// Whether no value occurs twice.
pub open spec fn no_duplicates<A>(s: Seq<A>) -> bool {
    forall|i: int, j: int| 0 <= i < j < s.len() ==> #[trigger] s[i] != #[trigger] s[j]
}

/// Deduplication keeps only values of the input and leaves no value twice.
pub proof fn lemma_dedup_shape<A>(s: Seq<A>)
    ensures
        no_duplicates(stable_dedup_spec(s)),
        forall|k: int| 0 <= k < stable_dedup_spec(s).len() ==> s.contains(#[trigger] stable_dedup_spec(s)[k]),
    decreases s.len(),
{
    if s.len() > 0 {
        lemma_dedup_shape(s.drop_last());
        let d = stable_dedup_spec(s.drop_last());
        assert forall|k: int| 0 <= k < d.len() implies s.contains(#[trigger] d[k]) by {
            let j = choose|j: int| 0 <= j < s.drop_last().len() && s.drop_last()[j] == d[k];
            assert(s[j] == d[k]);
        }
        if !d.contains(s.last()) {
            let e = d.push(s.last());
            assert forall|k: int| 0 <= k < e.len() implies s.contains(#[trigger] e[k]) by {
                if k < d.len() {
                    assert(e[k] == d[k]);
                } else {
                    assert(s[s.len() - 1] == e[k]);
                }
            }
            assert forall|i: int, j: int| 0 <= i < j < e.len() implies #[trigger] e[i] != #[trigger] e[j] by {
                if j == d.len() {
                    assert(e[i] == d[i]);
                    if d[i] == s.last() {
                        assert(d.contains(s.last()));
                    }
                } else {
                    assert(e[i] == d[i] && e[j] == d[j]);
                }
            }
        }
    }
}

/// A list without duplicates is its own deduplication.
pub proof fn lemma_dedup_of_unique<A>(x: Seq<A>)
    requires
        no_duplicates(x),
    ensures
        stable_dedup_spec(x) == x,
    decreases x.len(),
{
    if x.len() > 0 {
        let p = x.drop_last();
        assert forall|i: int, j: int| 0 <= i < j < p.len() implies #[trigger] p[i] != #[trigger] p[j] by {
            assert(p[i] == x[i] && p[j] == x[j]);
        }
        lemma_dedup_of_unique(p);
        if p.contains(x.last()) {
            let j = choose|j: int| 0 <= j < p.len() && p[j] == x.last();
            assert(x[j] == x[x.len() - 1]);
        }
        assert(p.push(x.last()) =~= x);
    }
}

} // verus!
