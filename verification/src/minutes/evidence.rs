//! Evidence references: lookup of transcript segments by ID, and normalization of the
//! evidence ID lists of minutes items into transcript order.

use vstd::prelude::*;

use super::error::{schema_violation, semantic_violation, MinutesError};
use super::model::{strs_view, ActionItem, RiskOrIssue, SupportedStatement, Topic};
use super::normalize::{ViewEq, MAX_EVIDENCE_ITEMS};
use super::transcript::{SegmentV, TranscriptSegment};
use crate::text::{copy_str, str_eq};

verus! {

/// The IDs of the segments, in transcript order.
pub open spec fn segment_ids(segs: Seq<SegmentV>) -> Seq<Seq<char>> {
    segs.map_values(|s: SegmentV| s.id)
}

/// The first segment with the given ID, from position `i` on.
pub open spec fn segment_from(segs: Seq<SegmentV>, id: Seq<char>, i: int) -> Option<SegmentV>
    decreases segs.len() - i,
{
    if i < 0 || i >= segs.len() {
        None
    } else if segs[i].id == id {
        Some(segs[i])
    } else {
        segment_from(segs, id, i + 1)
    }
}

/// The segment with the given ID (the first one, should IDs repeat).
pub open spec fn segment_with_id(segs: Seq<SegmentV>, id: Seq<char>) -> Option<SegmentV> {
    segment_from(segs, id, 0)
}

/// The segment IDs, in transcript order, that the evidence list names; this is the
/// evidence sorted by transcript position with dangling IDs and duplicates removed.
pub open spec fn listed_in_order(sids: Seq<Seq<char>>, ids: Seq<Seq<char>>) -> Seq<Seq<char>>
    decreases sids.len(),
{
    if sids.len() == 0 {
        seq![]
    } else if ids.contains(sids.last()) {
        listed_in_order(sids.drop_last(), ids).push(sids.last())
    } else {
        listed_in_order(sids.drop_last(), ids)
    }
}

/// The checked evidence of a persisted item: bounded, present when the transcript has
/// segments and evidence is required, and naming only existing segments.
pub open spec fn evidence_check(
    ids: Seq<Seq<char>>,
    sids: Seq<Seq<char>>,
    require_evidence: bool,
    path: &'static str,
) -> Result<Seq<Seq<char>>, MinutesError> {
    if ids.len() > MAX_EVIDENCE_ITEMS {
        Err(schema_violation("collection_too_large", path))
    } else if sids.len() == 0 {
        if ids.len() == 0 {
            Ok(ids)
        } else {
            Err(semantic_violation("invalid_evidence_reference", path))
        }
    } else if require_evidence && ids.len() == 0 {
        Err(semantic_violation("missing_evidence", path))
    } else if exists|i: int| 0 <= i < ids.len() && !sids.contains(#[trigger] ids[i]) {
        Err(semantic_violation("invalid_evidence_reference", path))
    } else {
        Ok(listed_in_order(sids, ids))
    }
}

/// The evidence a model candidate keeps: nothing when the transcript has no segments,
/// otherwise the named existing segments in transcript order.
pub open spec fn sanitized_evidence(ids: Seq<Seq<char>>, sids: Seq<Seq<char>>) -> Seq<Seq<char>> {
    if sids.len() == 0 {
        seq![]
    } else {
        listed_in_order(sids, ids)
    }
}

/// Whether a model candidate item keeps enough evidence to stay.
pub open spec fn keeps_item(ids: Seq<Seq<char>>, sids: Seq<Seq<char>>) -> bool {
    sids.len() == 0 || listed_in_order(sids, ids).len() > 0
}

/// The first segment with the given ID.
pub fn find_segment<'a>(segs: &'a Vec<TranscriptSegment>, id: &str) -> (r: Option<
    &'a TranscriptSegment,
>)
    ensures
        match segment_with_id(segs@.map_values(|s: TranscriptSegment| s@), id@) {
            Some(s) => r is Some && r->Some_0@ == s,
            None => r is None,
        },
{
    let ghost sv = segs@.map_values(|s: TranscriptSegment| s@);
    let mut i: usize = 0;
    while i < segs.len()
        invariant
            0 <= i <= segs@.len(),
            sv == segs@.map_values(|s: TranscriptSegment| s@),
            segment_with_id(sv, id@) == segment_from(sv, id@, i as int),
        decreases segs@.len() - i,
    {
        if str_eq(segs[i].id.as_str(), id) {
            proof {
                assert(sv[i as int] == segs@[i as int]@);
            }
            return Some(&segs[i]);
        }
        i = i + 1;
    }
    None
}

/// Whether a segment with the given ID exists.
fn has_segment(segs: &Vec<TranscriptSegment>, id: &str) -> (r: bool)
    ensures
        r == segment_ids(segs@.map_values(|s: TranscriptSegment| s@)).contains(id@),
{
    let ghost sv = segs@.map_values(|s: TranscriptSegment| s@);
    let ghost sids = segment_ids(sv);
    let mut i: usize = 0;
    while i < segs.len()
        invariant
            0 <= i <= segs@.len(),
            sv == segs@.map_values(|s: TranscriptSegment| s@),
            sids == segment_ids(sv),
            forall|k: int| 0 <= k < i ==> #[trigger] sids[k] != id@,
        decreases segs@.len() - i,
    {
        if str_eq(segs[i].id.as_str(), id) {
            proof {
                assert(sids[i as int] == id@);
            }
            return true;
        }
        i = i + 1;
    }
    false
}

/// Whether a list of strings holds a value.
pub fn strs_contain(v: &Vec<String>, x: &str) -> (r: bool)
    ensures
        r == strs_view(*v).contains(x@),
{
    let ghost sv = strs_view(*v);
    let mut i: usize = 0;
    while i < v.len()
        invariant
            0 <= i <= v@.len(),
            sv == strs_view(*v),
            forall|k: int| 0 <= k < i ==> #[trigger] sv[k] != x@,
        decreases v@.len() - i,
    {
        if str_eq(v[i].as_str(), x) {
            proof {
                assert(sv[i as int] == x@);
            }
            return true;
        }
        i = i + 1;
    }
    false
}

/// The named segment IDs in transcript order.
pub fn listed_ids(segs: &Vec<TranscriptSegment>, ids: &Vec<String>) -> (r: Vec<String>)
    ensures
        strs_view(r) == listed_in_order(
            segment_ids(segs@.map_values(|s: TranscriptSegment| s@)),
            strs_view(*ids),
        ),
{
    let ghost sids = segment_ids(segs@.map_values(|s: TranscriptSegment| s@));
    let mut out: Vec<String> = Vec::new();
    proof {
        assert(sids.take(0) =~= Seq::<Seq<char>>::empty());
        assert(strs_view(out) =~= Seq::<Seq<char>>::empty());
    }
    let mut i: usize = 0;
    while i < segs.len()
        invariant
            0 <= i <= segs@.len(),
            sids == segment_ids(segs@.map_values(|s: TranscriptSegment| s@)),
            sids.len() == segs@.len(),
            strs_view(out) == listed_in_order(sids.take(i as int), strs_view(*ids)),
        decreases segs@.len() - i,
    {
        let listed = strs_contain(ids, segs[i].id.as_str());
        proof {
            let tk = sids.take(i + 1);
            assert(tk.drop_last() =~= sids.take(i as int));
            assert(tk.last() == segs@[i as int].id@);
        }
        if listed {
            let ghost before = strs_view(out);
            out.push(copy_str(segs[i].id.as_str()));
            proof {
                assert(strs_view(out) =~= before.push(segs@[i as int].id@));
            }
        }
        i = i + 1;
    }
    proof {
        assert(sids.take(sids.len() as int) =~= sids);
    }
    out
}

/// Checks and orders the evidence of a persisted item.
pub fn normalize_evidence(
    ids: &Vec<String>,
    segs: &Vec<TranscriptSegment>,
    require_evidence: bool,
    path: &'static str,
) -> (r: Result<Vec<String>, MinutesError>)
    ensures
        match evidence_check(
            strs_view(*ids),
            segment_ids(segs@.map_values(|s: TranscriptSegment| s@)),
            require_evidence,
            path,
        ) {
            Ok(t) => r is Ok && strs_view(r->Ok_0) == t,
            Err(e) => r == Err::<Vec<String>, MinutesError>(e),
        },
{
    let ghost sids = segment_ids(segs@.map_values(|s: TranscriptSegment| s@));
    let ghost iv = strs_view(*ids);
    assert(sids.len() == segs@.len());
    assert(iv.len() == ids@.len());
    if ids.len() > MAX_EVIDENCE_ITEMS {
        return Err(MinutesError::SchemaViolation { code: "collection_too_large", path });
    }
    if segs.len() == 0 {
        if ids.len() == 0 {
            return Ok(Vec::new());
        }
        return Err(MinutesError::SemanticViolation { code: "invalid_evidence_reference", path });
    }
    if require_evidence && ids.len() == 0 {
        return Err(MinutesError::SemanticViolation { code: "missing_evidence", path });
    }
    let mut i: usize = 0;
    while i < ids.len()
        invariant
            0 <= i <= ids@.len(),
            iv == strs_view(*ids),
            sids == segment_ids(segs@.map_values(|s: TranscriptSegment| s@)),
            forall|k: int| 0 <= k < i ==> sids.contains(#[trigger] iv[k]),
            ids@.len() <= MAX_EVIDENCE_ITEMS,
            segs@.len() > 0,
            !(require_evidence && ids@.len() == 0),
            sids.len() == segs@.len(),
            iv.len() == ids@.len(),
        decreases ids@.len() - i,
    {
        if !has_segment(segs, ids[i].as_str()) {
            proof {
                assert(!sids.contains(iv[i as int]));
                assert(0 <= i < iv.len());
                assert(exists|k: int| 0 <= k < iv.len() && !sids.contains(#[trigger] iv[k]));
            }
            return Err(MinutesError::SemanticViolation { code: "invalid_evidence_reference", path });
        }
        i = i + 1;
    }
    Ok(listed_ids(segs, ids))
}

/// Items of the minutes that carry evidence IDs.
pub trait EvidenceItem: ViewEq {
    /// The evidence IDs of an item view.
    spec fn evidence_of(v: Self::V) -> Seq<Seq<char>>;

    /// An item view with its evidence replaced.
    spec fn with_evidence(v: Self::V, ids: Seq<Seq<char>>) -> Self::V;

    /// The evidence IDs.
    fn evidence(&self) -> (r: &Vec<String>)
        ensures
            strs_view(*r) == Self::evidence_of(self.view()),
    ;

    /// A copy with its evidence replaced.
    fn replace_evidence(&self, ids: Vec<String>) -> (r: Self)
        ensures
            r.view() == Self::with_evidence(self.view(), strs_view(ids)),
    ;
}

impl EvidenceItem for Topic {
    open spec fn evidence_of(v: Self::V) -> Seq<Seq<char>> {
        v.evidence
    }

    open spec fn with_evidence(v: Self::V, ids: Seq<Seq<char>>) -> Self::V {
        super::model::TopicV { evidence: ids, ..v }
    }

    fn evidence(&self) -> (r: &Vec<String>) {
        &self.evidence_segment_ids
    }

    fn replace_evidence(&self, ids: Vec<String>) -> (r: Self) {
        let mut c = self.copy();
        c.evidence_segment_ids = ids;
        c
    }
}

impl EvidenceItem for SupportedStatement {
    open spec fn evidence_of(v: Self::V) -> Seq<Seq<char>> {
        v.evidence
    }

    open spec fn with_evidence(v: Self::V, ids: Seq<Seq<char>>) -> Self::V {
        super::model::StatementV { evidence: ids, ..v }
    }

    fn evidence(&self) -> (r: &Vec<String>) {
        &self.evidence_segment_ids
    }

    fn replace_evidence(&self, ids: Vec<String>) -> (r: Self) {
        let mut c = self.copy();
        c.evidence_segment_ids = ids;
        c
    }
}

impl EvidenceItem for ActionItem {
    open spec fn evidence_of(v: Self::V) -> Seq<Seq<char>> {
        v.evidence
    }

    open spec fn with_evidence(v: Self::V, ids: Seq<Seq<char>>) -> Self::V {
        super::model::ActionItemV { evidence: ids, ..v }
    }

    fn evidence(&self) -> (r: &Vec<String>) {
        &self.evidence_segment_ids
    }

    fn replace_evidence(&self, ids: Vec<String>) -> (r: Self) {
        let mut c = self.copy();
        c.evidence_segment_ids = ids;
        c
    }
}

impl EvidenceItem for RiskOrIssue {
    open spec fn evidence_of(v: Self::V) -> Seq<Seq<char>> {
        v.evidence
    }

    open spec fn with_evidence(v: Self::V, ids: Seq<Seq<char>>) -> Self::V {
        super::model::RiskV { evidence: ids, ..v }
    }

    fn evidence(&self) -> (r: &Vec<String>) {
        &self.evidence_segment_ids
    }

    fn replace_evidence(&self, ids: Vec<String>) -> (r: Self) {
        let mut c = self.copy();
        c.evidence_segment_ids = ids;
        c
    }
}

/// The items of a persisted list with checked, ordered evidence; the first error wins.
pub open spec fn items_evidence_check<T: EvidenceItem>(
    items: Seq<T::V>,
    sids: Seq<Seq<char>>,
    require_evidence: bool,
    path: &'static str,
) -> Result<Seq<T::V>, MinutesError>
    decreases items.len(),
{
    if items.len() == 0 {
        Ok(seq![])
    } else {
        match items_evidence_check::<T>(items.drop_last(), sids, require_evidence, path) {
            Err(e) => Err(e),
            Ok(p) => match evidence_check(T::evidence_of(items.last()), sids, require_evidence, path) {
                Err(e) => Err(e),
                Ok(ids) => Ok(p.push(T::with_evidence(items.last(), ids))),
            },
        }
    }
}

/// The items of a model candidate list that keep enough evidence, with sanitized evidence.
pub open spec fn items_sanitized<T: EvidenceItem>(items: Seq<T::V>, sids: Seq<Seq<char>>) -> Seq<
    T::V,
>
    decreases items.len(),
{
    if items.len() == 0 {
        seq![]
    } else {
        let p = items_sanitized::<T>(items.drop_last(), sids);
        let ids = T::evidence_of(items.last());
        if keeps_item(ids, sids) {
            p.push(T::with_evidence(items.last(), sanitized_evidence(ids, sids)))
        } else {
            p
        }
    }
}

/// Once a prefix fails the evidence check, every longer prefix fails the same way.
pub proof fn lemma_items_evidence_error_persists<T: EvidenceItem>(
    items: Seq<T::V>,
    sids: Seq<Seq<char>>,
    require_evidence: bool,
    path: &'static str,
    m: int,
    n: int,
)
    requires
        0 <= m <= n <= items.len(),
        items_evidence_check::<T>(items.take(m), sids, require_evidence, path) is Err,
    ensures
        items_evidence_check::<T>(items.take(n), sids, require_evidence, path)
            == items_evidence_check::<T>(items.take(m), sids, require_evidence, path),
    decreases n - m,
{
    if n > m {
        lemma_items_evidence_error_persists::<T>(items, sids, require_evidence, path, m, n - 1);
        assert(items.take(n).drop_last() =~= items.take(n - 1));
    }
}

/// Checks and orders the evidence of every persisted item; the first error wins.
pub fn check_items_evidence<T: EvidenceItem>(
    items: &Vec<T>,
    segs: &Vec<TranscriptSegment>,
    require_evidence: bool,
    path: &'static str,
) -> (r: Result<Vec<T>, MinutesError>)
    ensures
        match items_evidence_check::<T>(
            super::normalize::views(items@),
            segment_ids(segs@.map_values(|s: TranscriptSegment| s@)),
            require_evidence,
            path,
        ) {
            Ok(t) => r is Ok && super::normalize::views(r->Ok_0@) == t,
            Err(e) => r == Err::<Vec<T>, MinutesError>(e),
        },
{
    let ghost sv = super::normalize::views(items@);
    let ghost sids = segment_ids(segs@.map_values(|s: TranscriptSegment| s@));
    let mut out: Vec<T> = Vec::new();
    proof {
        assert(sv.take(0) =~= Seq::<T::V>::empty());
        assert(super::normalize::views(out@) =~= Seq::<T::V>::empty());
    }
    let mut i: usize = 0;
    while i < items.len()
        invariant
            0 <= i <= items@.len(),
            sv == super::normalize::views(items@),
            sv.len() == items@.len(),
            sids == segment_ids(segs@.map_values(|s: TranscriptSegment| s@)),
            items_evidence_check::<T>(sv.take(i as int), sids, require_evidence, path) == Ok::<
                Seq<T::V>,
                MinutesError,
            >(super::normalize::views(out@)),
        decreases items@.len() - i,
    {
        let item = &items[i];
        let res = normalize_evidence(item.evidence(), segs, require_evidence, path);
        proof {
            let tk = sv.take(i + 1);
            assert(tk.drop_last() =~= sv.take(i as int));
            assert(tk.last() == item.view());
        }
        match res {
            Err(e) => {
                proof {
                    lemma_items_evidence_error_persists::<T>(
                        sv,
                        sids,
                        require_evidence,
                        path,
                        i + 1,
                        sv.len() as int,
                    );
                    assert(sv.take(sv.len() as int) =~= sv);
                }
                return Err(e);
            },
            Ok(ids) => {
                let ghost before = super::normalize::views(out@);
                let c = item.replace_evidence(ids);
                out.push(c);
                proof {
                    assert(super::normalize::views(out@) =~= before.push(c.view()));
                }
            },
        }
        i = i + 1;
    }
    proof {
        assert(sv.take(sv.len() as int) =~= sv);
    }
    Ok(out)
}

/// Keeps the model candidate items that still have evidence, with sanitized evidence.
pub fn sanitize_items_evidence<T: EvidenceItem>(
    items: &Vec<T>,
    segs: &Vec<TranscriptSegment>,
) -> (r: Vec<T>)
    ensures
        super::normalize::views(r@) == items_sanitized::<T>(
            super::normalize::views(items@),
            segment_ids(segs@.map_values(|s: TranscriptSegment| s@)),
        ),
{
    let ghost sv = super::normalize::views(items@);
    let ghost sids = segment_ids(segs@.map_values(|s: TranscriptSegment| s@));
    let mut out: Vec<T> = Vec::new();
    proof {
        assert(sv.take(0) =~= Seq::<T::V>::empty());
        assert(super::normalize::views(out@) =~= Seq::<T::V>::empty());
    }
    let mut i: usize = 0;
    while i < items.len()
        invariant
            0 <= i <= items@.len(),
            sv == super::normalize::views(items@),
            sv.len() == items@.len(),
            sids == segment_ids(segs@.map_values(|s: TranscriptSegment| s@)),
            sids.len() == segs@.len(),
            items_sanitized::<T>(sv.take(i as int), sids) == super::normalize::views(out@),
        decreases items@.len() - i,
    {
        let item = &items[i];
        let ids = if segs.len() == 0 {
            Vec::new()
        } else {
            listed_ids(segs, item.evidence())
        };
        proof {
            let tk = sv.take(i + 1);
            assert(tk.drop_last() =~= sv.take(i as int));
            assert(tk.last() == item.view());
            if segs@.len() == 0 {
                assert(strs_view(ids) =~= Seq::<Seq<char>>::empty());
            }
        }
        if segs.len() == 0 || ids.len() > 0 {
            let ghost before = super::normalize::views(out@);
            let c = item.replace_evidence(ids);
            out.push(c);
            proof {
                assert(super::normalize::views(out@) =~= before.push(c.view()));
            }
        }
        i = i + 1;
    }
    proof {
        assert(sv.take(sv.len() as int) =~= sv);
    }
    out
}

} // verus!
