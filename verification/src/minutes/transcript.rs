//! Provider-neutral transcripts and their structural validation.

use vstd::prelude::*;

use super::error::MinutesError;
use crate::text::{chars_eq, chars_of, is_blank, str_eq, str_is_blank};

verus! {

/// The largest confidence bit pattern that stands for a value in `[0, 1]`: the bits of `1.0`.
pub const CONFIDENCE_ONE_BITS: u64 = 0x3FF0_0000_0000_0000;

/// The longest accepted segment ID or speaker label, in characters.
pub const MAX_SEGMENT_LABEL_CHARS: usize = 200;

/// A normalized transcript segment.
///
/// Confidence is carried as the IEEE-754 bit pattern of the provider's value with
/// negative zero folded to zero; for non-negative finite values the bit patterns are
/// ordered exactly like the numbers, and every value in `[0, 1]` has bits at most
/// `CONFIDENCE_ONE_BITS`, while negative, infinite and NaN values have larger bits.
#[derive(Debug)]
pub struct TranscriptSegment {
    pub id: String,
    pub start_ms: Option<u64>,
    pub end_ms: Option<u64>,
    pub speaker_label: Option<String>,
    pub text: String,
    pub confidence_bits: Option<u64>,
}

/// A normalized provider-neutral transcript.
#[derive(Debug)]
pub struct Transcript {
    pub schema_version: String,
    pub text: String,
    pub language: Option<String>,
    pub duration_ms: Option<u64>,
    pub segments: Vec<TranscriptSegment>,
}

/// Options of the low-confidence check; the threshold uses the same bit encoding
/// as segment confidences, and no threshold means no low-confidence judgement.
#[derive(Clone, Copy)]
pub struct ValidationOptions {
    pub low_confidence_threshold_bits: Option<u64>,
}

pub struct SegmentV {
    pub id: Seq<char>,
    pub start_ms: Option<u64>,
    pub end_ms: Option<u64>,
    pub speaker_label: Option<Seq<char>>,
    pub text: Seq<char>,
    pub confidence_bits: Option<u64>,
}

pub struct TranscriptV {
    pub schema_version: Seq<char>,
    pub text: Seq<char>,
    pub language: Option<Seq<char>>,
    pub duration_ms: Option<u64>,
    pub segments: Seq<SegmentV>,
}

impl View for TranscriptSegment {
    type V = SegmentV;

    open spec fn view(&self) -> SegmentV {
        SegmentV {
            id: self.id@,
            start_ms: self.start_ms,
            end_ms: self.end_ms,
            speaker_label: match self.speaker_label {
                Some(s) => Some(s@),
                None => None,
            },
            text: self.text@,
            confidence_bits: self.confidence_bits,
        }
    }
}

impl View for Transcript {
    type V = TranscriptV;

    open spec fn view(&self) -> TranscriptV {
        TranscriptV {
            schema_version: self.schema_version@,
            text: self.text@,
            language: match self.language {
                Some(l) => Some(l@),
                None => None,
            },
            duration_ms: self.duration_ms,
            segments: self.segments@.map_values(|s: TranscriptSegment| s@),
        }
    }
}

/// Whether a bit pattern stands for a finite confidence in `[0, 1]`.
pub open spec fn confidence_in_range(bits: u64) -> bool {
    bits <= CONFIDENCE_ONE_BITS
}

/// Whether the options carry an acceptable threshold.
pub open spec fn threshold_valid(options: ValidationOptions) -> bool {
    match options.low_confidence_threshold_bits {
        Some(bits) => confidence_in_range(bits),
        None => true,
    }
}

/// The first defect of segment `i`, given the segments before it.
pub open spec fn segment_defect(segs: Seq<SegmentV>, i: int) -> Option<MinutesError> {
    let s = segs[i];
    if is_blank(s.id) || s.id.len() > MAX_SEGMENT_LABEL_CHARS {
        Some(MinutesError::InvalidTranscript { code: "invalid_segment_id" })
    } else if exists|j: int| 0 <= j < i && #[trigger] segs[j].id == s.id {
        Some(MinutesError::InvalidTranscript { code: "duplicate_segment_id" })
    } else if is_blank(s.text) {
        Some(MinutesError::InvalidTranscript { code: "empty_segment_text" })
    } else if s.start_ms is Some && s.end_ms is Some && s.start_ms.unwrap() > s.end_ms.unwrap() {
        Some(MinutesError::InvalidTranscript { code: "invalid_segment_time_range" })
    } else if s.speaker_label is Some && (is_blank(s.speaker_label.unwrap())
        || s.speaker_label.unwrap().len() > MAX_SEGMENT_LABEL_CHARS) {
        Some(MinutesError::InvalidTranscript { code: "invalid_speaker_label" })
    } else if s.confidence_bits is Some && !confidence_in_range(s.confidence_bits.unwrap()) {
        Some(MinutesError::InvalidTranscript { code: "invalid_segment_confidence" })
    } else {
        None
    }
}

/// The first defect among the first `n` segments.
pub open spec fn first_segment_defect(segs: Seq<SegmentV>, n: int) -> Option<MinutesError>
    decreases n,
{
    if n <= 0 {
        None
    } else {
        match first_segment_defect(segs, n - 1) {
            Some(e) => Some(e),
            None => segment_defect(segs, n - 1),
        }
    }
}

/// The outcome of transcript validation: the first violated invariant, in check order.
pub open spec fn transcript_check(t: TranscriptV, options: ValidationOptions) -> Result<
    (),
    MinutesError,
> {
    if !threshold_valid(options) {
        Err(MinutesError::InvalidConfidenceThreshold)
    } else if t.schema_version != "1"@ {
        Err(MinutesError::InvalidTranscript { code: "invalid_transcript_schema_version" })
    } else if is_blank(t.text) {
        Err(MinutesError::EmptyTranscript)
    } else {
        match first_segment_defect(t.segments, t.segments.len() as int) {
            Some(e) => Err(e),
            None => Ok(()),
        }
    }
}

/// Whether two strings are equal.
fn string_eq(a: &String, b: &String) -> (r: bool)
    ensures
        r == (a@ == b@),
{
    str_eq(a.as_str(), b.as_str())
}

/// The defect of one segment given the ones before it.
fn check_segment(segs: &Vec<TranscriptSegment>, i: usize) -> (r: Option<MinutesError>)
    requires
        i < segs@.len(),
    ensures
        r == segment_defect(segs@.map_values(|s: TranscriptSegment| s@), i as int),
{
    let ghost sv = segs@.map_values(|s: TranscriptSegment| s@);
    let s = &segs[i];
    assert(sv[i as int] == s@);
    if str_is_blank(s.id.as_str()) || s.id.as_str().unicode_len() > MAX_SEGMENT_LABEL_CHARS {
        return Some(MinutesError::InvalidTranscript { code: "invalid_segment_id" });
    }
    let mut j: usize = 0;
    while j < i
        invariant
            0 <= j <= i,
            i < segs@.len(),
            sv == segs@.map_values(|s: TranscriptSegment| s@),
            forall|k: int| 0 <= k < j ==> sv[k].id != sv[i as int].id,
            sv[i as int] == segs@[i as int]@,
            !(is_blank(sv[i as int].id) || sv[i as int].id.len() > MAX_SEGMENT_LABEL_CHARS),
        decreases i - j,
    {
        if string_eq(&segs[j].id, &segs[i].id) {
            proof {
                assert(sv[j as int].id == sv[i as int].id);
                assert(exists|jj: int| 0 <= jj < i && #[trigger] sv[jj].id == sv[i as int].id);
            }
            return Some(MinutesError::InvalidTranscript { code: "duplicate_segment_id" });
        }
        j = j + 1;
    }
    assert(!exists|jj: int| 0 <= jj < i && #[trigger] sv[jj].id == sv[i as int].id);
    if str_is_blank(s.text.as_str()) {
        return Some(MinutesError::InvalidTranscript { code: "empty_segment_text" });
    }
    match (s.start_ms, s.end_ms) {
        (Some(start), Some(end)) => {
            if start > end {
                return Some(MinutesError::InvalidTranscript { code: "invalid_segment_time_range" });
            }
        },
        _ => {},
    }
    match &s.speaker_label {
        Some(label) => {
            if str_is_blank(label.as_str()) || label.as_str().unicode_len() > MAX_SEGMENT_LABEL_CHARS {
                return Some(MinutesError::InvalidTranscript { code: "invalid_speaker_label" });
            }
        },
        None => {},
    }
    match s.confidence_bits {
        Some(bits) => {
            if bits > CONFIDENCE_ONE_BITS {
                return Some(MinutesError::InvalidTranscript { code: "invalid_segment_confidence" });
            }
        },
        None => {},
    }
    None
}

/// Checks the empty-text, segment, timestamp and confidence invariants of a transcript.
pub fn validate_transcript(transcript: &Transcript, options: ValidationOptions) -> (r: Result<
    (),
    MinutesError,
>)
    ensures
        r == transcript_check(transcript@, options),
{
    match options.low_confidence_threshold_bits {
        Some(bits) => {
            if bits > CONFIDENCE_ONE_BITS {
                return Err(MinutesError::InvalidConfidenceThreshold);
            }
        },
        None => {},
    }
    if !str_eq(transcript.schema_version.as_str(), "1") {
        return Err(MinutesError::InvalidTranscript { code: "invalid_transcript_schema_version" });
    }
    if str_is_blank(transcript.text.as_str()) {
        return Err(MinutesError::EmptyTranscript);
    }
    let ghost sv = transcript@.segments;
    let mut i: usize = 0;
    while i < transcript.segments.len()
        invariant
            0 <= i <= transcript.segments@.len(),
            sv == transcript.segments@.map_values(|s: TranscriptSegment| s@),
            first_segment_defect(sv, i as int) == None::<MinutesError>,
            transcript@.schema_version == "1"@,
            !is_blank(transcript@.text),
            threshold_valid(options),
        decreases transcript.segments@.len() - i,
    {
        let defect = check_segment(&transcript.segments, i);
        if defect.is_some() {
            proof {
                assert(first_segment_defect(sv, i + 1) == defect);
                lemma_defect_persists(sv, i + 1, sv.len() as int);
                assert(first_segment_defect(sv, sv.len() as int) == defect);
                assert(transcript@.segments == sv);
                assert(transcript@.schema_version == "1"@);
                assert(!is_blank(transcript@.text));
                assert(threshold_valid(options));
            }
            return Err(defect.unwrap());
        }
        i = i + 1;
    }
    Ok(())
}

/// Once a defect is found among the first `m` segments, it stays the first defect.
pub proof fn lemma_defect_persists(segs: Seq<SegmentV>, m: int, n: int)
    requires
        0 <= m <= n,
        first_segment_defect(segs, m) is Some,
    ensures
        first_segment_defect(segs, n) == first_segment_defect(segs, m),
    decreases n - m,
{
    if n > m {
        lemma_defect_persists(segs, m, n - 1);
    }
}

} // verus!
