//! Audio container inspection over the staged file's bytes: the real container is
//! detected from its structure, must match the extension, and its key structures are
//! checked before a duration is reported.

use vstd::prelude::*;

use super::error::IngestError;
use super::iso::{iso_check, validate_iso_bmff};
use crate::text::{ascii_lower_seq, chars_of};

verus! {

/// Bytes examined after an ID3v2 tag when looking for MP3 frames.
pub const MP3_SCAN_BYTES: u64 = 262144;

/// A supported audio or video container.
#[derive(Debug, Clone, Copy, PartialEq, Eq, Structural)]
pub enum AudioFormat {
    Wav,
    Mp3,
    M4a,
    Mp4,
    Mov,
}

/// A container family that file headers tell apart.
#[derive(Debug, Clone, Copy, PartialEq, Eq, Structural)]
pub enum DetectedContainer {
    Wav,
    Mp3,
    IsoBmff,
}

/// The container family of a declared format.
pub open spec fn container_of(f: AudioFormat) -> DetectedContainer {
    match f {
        AudioFormat::Wav => DetectedContainer::Wav,
        AudioFormat::Mp3 => DetectedContainer::Mp3,
        _ => DetectedContainer::IsoBmff,
    }
}

impl AudioFormat {
    /// The canonical file extension.
    pub fn extension(self) -> (r: &'static str)
        ensures
            r@ == match self {
                AudioFormat::Wav => "wav"@,
                AudioFormat::Mp3 => "mp3"@,
                AudioFormat::M4a => "m4a"@,
                AudioFormat::Mp4 => "mp4"@,
                AudioFormat::Mov => "mov"@,
            },
    {
        match self {
            AudioFormat::Wav => "wav",
            AudioFormat::Mp3 => "mp3",
            AudioFormat::M4a => "m4a",
            AudioFormat::Mp4 => "mp4",
            AudioFormat::Mov => "mov",
        }
    }

    /// The canonical MIME type used towards providers.
    pub fn mime_type(self) -> (r: &'static str)
        ensures
            r@ == match self {
                AudioFormat::Wav => "audio/wav"@,
                AudioFormat::Mp3 => "audio/mpeg"@,
                AudioFormat::M4a => "audio/mp4"@,
                AudioFormat::Mp4 => "video/mp4"@,
                AudioFormat::Mov => "video/quicktime"@,
            },
    {
        match self {
            AudioFormat::Wav => "audio/wav",
            AudioFormat::Mp3 => "audio/mpeg",
            AudioFormat::M4a => "audio/mp4",
            AudioFormat::Mp4 => "video/mp4",
            AudioFormat::Mov => "video/quicktime",
        }
    }

    /// The container family the content must have.
    pub fn container(self) -> (r: DetectedContainer)
        ensures
            r == container_of(self),
    {
        match self {
            AudioFormat::Wav => DetectedContainer::Wav,
            AudioFormat::Mp3 => DetectedContainer::Mp3,
            _ => DetectedContainer::IsoBmff,
        }
    }
}

/// Technical, non-sensitive metadata of a checked audio file.
#[derive(Debug, Clone, Copy, PartialEq, Eq, Structural)]
pub struct AudioInspection {
    pub format: AudioFormat,
    pub duration_ms: Option<u64>,
}

/// The format declared by a (case-insensitive) file extension.
pub open spec fn format_of_extension(ext: Option<Seq<char>>) -> Result<AudioFormat, IngestError> {
    match ext {
        None => Err(IngestError::UnsupportedExtension),
        Some(e) => {
            let l = ascii_lower_seq(e);
            if l == "wav"@ {
                Ok(AudioFormat::Wav)
            } else if l == "mp3"@ {
                Ok(AudioFormat::Mp3)
            } else if l == "m4a"@ {
                Ok(AudioFormat::M4a)
            } else if l == "mp4"@ {
                Ok(AudioFormat::Mp4)
            } else if l == "mov"@ {
                Ok(AudioFormat::Mov)
            } else {
                Err(IngestError::UnsupportedExtension)
            }
        },
    }
}

/// The declared container of a file from its extension (without the dot), if it has one.
pub fn expected_format(extension: Option<&str>) -> (r: Result<AudioFormat, IngestError>)
    ensures
        r == format_of_extension(
            match extension {
                Some(e) => Some(e@),
                None => None,
            },
        ),
{
    let e = match extension {
        Some(e) => e,
        None => {
            return Err(IngestError::UnsupportedExtension);
        },
    };
    let v = chars_of(e);
    let mut lower: Vec<char> = Vec::new();
    let mut i: usize = 0;
    while i < v.len()
        invariant
            0 <= i <= v@.len(),
            lower@ == ascii_lower_seq(v@.take(i as int)),
        decreases v@.len() - i,
    {
        lower.push(crate::text::ascii_lower_char(v[i]));
        i = i + 1;
        proof {
            assert(ascii_lower_seq(v@.take(i as int)) =~= ascii_lower_seq(v@.take((i - 1) as int)).push(
                crate::text::ascii_lower(v@[i - 1]),
            ));
        }
    }
    proof {
        assert(v@.take(v@.len() as int) =~= v@);
    }
    let s = crate::text::string_from_chars(lower.as_slice());
    let t = s.as_str();
    if crate::text::str_eq(t, "wav") {
        Ok(AudioFormat::Wav)
    } else if crate::text::str_eq(t, "mp3") {
        Ok(AudioFormat::Mp3)
    } else if crate::text::str_eq(t, "m4a") {
        Ok(AudioFormat::M4a)
    } else if crate::text::str_eq(t, "mp4") {
        Ok(AudioFormat::Mp4)
    } else if crate::text::str_eq(t, "mov") {
        Ok(AudioFormat::Mov)
    } else {
        Err(IngestError::UnsupportedExtension)
    }
}

/// A little-endian 16-bit value at `i`.
pub open spec fn le16(b: Seq<u8>, i: int) -> int {
    b[i] + 256 * b[i + 1]
}

/// A little-endian 32-bit value at `i`.
pub open spec fn le32(b: Seq<u8>, i: int) -> int {
    b[i] + 256 * b[i + 1] + 65536 * b[i + 2] + 16777216 * b[i + 3]
}

/// Whether the four bytes at `i` are the given tag.
pub open spec fn tag_at(b: Seq<u8>, i: int, t: Seq<u8>) -> bool {
    0 <= i && i + 4 <= b.len() && b.subrange(i, i + 4) == t
}

/// The ASCII tags used by the containers.
pub open spec fn riff_tag() -> Seq<u8> {
    seq![0x52u8, 0x49u8, 0x46u8, 0x46u8]
}

pub open spec fn wave_tag() -> Seq<u8> {
    seq![0x57u8, 0x41u8, 0x56u8, 0x45u8]
}

pub open spec fn fmt_tag() -> Seq<u8> {
    seq![0x66u8, 0x6du8, 0x74u8, 0x20u8]
}

pub open spec fn data_tag() -> Seq<u8> {
    seq![0x64u8, 0x61u8, 0x74u8, 0x61u8]
}

pub open spec fn ftyp_tag() -> Seq<u8> {
    seq![0x66u8, 0x74u8, 0x79u8, 0x70u8]
}

/// Whether a 16-byte `fmt ` payload at `p` has plausible basic parameters.
pub open spec fn wav_format_ok(b: Seq<u8>, p: int) -> bool {
    let audio_format = le16(b, p);
    let channels = le16(b, p + 2);
    let sample_rate = le32(b, p + 4);
    let byte_rate = le32(b, p + 8);
    let block_align = le16(b, p + 12);
    let bits = le16(b, p + 14);
    audio_format != 0 && channels != 0 && channels <= 32 && sample_rate != 0 && byte_rate != 0
        && block_align != 0 && bits != 0 && bits <= 64
}

/// The RIFF chunks from `offset` to `end`, collecting the byte rate of `fmt ` and the
/// size of `data`; chunks are padded to even sizes.
pub open spec fn wav_chunks(
    b: Seq<u8>,
    offset: int,
    end: int,
    byte_rate: Option<int>,
    data_size: Option<int>,
) -> Result<(Option<int>, Option<int>), IngestError>
    decreases end - offset,
{
    if offset >= end {
        Ok((byte_rate, data_size))
    } else if end - offset < 8 || end > b.len() || offset < 0 {
        Err(IngestError::CorruptAudio)
    } else {
        let size = le32(b, offset + 4);
        let payload = offset + 8;
        let payload_end = payload + size;
        if payload_end > end {
            Err(IngestError::CorruptAudio)
        } else {
            let step: Result<(Option<int>, Option<int>), IngestError> = if tag_at(
                b,
                offset,
                fmt_tag(),
            ) {
                if size < 16 || !wav_format_ok(b, payload) {
                    Err(IngestError::CorruptAudio)
                } else {
                    Ok((Some(le32(b, payload + 8)), data_size))
                }
            } else if tag_at(b, offset, data_tag()) {
                if size == 0 {
                    Err(IngestError::EmptyAudio)
                } else {
                    Ok((byte_rate, Some(size)))
                }
            } else {
                Ok((byte_rate, data_size))
            };
            match step {
                Err(e) => Err(e),
                Ok(s) => {
                    let next = payload_end + size % 2;
                    if next > end {
                        Err(IngestError::CorruptAudio)
                    } else {
                        wav_chunks(b, next, end, s.0, s.1)
                    }
                },
            }
        }
    }
}

/// The outcome of WAV validation: a RIFF/WAVE header whose declared size fits the
/// file, well-formed chunks, a plausible `fmt ` and a non-empty `data` chunk; the
/// duration is the data size over the byte rate, in milliseconds.
pub open spec fn wav_check(b: Seq<u8>) -> Result<Option<u64>, IngestError> {
    if b.len() < 12 || !tag_at(b, 0, riff_tag()) || !tag_at(b, 8, wave_tag()) {
        Err(IngestError::CorruptAudio)
    } else {
        let riff_end = le32(b, 4) + 8;
        if riff_end < 12 || riff_end > b.len() {
            Err(IngestError::CorruptAudio)
        } else {
            match wav_chunks(b, 12, riff_end, None, None) {
                Err(e) => Err(e),
                Ok(s) => match s {
                    (Some(rate), Some(size)) => Ok(Some((size * 1000 / rate) as u64)),
                    _ => Err(IngestError::CorruptAudio),
                },
            }
        }
    }
}

/// Reads a little-endian 16-bit value.
fn read_le16(b: &[u8], i: usize) -> (r: u32)
    requires
        i + 2 <= b@.len(),
    ensures
        r == le16(b@, i as int),
{
    b[i] as u32 + 256 * (b[i + 1] as u32)
}

/// Reads a little-endian 32-bit value.
fn read_le32(b: &[u8], i: usize) -> (r: u64)
    requires
        i + 4 <= b@.len(),
    ensures
        r == le32(b@, i as int),
{
    b[i] as u64 + 256 * (b[i + 1] as u64) + 65536 * (b[i + 2] as u64) + 16777216 * (b[i + 3] as u64)
}

/// Whether the four bytes at `i` are the tag `t0 t1 t2 t3`.
fn has_tag(b: &[u8], i: usize, t0: u8, t1: u8, t2: u8, t3: u8) -> (r: bool)
    ensures
        r == tag_at(b@, i as int, seq![t0, t1, t2, t3]),
{
    if i > b.len() || b.len() - i < 4 {
        return false;
    }
    let r = b[i] == t0 && b[i + 1] == t1 && b[i + 2] == t2 && b[i + 3] == t3;
    proof {
        if r {
            assert(b@.subrange(i as int, i + 4) =~= seq![t0, t1, t2, t3]);
        } else {
            if b@.subrange(i as int, i + 4) == seq![t0, t1, t2, t3] {
                assert(b@.subrange(i as int, i + 4)[0] == t0);
                assert(b@.subrange(i as int, i + 4)[1] == t1);
                assert(b@.subrange(i as int, i + 4)[2] == t2);
                assert(b@.subrange(i as int, i + 4)[3] == t3);
            }
        }
    }
    r
}

/// Checks a RIFF/WAVE file: its chunks, its `fmt ` parameters and a non-empty `data`
/// chunk; returns the duration in milliseconds.
pub fn validate_wav(b: &[u8]) -> (r: Result<Option<u64>, IngestError>)
    ensures
        r == wav_check(b@),
{
    if b.len() < 12 || !has_tag(b, 0, 0x52, 0x49, 0x46, 0x46) || !has_tag(b, 8, 0x57, 0x41, 0x56, 0x45) {
        return Err(IngestError::CorruptAudio);
    }
    let riff_end: u64 = read_le32(b, 4) + 8;
    if riff_end < 12 || riff_end > b.len() as u64 {
        return Err(IngestError::CorruptAudio);
    }
    let end = riff_end as usize;
    let mut offset: usize = 12;
    let mut byte_rate: Option<u64> = None;
    let mut data_size: Option<u64> = None;
    while offset < end
        invariant
            12 <= offset,
            b@.len() >= 12,
            tag_at(b@, 0, riff_tag()),
            tag_at(b@, 8, wave_tag()),
            end as int == le32(b@, 4) + 8,
            end <= b@.len(),
            wav_chunks(b@, 12, end as int, None, None) == wav_chunks(
                b@,
                offset as int,
                end as int,
                match byte_rate {
                    Some(x) => Some(x as int),
                    None => None,
                },
                match data_size {
                    Some(x) => Some(x as int),
                    None => None,
                },
            ),
            byte_rate matches Some(x) ==> x <= u32::MAX && x > 0,
            data_size matches Some(x) ==> x <= u32::MAX,
        decreases end - offset,
    {
        if end - offset < 8 {
            return Err(IngestError::CorruptAudio);
        }
        let size = read_le32(b, offset + 4);
        let payload = offset + 8;
        if size > (end - payload) as u64 {
            return Err(IngestError::CorruptAudio);
        }
        let payload_end = payload + size as usize;
        if has_tag(b, offset, 0x66, 0x6d, 0x74, 0x20) {
            if size < 16 {
                return Err(IngestError::CorruptAudio);
            }
            let audio_format = read_le16(b, payload);
            let channels = read_le16(b, payload + 2);
            let sample_rate = read_le32(b, payload + 4);
            let rate = read_le32(b, payload + 8);
            let block_align = read_le16(b, payload + 12);
            let bits = read_le16(b, payload + 14);
            if audio_format == 0 || channels == 0 || channels > 32 || sample_rate == 0 || rate == 0
                || block_align == 0 || bits == 0 || bits > 64 {
                return Err(IngestError::CorruptAudio);
            }
            byte_rate = Some(rate);
        } else if has_tag(b, offset, 0x64, 0x61, 0x74, 0x61) {
            if size == 0 {
                proof {
                    assert(tag_at(b@, offset as int, data_tag()));
                    assert(!tag_at(b@, offset as int, fmt_tag()));
                    assert(wav_chunks(
                        b@,
                        offset as int,
                        end as int,
                        match byte_rate {
                            Some(x) => Some(x as int),
                            None => None,
                        },
                        match data_size {
                            Some(x) => Some(x as int),
                            None => None,
                        },
                    ) == Err::<(Option<int>, Option<int>), IngestError>(IngestError::EmptyAudio));
                }
                return Err(IngestError::EmptyAudio);
            }
            data_size = Some(size);
        }
        let pad: usize = (size % 2) as usize;
        if pad > end - payload_end {
            return Err(IngestError::CorruptAudio);
        }
        offset = payload_end + pad;
    }
    match (byte_rate, data_size) {
        (Some(rate), Some(size)) => {
            let d: u64 = size * 1000 / rate;
            Ok(Some(d))
        },
        _ => Err(IngestError::CorruptAudio),
    }
}

/// The parameters of an MPEG Layer III frame header: length in bytes, sample rate and
/// samples per frame.
pub struct Mp3FrameInfo {
    pub byte_length: usize,
    pub sample_rate: u32,
    pub samples_per_frame: u32,
}

/// The MPEG-1 Layer III bit rate of an index, in kbit/s.
pub open spec fn mpeg1_bitrate(i: int) -> int {
    if i == 1 { 32 } else if i == 2 { 40 } else if i == 3 { 48 } else if i == 4 { 56 } else if i
        == 5 { 64 } else if i == 6 { 80 } else if i == 7 { 96 } else if i == 8 { 112 } else if i
        == 9 { 128 } else if i == 10 { 160 } else if i == 11 { 192 } else if i == 12 { 224 } else if i
        == 13 { 256 } else if i == 14 { 320 } else { 0 }
}

/// The MPEG-2/2.5 Layer III bit rate of an index, in kbit/s.
pub open spec fn mpeg2_bitrate(i: int) -> int {
    if i == 1 { 8 } else if i == 2 { 16 } else if i == 3 { 24 } else if i == 4 { 32 } else if i
        == 5 { 40 } else if i == 6 { 48 } else if i == 7 { 56 } else if i == 8 { 64 } else if i
        == 9 { 80 } else if i == 10 { 96 } else if i == 11 { 112 } else if i == 12 { 128 } else if i
        == 13 { 144 } else if i == 14 { 160 } else { 0 }
}

/// The frame of a 4-byte MPEG Layer III header (length, sample rate, samples per
/// frame), or nothing when the header is not a usable Layer III frame of at least 24
/// bytes.
pub open spec fn mp3_frame(h0: u8, h1: u8, h2: u8) -> Option<(int, int, int)> {
    let version = (h1 / 8) % 4;
    let layer = (h1 / 2) % 4;
    let bitrate_index = h2 / 16;
    let rate_index = (h2 / 4) % 4;
    if h0 != 0xff || h1 < 0xe0 {
        None
    } else if version == 1 || layer != 1 || bitrate_index == 0 || bitrate_index == 15 || rate_index
        == 3 {
        None
    } else {
        let mpeg1 = version == 3;
        let kbps = if mpeg1 {
            mpeg1_bitrate(bitrate_index as int)
        } else {
            mpeg2_bitrate(bitrate_index as int)
        };
        let divisor: int = if version == 3 {
            1
        } else if version == 2 {
            2
        } else {
            4
        };
        let base: int = if rate_index == 0 {
            44100
        } else if rate_index == 1 {
            48000
        } else {
            32000
        };
        let sample_rate = base / divisor;
        let coefficient: int = if mpeg1 {
            144
        } else {
            72
        };
        let padding: int = ((h2 / 2) % 2) as int;
        let length = coefficient * kbps * 1000 / sample_rate + padding;
        if length < 24 {
            None
        } else {
            Some(
                (
                    length,
                    sample_rate,
                    if mpeg1 {
                        1152
                    } else {
                        576
                    },
                ),
            )
        }
    }
}

/// The frame of the header bytes at `i`, if a whole header is there.
pub open spec fn frame_at(b: Seq<u8>, i: int) -> Option<(int, int, int)> {
    if 0 <= i && i + 4 <= b.len() {
        mp3_frame(b[i], b[i + 1], b[i + 2])
    } else {
        None
    }
}

/// The frame of three header bytes.
fn mp3_header(h0: u8, h1: u8, h2: u8) -> (r: Option<Mp3FrameInfo>)
    ensures
        match mp3_frame(h0, h1, h2) {
            Some(f) => r is Some && r->Some_0.byte_length == f.0 && r->Some_0.sample_rate == f.1
                && r->Some_0.samples_per_frame == f.2,
            None => r is None,
        },
{
    if h0 != 0xff || h1 < 0xe0 {
        return None;
    }
    let version = (h1 / 8) % 4;
    let layer = (h1 / 2) % 4;
    let bitrate_index = h2 / 16;
    let rate_index = (h2 / 4) % 4;
    if version == 1 || layer != 1 || bitrate_index == 0 || bitrate_index == 15 || rate_index == 3 {
        return None;
    }
    let mpeg1 = version == 3;
    let bi = bitrate_index;
    let kbps: u32 = if mpeg1 {
        if bi == 1 { 32 } else if bi == 2 { 40 } else if bi == 3 { 48 } else if bi == 4 { 56 } else if bi
            == 5 { 64 } else if bi == 6 { 80 } else if bi == 7 { 96 } else if bi == 8 { 112 } else if bi
            == 9 { 128 } else if bi == 10 { 160 } else if bi == 11 { 192 } else if bi == 12 { 224 } else if bi
            == 13 { 256 } else if bi == 14 { 320 } else { 0 }
    } else {
        if bi == 1 { 8 } else if bi == 2 { 16 } else if bi == 3 { 24 } else if bi == 4 { 32 } else if bi
            == 5 { 40 } else if bi == 6 { 48 } else if bi == 7 { 56 } else if bi == 8 { 64 } else if bi
            == 9 { 80 } else if bi == 10 { 96 } else if bi == 11 { 112 } else if bi == 12 { 128 } else if bi
            == 13 { 144 } else if bi == 14 { 160 } else { 0 }
    };
    let divisor: u32 = if version == 3 {
        1
    } else if version == 2 {
        2
    } else {
        4
    };
    let base: u32 = if rate_index == 0 {
        44100
    } else if rate_index == 1 {
        48000
    } else {
        32000
    };
    let sample_rate = base / divisor;
    let coefficient: u32 = if mpeg1 {
        144
    } else {
        72
    };
    let padding: u32 = ((h2 / 2) % 2) as u32;
    assert(kbps <= 320);
    assert(coefficient * kbps <= 46080) by (nonlinear_arith)
        requires
            coefficient <= 144,
            kbps <= 320,
    ;
    let length = coefficient * kbps * 1000 / sample_rate + padding;
    if length < 24 {
        return None;
    }
    Some(
        Mp3FrameInfo {
            byte_length: length as usize,
            sample_rate,
            samples_per_frame: if mpeg1 {
                1152
            } else {
                576
            },
        },
    )
}

/// Parses an MPEG Layer III frame header.
pub fn parse_mp3_frame(header: &[u8]) -> (r: Option<Mp3FrameInfo>)
    ensures
        match (if header@.len() >= 4 {
            mp3_frame(header@[0], header@[1], header@[2])
        } else {
            None
        }) {
            Some(f) => r is Some && r->Some_0.byte_length == f.0 && r->Some_0.sample_rate == f.1
                && r->Some_0.samples_per_frame == f.2,
            None => r is None,
        },
{
    if header.len() < 4 {
        return None;
    }
    mp3_header(header[0], header[1], header[2])
}

/// The frame whose header starts at `i`, if a whole header is there.
fn frame_at_exec(b: &[u8], i: u64) -> (r: Option<Mp3FrameInfo>)
    ensures
        match frame_at(b@, i as int) {
            Some(f) => r is Some && r->Some_0.byte_length == f.0 && r->Some_0.sample_rate == f.1
                && r->Some_0.samples_per_frame == f.2,
            None => r is None,
        },
{
    if i > b.len() as u64 || (b.len() as u64) - i < 4 {
        return None;
    }
    let k = i as usize;
    mp3_header(b[k], b[k + 1], b[k + 2])
}

/// Where MP3 frames are searched: after an ID3v2 tag (and its footer) when there is one.
pub open spec fn mp3_scan_start(b: Seq<u8>) -> Result<int, IngestError> {
    if b.len() < 10 {
        Err(IngestError::CorruptAudio)
    } else if b[0] == 0x49 && b[1] == 0x44 && b[2] == 0x33 {
        if b[6] >= 128 || b[7] >= 128 || b[8] >= 128 || b[9] >= 128 {
            Err(IngestError::CorruptAudio)
        } else {
            let tag = b[6] * 2097152 + b[7] * 16384 + b[8] * 128 + b[9];
            let footer: int = if (b[5] / 16) % 2 == 1 {
                10
            } else {
                0
            };
            let start: int = 10 + tag + footer;
            if start >= b.len() {
                Err(IngestError::CorruptAudio)
            } else {
                Ok(start)
            }
        }
    } else {
        Ok(0)
    }
}

/// Whether a frame at `pos` is directly followed by another complete frame.
pub open spec fn pair_found(b: Seq<u8>, pos: int) -> bool {
    match frame_at(b, pos) {
        None => false,
        Some(f) => {
            let next = pos + f.0;
            next + 4 <= b.len() && match frame_at(b, next) {
                None => false,
                Some(g) => next + g.0 <= b.len(),
            }
        },
    }
}

/// The first position `s + i` (from `i` on, within `len` scanned bytes) where a frame
/// is directly followed by another complete frame.
pub open spec fn mp3_search(b: Seq<u8>, s: int, len: int, i: int) -> Result<int, IngestError>
    decreases len - i,
{
    if i < 0 || i > len - 4 {
        Err(IngestError::CorruptAudio)
    } else if pair_found(b, s + i) {
        Ok(s + i)
    } else {
        mp3_search(b, s, len, i + 1)
    }
}

/// Whether a frame at `pos` is directly followed by another complete frame.
fn pair_found_exec(b: &[u8], pos: u64) -> (r: bool)
    ensures
        r == pair_found(b@, pos as int),
{
    let n = b.len() as u64;
    match frame_at_exec(b, pos) {
        None => false,
        Some(f) => {
            let len = f.byte_length as u64;
            if len > n || pos > n - len {
                return false;
            }
            let next = pos + len;
            if n - next < 4 {
                return false;
            }
            match frame_at_exec(b, next) {
                None => false,
                Some(g) => g.byte_length as u64 <= n - next,
            }
        },
    }
}

/// The offset of the first of two consecutive valid frames.
pub open spec fn mp3_first_frame(b: Seq<u8>) -> Result<int, IngestError> {
    match mp3_scan_start(b) {
        Err(e) => Err(e),
        Ok(s) => {
            let len = if b.len() - s < MP3_SCAN_BYTES {
                b.len() - s
            } else {
                MP3_SCAN_BYTES as int
            };
            if len < 8 {
                Err(IngestError::CorruptAudio)
            } else {
                mp3_search(b, s, len, 0)
            }
        },
    }
}

/// Finds two consecutive valid MP3 frames after an optional ID3v2 tag.
pub fn find_mp3_frame(b: &[u8]) -> (r: Result<u64, IngestError>)
    ensures
        match mp3_first_frame(b@) {
            Ok(o) => r is Ok && r->Ok_0 as int == o,
            Err(e) => r == Err::<u64, IngestError>(e),
        },
{
    let n = b.len() as u64;
    if b.len() < 10 {
        return Err(IngestError::CorruptAudio);
    }
    let mut start: u64 = 0;
    if b[0] == 0x49 && b[1] == 0x44 && b[2] == 0x33 {
        if b[6] >= 128 || b[7] >= 128 || b[8] >= 128 || b[9] >= 128 {
            return Err(IngestError::CorruptAudio);
        }
        let tag: u64 = (b[6] as u64) * 2097152 + (b[7] as u64) * 16384 + (b[8] as u64) * 128
            + (b[9] as u64);
        let footer: u64 = if (b[5] / 16) % 2 == 1 {
            10
        } else {
            0
        };
        start = 10 + tag + footer;
        if start >= n {
            return Err(IngestError::CorruptAudio);
        }
    }
    let len: u64 = if n - start < MP3_SCAN_BYTES {
        n - start
    } else {
        MP3_SCAN_BYTES
    };
    if len < 8 {
        return Err(IngestError::CorruptAudio);
    }
    let mut i: u64 = 0;
    while i <= len - 4
        invariant
            n == b@.len(),
            start + len <= n,
            len >= 8,
            mp3_first_frame(b@) == mp3_search(b@, start as int, len as int, 0),
            mp3_search(b@, start as int, len as int, 0) == mp3_search(
                b@,
                start as int,
                len as int,
                i as int,
            ),
        decreases len - i,
    {
        if pair_found_exec(b, start + i) {
            return Ok(start + i);
        }
        i = i + 1;
    }
    Err(IngestError::CorruptAudio)
}

/// The frames walked from `pos`: how many complete frames follow one another and their
/// total duration in nanoseconds.
pub open spec fn mp3_walk(b: Seq<u8>, pos: int, count: nat, dur: nat) -> (nat, nat)
    decreases b.len() - pos,
{
    match frame_at(b, pos) {
        None => (count, dur),
        Some(f) => if pos + f.0 > b.len() {
            (count, dur)
        } else {
            mp3_walk(b, pos + f.0, count + 1, dur + (f.2 * 1000000000 / f.1) as nat)
        },
    }
}

/// The playing time of an MP3 file in milliseconds: the frames from the first pair
/// found, which must be at least two.
pub open spec fn mp3_duration(b: Seq<u8>) -> Result<u64, IngestError> {
    match mp3_first_frame(b) {
        Err(e) => Err(e),
        Ok(first) => {
            let w = mp3_walk(b, first, 0, 0);
            if w.0 < 2 || w.1 / 1000000 > u64::MAX {
                Err(IngestError::CorruptAudio)
            } else {
                Ok((w.1 / 1000000) as u64)
            }
        },
    }
}

/// Frames are at least 24 bytes, run at 8 kHz or faster, and hold at most 1152 samples.
proof fn lemma_frame_bounds(h0: u8, h1: u8, h2: u8)
    requires
        mp3_frame(h0, h1, h2) is Some,
    ensures
        ({
            let f = mp3_frame(h0, h1, h2)->Some_0;
            f.0 >= 24 && f.1 >= 8000 && f.2 <= 1152 && f.2 >= 0 && f.2 * 1000000000 / f.1
                <= 144000000
        }),
{
    let f = mp3_frame(h0, h1, h2)->Some_0;
    let spf = f.2;
    let sr = f.1;
    assert(sr >= 8000);
    assert(spf <= 1152);
    assert(spf * 1000000000 / sr <= 144000000) by (nonlinear_arith)
        requires
            0 <= spf <= 1152,
            sr >= 8000,
    ;
}

/// Sums the playing time of consecutive MP3 frames.
#[verifier::rlimit(60)]
#[verifier::spinoff_prover]
pub fn inspect_mp3_duration(b: &[u8]) -> (r: Result<u64, IngestError>)
    ensures
        r == mp3_duration(b@),
{
    let first = find_mp3_frame(b)?;
    let n = b.len() as u64;
    let mut pos: u64 = first;
    let mut count: u64 = 0;
    let mut dur: u128 = 0;
    while pos < n
        invariant
            n == b@.len(),
            first <= pos,
            count <= pos,
            dur <= (pos as int) * 6000000,
            mp3_walk(b@, first as int, 0, 0) == mp3_walk(b@, pos as int, count as nat, dur as nat),
        ensures
            mp3_walk(b@, first as int, 0, 0) == (count as nat, dur as nat),
        decreases n - pos,
    {
        let f = match frame_at_exec(b, pos) {
            None => {
                break;
            },
            Some(f) => f,
        };
        proof {
            lemma_frame_bounds(b@[pos as int], b@[pos + 1], b@[pos + 2]);
        }
        let len = f.byte_length as u64;
        if len > n - pos {
            break;
        }
        let add: u128 = (f.samples_per_frame as u128) * 1000000000 / (f.sample_rate as u128);
        dur = dur + add;
        count = count + 1;
        pos = pos + len;
    }
    if count < 2 || dur / 1000000 > u64::MAX as u128 {
        return Err(IngestError::CorruptAudio);
    }
    Ok((dur / 1000000) as u64)
}

/// The container family that the first bytes and structure show: RIFF/WAVE, an ISO
/// `ftyp` box, or MP3 frames.
pub open spec fn detect_container(b: Seq<u8>) -> Result<DetectedContainer, IngestError> {
    if b.len() >= 12 && tag_at(b, 0, riff_tag()) && tag_at(b, 8, wave_tag()) {
        Ok(DetectedContainer::Wav)
    } else if b.len() >= 12 && tag_at(b, 4, ftyp_tag()) {
        Ok(DetectedContainer::IsoBmff)
    } else if mp3_first_frame(b) is Ok {
        Ok(DetectedContainer::Mp3)
    } else {
        Err(IngestError::CorruptAudio)
    }
}

/// Identifies the real container of a file's bytes.
pub fn detect_format(b: &[u8]) -> (r: Result<DetectedContainer, IngestError>)
    ensures
        r == detect_container(b@),
{
    if b.len() >= 12 && has_tag(b, 0, 0x52, 0x49, 0x46, 0x46) && has_tag(b, 8, 0x57, 0x41, 0x56, 0x45) {
        return Ok(DetectedContainer::Wav);
    }
    if b.len() >= 12 && has_tag(b, 4, 0x66, 0x74, 0x79, 0x70) {
        return Ok(DetectedContainer::IsoBmff);
    }
    if find_mp3_frame(b).is_ok() {
        return Ok(DetectedContainer::Mp3);
    }
    Err(IngestError::CorruptAudio)
}

/// The inspection of a file's bytes declared to be of a format: an empty file, a
/// container that differs from the declaration, or a broken structure is refused;
/// otherwise the declared format is reported with the duration that a WAV `data`
/// chunk or an ISO audio track gives. MP3 streams are checked frame by frame, but no
/// duration is reported for them.
pub open spec fn inspection(b: Seq<u8>, expected: AudioFormat) -> Result<AudioInspection, IngestError> {
    if b.len() == 0 {
        Err(IngestError::EmptyAudio)
    } else {
        match detect_container(b) {
            Err(e) => Err(e),
            Ok(actual) => if actual != container_of(expected) {
                Err(IngestError::ExtensionContentMismatch)
            } else {
                let duration = match actual {
                    DetectedContainer::Wav => wav_check(b),
                    DetectedContainer::Mp3 => match mp3_duration(b) {
                        Ok(_) => Ok(None),
                        Err(e) => Err(e),
                    },
                    DetectedContainer::IsoBmff => iso_check(b),
                };
                match duration {
                    Ok(duration_ms) => Ok(AudioInspection { format: expected, duration_ms }),
                    Err(e) => Err(e),
                }
            },
        }
    }
}

/// Checks the real container, key structures and extension consistency of a staged
/// file's bytes.
pub fn inspect_audio(b: &[u8], expected: AudioFormat) -> (r: Result<AudioInspection, IngestError>)
    ensures
        r == inspection(b@, expected),
{
    if b.len() == 0 {
        return Err(IngestError::EmptyAudio);
    }
    let actual = detect_format(b)?;
    if actual != expected.container() {
        return Err(IngestError::ExtensionContentMismatch);
    }
    let duration_ms = match actual {
        DetectedContainer::Wav => validate_wav(b)?,
        DetectedContainer::Mp3 => {
            inspect_mp3_duration(b)?;
            None
        },
        DetectedContainer::IsoBmff => validate_iso_bmff(b)?,
    };
    Ok(AudioInspection { format: expected, duration_ms })
}

/// A recording's declared format is read from its extension in any ASCII case: each
/// format's canonical extension, lower or upper case, names that format.
pub proof fn law_extension_names_its_format()
    ensures
        format_of_extension(Some("wav"@)) == Ok::<AudioFormat, IngestError>(AudioFormat::Wav),
        format_of_extension(Some("WAV"@)) == Ok::<AudioFormat, IngestError>(AudioFormat::Wav),
        format_of_extension(Some("mp3"@)) == Ok::<AudioFormat, IngestError>(AudioFormat::Mp3),
        format_of_extension(Some("MP3"@)) == Ok::<AudioFormat, IngestError>(AudioFormat::Mp3),
        format_of_extension(Some("m4a"@)) == Ok::<AudioFormat, IngestError>(AudioFormat::M4a),
        format_of_extension(Some("M4A"@)) == Ok::<AudioFormat, IngestError>(AudioFormat::M4a),
        format_of_extension(Some("mp4"@)) == Ok::<AudioFormat, IngestError>(AudioFormat::Mp4),
        format_of_extension(Some("MP4"@)) == Ok::<AudioFormat, IngestError>(AudioFormat::Mp4),
        format_of_extension(Some("mov"@)) == Ok::<AudioFormat, IngestError>(AudioFormat::Mov),
        format_of_extension(Some("MOV"@)) == Ok::<AudioFormat, IngestError>(AudioFormat::Mov),
        format_of_extension(None) == Err::<AudioFormat, IngestError>(IngestError::UnsupportedExtension),
{
    reveal_strlit("wav");
    reveal_strlit("WAV");
    reveal_strlit("mp3");
    reveal_strlit("MP3");
    reveal_strlit("m4a");
    reveal_strlit("M4A");
    reveal_strlit("mp4");
    reveal_strlit("MP4");
    reveal_strlit("mov");
    reveal_strlit("MOV");
    assert(ascii_lower_seq("wav"@) =~= "wav"@);
    assert(ascii_lower_seq("WAV"@) =~= "wav"@);
    assert(ascii_lower_seq("mp3"@) =~= "mp3"@);
    assert(ascii_lower_seq("MP3"@) =~= "mp3"@);
    assert(ascii_lower_seq("m4a"@) =~= "m4a"@);
    assert(ascii_lower_seq("M4A"@) =~= "m4a"@);
    assert(ascii_lower_seq("mp4"@) =~= "mp4"@);
    assert(ascii_lower_seq("MP4"@) =~= "mp4"@);
    assert(ascii_lower_seq("mov"@) =~= "mov"@);
    assert(ascii_lower_seq("MOV"@) =~= "mov"@);
    assert("mp3"@[0] != "wav"@[0]);
    assert("m4a"@[0] != "wav"@[0] && "m4a"@[1] != "mp3"@[1]);
    assert("mp4"@[0] != "wav"@[0] && "mp4"@[2] != "mp3"@[2] && "mp4"@[1] != "m4a"@[1]);
    assert("mov"@[0] != "wav"@[0] && "mov"@[1] != "mp3"@[1] && "mov"@[1] != "m4a"@[1] && "mov"@[1] != "mp4"@[1]);
}

/// The duration of a canonical PCM WAV file (a `fmt ` chunk of 16 bytes at offset 12,
/// then the `data` chunk at offset 36, filling the RIFF size) is the data size times
/// 1000 over the byte-rate field, the little-endian 32-bit value at offset 28 (bytes
/// 8..12 of the `fmt ` payload), rounded down; the sample-rate field does not enter.
pub proof fn law_wav_duration_uses_byte_rate(b: Seq<u8>)
    requires
        b.len() >= 44,
        tag_at(b, 0, riff_tag()),
        tag_at(b, 8, wave_tag()),
        tag_at(b, 12, fmt_tag()),
        le32(b, 16) == 16,
        wav_format_ok(b, 20),
        tag_at(b, 36, data_tag()),
        le32(b, 40) > 0,
        le32(b, 4) + 8 == 44 + le32(b, 40) + le32(b, 40) % 2,
        le32(b, 4) + 8 <= b.len(),
    ensures
        wav_check(b) == Ok::<Option<u64>, IngestError>(Some((le32(b, 40) * 1000 / le32(b, 28)) as u64)),
{
    reveal_with_fuel(wav_chunks, 4);
    let end = le32(b, 4) + 8;
    let d = le32(b, 40);
    let rate = le32(b, 28);
    assert(b.subrange(36, 40)[0] == 0x64u8);
    assert(fmt_tag()[0] == 0x66u8);
    assert(!tag_at(b, 36, fmt_tag()));
    assert(wav_chunks(b, 44 + d + d % 2, end, Some(rate), Some(d)) == Ok::<(Option<int>, Option<int>), IngestError>(
        (Some(rate), Some(d)),
    ));
    assert(wav_chunks(b, 36, end, Some(rate), None) == Ok::<(Option<int>, Option<int>), IngestError>(
        (Some(rate), Some(d)),
    ));
    assert(wav_chunks(b, 12, end, None, None) == Ok::<(Option<int>, Option<int>), IngestError>(
        (Some(rate), Some(d)),
    ));
}

} // verus!
