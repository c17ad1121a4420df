//! ISO base media files (M4A, MP4, MOV): the box structure, the media tracks and the
//! single supported audio track whose duration is reported.

use vstd::prelude::*;

use super::error::IngestError;

verus! {

/// The most boxes read at one level of the box tree.
pub const MAX_ISO_BOXES_PER_LEVEL: usize = 16384;

/// Box and handler types as big-endian four-character codes.
pub const FTYP: u64 = 0x66747970;

pub const MDAT: u64 = 0x6d646174;

pub const MOOV: u64 = 0x6d6f6f76;

pub const TRAK: u64 = 0x7472616b;

pub const MDIA: u64 = 0x6d646961;

pub const HDLR: u64 = 0x68646c72;

pub const MDHD: u64 = 0x6d646864;

pub const MINF: u64 = 0x6d696e66;

pub const STBL: u64 = 0x7374626c;

pub const STSD: u64 = 0x73747364;

pub const MP4A: u64 = 0x6d703461;

pub const ALAC: u64 = 0x616c6163;

pub const SOUN: u64 = 0x736f756e;

pub const VIDE: u64 = 0x76696465;

/// A box: its type, where its payload starts and where it ends.
#[derive(Clone, Copy)]
pub struct IsoBox {
    pub kind: u64,
    pub payload_start: u64,
    pub end: u64,
}

/// A big-endian 32-bit value at `i`.
pub open spec fn be32(b: Seq<u8>, i: int) -> int {
    16777216 * b[i] + 65536 * b[i + 1] + 256 * b[i + 2] + b[i + 3]
}

/// A big-endian 64-bit value at `i`.
pub open spec fn be64(b: Seq<u8>, i: int) -> int {
    4294967296 * be32(b, i) + be32(b, i + 4)
}

/// The size and header length of the box at `offset`: a 32-bit size, a 64-bit size
/// after the type when the 32-bit size is one, or the rest of the range when it is zero.
pub open spec fn box_header(b: Seq<u8>, offset: int, end: int) -> Result<(int, int), IngestError> {
    let size32 = be32(b, offset);
    if size32 == 1 {
        if end - offset < 16 {
            Err(IngestError::CorruptAudio)
        } else {
            Ok((be64(b, offset + 8), 16))
        }
    } else if size32 == 0 {
        Ok((end - offset, 8))
    } else {
        Ok((size32, 8))
    }
}

/// The boxes from `offset` to `end`, after the boxes `acc` already read.
pub open spec fn boxes_from(b: Seq<u8>, offset: int, end: int, acc: Seq<IsoBox>) -> Result<
    Seq<IsoBox>,
    IngestError,
>
    decreases end - offset,
{
    if offset >= end {
        Ok(acc)
    } else if acc.len() >= MAX_ISO_BOXES_PER_LEVEL || end - offset < 8 {
        Err(IngestError::CorruptAudio)
    } else {
        match box_header(b, offset, end) {
            Err(e) => Err(e),
            Ok(h) => {
                let size = h.0;
                let header = h.1;
                if size < header || offset + size > u64::MAX || offset + size > end {
                    Err(IngestError::CorruptAudio)
                } else {
                    boxes_from(
                        b,
                        offset + size,
                        end,
                        acc.push(
                            IsoBox {
                                kind: be32(b, offset + 4) as u64,
                                payload_start: (offset + header) as u64,
                                end: (offset + size) as u64,
                            },
                        ),
                    )
                }
            },
        }
    }
}

/// The direct child boxes of the range `[start, end)`.
pub open spec fn iso_boxes(b: Seq<u8>, start: int, end: int) -> Result<Seq<IsoBox>, IngestError> {
    if start > end {
        Err(IngestError::CorruptAudio)
    } else {
        boxes_from(b, start, end, Seq::empty())
    }
}

/// Whether every box lies inside `[start, end]` with its payload inside the box.
pub open spec fn boxes_within(s: Seq<IsoBox>, start: int, end: int) -> bool {
    forall|i: int|
        0 <= i < s.len() ==> start <= (#[trigger] s[i]).payload_start && s[i].payload_start
            <= s[i].end && s[i].end <= end
}

/// Reads a big-endian 32-bit value.
fn read_be32(b: &[u8], i: u64) -> (r: u64)
    requires
        i + 4 <= b@.len(),
    ensures
        r == be32(b@, i as int),
        r < 4294967296,
{
    let k = i as usize;
    16777216 * (b[k] as u64) + 65536 * (b[k + 1] as u64) + 256 * (b[k + 2] as u64) + (b[k + 3] as u64)
}

/// Reads a big-endian 64-bit value.
fn read_be64(b: &[u8], i: u64) -> (r: u64)
    requires
        i + 8 <= b@.len(),
    ensures
        r == be64(b@, i as int),
{
    let n = b.len();
    assert(i + 8 <= n);
    let hi = read_be32(b, i);
    let lo = read_be32(b, i + 4);
    assert(hi * 4294967296 + lo <= 0xffff_ffff_ffff_ffff) by (nonlinear_arith)
        requires
            hi < 4294967296,
            lo < 4294967296,
    ;
    hi * 4294967296 + lo
}

/// Reads the direct child boxes of `[start, end)`, at most a fixed number per level.
pub fn read_boxes(b: &[u8], start: u64, end: u64) -> (r: Result<Vec<IsoBox>, IngestError>)
    requires
        end <= b@.len(),
    ensures
        match iso_boxes(b@, start as int, end as int) {
            Ok(s) => r is Ok && r->Ok_0@ == s,
            Err(e) => r == Err::<Vec<IsoBox>, IngestError>(e),
        },
        r matches Ok(v) ==> boxes_within(v@, start as int, end as int),
{
    if start > end {
        return Err(IngestError::CorruptAudio);
    }
    let mut offset = start;
    let mut boxes: Vec<IsoBox> = Vec::new();
    while offset < end
        invariant
            start <= offset <= end,
            end <= b@.len(),
            boxes_from(b@, offset as int, end as int, boxes@) == boxes_from(
                b@,
                start as int,
                end as int,
                Seq::empty(),
            ),
            boxes_within(boxes@, start as int, offset as int),
        decreases end - offset,
    {
        if boxes.len() >= MAX_ISO_BOXES_PER_LEVEL || end - offset < 8 {
            return Err(IngestError::CorruptAudio);
        }
        let size32 = read_be32(b, offset);
        let kind = read_be32(b, offset + 4);
        let box_size: u64;
        let header_size: u64;
        if size32 == 1 {
            if end - offset < 16 {
                return Err(IngestError::CorruptAudio);
            }
            box_size = read_be64(b, offset + 8);
            header_size = 16;
        } else if size32 == 0 {
            box_size = end - offset;
            header_size = 8;
        } else {
            box_size = size32;
            header_size = 8;
        }
        if box_size < header_size || box_size > u64::MAX - offset || offset + box_size > end {
            return Err(IngestError::CorruptAudio);
        }
        let box_end = offset + box_size;
        let ghost before = boxes@;
        boxes.push(IsoBox { kind, payload_start: offset + header_size, end: box_end });
        proof {
            assert(boxes@ == before.push(
                IsoBox { kind, payload_start: (offset + header_size) as u64, end: box_end },
            ));
            assert(boxes_within(boxes@, start as int, box_end as int)) by {
                assert forall|i: int| 0 <= i < boxes@.len() implies start <= (
                #[trigger] boxes@[i]).payload_start && boxes@[i].payload_start <= boxes@[i].end
                    && boxes@[i].end <= box_end by {
                    if i < before.len() {
                        assert(boxes@[i] == before[i]);
                    }
                }
            }
        }
        offset = box_end;
    }
    Ok(boxes)
}

/// The index of the first box of a type at or after `i`.
pub open spec fn find_from(boxes: Seq<IsoBox>, kind: u64, i: int) -> Option<int>
    decreases boxes.len() - i,
{
    if i < 0 || i >= boxes.len() {
        None
    } else if boxes[i].kind == kind {
        Some(i)
    } else {
        find_from(boxes, kind, i + 1)
    }
}

/// The index of the first box of a type.
pub open spec fn find_box(boxes: Seq<IsoBox>, kind: u64) -> Option<int> {
    find_from(boxes, kind, 0)
}

/// Finds the first box of a type.
fn find_box_exec(boxes: &Vec<IsoBox>, kind: u64) -> (r: Option<usize>)
    ensures
        match find_box(boxes@, kind) {
            Some(i) => r == Some(i as usize) && 0 <= i < boxes@.len(),
            None => r is None,
        },
{
    let mut i: usize = 0;
    while i < boxes.len()
        invariant
            i <= boxes@.len(),
            find_box(boxes@, kind) == find_from(boxes@, kind, i as int),
        decreases boxes@.len() - i,
    {
        if boxes[i].kind == kind {
            return Some(i);
        }
        i = i + 1;
    }
    None
}

/// The sample entries of an `stsd` box from `offset`, with `remaining` still to read;
/// whether an AAC (`mp4a`) or ALAC (`alac`) entry was seen.
pub open spec fn stsd_entries(b: Seq<u8>, offset: int, end: int, remaining: nat, supported: bool) -> Result<
    bool,
    IngestError,
>
    decreases remaining,
{
    if remaining == 0 {
        Ok(supported)
    } else if end - offset < 8 {
        Err(IngestError::CorruptAudio)
    } else {
        let size = be32(b, offset);
        if size < 8 || offset + size > u64::MAX || offset + size > end {
            Err(IngestError::CorruptAudio)
        } else {
            let tag = be32(b, offset + 4);
            stsd_entries(
                b,
                offset + size,
                end,
                (remaining - 1) as nat,
                supported || tag == MP4A || tag == ALAC,
            )
        }
    }
}

/// Whether an `stsd` box holds a supported audio sample entry.
pub open spec fn stsd_check(b: Seq<u8>, stsd: IsoBox) -> Result<bool, IngestError> {
    let ps = stsd.payload_start as int;
    if stsd.end - stsd.payload_start < 8 {
        Err(IngestError::CorruptAudio)
    } else {
        let count = be32(b, ps + 4);
        if count == 0 || count > MAX_ISO_BOXES_PER_LEVEL {
            Err(IngestError::CorruptAudio)
        } else {
            stsd_entries(b, ps + 8, stsd.end as int, count as nat, false)
        }
    }
}

/// Checks the sample entries of an `stsd` box.
fn parse_stsd(b: &[u8], stsd: IsoBox) -> (r: Result<bool, IngestError>)
    requires
        stsd.payload_start <= stsd.end <= b@.len(),
    ensures
        r == stsd_check(b@, stsd),
{
    if stsd.end - stsd.payload_start < 8 {
        return Err(IngestError::CorruptAudio);
    }
    let count = read_be32(b, stsd.payload_start + 4);
    if count == 0 || count > MAX_ISO_BOXES_PER_LEVEL as u64 {
        return Err(IngestError::CorruptAudio);
    }
    let mut offset = stsd.payload_start + 8;
    let mut supported = false;
    let mut remaining = count;
    while remaining > 0
        invariant
            offset <= stsd.end <= b@.len(),
            stsd.payload_start <= stsd.end,
            stsd_entries(b@, offset as int, stsd.end as int, remaining as nat, supported)
                == stsd_check(b@, stsd),
        decreases remaining,
    {
        if stsd.end - offset < 8 {
            return Err(IngestError::CorruptAudio);
        }
        let size = read_be32(b, offset);
        if size < 8 || size > u64::MAX - offset || offset + size > stsd.end {
            return Err(IngestError::CorruptAudio);
        }
        let tag = read_be32(b, offset + 4);
        supported = supported || tag == MP4A || tag == ALAC;
        offset = offset + size;
        remaining = remaining - 1;
    }
    Ok(supported)
}

/// The duration in milliseconds of a media header (`mdhd`) box.
pub open spec fn mdhd_duration(b: Seq<u8>, mdhd: IsoBox) -> Result<Option<u64>, IngestError> {
    let ps = mdhd.payload_start as int;
    let size = mdhd.end - mdhd.payload_start;
    if size < 20 {
        Err(IngestError::CorruptAudio)
    } else if b[ps] != 0 && b[ps] != 1 {
        Err(IngestError::CorruptAudio)
    } else {
        let version1 = b[ps] == 1;
        let timescale_offset: int = if version1 {
            20
        } else {
            12
        };
        let duration_offset: int = if version1 {
            24
        } else {
            16
        };
        let width: int = if version1 {
            8
        } else {
            4
        };
        if duration_offset + width > size {
            Err(IngestError::CorruptAudio)
        } else {
            let timescale = be32(b, ps + timescale_offset);
            let duration = if version1 {
                be64(b, ps + duration_offset)
            } else {
                be32(b, ps + duration_offset)
            };
            if timescale == 0 {
                Err(IngestError::CorruptAudio)
            } else if duration == 0 {
                Err(IngestError::EmptyAudio)
            } else if duration * 1000 / timescale > u64::MAX {
                Err(IngestError::CorruptAudio)
            } else {
                Ok(Some((duration * 1000 / timescale) as u64))
            }
        }
    }
}

/// Reads the duration of a media header box.
fn parse_mdhd_duration(b: &[u8], mdhd: IsoBox) -> (r: Result<Option<u64>, IngestError>)
    requires
        mdhd.payload_start <= mdhd.end <= b@.len(),
    ensures
        r == mdhd_duration(b@, mdhd),
{
    let size = mdhd.end - mdhd.payload_start;
    if size < 20 {
        return Err(IngestError::CorruptAudio);
    }
    let ps = mdhd.payload_start;
    let version = b[ps as usize];
    if version != 0 && version != 1 {
        return Err(IngestError::CorruptAudio);
    }
    let (timescale_offset, duration_offset, width): (u64, u64, u64) = if version == 1 {
        (20, 24, 8)
    } else {
        (12, 16, 4)
    };
    if duration_offset + width > size {
        return Err(IngestError::CorruptAudio);
    }
    let timescale = read_be32(b, ps + timescale_offset);
    let duration = if version == 1 {
        read_be64(b, ps + duration_offset)
    } else {
        read_be32(b, ps + duration_offset)
    };
    if timescale == 0 {
        return Err(IngestError::CorruptAudio);
    }
    if duration == 0 {
        return Err(IngestError::EmptyAudio);
    }
    assert((duration as u128) * 1000 <= 0xffff_ffff_ffff_ffff_ffff_ffff_ffff_ffff) by (nonlinear_arith)
        requires
            duration <= 0xffff_ffff_ffff_ffff,
    ;
    let milliseconds: u128 = (duration as u128) * 1000 / (timescale as u128);
    if milliseconds > u64::MAX as u128 {
        return Err(IngestError::CorruptAudio);
    }
    Ok(Some(milliseconds as u64))
}

/// The codec support of the first sample table (`stbl`) at or after `i` that holds an
/// `stsd` box.
pub open spec fn stbl_scan(b: Seq<u8>, boxes: Seq<IsoBox>, i: int) -> Result<Option<bool>, IngestError>
    decreases boxes.len() - i,
{
    if i < 0 || i >= boxes.len() {
        Ok(None)
    } else if boxes[i].kind != STBL {
        stbl_scan(b, boxes, i + 1)
    } else {
        match iso_boxes(b, boxes[i].payload_start as int, boxes[i].end as int) {
            Err(e) => Err(e),
            Ok(table) => match find_box(table, STSD) {
                Some(k) => match stsd_check(b, table[k]) {
                    Ok(s) => Ok(Some(s)),
                    Err(e) => Err(e),
                },
                None => stbl_scan(b, boxes, i + 1),
            },
        }
    }
}

/// The codec support found in a media information (`minf`) box, if any.
pub open spec fn minf_codec(b: Seq<u8>, minf: IsoBox) -> Result<Option<bool>, IngestError> {
    match iso_boxes(b, minf.payload_start as int, minf.end as int) {
        Err(e) => Err(e),
        Ok(children) => stbl_scan(b, children, 0),
    }
}

/// Looks for the sample description of a media information box.
fn parse_minf_codec(b: &[u8], minf: IsoBox) -> (r: Result<Option<bool>, IngestError>)
    requires
        minf.end <= b@.len(),
    ensures
        r == minf_codec(b@, minf),
{
    let children = read_boxes(b, minf.payload_start, minf.end)?;
    let mut i: usize = 0;
    while i < children.len()
        invariant
            i <= children@.len(),
            boxes_within(children@, minf.payload_start as int, minf.end as int),
            minf.end <= b@.len(),
            minf_codec(b@, minf) == stbl_scan(b@, children@, i as int),
        decreases children@.len() - i,
    {
        let stbl = children[i];
        if stbl.kind == STBL {
            let table = read_boxes(b, stbl.payload_start, stbl.end)?;
            match find_box_exec(&table, STSD) {
                Some(k) => {
                    let found = table[k];
                    let supported = parse_stsd(b, found)?;
                    return Ok(Some(supported));
                },
                None => {},
            }
        }
        i = i + 1;
    }
    Ok(None)
}

/// What a media (`mdia`) box describes.
#[derive(Clone, Copy)]
pub enum IsoMediaTrack {
    Audio { duration_ms: Option<u64>, supported_codec: bool },
    Video,
}

/// What has been read of a media box so far: audio handler, video handler, duration and
/// codec support, each overwritten by a later box of its type.
pub struct MdiaState {
    pub is_audio: bool,
    pub is_video: bool,
    pub duration_ms: Option<u64>,
    pub supported_codec: Option<bool>,
}

/// The media box's children read from `i` on.
pub open spec fn mdia_scan(b: Seq<u8>, children: Seq<IsoBox>, i: int, st: MdiaState) -> Result<
    MdiaState,
    IngestError,
>
    decreases children.len() - i,
{
    if i < 0 || i >= children.len() {
        Ok(st)
    } else {
        let c = children[i];
        if c.kind == HDLR {
            if c.end - c.payload_start < 12 {
                Err(IngestError::CorruptAudio)
            } else {
                let handler = be32(b, c.payload_start + 8);
                mdia_scan(
                    b,
                    children,
                    i + 1,
                    MdiaState { is_audio: handler == SOUN, is_video: handler == VIDE, ..st },
                )
            }
        } else if c.kind == MDHD {
            match mdhd_duration(b, c) {
                Err(e) => Err(e),
                Ok(d) => mdia_scan(b, children, i + 1, MdiaState { duration_ms: d, ..st }),
            }
        } else if c.kind == MINF {
            match minf_codec(b, c) {
                Err(e) => Err(e),
                Ok(s) => mdia_scan(b, children, i + 1, MdiaState { supported_codec: s, ..st }),
            }
        } else {
            mdia_scan(b, children, i + 1, st)
        }
    }
}

/// The track a media box describes: audio (with duration and codec support) when its
/// handler is `soun`, video when it is `vide`, else nothing.
pub open spec fn mdia_track(b: Seq<u8>, mdia: IsoBox) -> Result<Option<IsoMediaTrack>, IngestError> {
    match iso_boxes(b, mdia.payload_start as int, mdia.end as int) {
        Err(e) => Err(e),
        Ok(children) => match mdia_scan(
            b,
            children,
            0,
            MdiaState { is_audio: false, is_video: false, duration_ms: None, supported_codec: None },
        ) {
            Err(e) => Err(e),
            Ok(st) => Ok(
                if st.is_audio {
                    Some(
                        IsoMediaTrack::Audio {
                            duration_ms: st.duration_ms,
                            supported_codec: st.supported_codec == Some(true),
                        },
                    )
                } else if st.is_video {
                    Some(IsoMediaTrack::Video)
                } else {
                    None
                },
            ),
        },
    }
}

/// Reads a media box.
fn parse_mdia(b: &[u8], mdia: IsoBox) -> (r: Result<Option<IsoMediaTrack>, IngestError>)
    requires
        mdia.end <= b@.len(),
    ensures
        r == mdia_track(b@, mdia),
{
    let children = read_boxes(b, mdia.payload_start, mdia.end)?;
    let mut is_audio = false;
    let mut is_video = false;
    let mut duration_ms: Option<u64> = None;
    let mut supported_codec: Option<bool> = None;
    let mut i: usize = 0;
    while i < children.len()
        invariant
            i <= children@.len(),
            boxes_within(children@, mdia.payload_start as int, mdia.end as int),
            mdia.end <= b@.len(),
            iso_boxes(b@, mdia.payload_start as int, mdia.end as int) == Ok::<
                Seq<IsoBox>,
                IngestError,
            >(children@),
            mdia_scan(
                b@,
                children@,
                0,
                MdiaState { is_audio: false, is_video: false, duration_ms: None, supported_codec: None },
            ) == mdia_scan(
                b@,
                children@,
                i as int,
                MdiaState { is_audio, is_video, duration_ms, supported_codec },
            ),
        decreases children@.len() - i,
    {
        let child = children[i];
        if child.kind == HDLR {
            if child.end - child.payload_start < 12 {
                return Err(IngestError::CorruptAudio);
            }
            let handler = read_be32(b, child.payload_start + 8);
            is_audio = handler == SOUN;
            is_video = handler == VIDE;
        } else if child.kind == MDHD {
            duration_ms = parse_mdhd_duration(b, child)?;
        } else if child.kind == MINF {
            supported_codec = parse_minf_codec(b, child)?;
        }
        i = i + 1;
    }
    if is_audio {
        let supported = match supported_codec {
            Some(s) => s,
            None => false,
        };
        Ok(Some(IsoMediaTrack::Audio { duration_ms, supported_codec: supported }))
    } else if is_video {
        Ok(Some(IsoMediaTrack::Video))
    } else {
        Ok(None)
    }
}

/// The track of the first media box at or after `i` that describes one.
pub open spec fn trak_scan(b: Seq<u8>, children: Seq<IsoBox>, i: int) -> Result<
    Option<IsoMediaTrack>,
    IngestError,
>
    decreases children.len() - i,
{
    if i < 0 || i >= children.len() {
        Ok(None)
    } else if children[i].kind != MDIA {
        trak_scan(b, children, i + 1)
    } else {
        match mdia_track(b, children[i]) {
            Err(e) => Err(e),
            Ok(Some(t)) => Ok(Some(t)),
            Ok(None) => trak_scan(b, children, i + 1),
        }
    }
}

/// The track that a track (`trak`) box describes, if any.
pub open spec fn trak_track(b: Seq<u8>, trak: IsoBox) -> Result<Option<IsoMediaTrack>, IngestError> {
    match iso_boxes(b, trak.payload_start as int, trak.end as int) {
        Err(e) => Err(e),
        Ok(children) => trak_scan(b, children, 0),
    }
}

/// Reads a track box.
fn parse_iso_media_track(b: &[u8], trak: IsoBox) -> (r: Result<Option<IsoMediaTrack>, IngestError>)
    requires
        trak.end <= b@.len(),
    ensures
        r == trak_track(b@, trak),
{
    let children = read_boxes(b, trak.payload_start, trak.end)?;
    let mut i: usize = 0;
    while i < children.len()
        invariant
            i <= children@.len(),
            boxes_within(children@, trak.payload_start as int, trak.end as int),
            trak.end <= b@.len(),
            trak_track(b@, trak) == trak_scan(b@, children@, i as int),
        decreases children@.len() - i,
    {
        let mdia = children[i];
        if mdia.kind == MDIA {
            match parse_mdia(b, mdia)? {
                Some(track) => {
                    return Ok(Some(track));
                },
                None => {},
            }
        }
        i = i + 1;
    }
    Ok(None)
}

/// What the track boxes of a movie hold: the durations of the supported audio tracks,
/// whether an unsupported audio track was seen, and whether a video track was seen.
pub struct MoovState {
    pub supported: Seq<Option<u64>>,
    pub unsupported_audio: bool,
    pub video: bool,
}

/// The movie box's children read from `i` on.
pub open spec fn moov_scan(b: Seq<u8>, children: Seq<IsoBox>, i: int, st: MoovState) -> Result<
    MoovState,
    IngestError,
>
    decreases children.len() - i,
{
    if i < 0 || i >= children.len() {
        Ok(st)
    } else if children[i].kind != TRAK {
        moov_scan(b, children, i + 1, st)
    } else {
        match trak_track(b, children[i]) {
            Err(e) => Err(e),
            Ok(None) => moov_scan(b, children, i + 1, st),
            Ok(Some(IsoMediaTrack::Audio { duration_ms, supported_codec })) => if supported_codec {
                moov_scan(b, children, i + 1, MoovState { supported: st.supported.push(duration_ms), ..st })
            } else {
                moov_scan(b, children, i + 1, MoovState { unsupported_audio: true, ..st })
            },
            Ok(Some(IsoMediaTrack::Video)) => moov_scan(
                b,
                children,
                i + 1,
                MoovState { video: true, ..st },
            ),
        }
    }
}

/// The outcome of the track scan: the one supported audio track's duration, or the
/// error that fits what was found instead.
pub open spec fn moov_outcome(scan: Result<MoovState, IngestError>) -> Result<Option<u64>, IngestError> {
    match scan {
        Err(e) => Err(e),
        Ok(st) => if st.supported.len() > 1 {
            Err(IngestError::UnsupportedAudioTracks)
        } else if st.supported.len() == 1 {
            Ok(st.supported[0])
        } else if st.unsupported_audio {
            Err(IngestError::UnsupportedAudio)
        } else if st.video {
            Err(IngestError::MissingAudioTrack)
        } else {
            Err(IngestError::CorruptAudio)
        },
    }
}

/// Whether some top-level `mdat` box carries media data.
pub open spec fn has_media_data(top: Seq<IsoBox>) -> bool {
    exists|i: int| 0 <= i < top.len() && (#[trigger] top[i]).kind == MDAT && top[i].end > top[i].payload_start
}

/// The check of an ISO base media file: a sound `ftyp`, some media data, a `moov` box,
/// and exactly one track with supported audio, whose duration is returned. Several
/// supported audio tracks, only unsupported audio, and only video are each refused
/// with their own error.
pub open spec fn iso_check(b: Seq<u8>) -> Result<Option<u64>, IngestError> {
    match iso_boxes(b, 0, b.len() as int) {
        Err(e) => Err(e),
        Ok(top) => match find_box(top, FTYP) {
            None => Err(IngestError::CorruptAudio),
            Some(fi) => if top[fi].end - top[fi].payload_start < 8 {
                Err(IngestError::CorruptAudio)
            } else if !has_media_data(top) {
                Err(IngestError::CorruptAudio)
            } else {
                match find_box(top, MOOV) {
                    None => Err(IngestError::CorruptAudio),
                    Some(mi) => match iso_boxes(b, top[mi].payload_start as int, top[mi].end as int) {
                        Err(e) => Err(e),
                        Ok(children) => moov_outcome(
                            moov_scan(
                                b,
                                children,
                                0,
                                MoovState {
                                    supported: Seq::empty(),
                                    unsupported_audio: false,
                                    video: false,
                                },
                            ),
                        ),
                    },
                }
            },
        },
    }
}

/// Checks an ISO base media file and returns the duration of its audio track.
pub fn validate_iso_bmff(b: &[u8]) -> (r: Result<Option<u64>, IngestError>)
    ensures
        r == iso_check(b@),
{
    let n = b.len() as u64;
    let top = read_boxes(b, 0, n)?;
    let fi = match find_box_exec(&top, FTYP) {
        Some(i) => i,
        None => {
            return Err(IngestError::CorruptAudio);
        },
    };
    if top[fi].end - top[fi].payload_start < 8 {
        return Err(IngestError::CorruptAudio);
    }
    let mut has_media = false;
    let mut k: usize = 0;
    while k < top.len()
        invariant
            k <= top@.len(),
            has_media == (exists|j: int|
                0 <= j < k && (#[trigger] top@[j]).kind == MDAT && top@[j].end > top@[j].payload_start),
        decreases top@.len() - k,
    {
        if top[k].kind == MDAT && top[k].end > top[k].payload_start {
            has_media = true;
        }
        k = k + 1;
    }
    if !has_media {
        return Err(IngestError::CorruptAudio);
    }
    let mi = match find_box_exec(&top, MOOV) {
        Some(i) => i,
        None => {
            return Err(IngestError::CorruptAudio);
        },
    };
    let moov = top[mi];
    let children = read_boxes(b, moov.payload_start, moov.end)?;
    let mut supported: Vec<Option<u64>> = Vec::new();
    let mut unsupported_audio = false;
    let mut video = false;
    let mut i: usize = 0;
    while i < children.len()
        invariant
            i <= children@.len(),
            boxes_within(children@, moov.payload_start as int, moov.end as int),
            moov.end <= b@.len(),
            iso_check(b@) == moov_outcome(
                moov_scan(
                    b@,
                    children@,
                    0,
                    MoovState { supported: Seq::empty(), unsupported_audio: false, video: false },
                ),
            ),
            moov_scan(
                b@,
                children@,
                0,
                MoovState { supported: Seq::empty(), unsupported_audio: false, video: false },
            ) == moov_scan(
                b@,
                children@,
                i as int,
                MoovState { supported: supported@, unsupported_audio, video },
            ),
        decreases children@.len() - i,
    {
        let trak = children[i];
        if trak.kind == TRAK {
            match parse_iso_media_track(b, trak)? {
                Some(IsoMediaTrack::Audio { duration_ms, supported_codec }) => {
                    if supported_codec {
                        supported.push(duration_ms);
                    } else {
                        unsupported_audio = true;
                    }
                },
                Some(IsoMediaTrack::Video) => {
                    video = true;
                },
                None => {},
            }
        }
        i = i + 1;
    }
    if supported.len() > 1 {
        return Err(IngestError::UnsupportedAudioTracks);
    }
    if supported.len() == 1 {
        return Ok(supported[0]);
    }
    if unsupported_audio {
        return Err(IngestError::UnsupportedAudio);
    }
    if video {
        return Err(IngestError::MissingAudioTrack);
    }
    Err(IngestError::CorruptAudio)
}

} // verus!
