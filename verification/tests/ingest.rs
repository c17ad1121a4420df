use meeting_desk::ingest::batch::{content_digest, find_duplicate, ArtifactKey};
use meeting_desk::ingest::error::{IngestError, IngestErrorCode};
use meeting_desk::ingest::format::{
    detect_format, expected_format, inspect_audio, inspect_mp3_duration, validate_wav,
    AudioFormat, DetectedContainer,
};
use meeting_desk::ingest::iso::validate_iso_bmff;
use meeting_desk::ingest::policy::IngestPolicy;

fn valid_wav() -> Vec<u8> {
    let pcm = vec![0u8; 3_200];
    let riff_size = 36u32 + pcm.len() as u32;
    let mut bytes = Vec::with_capacity(44 + pcm.len());
    bytes.extend_from_slice(b"RIFF");
    bytes.extend_from_slice(&riff_size.to_le_bytes());
    bytes.extend_from_slice(b"WAVE");
    bytes.extend_from_slice(b"fmt ");
    bytes.extend_from_slice(&16u32.to_le_bytes());
    bytes.extend_from_slice(&1u16.to_le_bytes());
    bytes.extend_from_slice(&1u16.to_le_bytes());
    bytes.extend_from_slice(&16_000u32.to_le_bytes());
    bytes.extend_from_slice(&32_000u32.to_le_bytes());
    bytes.extend_from_slice(&2u16.to_le_bytes());
    bytes.extend_from_slice(&16u16.to_le_bytes());
    bytes.extend_from_slice(b"data");
    bytes.extend_from_slice(&(pcm.len() as u32).to_le_bytes());
    bytes.extend_from_slice(&pcm);
    bytes
}

fn valid_mp3() -> Vec<u8> {
    const FRAME_LENGTH: usize = 417;
    const HEADER: [u8; 4] = [0xff, 0xfb, 0x90, 0x64];
    let mut bytes = vec![0u8; FRAME_LENGTH * 2];
    bytes[0..4].copy_from_slice(&HEADER);
    bytes[FRAME_LENGTH..FRAME_LENGTH + 4].copy_from_slice(&HEADER);
    bytes
}

fn iso_box(kind: &[u8; 4], payload: &[u8]) -> Vec<u8> {
    let size = u32::try_from(8usize + payload.len()).expect("test box must fit in u32");
    let mut bytes = Vec::with_capacity(size as usize);
    bytes.extend_from_slice(&size.to_be_bytes());
    bytes.extend_from_slice(kind);
    bytes.extend_from_slice(payload);
    bytes
}

fn track(handler: &[u8; 4], sample_entry: &[u8; 4]) -> Vec<u8> {
    let mut mdhd_payload = vec![0u8; 12];
    mdhd_payload.extend_from_slice(&16_000u32.to_be_bytes());
    mdhd_payload.extend_from_slice(&32_000u32.to_be_bytes());
    mdhd_payload.extend_from_slice(&0u32.to_be_bytes());

    let mut hdlr_payload = vec![0u8; 8];
    hdlr_payload.extend_from_slice(handler);
    hdlr_payload.extend_from_slice(&[0u8; 12]);

    let entry = iso_box(sample_entry, &[]);
    let mut stsd_payload = vec![0u8; 4];
    stsd_payload.extend_from_slice(&1u32.to_be_bytes());
    stsd_payload.extend_from_slice(&entry);

    let stsd = iso_box(b"stsd", &stsd_payload);
    let stbl = iso_box(b"stbl", &stsd);
    let minf = iso_box(b"minf", &stbl);
    let mut mdia_payload = Vec::new();
    mdia_payload.extend_from_slice(&iso_box(b"mdhd", &mdhd_payload));
    mdia_payload.extend_from_slice(&iso_box(b"hdlr", &hdlr_payload));
    mdia_payload.extend_from_slice(&minf);
    let mdia = iso_box(b"mdia", &mdia_payload);
    iso_box(b"trak", &mdia)
}

fn iso_file(tracks: &[Vec<u8>]) -> Vec<u8> {
    let mut ftyp_payload = Vec::new();
    ftyp_payload.extend_from_slice(b"M4A ");
    ftyp_payload.extend_from_slice(&0u32.to_be_bytes());
    ftyp_payload.extend_from_slice(b"isom");
    let moov = iso_box(b"moov", &tracks.concat());
    let mut bytes = Vec::new();
    bytes.extend_from_slice(&iso_box(b"ftyp", &ftyp_payload));
    bytes.extend_from_slice(&iso_box(b"mdat", &[1, 2, 3, 4]));
    bytes.extend_from_slice(&moov);
    bytes
}

fn valid_m4a() -> Vec<u8> {
    iso_file(&[track(b"soun", b"mp4a")])
}

#[test]
fn imports_valid_wav_without_modifying_source() {
    let source_bytes = valid_wav();
    let inspection = inspect_audio(&source_bytes, AudioFormat::Wav).expect("valid wav");
    assert_eq!(inspection.format.mime_type(), "audio/wav");
    assert_eq!(inspection.duration_ms, Some(100));
    assert_eq!(source_bytes, valid_wav());
}

#[test]
fn imports_valid_mp3_fixture() {
    let format = expected_format(Some("MP3")).expect("mp3 extension");
    let inspection = inspect_audio(&valid_mp3(), format).expect("valid mp3");
    assert_eq!(inspection.format.mime_type(), "audio/mpeg");
    assert_eq!(inspection.duration_ms, None);
}

#[test]
fn mp3_frames_give_playing_time() {
    assert_eq!(inspect_mp3_duration(&valid_mp3()), Ok(52));
}

#[test]
fn imports_valid_m4a_fixture() {
    let format = expected_format(Some("m4a")).expect("m4a extension");
    let inspection = inspect_audio(&valid_m4a(), format).expect("valid m4a");
    assert_eq!(inspection.format.mime_type(), "audio/mp4");
    assert_eq!(inspection.duration_ms, Some(2_000));
}

#[test]
fn rejects_empty_audio_and_cleans_part_file() {
    assert_eq!(inspect_audio(&[], AudioFormat::Wav), Err(IngestError::EmptyAudio));
    assert_eq!(IngestError::EmptyAudio.code(), IngestErrorCode::EmptyAudio);
}

#[test]
fn rejects_corrupt_audio() {
    assert_eq!(
        inspect_audio(b"not an mp3 stream", AudioFormat::Mp3),
        Err(IngestError::CorruptAudio)
    );
    assert_eq!(
        inspect_audio(b"broken", AudioFormat::M4a),
        Err(IngestError::CorruptAudio)
    );
}

#[test]
fn rejects_extension_content_mismatch() {
    assert_eq!(
        inspect_audio(&valid_wav(), AudioFormat::Mp3),
        Err(IngestError::ExtensionContentMismatch)
    );
}

#[test]
fn detects_containers_from_content() {
    assert_eq!(detect_format(&valid_wav()), Ok(DetectedContainer::Wav));
    assert_eq!(detect_format(&valid_mp3()), Ok(DetectedContainer::Mp3));
    assert_eq!(detect_format(&valid_m4a()), Ok(DetectedContainer::IsoBmff));
}

#[test]
fn wav_with_truncated_riff_is_corrupt() {
    let mut bytes = valid_wav();
    bytes.truncate(40);
    assert_eq!(validate_wav(&bytes), Err(IngestError::CorruptAudio));
}

#[test]
fn iso_with_two_audio_tracks_is_refused() {
    let bytes = iso_file(&[track(b"soun", b"mp4a"), track(b"soun", b"alac")]);
    assert_eq!(validate_iso_bmff(&bytes), Err(IngestError::UnsupportedAudioTracks));
}

#[test]
fn iso_with_unsupported_codec_is_refused() {
    let bytes = iso_file(&[track(b"soun", b"opus")]);
    assert_eq!(validate_iso_bmff(&bytes), Err(IngestError::UnsupportedAudio));
}

#[test]
fn video_without_audio_track_is_refused() {
    let bytes = iso_file(&[track(b"vide", b"avc1")]);
    assert_eq!(validate_iso_bmff(&bytes), Err(IngestError::MissingAudioTrack));
}

#[test]
fn video_with_audio_track_gives_audio_duration() {
    let bytes = iso_file(&[track(b"vide", b"avc1"), track(b"soun", b"mp4a")]);
    assert_eq!(validate_iso_bmff(&bytes), Ok(Some(2_000)));
}

#[test]
fn policy_requires_consistent_limits() {
    assert!(IngestPolicy::new(100, 2, 10_000).is_ok());
    assert_eq!(IngestPolicy::new(0, 2, 10_000), Err(IngestError::InvalidPolicy));
    assert_eq!(IngestPolicy::new(200, 2, 100), Err(IngestError::InvalidPolicy));
}

#[test]
fn unsupported_extension_is_refused() {
    assert_eq!(expected_format(Some("ogg")), Err(IngestError::UnsupportedExtension));
    assert_eq!(expected_format(None), Err(IngestError::UnsupportedExtension));
    assert_eq!(expected_format(Some("MoV")), Ok(AudioFormat::Mov));
}

#[test]
fn identical_recordings_share_digest_and_length() {
    let digest = content_digest(b"abc");
    assert_eq!(digest, "ba7816bf8f01cfea414140de5dae2223b00361a396177a9cb410ff61f20015ad");
    let known = vec![
        ArtifactKey { sha256: content_digest(b"other"), byte_length: 5 },
        ArtifactKey { sha256: digest.clone(), byte_length: 3 },
    ];
    assert_eq!(find_duplicate(&known, &digest, 3), Some(1));
    assert_eq!(find_duplicate(&known, &digest, 4), None);
    assert_eq!(find_duplicate(&known, &content_digest(b"abd"), 3), None);
}
