//! Ingest errors with stable codes and localization keys that never carry paths or
//! parser details.

use vstd::prelude::*;

verus! {

/// The stable, serializable code of an ingest failure.
#[derive(Debug, Clone, Copy, PartialEq, Eq, Structural)]
pub enum IngestErrorCode {
    InvalidPolicy,
    InvalidSelection,
    BatchLimitExceeded,
    SourceNotFound,
    SourceNotFile,
    SourceUnreadable,
    SourceChangedDuringImport,
    EmptyAudio,
    FileTooLarge,
    UnsupportedExtension,
    ExtensionContentMismatch,
    CorruptAudio,
    UnsupportedAudio,
    UnsupportedAudioTracks,
    MissingAudioTrack,
    AudioStorageFailed,
    ArtifactNotFound,
}

/// An ingest failure; it never holds a path or underlying parser content.
#[derive(Debug, Clone, Copy, PartialEq, Eq, Structural)]
pub enum IngestError {
    InvalidPolicy,
    InvalidSelection,
    BatchLimitExceeded,
    SourceNotFound,
    SourceNotFile,
    SourceUnreadable,
    SourceChangedDuringImport,
    EmptyAudio,
    FileTooLarge,
    UnsupportedExtension,
    ExtensionContentMismatch,
    CorruptAudio,
    UnsupportedAudio,
    UnsupportedAudioTracks,
    MissingAudioTrack,
    AudioStorageFailed,
    ArtifactNotFound,
}

/// The code of an error.
pub open spec fn code_of(e: IngestError) -> IngestErrorCode {
    match e {
        IngestError::InvalidPolicy => IngestErrorCode::InvalidPolicy,
        IngestError::InvalidSelection => IngestErrorCode::InvalidSelection,
        IngestError::BatchLimitExceeded => IngestErrorCode::BatchLimitExceeded,
        IngestError::SourceNotFound => IngestErrorCode::SourceNotFound,
        IngestError::SourceNotFile => IngestErrorCode::SourceNotFile,
        IngestError::SourceUnreadable => IngestErrorCode::SourceUnreadable,
        IngestError::SourceChangedDuringImport => IngestErrorCode::SourceChangedDuringImport,
        IngestError::EmptyAudio => IngestErrorCode::EmptyAudio,
        IngestError::FileTooLarge => IngestErrorCode::FileTooLarge,
        IngestError::UnsupportedExtension => IngestErrorCode::UnsupportedExtension,
        IngestError::ExtensionContentMismatch => IngestErrorCode::ExtensionContentMismatch,
        IngestError::CorruptAudio => IngestErrorCode::CorruptAudio,
        IngestError::UnsupportedAudio => IngestErrorCode::UnsupportedAudio,
        IngestError::UnsupportedAudioTracks => IngestErrorCode::UnsupportedAudioTracks,
        IngestError::MissingAudioTrack => IngestErrorCode::MissingAudioTrack,
        IngestError::AudioStorageFailed => IngestErrorCode::AudioStorageFailed,
        IngestError::ArtifactNotFound => IngestErrorCode::ArtifactNotFound,
    }
}

/// The localization key of an error.
pub open spec fn message_key_of(e: IngestError) -> &'static str {
    match e {
        IngestError::InvalidPolicy => "ingest.error.invalid_policy",
        IngestError::InvalidSelection => "ingest.error.invalid_selection",
        IngestError::BatchLimitExceeded => "ingest.error.batch_limit_exceeded",
        IngestError::SourceNotFound => "ingest.error.source_not_found",
        IngestError::SourceNotFile => "ingest.error.source_not_file",
        IngestError::SourceUnreadable => "ingest.error.source_unreadable",
        IngestError::SourceChangedDuringImport => "ingest.error.source_changed",
        IngestError::EmptyAudio => "ingest.error.empty_audio",
        IngestError::FileTooLarge => "ingest.error.file_too_large",
        IngestError::UnsupportedExtension => "ingest.error.unsupported_extension",
        IngestError::ExtensionContentMismatch => "ingest.error.extension_content_mismatch",
        IngestError::CorruptAudio => "ingest.error.corrupt_audio",
        IngestError::UnsupportedAudio => "ingest.error.unsupported_audio",
        IngestError::UnsupportedAudioTracks => "ingest.error.unsupported_audio_tracks",
        IngestError::MissingAudioTrack => "ingest.error.missing_audio_track",
        IngestError::AudioStorageFailed => "ingest.error.audio_storage_failed",
        IngestError::ArtifactNotFound => "ingest.error.artifact_not_found",
    }
}

impl IngestError {
    /// The serializable code, free of sensitive context.
    pub fn code(&self) -> (r: IngestErrorCode)
        ensures
            r == code_of(*self),
    {
        match self {
            IngestError::InvalidPolicy => IngestErrorCode::InvalidPolicy,
            IngestError::InvalidSelection => IngestErrorCode::InvalidSelection,
            IngestError::BatchLimitExceeded => IngestErrorCode::BatchLimitExceeded,
            IngestError::SourceNotFound => IngestErrorCode::SourceNotFound,
            IngestError::SourceNotFile => IngestErrorCode::SourceNotFile,
            IngestError::SourceUnreadable => IngestErrorCode::SourceUnreadable,
            IngestError::SourceChangedDuringImport => IngestErrorCode::SourceChangedDuringImport,
            IngestError::EmptyAudio => IngestErrorCode::EmptyAudio,
            IngestError::FileTooLarge => IngestErrorCode::FileTooLarge,
            IngestError::UnsupportedExtension => IngestErrorCode::UnsupportedExtension,
            IngestError::ExtensionContentMismatch => IngestErrorCode::ExtensionContentMismatch,
            IngestError::CorruptAudio => IngestErrorCode::CorruptAudio,
            IngestError::UnsupportedAudio => IngestErrorCode::UnsupportedAudio,
            IngestError::UnsupportedAudioTracks => IngestErrorCode::UnsupportedAudioTracks,
            IngestError::MissingAudioTrack => IngestErrorCode::MissingAudioTrack,
            IngestError::AudioStorageFailed => IngestErrorCode::AudioStorageFailed,
            IngestError::ArtifactNotFound => IngestErrorCode::ArtifactNotFound,
        }
    }

    /// The localization key of the safe message; no file name, path or parser detail.
    pub fn safe_message_key(&self) -> (r: &'static str)
        ensures
            r == message_key_of(*self),
    {
        match self {
            IngestError::InvalidPolicy => "ingest.error.invalid_policy",
            IngestError::InvalidSelection => "ingest.error.invalid_selection",
            IngestError::BatchLimitExceeded => "ingest.error.batch_limit_exceeded",
            IngestError::SourceNotFound => "ingest.error.source_not_found",
            IngestError::SourceNotFile => "ingest.error.source_not_file",
            IngestError::SourceUnreadable => "ingest.error.source_unreadable",
            IngestError::SourceChangedDuringImport => "ingest.error.source_changed",
            IngestError::EmptyAudio => "ingest.error.empty_audio",
            IngestError::FileTooLarge => "ingest.error.file_too_large",
            IngestError::UnsupportedExtension => "ingest.error.unsupported_extension",
            IngestError::ExtensionContentMismatch => "ingest.error.extension_content_mismatch",
            IngestError::CorruptAudio => "ingest.error.corrupt_audio",
            IngestError::UnsupportedAudio => "ingest.error.unsupported_audio",
            IngestError::UnsupportedAudioTracks => "ingest.error.unsupported_audio_tracks",
            IngestError::MissingAudioTrack => "ingest.error.missing_audio_track",
            IngestError::AudioStorageFailed => "ingest.error.audio_storage_failed",
            IngestError::ArtifactNotFound => "ingest.error.artifact_not_found",
        }
    }
}

} // verus!
