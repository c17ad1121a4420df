//! Safe minutes errors that never carry transcript or model text.

use vstd::prelude::*;

verus! {

/// A failure while building, parsing or validating minutes; safe to show.
#[derive(Debug, Clone, Copy, PartialEq, Eq)]
pub enum MinutesError {
    EmptyTranscript,
    InvalidTranscript { code: &'static str },
    UnknownTemplate,
    TemplateVersionMismatch,
    InvalidConfidenceThreshold,
    ModelOutputTooLarge,
    InvalidModelOutput,
    SchemaVersionMismatch,
    SchemaViolation { code: &'static str, path: &'static str },
    SemanticViolation { code: &'static str, path: &'static str },
    PromptSerialization,
    InvalidEmbeddedSchema,
}

/// The stable machine code of an error.
pub open spec fn error_code(e: MinutesError) -> &'static str {
    match e {
        MinutesError::EmptyTranscript => "empty_transcript",
        MinutesError::InvalidTranscript { code } => code,
        MinutesError::UnknownTemplate => "unknown_minutes_template",
        MinutesError::TemplateVersionMismatch => "template_version_mismatch",
        MinutesError::InvalidConfidenceThreshold => "invalid_confidence_threshold",
        MinutesError::ModelOutputTooLarge => "model_output_too_large",
        MinutesError::InvalidModelOutput => "invalid_model_output",
        MinutesError::SchemaVersionMismatch => "schema_version_mismatch",
        MinutesError::SchemaViolation { code, .. } => code,
        MinutesError::SemanticViolation { code, .. } => code,
        MinutesError::PromptSerialization => "prompt_serialization_failed",
        MinutesError::InvalidEmbeddedSchema => "invalid_embedded_schema",
    }
}

/// The JSON Pointer of an error, or the root path when no field applies.
pub open spec fn error_path(e: MinutesError) -> &'static str {
    match e {
        MinutesError::SchemaViolation { path, .. } => path,
        MinutesError::SemanticViolation { path, .. } => path,
        _ => "/",
    }
}

/// The user-facing message of an error.
pub open spec fn error_message(e: MinutesError) -> &'static str {
    match e {
        MinutesError::EmptyTranscript => "转写文本为空，无法生成会议纪要",
        MinutesError::InvalidTranscript { .. } => "转写结构无效",
        MinutesError::UnknownTemplate => "会议纪要模板不存在",
        MinutesError::TemplateVersionMismatch => "会议纪要模板版本不受支持",
        MinutesError::InvalidConfidenceThreshold => "低置信度阈值无效",
        MinutesError::ModelOutputTooLarge => "模型输出超过安全大小限制",
        MinutesError::InvalidModelOutput => "模型没有返回可接受的单一 JSON 对象",
        MinutesError::SchemaVersionMismatch => "会议纪要 Schema 版本不匹配",
        MinutesError::SchemaViolation { .. } => "会议纪要结构校验失败",
        MinutesError::SemanticViolation { .. } => "会议纪要来源或语义校验失败",
        MinutesError::PromptSerialization => "无法构造安全的会议纪要 Prompt",
        MinutesError::InvalidEmbeddedSchema => "内置会议纪要 Schema 无效",
    }
}

impl MinutesError {
    /// The stable machine code, free of transcript or model text.
    pub fn code(&self) -> (r: &'static str)
        ensures
            r == error_code(*self),
    {
        match self {
            MinutesError::EmptyTranscript => "empty_transcript",
            MinutesError::InvalidTranscript { code } => code,
            MinutesError::UnknownTemplate => "unknown_minutes_template",
            MinutesError::TemplateVersionMismatch => "template_version_mismatch",
            MinutesError::InvalidConfidenceThreshold => "invalid_confidence_threshold",
            MinutesError::ModelOutputTooLarge => "model_output_too_large",
            MinutesError::InvalidModelOutput => "invalid_model_output",
            MinutesError::SchemaVersionMismatch => "schema_version_mismatch",
            MinutesError::SchemaViolation { code, .. } => code,
            MinutesError::SemanticViolation { code, .. } => code,
            MinutesError::PromptSerialization => "prompt_serialization_failed",
            MinutesError::InvalidEmbeddedSchema => "invalid_embedded_schema",
        }
    }

    /// The safe JSON Pointer; the root path when the error concerns no field.
    pub fn path(&self) -> (r: &'static str)
        ensures
            r == error_path(*self),
    {
        match self {
            MinutesError::SchemaViolation { path, .. } => path,
            MinutesError::SemanticViolation { path, .. } => path,
            _ => "/",
        }
    }

    /// The user-facing message of this error.
    pub fn message(&self) -> (r: &'static str)
        ensures
            r == error_message(*self),
    {
        match self {
            MinutesError::EmptyTranscript => "转写文本为空，无法生成会议纪要",
            MinutesError::InvalidTranscript { .. } => "转写结构无效",
            MinutesError::UnknownTemplate => "会议纪要模板不存在",
            MinutesError::TemplateVersionMismatch => "会议纪要模板版本不受支持",
            MinutesError::InvalidConfidenceThreshold => "低置信度阈值无效",
            MinutesError::ModelOutputTooLarge => "模型输出超过安全大小限制",
            MinutesError::InvalidModelOutput => "模型没有返回可接受的单一 JSON 对象",
            MinutesError::SchemaVersionMismatch => "会议纪要 Schema 版本不匹配",
            MinutesError::SchemaViolation { .. } => "会议纪要结构校验失败",
            MinutesError::SemanticViolation { .. } => "会议纪要来源或语义校验失败",
            MinutesError::PromptSerialization => "无法构造安全的会议纪要 Prompt",
            MinutesError::InvalidEmbeddedSchema => "内置会议纪要 Schema 无效",
        }
    }
}

/// A structural error that names only a code and a path.
pub open spec fn schema_violation(code: &'static str, path: &'static str) -> MinutesError {
    MinutesError::SchemaViolation { code, path }
}

/// A semantic error that names only a code and a path.
pub open spec fn semantic_violation(code: &'static str, path: &'static str) -> MinutesError {
    MinutesError::SemanticViolation { code, path }
}

} // verus!
