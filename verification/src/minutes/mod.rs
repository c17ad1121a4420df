//! Meeting minutes: the model, templates, validation, and Markdown rendering.

pub mod model;
pub mod error;
pub mod transcript;
pub mod templates;
pub mod markdown;
pub mod normalize;
pub mod dates;
pub mod evidence;
pub mod semantics;
pub mod validate;
pub mod parse;
pub mod prompt;
