//! The closed set of failures that font resolution can report.

use vstd::prelude::*;
use vstd::string::StringExecFns;

verus! {

/// Why no font could be installed. All variants are terminal: the resolver
/// never retries and never panics.
#[derive(Debug, PartialEq, Eq)]
pub enum FontError {
    /// No candidate path on this platform yielded a readable file; the
    /// detail names the platform.
    NotFound(String),
    /// A selected font file could not be read; the detail describes the
    /// cause. Kept distinct for callers with a stricter policy, though the
    /// skip-on-failure scan never produces it.
    ReadError(String),
    /// The current operating system is outside the recognized set.
    UnsupportedPlatform,
}

/// The mathematical shape of a `FontError`: the same three variants over
/// character sequences.
pub enum FontErrorModel {
    NotFound { detail: Seq<char> },
    ReadError { detail: Seq<char> },
    UnsupportedPlatform,
}

impl View for FontError {
    type V = FontErrorModel;

    open spec fn view(&self) -> FontErrorModel {
        match self {
            FontError::NotFound(detail) => (FontErrorModel::NotFound { detail: detail@ }),
            FontError::ReadError(detail) => (FontErrorModel::ReadError { detail: detail@ }),
            FontError::UnsupportedPlatform => FontErrorModel::UnsupportedPlatform,
        }
    }
}

/// The text `describe` produces for an error of shape `e`.
pub open spec fn description_of(e: FontErrorModel) -> Seq<char> {
    match e {
        FontErrorModel::NotFound { detail } => "Font file not found: "@ + detail,
        FontErrorModel::ReadError { detail } => "Failed to read font file: "@ + detail,
        FontErrorModel::UnsupportedPlatform => "Platform not supported"@,
    }
}

impl FontError {
    /// A human-readable description of the failure.
    pub fn describe(&self) -> (r: String)
        ensures
            r@ == description_of(self@),
    {
        match self {
            FontError::NotFound(detail) => {
                "Font file not found: ".to_owned().concat(detail.as_str())
            }
            FontError::ReadError(detail) => {
                "Failed to read font file: ".to_owned().concat(detail.as_str())
            }
            FontError::UnsupportedPlatform => "Platform not supported".to_owned(),
        }
    }
}

} // verus!
