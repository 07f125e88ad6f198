//! The ways a run can fail inside the library: every failure of the cover
//! locator or of the image pipeline is one of these, surfaced to the caller
//! as a single terminal error.

use vstd::prelude::*;

verus! {

/// Why no thumbnail could be produced.
#[derive(Clone, Copy, Debug, PartialEq, Eq, Structural)]
pub enum CoverError {
    /// No entry matched the cover rule: neither an exact `cover.*` name nor
    /// any image-suffixed entry exists in the archive.
    CoverAbsent,
    /// The selected entry's bytes match no known image signature.
    UnknownFormat,
    /// The format was sniffed but is neither JPEG nor PNG; the allow-list
    /// rejects it even when the bytes decode.
    UnsupportedFormat,
    /// The bytes carry a known signature but cannot be fully decoded.
    DecodeFailed,
}

impl CoverError {
    /// The human-readable message the command-line surface prints.
    pub fn message(&self) -> (r: &'static str)
        ensures
            *self == CoverError::CoverAbsent ==> r@ == "cover is not found"@,
            *self == CoverError::UnknownFormat ==> r@ == "unknown format"@,
            *self == CoverError::UnsupportedFormat ==> r@ == "unsupported format"@,
            *self == CoverError::DecodeFailed ==> r@ == "cannot decode cover image"@,
    {
        match self {
            CoverError::CoverAbsent => "cover is not found",
            CoverError::UnknownFormat => "unknown format",
            CoverError::UnsupportedFormat => "unsupported format",
            CoverError::DecodeFailed => "cannot decode cover image",
        }
    }
}

} // verus!
