//! Error taxonomy shared by every backend.

use vstd::prelude::*;

verus! {

/// Everything that a document operation can report to its caller.
///
/// Recoverable, backend-local conditions (a single bad page during
/// thumbnail generation) are absorbed where they occur and never surface
/// through this type.
#[derive(Clone, Copy, PartialEq, Eq, Structural, Debug)]
pub enum DocError {
    /// The bytes could not be decoded as any recognized raster format.
    DecodeFailed,
    /// A paginated document with zero pages was opened.
    EmptyDocument,
    /// A page index at or beyond the page count was requested.
    PageOutOfRange,
    /// A crop rectangle that violates the bounds contract was requested.
    CropOutOfBounds,
    /// A transient rendering failure; the prior displayed state is kept.
    RenderFailed,
    /// The operation is not meaningful for the backend it reached.
    Unsupported,
}

impl DocError {
    /// A short human-readable label for the error.
    pub fn message(&self) -> (s: &'static str)
        ensures
            self is DecodeFailed ==> s@ == "could not decode image data"@,
            self is EmptyDocument ==> s@ == "document has no pages"@,
            self is PageOutOfRange ==> s@ == "page index out of range"@,
            self is CropOutOfBounds ==> s@ == "crop rectangle out of bounds"@,
            self is RenderFailed ==> s@ == "rendering failed"@,
            self is Unsupported ==> s@ == "operation not supported by this document kind"@,
    {
        match self {
            DocError::DecodeFailed => "could not decode image data",
            DocError::EmptyDocument => "document has no pages",
            DocError::PageOutOfRange => "page index out of range",
            DocError::CropOutOfBounds => "crop rectangle out of bounds",
            DocError::RenderFailed => "rendering failed",
            DocError::Unsupported => "operation not supported by this document kind",
        }
    }
}

} // verus!
