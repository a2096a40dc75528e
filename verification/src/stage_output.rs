//! Output of a generator / source stage (`get_next`).

use vstd::prelude::*;

use bson::Document;

verus! {

/// Result of a single generator `next` call: `Advanced` fills the result document and
/// optionally the result metadata; `Eof` ends the stream.
#[derive(Debug, Clone, PartialEq)]
pub enum Next {
    /// Emit one row; optional BSON metadata (e.g. scores) goes to the result metadata.
    Advanced {
        /// Primary row document.
        document: Document,
        /// Optional per-row metadata (separate from `document`).
        metadata: Option<Document>,
    },
    /// Stage is exhausted; no document is emitted.
    Eof,
}

} // verus!
