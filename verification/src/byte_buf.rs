//! Extension-owned byte buffers handed to the host.

use vstd::prelude::*;

use bson::Document;

use crate::bson_doc::{bson_decode, doc_to_bytes, document_bson_encoding, encodable_document, round_trip_document};
use crate::status::{new_error_status, MongoExtensionStatus};
use crate::sys::MONGO_EXTENSION_STATUS_RUNTIME_ERROR;

verus! {

/// An owned byte buffer whose view the host reads before destroying it.
#[derive(Debug, Clone, PartialEq, Eq)]
pub struct OwnedByteBuf {
    /// Owned BSON or other payload.
    pub data: Vec<u8>,
}

impl OwnedByteBuf {
    /// The bytes the buffer exposes to the host.
    pub fn get_view(&self) -> (v: &[u8])
        ensures
            v@ == self.data@,
    {
        self.data.as_slice()
    }
}

/// Builds a buffer that owns `bytes`; its view is exactly `bytes`.
pub fn into_raw_byte_buf(bytes: Vec<u8>) -> (b: OwnedByteBuf)
    ensures
        b.data@ == bytes@,
{
    OwnedByteBuf { data: bytes }
}

/// Convenience: BSON document to a byte buffer for the host. The buffer holds the document's
/// BSON encoding, and exists exactly when the document encodes (every document that
/// [`encodable_document`] admits does); encoding errors are passed on. For a document that
/// [`round_trip_document`] admits, the buffer decodes back to the document.
pub fn from_bson(doc: &Document) -> (r: Result<OwnedByteBuf, bson::ser::Error>)
    ensures
        r is Ok <==> document_bson_encoding(*doc) is Some,
        r matches Ok(b) ==> document_bson_encoding(*doc) == Some(b.data@),
        forall|n: nat| #[trigger] encodable_document(*doc, n) ==> r is Ok,
        r matches Ok(b) ==> forall|n: nat| #[trigger] round_trip_document(*doc, n) ==> bson_decode(b.data@) == Some(*doc),
{
    match doc_to_bytes(doc) {
        Ok(v) => Ok(into_raw_byte_buf(v)),
        Err(e) => Err(e),
    }
}

/// Like [`from_bson`], with an encoding error turned into an error status (code `-1`, reason
/// the encoder's message).
pub fn from_bson_status(doc: &Document) -> (r: Result<OwnedByteBuf, MongoExtensionStatus>)
    ensures
        r is Ok <==> document_bson_encoding(*doc) is Some,
        r matches Ok(b) ==> document_bson_encoding(*doc) == Some(b.data@),
        r matches Err(s) ==> s is Error && s.spec_code() == MONGO_EXTENSION_STATUS_RUNTIME_ERROR,
        forall|n: nat| #[trigger] encodable_document(*doc, n) ==> r is Ok,
        r matches Ok(b) ==> forall|n: nat| #[trigger] round_trip_document(*doc, n) ==> bson_decode(b.data@) == Some(*doc),
{
    match from_bson(doc) {
        Ok(p) => Ok(p),
        Err(e) => Err(new_error_status(MONGO_EXTENSION_STATUS_RUNTIME_ERROR, e.to_string().as_str())),
    }
}

} // verus!
