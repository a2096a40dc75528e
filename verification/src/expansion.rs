//! Pipeline **expansion**: one parsed stage may lower to several planner stages.

use vstd::prelude::*;

use bson::Document;

use crate::bson_doc::{
    doc_get_document, doc_keys, doc_to_bytes, document_bson_encoding, document_fields, BsonValue,
};
use crate::error::ExtensionError;
use crate::stage_parse::is_bad_value;
use crate::text::{concat4, str_eq};

verus! {

/// Result of a stage's `expand`.
#[derive(Debug, Clone, PartialEq)]
pub enum Expansion {
    /// Keep this stage as a single AST node (no expansion).
    SelfStage,
    /// Replace with a linear pipeline of stages; each document is `{ stageName: innerArgs }`.
    Pipeline(Vec<Document>),
}

/// The argument document of a well-formed expanded stage document: exactly one field, named
/// `stage_name`, holding a document.
pub open spec fn blob_source(fields: Seq<(Seq<char>, BsonValue)>, stage_name: Seq<char>) -> Option<Document> {
    if fields.len() == 1 && fields[0].0 == stage_name {
        match fields[0].1 {
            BsonValue::Document(inner) => Some(inner),
            _ => None,
        }
    } else {
        None
    }
}

/// An expanded stage document of the right shape whose arguments encode.
pub open spec fn plain_stage(fields: Seq<(Seq<char>, BsonValue)>, stage_name: Seq<char>) -> bool {
    blob_source(fields, stage_name) matches Some(inner) && document_bson_encoding(inner) is Some
}

/// What one expanded stage document gives.
pub open spec fn arg_blob_outcome(
    fields: Seq<(Seq<char>, BsonValue)>,
    stage_name: Seq<char>,
    r: Result<Vec<u8>, ExtensionError>,
) -> bool {
    if fields.len() == 0 {
        r matches Err(e) && is_bad_value(e, "empty stage document"@)
    } else if fields.len() > 1 {
        r matches Err(e) && is_bad_value(e, "stage document must have exactly one field"@)
    } else if fields[0].0 != stage_name {
        r matches Err(e) && is_bad_value(
            e,
            "expanded pipeline stages must use operator "@ + stage_name + ", got "@ + fields[0].0,
        )
    } else {
        match fields[0].1 {
            BsonValue::Document(inner) => match document_bson_encoding(inner) {
                Some(b) => r matches Ok(v) && v@ == b,
                None => r matches Err(e) && e is FailedToParse,
            },
            _ => r matches Err(e) && e is BadValue,
        }
    }
}

fn stage_arg_blob(d: &Document, stage_name: &str) -> (r: Result<Vec<u8>, ExtensionError>)
    ensures
        arg_blob_outcome(document_fields(*d), stage_name@, r),
{
    let keys = doc_keys(d);
    if keys.len() == 0 {
        return Err(ExtensionError::BadValue(String::from_str("empty stage document")));
    }
    if keys.len() > 1 {
        return Err(ExtensionError::BadValue(String::from_str("stage document must have exactly one field")));
    }
    let k = keys[0].as_str();
    if !str_eq(k, stage_name) {
        return Err(ExtensionError::BadValue(
            concat4("expanded pipeline stages must use operator ", stage_name, ", got ", k),
        ));
    }
    proof {
        crate::bson_doc::lemma_key_index(document_fields(*d), k@);
    }
    let inner = match doc_get_document(d, k) {
        Ok(i) => i,
        Err(e) => return Err(ExtensionError::BadValue(e.to_string())),
    };
    match doc_to_bytes(&inner) {
        Ok(w) => Ok(w),
        Err(e) => Err(ExtensionError::FailedToParse(e.to_string())),
    }
}

impl Expansion {
    /// Validates that each stage document has exactly one key equal to `stage_name` and returns
    /// the serialized inner argument blobs, in order. An empty pipeline, or the first document
    /// that is not of that shape (or whose arguments fail to encode), gives an error; a
    /// non-empty pipeline of such documents whose arguments encode succeeds.
    pub fn pipeline_stage_arg_blobs(stage_name: &str, pipeline: &[Document]) -> (r: Result<Vec<Vec<u8>>, ExtensionError>)
        ensures
            pipeline@.len() == 0 ==> (r matches Err(e) && is_bad_value(e, "expanded pipeline must not be empty"@)),
            r matches Ok(blobs) ==> {
                &&& pipeline@.len() > 0
                &&& blobs@.len() == pipeline@.len()
                &&& forall|i: int| 0 <= i < pipeline@.len() ==> (
                    #[trigger] blob_source(document_fields(pipeline@[i]), stage_name@) matches Some(inner)
                    && document_bson_encoding(inner) == Some(blobs@[i]@))
            },
            r matches Err(e) ==> pipeline@.len() == 0 || exists|k: int| 0 <= k < pipeline@.len()
                && (forall|j: int| 0 <= j < k ==> #[trigger] blob_source(document_fields(pipeline@[j]), stage_name@) is Some)
                && arg_blob_outcome(document_fields(pipeline@[k]), stage_name@, Err(e)),
            pipeline@.len() > 0 && (forall|i: int| 0 <= i < pipeline@.len() ==> #[trigger] plain_stage(
                document_fields(pipeline@[i]),
                stage_name@,
            )) ==> r is Ok,
    {
        if pipeline.len() == 0 {
            return Err(ExtensionError::BadValue(String::from_str("expanded pipeline must not be empty")));
        }
        let mut out: Vec<Vec<u8>> = Vec::new();
        let mut i: usize = 0;
        while i < pipeline.len()
            invariant
                i <= pipeline@.len(),
                pipeline@.len() > 0,
                out@.len() == i,
                forall|j: int| 0 <= j < i ==> (
                    #[trigger] blob_source(document_fields(pipeline@[j]), stage_name@) matches Some(inner)
                    && document_bson_encoding(inner) == Some(out@[j]@)),
            decreases pipeline@.len() - i,
        {
            match stage_arg_blob(&pipeline[i], stage_name) {
                Ok(w) => {
                    out.push(w);
                },
                Err(e) => {
                    assert(forall|j: int| 0 <= j < i ==> #[trigger] blob_source(document_fields(pipeline@[j]), stage_name@) is Some);
                    proof {
                        if forall|j: int| 0 <= j < pipeline@.len() ==> #[trigger] plain_stage(
                            document_fields(pipeline@[j]),
                            stage_name@,
                        ) {
                            assert(plain_stage(document_fields(pipeline@[i as int]), stage_name@));
                        }
                    }
                    return Err(e);
                },
            }
            i = i + 1;
        }
        Ok(out)
    }
}

} // verus!
