//! Stage definitions: `{ <stage name>: <arguments> }` documents.
//!
//! Parsing checks the first key against the stage name and keeps the BSON encoding of the
//! argument document; the query shape, log form and serialized form of a stage wrap those
//! argument bytes back under the stage name.

use vstd::prelude::*;

use bson::Document;

use crate::bson_doc::{
    bson_decode, doc_from_bytes, doc_get_document, doc_insert_document, doc_is_empty, doc_keys, doc_new,
    doc_to_bytes, document_bson_encoding, document_fields, encodable_document, ext_json_marker, no_nul,
    round_trip_document, BsonValue,
};
use crate::error::ExtensionError;
use crate::text::{concat2, concat4, str_eq};

verus! {

/// True iff `e` is `BadValue(msg)`.
pub open spec fn is_bad_value(e: ExtensionError, msg: Seq<char>) -> bool {
    e matches ExtensionError::BadValue(s) && s@ == msg
}

/// True iff `e` is `FailedToParse(msg)`.
pub open spec fn is_failed_to_parse(e: ExtensionError, msg: Seq<char>) -> bool {
    e matches ExtensionError::FailedToParse(s) && s@ == msg
}

/// What stage-definition parsing makes of a decoded stage document with `fields`.
pub open spec fn stage_args_outcome(
    fields: Seq<(Seq<char>, BsonValue)>,
    name: Seq<char>,
    expect_empty: bool,
    r: Result<Vec<u8>, ExtensionError>,
) -> bool {
    if fields.len() == 0 {
        r matches Err(e) && is_bad_value(e, "stage document must have one field"@)
    } else if fields[0].0 != name {
        r matches Err(e) && is_bad_value(e, "expected stage "@ + name + ", got "@ + fields[0].0)
    } else {
        match fields[0].1 {
            BsonValue::Document(args) => {
                if expect_empty && document_fields(args).len() != 0 {
                    r matches Err(e) && is_bad_value(e, "stage definition must be an empty object"@)
                } else {
                    &&& match document_bson_encoding(args) {
                        Some(b) => r matches Ok(v) && v@ == b,
                        None => r matches Err(e) && e is FailedToParse,
                    }
                    &&& forall|n: nat| #[trigger] round_trip_document(args, n) ==> (r matches Ok(v) && bson_decode(
                        v@,
                    ) == Some(args))
                }
            },
            _ => r matches Err(e) && e is BadValue,
        }
    }
}

/// A stage document whose first key is the stage name and holds an argument document is
/// accepted exactly with that document's BSON encoding, unless the stage wants empty arguments
/// and they are not: arguments are rejected for their content only then, or when they do not
/// encode.
pub proof fn lemma_stage_args_accepted(
    fields: Seq<(Seq<char>, BsonValue)>,
    name: Seq<char>,
    expect_empty: bool,
    args: Document,
    r: Result<Vec<u8>, ExtensionError>,
)
    requires
        fields.len() > 0,
        fields[0].0 == name,
        fields[0].1 == BsonValue::Document(args),
        stage_args_outcome(fields, name, expect_empty, r),
    ensures
        !(expect_empty && document_fields(args).len() > 0) ==> match document_bson_encoding(args) {
            Some(b) => r matches Ok(v) && v@ == b,
            None => r matches Err(e) && e is FailedToParse,
        },
        r matches Err(e) && e is BadValue ==> expect_empty && document_fields(args).len() > 0,
        !expect_empty && document_bson_encoding(args) is Some ==> r is Ok,
{
}

/// The argument bytes of a decoded stage document: its first key must be `name` and hold a
/// document (empty when `expect_empty`); the result is that document's BSON encoding.
pub fn stage_args_from_document(doc: &Document, name: &str, expect_empty: bool) -> (r: Result<Vec<u8>, ExtensionError>)
    ensures
        stage_args_outcome(document_fields(*doc), name@, expect_empty, r),
{
    let keys = doc_keys(doc);
    if keys.len() == 0 {
        return Err(ExtensionError::BadValue(String::from_str("stage document must have one field")));
    }
    let key = keys[0].as_str();
    if !str_eq(key, name) {
        return Err(ExtensionError::BadValue(concat4("expected stage ", name, ", got ", key)));
    }
    proof {
        crate::bson_doc::lemma_key_index(document_fields(*doc), key@);
    }
    let args = match doc_get_document(doc, key) {
        Ok(a) => a,
        Err(e) => return Err(ExtensionError::BadValue(e.to_string())),
    };
    if expect_empty && !doc_is_empty(&args) {
        return Err(ExtensionError::BadValue(String::from_str("stage definition must be an empty object")));
    }
    match doc_to_bytes(&args) {
        Ok(b) => Ok(b),
        Err(e) => Err(ExtensionError::FailedToParse(e.to_string())),
    }
}

/// Parses a stage definition from its BSON bytes: bytes that do not decode give
/// `FailedToParse("parse bson: ...")`; a decoded document is handled as by
/// [`stage_args_from_document`].
pub fn parse_stage_definition(stage_bson: &[u8], name: &str, expect_empty: bool) -> (r: Result<Vec<u8>, ExtensionError>)
    ensures
        match bson_decode(stage_bson@) {
            None => r matches Err(ExtensionError::FailedToParse(m)) && m@.len() >= 12 && m@.take(12)
                == "parse bson: "@,
            Some(d) => stage_args_outcome(document_fields(d), name@, expect_empty, r),
        },
{
    match doc_from_bytes(stage_bson) {
        Err(e) => {
            let m = concat2("parse bson: ", e.to_string().as_str());
            proof {
                reveal_strlit("parse bson: ");
                assert(m@.take(12) =~= "parse bson: "@);
            }
            Err(ExtensionError::FailedToParse(m))
        },
        Ok(doc) => stage_args_from_document(&doc, name, expect_empty),
    }
}

/// The argument document a generator stage opens with, decoded from the stored argument bytes:
/// bytes that do not decode give `FailedToParse` with the decoder's message.
pub fn stage_args_document(args_bytes: &[u8]) -> (r: Result<Document, ExtensionError>)
    ensures
        match bson_decode(args_bytes@) {
            Some(d) => r == Ok::<Document, ExtensionError>(d),
            None => r matches Err(e) && e is FailedToParse,
        },
{
    match doc_from_bytes(args_bytes) {
        Ok(d) => Ok(d),
        Err(e) => Err(ExtensionError::FailedToParse(e.to_string())),
    }
}

/// True iff `outer` is the document whose only field is `name` holding `args`.
pub open spec fn is_named_stage(outer: Document, name: Seq<char>, args: Document) -> bool {
    document_fields(outer) == seq![(name, BsonValue::Document(args))]
}

/// The BSON of `{ name: <arguments> }` from stored argument bytes (query shape, log form and
/// serialized form of a stage). Argument bytes that do not decode give `FailedToParse` with
/// `decode_failure` when given, else with the decoder's message; an encoding failure gives
/// `FailedToParse` with the encoder's message. A name free of NUL with arguments that
/// [`encodable_document`] admits always encodes; when the name is no extended-JSON marker and
/// [`round_trip_document`] admits the arguments, the bytes decode to `{ name: <arguments> }`.
pub fn named_stage_bytes(name: &str, args_bytes: &[u8], decode_failure: Option<&str>) -> (r: Result<Vec<u8>, ExtensionError>)
    ensures
        match bson_decode(args_bytes@) {
            None => r matches Err(e) && e is FailedToParse && match decode_failure {
                Some(m) => is_failed_to_parse(e, m@),
                None => true,
            },
            Some(args) => {
                &&& r matches Ok(b) ==> exists|outer: Document| #[trigger] is_named_stage(outer, name@, args)
                    && document_bson_encoding(outer) == Some(b@)
                &&& r matches Err(e) ==> e is FailedToParse && exists|outer: Document| #[trigger] is_named_stage(
                    outer,
                    name@,
                    args,
                ) && document_bson_encoding(outer) is None
                &&& no_nul(name@) && (exists|n: nat| #[trigger] encodable_document(args, n)) ==> r is Ok
                &&& no_nul(name@) && !ext_json_marker(name@) && (exists|n: nat| #[trigger] round_trip_document(args, n))
                    ==> (r matches Ok(b) && (bson_decode(b@) matches Some(q) && is_named_stage(q, name@, args)))
            },
        },
{
    let args = match doc_from_bytes(args_bytes) {
        Ok(a) => a,
        Err(e) => {
            let m = match decode_failure {
                Some(m) => String::from_str(m),
                None => e.to_string(),
            };
            return Err(ExtensionError::FailedToParse(m));
        },
    };
    let ghost args_model = args;
    let mut d = doc_new();
    doc_insert_document(&mut d, name, args);
    proof {
        assert(document_fields(d) =~= seq![(name@, BsonValue::Document(args_model))]);
    }
    match doc_to_bytes(&d) {
        Ok(b) => {
            proof {
                assert(is_named_stage(d, name@, args_model));
                if no_nul(name@) && !ext_json_marker(name@) && exists|n: nat| #[trigger] round_trip_document(args_model, n) {
                    let n = choose|n: nat| #[trigger] round_trip_document(args_model, n);
                    assert(round_trip_document(d, n + 1));
                }
            }
            Ok(b)
        },
        Err(e) => {
            proof {
                if no_nul(name@) && exists|n: nat| #[trigger] encodable_document(args_model, n) {
                    let n = choose|n: nat| #[trigger] encodable_document(args_model, n);
                    assert(encodable_document(d, n + 1));
                }
                assert(is_named_stage(d, name@, args_model));
                if no_nul(name@) && !ext_json_marker(name@) && exists|n: nat| #[trigger] round_trip_document(args_model, n) {
                    let n = choose|n: nat| #[trigger] round_trip_document(args_model, n);
                    assert(round_trip_document(d, n + 1));
                }
            }
            Err(ExtensionError::FailedToParse(e.to_string()))
        },
    }
}

} // verus!
