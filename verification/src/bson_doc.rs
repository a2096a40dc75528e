//! BSON documents of the `bson` crate, seen through a model of their fields.
//!
//! A [`Document`] is an ordered map from keys to BSON values. The library reads it through
//! [`document_fields`] (its fields in order, values as [`BsonValue`]) and through
//! [`document_bson_bytes`] (its BSON encoding). A document is taken by its content, the entries
//! in order; the seed of the hasher that its map carries is no part of the model, and no item
//! here reads it. The `bson` crate does the encoding, decoding and map updates; the items here
//! are the trusted wrappers of those calls.

use vstd::prelude::*;

use bson::Document;

verus! {

#[verifier::external_type_specification]
#[verifier::external_body]
pub struct ExBsonDocument(bson::Document);

#[verifier::external_type_specification]
#[verifier::external_body]
pub struct ExBsonSerError(bson::ser::Error);

#[verifier::external_type_specification]
#[verifier::external_body]
pub struct ExBsonDeError(bson::de::Error);

#[verifier::external_type_specification]
#[verifier::external_body]
pub struct ExBsonValueAccessError(bson::document::ValueAccessError);

#[verifier::external_type_specification]
#[verifier::external_body]
pub struct ExBson(bson::Bson);

/// What the library reads of a BSON value.
pub enum BsonValue {
    Double,
    String(Seq<char>),
    /// An embedded document.
    Document(Document),
    /// An array: its elements in order.
    Array(Seq<BsonValue>),
    Boolean(bool),
    Null,
    Int32(i32),
    Int64(i64),
    /// A regular expression: its pattern and its options.
    RegularExpression { pattern: Seq<char>, options: Seq<char> },
    /// JavaScript code with its scope document.
    JavaScriptCodeWithScope(Document),
    /// Binary data: the length the encoder writes for it (the byte count, four more for the old
    /// binary subtype).
    Binary { size: nat },
    /// Any other BSON type (object id, date, timestamp, decimal, code, symbol, database pointer,
    /// minimum and maximum key, undefined).
    Other,
}

/// The fields of a document, in order: key and value.
pub uninterp spec fn document_fields(d: Document) -> Seq<(Seq<char>, BsonValue)>;

/// What a `bson::Bson` value holds.
pub uninterp spec fn bson_value(b: bson::Bson) -> BsonValue;

/// The BSON encoding `Document::to_writer` writes for a document, or `None` when it fails.
pub uninterp spec fn document_bson_encoding(d: Document) -> Option<Seq<u8>>;

/// The BSON encoding of a document that encodes.
pub open spec fn document_bson_bytes(d: Document) -> Seq<u8> {
    document_bson_encoding(d).unwrap()
}

/// Whether `bytes` decode as a BSON document.
pub open spec fn bson_bytes_decode(bytes: Seq<u8>) -> bool {
    bson_decode(bytes) is Some
}

/// The document `Document::from_reader` decodes from `bytes`, or `None` when they do not decode.
pub uninterp spec fn bson_decode(bytes: Seq<u8>) -> Option<Document>;

/// The keys of a field sequence.
pub open spec fn field_keys(fields: Seq<(Seq<char>, BsonValue)>) -> Seq<Seq<char>> {
    fields.map_values(|f: (Seq<char>, BsonValue)| f.0)
}

/// No key occurs twice.
pub open spec fn keys_distinct(fields: Seq<(Seq<char>, BsonValue)>) -> bool {
    forall|i: int, j: int| 0 <= i < j < fields.len() ==> fields[i].0 != fields[j].0
}

/// Index of the field with `key`, or `-1`.
pub open spec fn key_index(fields: Seq<(Seq<char>, BsonValue)>, key: Seq<char>) -> int
    decreases fields.len(),
{
    if fields.len() == 0 {
        -1
    } else if fields[0].0 == key {
        0
    } else {
        let r = key_index(fields.drop_first(), key);
        if r < 0 { -1 } else { r + 1 }
    }
}

/// The value under `key`, if any.
pub open spec fn spec_get(fields: Seq<(Seq<char>, BsonValue)>, key: Seq<char>) -> Option<BsonValue> {
    let i = key_index(fields, key);
    if i < 0 { None } else { Some(fields[i].1) }
}

/// The fields after inserting `(key, v)`: an existing key keeps its place and takes the new
/// value; a new key goes last.
pub open spec fn spec_insert(fields: Seq<(Seq<char>, BsonValue)>, key: Seq<char>, v: BsonValue) -> Seq<
    (Seq<char>, BsonValue),
> {
    let i = key_index(fields, key);
    if i < 0 { fields.push((key, v)) } else { fields.update(i, (key, v)) }
}

/// No character of `s` is NUL.
pub open spec fn no_nul(s: Seq<char>) -> bool {
    forall|i: int| 0 <= i < s.len() ==> s[i] != '\0'
}

/// The largest binary length the encoder writes (16 MiB).
pub open spec fn max_binary_size() -> nat {
    16 * 1024 * 1024
}

/// A document the encoder accepts, nested at most `depth` levels: no key holds NUL (nor any key
/// of a nested document, of a document inside an array or of a code scope), no regular
/// expression pattern or options hold NUL, and no binary is longer than
/// [`max_binary_size`].
pub open spec fn encodable_document(d: Document, depth: nat) -> bool
    decreases depth, 0nat,
{
    depth > 0 && forall|i: int|
        0 <= i < document_fields(d).len() ==> no_nul(#[trigger] document_fields(d)[i].0) && encodable_value(
            document_fields(d)[i].1,
            (depth - 1) as nat,
        )
}

/// A value the encoder accepts, nested at most `depth` levels (see [`encodable_document`]).
pub open spec fn encodable_value(v: BsonValue, depth: nat) -> bool
    decreases depth, 1nat,
{
    match v {
        BsonValue::Document(inner) => encodable_document(inner, depth),
        BsonValue::Array(items) => depth > 0 && forall|j: int|
            0 <= j < items.len() ==> encodable_value(#[trigger] items[j], (depth - 1) as nat),
        BsonValue::RegularExpression { pattern, options } => no_nul(pattern) && no_nul(options),
        BsonValue::JavaScriptCodeWithScope(scope) => encodable_document(scope, depth),
        BsonValue::Binary { size } => size <= max_binary_size(),
        _ => true,
    }
}

/// The keys the decoder reads as extended-JSON markers and turns into other BSON types.
pub open spec fn ext_json_marker(k: Seq<char>) -> bool {
    ||| k == "$oid"@
    ||| k == "$symbol"@
    ||| k == "$numberInt"@
    ||| k == "$numberLong"@
    ||| k == "$numberDouble"@
    ||| k == "$binary"@
    ||| k == "$uuid"@
    ||| k == "$code"@
    ||| k == "$scope"@
    ||| k == "$timestamp"@
    ||| k == "$regularExpression"@
    ||| k == "$dbPointer"@
    ||| k == "$date"@
    ||| k == "$maxKey"@
    ||| k == "$minKey"@
    ||| k == "$undefined"@
    ||| k == "$numberDecimal"@
    ||| k == "$numberDecimalBytes"@
}

/// The characters of `s` are in order (as the decoder stores regular expression options).
pub open spec fn sorted_chars(s: Seq<char>) -> bool {
    forall|i: int, j: int| 0 <= i < j < s.len() ==> s[i] <= s[j]
}

/// A document whose encoding decodes back to it, nested at most `depth` levels: it encodes,
/// no key (at any depth) is an extended-JSON marker, regular expression options are in order,
/// and its values are doubles, strings, booleans, nulls, 32- or 64-bit integers, regular
/// expressions, arrays or documents of the same kind.
pub open spec fn round_trip_document(d: Document, depth: nat) -> bool
    decreases depth, 0nat,
{
    depth > 0 && forall|i: int|
        0 <= i < document_fields(d).len() ==> no_nul(#[trigger] document_fields(d)[i].0) && !ext_json_marker(
            document_fields(d)[i].0,
        ) && round_trip_value(document_fields(d)[i].1, (depth - 1) as nat)
}

/// A value whose encoding decodes back to it (see [`round_trip_document`]).
pub open spec fn round_trip_value(v: BsonValue, depth: nat) -> bool
    decreases depth, 1nat,
{
    match v {
        BsonValue::Document(inner) => round_trip_document(inner, depth),
        BsonValue::Array(items) => depth > 0 && forall|j: int|
            0 <= j < items.len() ==> round_trip_value(#[trigger] items[j], (depth - 1) as nat),
        BsonValue::RegularExpression { pattern, options } => no_nul(pattern) && no_nul(options) && sorted_chars(
            options,
        ),
        BsonValue::Double => true,
        BsonValue::String(_) => true,
        BsonValue::Boolean(_) => true,
        BsonValue::Null => true,
        BsonValue::Int32(_) => true,
        BsonValue::Int64(_) => true,
        _ => false,
    }
}

/// `key_index` finds the first field with the key, and only it.
pub proof fn lemma_key_index(fields: Seq<(Seq<char>, BsonValue)>, key: Seq<char>)
    ensures
        -1 <= key_index(fields, key) < fields.len(),
        key_index(fields, key) >= 0 ==> fields[key_index(fields, key)].0 == key,
        forall|j: int| 0 <= j < key_index(fields, key) ==> fields[j].0 != key,
        key_index(fields, key) < 0 ==> forall|j: int| 0 <= j < fields.len() ==> fields[j].0 != key,
    decreases fields.len(),
{
    if fields.len() > 0 && fields[0].0 != key {
        lemma_key_index(fields.drop_first(), key);
        let r = key_index(fields.drop_first(), key);
        assert forall|j: int| 0 < j < fields.len() implies fields[j] == fields.drop_first()[j - 1] by {}
        if r < 0 {
            assert forall|j: int| 0 <= j < fields.len() implies fields[j].0 != key by {
                if j > 0 {
                    assert(fields[j] == fields.drop_first()[j - 1]);
                }
            }
        }
    }
}

/// Reading a document after an insert gives back the inserted value under its key and the
/// old value under every other key; the key order keeps the old keys in place.
pub proof fn lemma_get_after_insert(fields: Seq<(Seq<char>, BsonValue)>, key: Seq<char>, v: BsonValue, other: Seq<char>)
    ensures
        spec_get(spec_insert(fields, key, v), key) == Some(v),
        other != key ==> spec_get(spec_insert(fields, key, v), other) == spec_get(fields, other),
        forall|i: int| 0 <= i < fields.len() ==> (#[trigger] spec_insert(fields, key, v)[i]).0 == fields[i].0,
{
    let ins = spec_insert(fields, key, v);
    lemma_key_index(fields, key);
    lemma_key_index(ins, key);
    lemma_key_index(fields, other);
    lemma_key_index(ins, other);
    let i = key_index(fields, key);
    if i < 0 {
        assert(ins[fields.len() as int].0 == key);
        assert(forall|j: int| 0 <= j < fields.len() ==> ins[j] == fields[j]);
    } else {
        assert(forall|j: int| 0 <= j < fields.len() && j != i ==> ins[j] == fields[j]);
        assert(ins[i].0 == key);
    }
    let ki = key_index(ins, key);
    assert(ki == if i < 0 { fields.len() as int } else { i });
    if other != key {
        let ko = key_index(fields, other);
        let kio = key_index(ins, other);
        assert(kio == ko);
    }
}

/// Inserting the same value under the same key twice leaves the fields of one insert.
pub proof fn lemma_insert_idempotent(fields: Seq<(Seq<char>, BsonValue)>, key: Seq<char>, v: BsonValue)
    ensures
        spec_insert(spec_insert(fields, key, v), key, v) == spec_insert(fields, key, v),
{
    let once = spec_insert(fields, key, v);
    lemma_key_index(fields, key);
    lemma_key_index(once, key);
    let i = key_index(fields, key);
    if i < 0 {
        assert(forall|j: int| 0 <= j < fields.len() ==> once[j] == fields[j]);
        assert(once[fields.len() as int].0 == key);
    } else {
        assert(forall|j: int| 0 <= j < fields.len() && j != i ==> once[j] == fields[j]);
        assert(once[i].0 == key);
    }
    let ki = key_index(once, key);
    assert(ki == if i < 0 { fields.len() as int } else { i });
    assert(spec_insert(once, key, v) =~= once);
}

/// `Document::clone` (derived): a copy with the same fields and the same encoding.
pub assume_specification[ <bson::Document as Clone>::clone ](d: &bson::Document) -> (r: bson::Document)
    ensures
        document_fields(r) == document_fields(*d),
        document_bson_encoding(r) == document_bson_encoding(*d),
;

/// `Document::new`: a document with no fields.
#[verifier::external_body]
pub(crate) fn doc_new() -> (d: Document)
    ensures
        document_fields(d) == Seq::<(Seq<char>, BsonValue)>::empty(),
{
    Document::new()
}

/// `Document::insert` with a string value (an `IndexMap` insert: an existing key keeps its
/// place and takes the value, a new key goes last).
#[verifier::external_body]
pub(crate) fn doc_insert_str(d: &mut Document, key: &str, value: &str)
    ensures
        document_fields(*final(d)) == spec_insert(document_fields(*old(d)), key@, BsonValue::String(value@)),
{
    d.insert(key, value);
}

/// `Document::insert` with a boolean value.
#[verifier::external_body]
pub(crate) fn doc_insert_bool(d: &mut Document, key: &str, value: bool)
    ensures
        document_fields(*final(d)) == spec_insert(document_fields(*old(d)), key@, BsonValue::Boolean(value)),
{
    d.insert(key, value);
}

/// `Document::insert` with a 64-bit integer value.
#[verifier::external_body]
pub(crate) fn doc_insert_i64(d: &mut Document, key: &str, value: i64)
    ensures
        document_fields(*final(d)) == spec_insert(document_fields(*old(d)), key@, BsonValue::Int64(value)),
{
    d.insert(key, bson::Bson::Int64(value));
}

/// `Document::insert` with `Bson::Null`.
#[verifier::external_body]
pub(crate) fn doc_insert_null(d: &mut Document, key: &str)
    ensures
        document_fields(*final(d)) == spec_insert(document_fields(*old(d)), key@, BsonValue::Null),
{
    d.insert(key, bson::Bson::Null);
}

/// `Document::insert` with an embedded document value.
#[verifier::external_body]
pub(crate) fn doc_insert_document(d: &mut Document, key: &str, value: Document)
    ensures
        document_fields(*final(d)) == spec_insert(document_fields(*old(d)), key@, BsonValue::Document(value)),
{
    d.insert(key, value);
}

/// `Document::insert` with a `Bson` value taken from another document.
#[verifier::external_body]
pub(crate) fn doc_insert_bson(d: &mut Document, key: String, value: bson::Bson)
    ensures
        document_fields(*final(d)) == spec_insert(document_fields(*old(d)), key@, bson_value(value)),
{
    d.insert(key, value);
}

/// `Document::into_iter`, collected: the fields in order, as owned keys and values.
#[verifier::external_body]
pub(crate) fn doc_into_entries(d: Document) -> (r: Vec<(String, bson::Bson)>)
    ensures
        r@.len() == document_fields(d).len(),
        forall|i: int| 0 <= i < r@.len() ==> (#[trigger] r@[i]).0@ == document_fields(d)[i].0
            && bson_value(r@[i].1) == document_fields(d)[i].1,
{
    d.into_iter().collect()
}

/// `Document::keys`, collected: the keys in order (an `IndexMap` holds each key once).
#[verifier::external_body]
pub(crate) fn doc_keys(d: &Document) -> (r: Vec<String>)
    ensures
        r@.len() == document_fields(*d).len(),
        forall|i: int| 0 <= i < r@.len() ==> (#[trigger] r@[i])@ == document_fields(*d)[i].0,
        forall|i: int, j: int| 0 <= i < j < r@.len() ==> r@[i]@ != r@[j]@,
{
    d.keys().cloned().collect()
}

/// `Document::is_empty`.
#[verifier::external_body]
pub(crate) fn doc_is_empty(d: &Document) -> (b: bool)
    ensures
        b == (document_fields(*d).len() == 0),
{
    d.is_empty()
}

/// `Document::get_document`, cloned: the embedded document under `key`; an error when the key
/// is missing or holds another type.
#[verifier::external_body]
pub(crate) fn doc_get_document(d: &Document, key: &str) -> (r: Result<Document, bson::document::ValueAccessError>)
    ensures
        match spec_get(document_fields(*d), key@) {
            Some(BsonValue::Document(inner)) => r == Ok::<Document, bson::document::ValueAccessError>(inner),
            _ => r is Err,
        },
{
    d.get_document(key).map(|inner| inner.clone())
}

/// `Document::get_i64`, as an option: the value under `key` when it is a 64-bit integer.
#[verifier::external_body]
pub(crate) fn doc_get_i64(d: &Document, key: &str) -> (r: Option<i64>)
    ensures
        r == (match spec_get(document_fields(*d), key@) {
            Some(BsonValue::Int64(v)) => Some(v),
            _ => None::<i64>,
        }),
{
    d.get_i64(key).ok()
}

/// `Document::to_writer` into a fresh vector: the BSON encoding, or the encoder's error. The
/// result is named (encoding depends on the document alone). The encoder fails only where it
/// writes a C string holding NUL (`write_cstring`: keys, regular expression pattern and
/// options) or a binary longer than 16 MiB (`write_binary`), so every document that
/// [`encodable_document`] admits encodes. What it writes `Document::from_reader` reads back as
/// the same document when [`round_trip_document`] holds (the decoder turns keys such as `$date`
/// into other types and sorts regular expression options).
#[verifier::external_body]
pub(crate) fn doc_to_bytes(d: &Document) -> (r: Result<Vec<u8>, bson::ser::Error>)
    ensures
        r is Ok <==> document_bson_encoding(*d) is Some,
        r matches Ok(v) ==> document_bson_encoding(*d) == Some(v@),
        forall|n: nat| #[trigger] encodable_document(*d, n) ==> r is Ok,
        forall|n: nat| #[trigger] round_trip_document(*d, n) ==> r is Ok,
        r matches Ok(v) ==> forall|n: nat| #[trigger] round_trip_document(*d, n) ==> bson_decode(v@) == Some(*d),
{
    let mut v = Vec::new();
    d.to_writer(&mut v).map(|_| v)
}

/// `Document::from_reader` over a byte slice: the decoded document, or the decoder's error. The
/// result is named: decoding depends on the bytes alone.
#[verifier::external_body]
pub(crate) fn doc_from_bytes(bytes: &[u8]) -> (r: Result<Document, bson::de::Error>)
    ensures
        match bson_decode(bytes@) {
            Some(d) => r == Ok::<Document, bson::de::Error>(d),
            None => r is Err,
        },
{
    Document::from_reader(bytes)
}

} // verus!
