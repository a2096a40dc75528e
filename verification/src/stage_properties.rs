//! Static stage properties exposed to the MongoDB host via `get_properties` on the AST node.
//!
//! Field names and string values follow the host's static-properties IDL: this SDK models the
//! core planner contract (`streamType`, `position`, `requiresInputDocSource`); other fields rely
//! on the host's defaults when absent from the returned document.

use vstd::prelude::*;

use bson::Document;

use crate::bson_doc::{doc_insert_bool, doc_insert_str, doc_new, document_fields, BsonValue};

verus! {

/// Whether the stage is treated as streaming or blocking for planning (`streamType`).
#[derive(Debug, Clone, Copy, PartialEq, Eq, Hash, Structural)]
pub enum StreamType {
    /// `"streaming"`: yields rows incrementally.
    Streaming,
    /// `"blocking"`: must consume input before producing output.
    Blocking,
}

impl StreamType {
    /// The IDL string of the stream type.
    pub open spec fn spec_idl_str(self) -> Seq<char> {
        match self {
            StreamType::Streaming => "streaming"@,
            StreamType::Blocking => "blocking"@,
        }
    }

    /// The IDL string of the stream type.
    pub fn as_idl_str(self) -> (s: &'static str)
        ensures
            s@ == self.spec_idl_str(),
    {
        match self {
            StreamType::Streaming => "streaming",
            StreamType::Blocking => "blocking",
        }
    }
}

/// Pipeline position constraint (`position`).
#[derive(Debug, Clone, Copy, PartialEq, Eq, Hash, Structural)]
pub enum StagePosition {
    /// `"none"`: no special placement requirement.
    Anywhere,
    /// `"first"`: must be the first stage.
    First,
    /// `"last"`: must be the last stage.
    Last,
}

impl StagePosition {
    /// The IDL string of the position.
    pub open spec fn spec_idl_str(self) -> Seq<char> {
        match self {
            StagePosition::Anywhere => "none"@,
            StagePosition::First => "first"@,
            StagePosition::Last => "last"@,
        }
    }

    /// The IDL string of the position.
    pub fn as_idl_str(self) -> (s: &'static str)
        ensures
            s@ == self.spec_idl_str(),
    {
        match self {
            StagePosition::Anywhere => "none",
            StagePosition::First => "first",
            StagePosition::Last => "last",
        }
    }
}

/// Planner-facing static properties for an aggregation stage extension (core contract).
#[derive(Debug, Clone, Copy, PartialEq, Eq, Hash, Structural)]
pub struct StageProperties {
    /// Host `streamType`: streaming vs blocking for planner behavior.
    pub stream_type: StreamType,
    /// Host `position`: required placement in the pipeline.
    pub position: StagePosition,
    /// Host `requiresInputDocSource`: whether the stage consumes an upstream document source.
    pub requires_input: bool,
}

/// The fields of the properties document of `p`, in order.
pub open spec fn properties_fields(p: StageProperties) -> Seq<(Seq<char>, BsonValue)> {
    seq![
        ("streamType"@, BsonValue::String(p.stream_type.spec_idl_str())),
        ("position"@, BsonValue::String(p.position.spec_idl_str())),
        ("requiresInputDocSource"@, BsonValue::Boolean(p.requires_input)),
    ]
}

impl StageProperties {
    /// Streaming, no fixed position, consumes a document source.
    pub open spec fn spec_transform_stage_default() -> StageProperties {
        StageProperties { stream_type: StreamType::Streaming, position: StagePosition::Anywhere, requires_input: true }
    }

    /// Streaming, first in the pipeline, consumes a document source.
    pub open spec fn spec_source_stage_default() -> StageProperties {
        StageProperties { stream_type: StreamType::Streaming, position: StagePosition::First, requires_input: true }
    }

    /// Default planner shape for a **transform** stage: streaming, no fixed position, consumes a
    /// document source.
    pub fn transform_stage_default() -> (p: Self)
        ensures
            p == Self::spec_transform_stage_default(),
    {
        StageProperties { stream_type: StreamType::Streaming, position: StagePosition::Anywhere, requires_input: true }
    }

    /// Default planner shape for a **source** stage: streaming, **first** in the pipeline,
    /// consumes a document source when present.
    pub fn source_stage_default() -> (p: Self)
        ensures
            p == Self::spec_source_stage_default(),
    {
        StageProperties { stream_type: StreamType::Streaming, position: StagePosition::First, requires_input: true }
    }

    /// BSON document for `get_properties`: `streamType`, `position` and
    /// `requiresInputDocSource`, in that order.
    pub fn to_document(self) -> (d: Document)
        ensures
            document_fields(d) == properties_fields(self),
    {
        let mut d = doc_new();
        let ghost f0 = document_fields(d);
        doc_insert_str(&mut d, "streamType", self.stream_type.as_idl_str());
        let ghost f1 = document_fields(d);
        doc_insert_str(&mut d, "position", self.position.as_idl_str());
        let ghost f2 = document_fields(d);
        doc_insert_bool(&mut d, "requiresInputDocSource", self.requires_input);
        proof {
            reveal_strlit("streamType");
            reveal_strlit("position");
            reveal_strlit("requiresInputDocSource");
            assert("streamType"@.len() == 10);
            assert("position"@.len() == 8);
            assert("requiresInputDocSource"@.len() == 22);
            reveal_with_fuel(crate::bson_doc::key_index, 3);
            assert(f1 =~= seq![("streamType"@, BsonValue::String(self.stream_type.spec_idl_str()))]);
            assert(f1.drop_first().len() == 0);
            assert(crate::bson_doc::key_index(f1, "position"@) == -1);
            assert(f2 =~= f1.push(("position"@, BsonValue::String(self.position.spec_idl_str()))));
            assert(f2.drop_first().drop_first().len() == 0);
            assert(f2.drop_first()[0].0 != "requiresInputDocSource"@);
            assert(crate::bson_doc::key_index(f2, "requiresInputDocSource"@) == -1);
            assert(document_fields(d) =~= properties_fields(self));
        }
        d
    }
}

impl Default for StageProperties {
    /// Same as [`StageProperties::transform_stage_default`].
    fn default() -> (p: Self)
        ensures
            p == Self::spec_transform_stage_default(),
    {
        Self::transform_stage_default()
    }
}

/// Default static properties for map / passthrough transforms (`requiresInputDocSource: true`).
pub fn default_map_stage_static_properties() -> (d: Document)
    ensures
        document_fields(d) == properties_fields(StageProperties::spec_transform_stage_default()),
{
    StageProperties::transform_stage_default().to_document()
}

} // verus!
