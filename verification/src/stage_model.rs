//! Core **stage model**: planner-facing [`StageProperties`], how the stage executes
//! (**[`ExecutionModel`]**), and the logical **lifecycle** outline.
//!
//! The defaults of the stage traits are built from the same [`StagePlan`] constructors so planner
//! BSON and execution semantics stay aligned.

use vstd::prelude::*;

use bson::Document;

pub use crate::expansion::Expansion;

use crate::bson_doc::document_fields;
use crate::stage_properties::{properties_fields, StagePosition, StageProperties, StreamType};

verus! {

/// How the stage body runs relative to upstream rows (SDK execution model).
#[derive(Debug, Clone, Copy, PartialEq, Eq, Hash, Structural)]
pub enum ExecutionModel {
    /// Incremental execution: open a cursor, then `next` / per-row `transform` until EOF.
    Streaming,
    /// Full-input execution: `consume` each row, then `finish` once after upstream EOF.
    Blocking,
}

/// Documented lifecycle outline for tooling and authors (not passed across the FFI boundary).
#[derive(Debug, Clone, Copy, PartialEq, Eq, Hash, Structural)]
pub enum StageLifecycleShape {
    /// `parse` → `open` → pull rows until EOF (`next` / `transform`).
    ParseOpenPullRows,
    /// `parse` → `open` → `consume`* → `finish`.
    ParseOpenConsumeFinish,
}

/// Single planner + execution snapshot for one exported stage.
#[derive(Debug, Clone, Copy, PartialEq, Eq, Hash, Structural)]
pub struct StagePlan {
    /// Planner contract (`get_properties` on the AST node).
    pub properties: StageProperties,
    /// SDK execution model (streaming vs blocking buffer).
    pub execution: ExecutionModel,
}

/// The execution model a stream type implies.
pub open spec fn execution_for(stream_type: StreamType) -> ExecutionModel {
    match stream_type {
        StreamType::Streaming => ExecutionModel::Streaming,
        StreamType::Blocking => ExecutionModel::Blocking,
    }
}

/// The lifecycle an execution model implies.
pub open spec fn lifecycle_for(execution: ExecutionModel) -> StageLifecycleShape {
    match execution {
        ExecutionModel::Streaming => StageLifecycleShape::ParseOpenPullRows,
        ExecutionModel::Blocking => StageLifecycleShape::ParseOpenConsumeFinish,
    }
}

impl StagePlan {
    /// The plan's execution model agrees with its planner stream type.
    pub open spec fn aligned(self) -> bool {
        self.execution == execution_for(self.properties.stream_type)
    }

    /// The blocking defaults: blocking stream, no fixed position, consumes input.
    pub open spec fn spec_blocking_default() -> StagePlan {
        StagePlan {
            properties: StageProperties {
                stream_type: StreamType::Blocking,
                position: StagePosition::Anywhere,
                requires_input: true,
            },
            execution: ExecutionModel::Blocking,
        }
    }

    /// Default plan for a **source** stage (first in pipeline, streaming pull / generator path).
    pub fn source_default() -> (p: Self)
        ensures
            p.properties == StageProperties::spec_source_stage_default(),
            p.execution == ExecutionModel::Streaming,
    {
        StagePlan { properties: StageProperties::source_stage_default(), execution: ExecutionModel::Streaming }
    }

    /// Default plan for a **streaming transform** (map / passthrough path).
    pub fn transform_streaming_default() -> (p: Self)
        ensures
            p.properties == StageProperties::spec_transform_stage_default(),
            p.execution == ExecutionModel::Streaming,
    {
        StagePlan { properties: StageProperties::transform_stage_default(), execution: ExecutionModel::Streaming }
    }

    /// Default plan for a **blocking** stage (buffer then `finish`).
    pub fn blocking_default() -> (p: Self)
        ensures
            p == Self::spec_blocking_default(),
    {
        StagePlan {
            properties: StageProperties {
                stream_type: StreamType::Blocking,
                position: StagePosition::Anywhere,
                requires_input: true,
            },
            execution: ExecutionModel::Blocking,
        }
    }

    /// Build a plan from explicit properties, inferring the execution model from
    /// [`StageProperties::stream_type`].
    pub fn from_planner_properties(properties: StageProperties) -> (p: Self)
        ensures
            p.properties == properties,
            p.execution == execution_for(properties.stream_type),
    {
        let execution = match properties.stream_type {
            StreamType::Streaming => ExecutionModel::Streaming,
            StreamType::Blocking => ExecutionModel::Blocking,
        };
        StagePlan { properties, execution }
    }

    /// Logical lifecycle implied by [`Self::execution`].
    pub fn lifecycle(self) -> (l: StageLifecycleShape)
        ensures
            l == lifecycle_for(self.execution),
    {
        match self.execution {
            ExecutionModel::Streaming => StageLifecycleShape::ParseOpenPullRows,
            ExecutionModel::Blocking => StageLifecycleShape::ParseOpenConsumeFinish,
        }
    }

    /// BSON for `get_properties` (same as [`StageProperties::to_document`]).
    pub fn static_properties_document(self) -> (d: Document)
        ensures
            document_fields(d) == properties_fields(self.properties),
    {
        self.properties.to_document()
    }
}

/// Rebuilding a plan from its planner properties gives the plan back exactly when its execution
/// model agrees with its stream type; each default plan does.
pub proof fn lemma_plan_round_trip(plan: StagePlan)
    ensures
        (StagePlan { properties: plan.properties, execution: execution_for(plan.properties.stream_type) } == plan)
            <==> plan.aligned(),
        (StagePlan {
            properties: StageProperties::spec_source_stage_default(),
            execution: ExecutionModel::Streaming,
        }).aligned(),
        (StagePlan {
            properties: StageProperties::spec_transform_stage_default(),
            execution: ExecutionModel::Streaming,
        }).aligned(),
        StagePlan::spec_blocking_default().aligned(),
{
}

/// For an aligned plan, the lifecycle follows the planner stream type: blocking stages consume
/// then finish, streaming stages pull rows.
pub proof fn lemma_lifecycle_follows_stream_type(plan: StagePlan)
    requires
        plan.aligned(),
    ensures
        lifecycle_for(plan.execution) == StageLifecycleShape::ParseOpenConsumeFinish
            <==> plan.properties.stream_type == StreamType::Blocking,
{
}

} // verus!
