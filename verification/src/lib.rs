//! Verified core of an SDK for MongoDB server extensions (aggregation stages behind the
//! versioned extension C ABI).
//!
//! The library holds the decisions and data of the SDK: API version negotiation, status
//! objects, byte buffers, stage argument validation, planner properties, the execution
//! state machine of generator stages, and host logging messages. The foreign-function
//! glue (raw pointers, vtables, process-wide statics) lives in the companion `app` crate.

pub mod operation_metrics;
pub mod passthrough;
pub mod sys;
pub mod bson_doc;
pub mod blocking_stage;
pub mod byte_buf;
pub mod e2e_param;
pub mod error;
pub mod expansion;
pub mod extension_log;
pub mod fuzz_pipeline;
pub mod host;
pub mod lifecycle;
pub mod source_exec;
pub mod source_stage;
pub mod stage_context;
pub mod stage_model;
pub mod stage_output;
pub mod stage_parse;
pub mod stage_properties;
pub mod status;
pub mod text;
pub mod transform_stage;
pub mod version;

pub use sys::GET_MONGODB_EXTENSION_SYMBOL;

pub use error::ExtensionError;
pub use error::Result as ExtensionResult;
pub use expansion::Expansion;
pub use source_stage::SourceStage;
pub use stage_context::{OperationMetricsSink, StageContext};
pub use stage_output::Next;
pub use stage_properties::{default_map_stage_static_properties, StagePosition, StageProperties, StreamType};
pub use transform_stage::TransformStage;
