//! Plain-data model of the MongoDB extension ABI types used by the SDK.

use vstd::prelude::*;

verus! {

/// Major version of the extension API this crate targets.
pub const MONGODB_EXTENSION_API_MAJOR_VERSION: u32 = 0;

/// Minor version of the extension API this crate targets.
pub const MONGODB_EXTENSION_API_MINOR_VERSION: u32 = 1;

/// Status code of a failed extension or host operation.
pub const MONGO_EXTENSION_STATUS_RUNTIME_ERROR: i32 = -1;

/// Status code of a successful extension or host operation.
pub const MONGO_EXTENSION_STATUS_OK: i32 = 0;

/// Name of the symbol the host resolves in an extension library, NUL-terminated.
pub const GET_MONGODB_EXTENSION_SYMBOL: &'static str = "get_mongodb_extension\0";

/// One `(major, minor)` API version.
#[derive(Clone, Copy, Debug, PartialEq, Eq, Structural)]
pub struct MongoExtensionAPIVersion {
    pub major: u32,
    pub minor: u32,
}

/// The API versions a host advertises (an absent or empty host array is an empty vector).
#[derive(Debug, Clone, PartialEq, Eq)]
pub struct MongoExtensionAPIVersionVector {
    pub versions: Vec<MongoExtensionAPIVersion>,
}

/// Bytes viewed through the ABI (a borrowed `(data, len)` pair on the wire; absent and empty
/// views are the same empty byte sequence here).
#[derive(Debug, Clone, PartialEq, Eq)]
pub struct MongoExtensionByteView {
    pub data: Vec<u8>,
}

/// Whether a byte container holds a borrowed view or an owned buffer.
#[allow(non_camel_case_types)]
#[derive(Clone, Copy, Debug, PartialEq, Eq, Structural)]
pub enum MongoExtensionByteContainerType {
    kByteView,
    kByteBuf,
}

impl MongoExtensionByteContainerType {
    /// The ABI encoding of the tag.
    pub open spec fn spec_abi(self) -> u8 {
        match self {
            MongoExtensionByteContainerType::kByteView => 0,
            MongoExtensionByteContainerType::kByteBuf => 1,
        }
    }

    /// The ABI encoding of the tag.
    pub fn to_abi(self) -> (r: u8)
        ensures
            r == self.spec_abi(),
    {
        match self {
            MongoExtensionByteContainerType::kByteView => 0,
            MongoExtensionByteContainerType::kByteBuf => 1,
        }
    }
}

/// A byte container of a get-next result: its tag and the bytes it carries (for a buffer, the
/// bytes the extension hands over; for a view, the viewed bytes).
#[derive(Debug, Clone, PartialEq, Eq)]
pub struct MongoExtensionByteContainer {
    pub type_: MongoExtensionByteContainerType,
    pub bytes: Vec<u8>,
}

/// Severity of a host log message.
#[allow(non_camel_case_types)]
#[derive(Clone, Copy, Debug, PartialEq, Eq, Structural)]
pub enum MongoExtensionLogSeverity {
    kError,
    kWarning,
    kInfo,
}

impl MongoExtensionLogSeverity {
    /// The ABI encoding of the severity.
    pub open spec fn spec_abi(self) -> u32 {
        match self {
            MongoExtensionLogSeverity::kError => 0,
            MongoExtensionLogSeverity::kWarning => 1,
            MongoExtensionLogSeverity::kInfo => 2,
        }
    }

    /// The ABI encoding of the severity.
    pub fn to_abi(self) -> (r: u32)
        ensures
            r == self.spec_abi(),
    {
        match self {
            MongoExtensionLogSeverity::kError => 0,
            MongoExtensionLogSeverity::kWarning => 1,
            MongoExtensionLogSeverity::kInfo => 2,
        }
    }
}

/// Kind of a host log message: a plain log line or a debug line with a verbosity level.
#[allow(non_camel_case_types)]
#[derive(Clone, Copy, Debug, PartialEq, Eq, Structural)]
pub enum MongoExtensionLogType {
    kLog,
    kDebug,
}

impl MongoExtensionLogType {
    /// The ABI encoding of the log type.
    pub open spec fn spec_abi(self) -> u32 {
        match self {
            MongoExtensionLogType::kLog => 0,
            MongoExtensionLogType::kDebug => 1,
        }
    }

    /// The ABI encoding of the log type.
    pub fn to_abi(self) -> (r: u32)
        ensures
            r == self.spec_abi(),
    {
        match self {
            MongoExtensionLogType::kLog => 0,
            MongoExtensionLogType::kDebug => 1,
        }
    }
}

/// One named attribute of a log message.
#[derive(Debug, Clone, PartialEq, Eq)]
pub struct MongoExtensionLogAttribute {
    pub name: MongoExtensionByteView,
    pub value: MongoExtensionByteView,
}

/// The attributes of a log message.
#[derive(Debug, Clone, PartialEq, Eq)]
pub struct MongoExtensionLogAttributesArray {
    pub elements: Vec<MongoExtensionLogAttribute>,
}

/// The severity (plain log lines) or the debug level (debug lines) of a log message.
#[derive(Clone, Copy, Debug, PartialEq, Eq, Structural)]
pub enum MongoExtensionLogMessageSeverityOrLevel {
    Severity(MongoExtensionLogSeverity),
    Level(i32),
}

/// A log message for the host logger.
#[derive(Debug, Clone, PartialEq, Eq)]
pub struct MongoExtensionLogMessage {
    pub code: u32,
    pub message: MongoExtensionByteView,
    pub type_: MongoExtensionLogType,
    pub attributes: MongoExtensionLogAttributesArray,
    pub severity_or_level: MongoExtensionLogMessageSeverityOrLevel,
}

/// Kind of a node handed to the host in an expanded array.
#[allow(non_camel_case_types)]
#[derive(Clone, Copy, Debug, PartialEq, Eq, Structural)]
pub enum MongoExtensionAggStageNodeType {
    kParseNode,
    kAstNode,
}

impl MongoExtensionAggStageNodeType {
    /// The ABI encoding of the node type.
    pub open spec fn spec_abi(self) -> u32 {
        match self {
            MongoExtensionAggStageNodeType::kParseNode => 0,
            MongoExtensionAggStageNodeType::kAstNode => 1,
        }
    }

    /// The ABI encoding of the node type.
    pub fn to_abi(self) -> (r: u32)
        ensures
            r == self.spec_abi(),
    {
        match self {
            MongoExtensionAggStageNodeType::kParseNode => 0,
            MongoExtensionAggStageNodeType::kAstNode => 1,
        }
    }
}

/// Outcome code of one `get_next` call.
#[allow(non_camel_case_types)]
#[derive(Clone, Copy, Debug, PartialEq, Eq, Structural)]
pub enum MongoExtensionGetNextResultCode {
    kAdvanced,
    kEOF,
    kPauseExecution,
}

impl MongoExtensionGetNextResultCode {
    /// The ABI encoding of the result code.
    pub open spec fn spec_abi(self) -> u8 {
        match self {
            MongoExtensionGetNextResultCode::kAdvanced => 0,
            MongoExtensionGetNextResultCode::kEOF => 1,
            MongoExtensionGetNextResultCode::kPauseExecution => 2,
        }
    }

    /// The ABI encoding of the result code.
    pub fn to_abi(self) -> (r: u8)
        ensures
            r == self.spec_abi(),
    {
        match self {
            MongoExtensionGetNextResultCode::kAdvanced => 0,
            MongoExtensionGetNextResultCode::kEOF => 1,
            MongoExtensionGetNextResultCode::kPauseExecution => 2,
        }
    }

    /// Decodes a result code written by the host; `None` for a value outside the ABI.
    pub fn from_abi(code: u8) -> (r: Option<Self>)
        ensures
            r matches Some(c) ==> c.spec_abi() == code,
            r is None <==> code > 2,
    {
        if code == 0 {
            Some(MongoExtensionGetNextResultCode::kAdvanced)
        } else if code == 1 {
            Some(MongoExtensionGetNextResultCode::kEOF)
        } else if code == 2 {
            Some(MongoExtensionGetNextResultCode::kPauseExecution)
        } else {
            None
        }
    }
}

/// The result of one `get_next` call: its code, the row document and the row metadata.
#[derive(Debug, Clone, PartialEq, Eq)]
pub struct MongoExtensionGetNextResult {
    pub code: MongoExtensionGetNextResultCode,
    pub result_document: MongoExtensionByteContainer,
    pub result_metadata: MongoExtensionByteContainer,
}

} // verus!
