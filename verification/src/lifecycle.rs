//! Decisions at the extension entry point and during extension `initialize`.

use vstd::prelude::*;

use crate::error::ExtensionError;
use crate::status::{new_error_status, status_ok, stored_reason, MongoExtensionStatus};
use crate::sys::{
    MongoExtensionAggStageNodeType, MongoExtensionAPIVersionVector, MONGO_EXTENSION_STATUS_OK,
    MONGO_EXTENSION_STATUS_RUNTIME_ERROR,
};
use crate::version::{host_supports_extension, spec_host_supports, EXTENSION_API_VERSION};

verus! {

/// The status the entry point returns: an error for a missing host version vector or output
/// slot, an error when no host slot serves this SDK's API version, OK otherwise.
pub fn entry_status(host_versions: Option<&MongoExtensionAPIVersionVector>, extension_out_present: bool) -> (s: MongoExtensionStatus)
    ensures
        host_versions is None || !extension_out_present ==> s.spec_code() == MONGO_EXTENSION_STATUS_RUNTIME_ERROR
            && s.spec_reason() == "null parameter to get_mongodb_extension"@,
        match host_versions {
            Some(hv) => extension_out_present ==> if spec_host_supports(
                hv.versions@,
                crate::sys::MongoExtensionAPIVersion {
                    major: crate::sys::MONGODB_EXTENSION_API_MAJOR_VERSION,
                    minor: crate::sys::MONGODB_EXTENSION_API_MINOR_VERSION,
                },
            ) {
                s is Success
            } else {
                s.spec_code() == MONGO_EXTENSION_STATUS_RUNTIME_ERROR
                    && s.spec_reason() == "incompatible extension API version"@
            },
            None => true,
        },
{
    proof {
        reveal_strlit("null parameter to get_mongodb_extension");
        reveal_strlit("incompatible extension API version");
    }
    match host_versions {
        None => new_error_status(MONGO_EXTENSION_STATUS_RUNTIME_ERROR, "null parameter to get_mongodb_extension"),
        Some(hv) => {
            if !extension_out_present {
                return new_error_status(MONGO_EXTENSION_STATUS_RUNTIME_ERROR, "null parameter to get_mongodb_extension");
            }
            if !host_supports_extension(hv, EXTENSION_API_VERSION()) {
                return new_error_status(MONGO_EXTENSION_STATUS_RUNTIME_ERROR, "incompatible extension API version");
            }
            status_ok()
        },
    }
}

/// The outcome of extension `initialize` once the stage descriptor was registered: a missing
/// status or a failing code is a runtime error.
pub fn registration_outcome(register_status_code: Option<i32>) -> (r: Result<(), ExtensionError>)
    ensures
        match register_status_code {
            None => r matches Err(ExtensionError::Runtime(m)) && m@ == "null status from register_stage_descriptor"@,
            Some(c) => if c == MONGO_EXTENSION_STATUS_OK {
                r is Ok
            } else {
                r matches Err(ExtensionError::Runtime(m)) && m@ == "register_stage_descriptor failed"@
            },
        },
{
    match register_status_code {
        None => Err(ExtensionError::Runtime(String::from_str("null status from register_stage_descriptor"))),
        Some(c) => if c != MONGO_EXTENSION_STATUS_OK {
            Err(ExtensionError::Runtime(String::from_str("register_stage_descriptor failed")))
        } else {
            Ok(())
        },
    }
}

/// The status for the outcome of a host callback: OK, or the error's status.
pub fn status_from_result(r: Result<(), ExtensionError>) -> (s: MongoExtensionStatus)
    ensures
        match r {
            Ok(_) => s is Success,
            Err(e) => s.spec_code() == e.spec_status_code() && s.spec_reason() == stored_reason(e.spec_status_reason()),
        },
{
    match r {
        Ok(()) => status_ok(),
        Err(e) => e.into_raw_status(),
    }
}

/// The status a passthrough stage reports for an error: code `-1` and the error's own text.
pub fn plain_error_status(e: &ExtensionError) -> (s: MongoExtensionStatus)
    ensures
        s.spec_code() == MONGO_EXTENSION_STATUS_RUNTIME_ERROR,
        s.spec_reason() == stored_reason(e.spec_message()),
{
    new_error_status(MONGO_EXTENSION_STATUS_RUNTIME_ERROR, e.to_string().as_str())
}

/// Handing the single AST node of an expansion to the host: the host array must have room for
/// exactly one element, which becomes an AST node.
pub fn expanded_transfer(host_array_size: usize) -> (r: Result<MongoExtensionAggStageNodeType, ExtensionError>)
    ensures
        host_array_size == 1 ==> r == Ok::<MongoExtensionAggStageNodeType, ExtensionError>(
            MongoExtensionAggStageNodeType::kAstNode,
        ),
        host_array_size != 1 ==> (r matches Err(ExtensionError::BadValue(m)) && m@ == "expanded array size mismatch"@),
{
    if host_array_size != 1 {
        return Err(ExtensionError::BadValue(String::from_str("expanded array size mismatch")));
    }
    Ok(MongoExtensionAggStageNodeType::kAstNode)
}

} // verus!
