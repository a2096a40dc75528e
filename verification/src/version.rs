//! Host / extension API version negotiation.

use vstd::prelude::*;

use crate::sys::{
    MongoExtensionAPIVersion, MongoExtensionAPIVersionVector, MONGODB_EXTENSION_API_MAJOR_VERSION,
    MONGODB_EXTENSION_API_MINOR_VERSION,
};

verus! {

/// Extension API version this SDK targets (the `sys` major and minor constants).
#[allow(non_snake_case)]
pub fn EXTENSION_API_VERSION() -> (v: MongoExtensionAPIVersion)
    ensures
        v.major == MONGODB_EXTENSION_API_MAJOR_VERSION,
        v.minor == MONGODB_EXTENSION_API_MINOR_VERSION,
{
    MongoExtensionAPIVersion {
        major: MONGODB_EXTENSION_API_MAJOR_VERSION,
        minor: MONGODB_EXTENSION_API_MINOR_VERSION,
    }
}

/// A host slot serves an extension when the majors agree and the host minor is at least the
/// extension minor.
pub open spec fn slot_serves(host: MongoExtensionAPIVersion, ext: MongoExtensionAPIVersion) -> bool {
    host.major == ext.major && host.minor >= ext.minor
}

/// True iff some host slot serves the extension version.
pub open spec fn spec_host_supports(hosts: Seq<MongoExtensionAPIVersion>, ext: MongoExtensionAPIVersion) -> bool {
    exists|i: int| 0 <= i < hosts.len() && slot_serves(#[trigger] hosts[i], ext)
}

/// A host that lists the extension's own version supports it.
pub proof fn lemma_own_version_supported(hosts: Seq<MongoExtensionAPIVersion>, ext: MongoExtensionAPIVersion, i: int)
    requires
        0 <= i < hosts.len(),
        hosts[i] == ext,
    ensures
        spec_host_supports(hosts, ext),
{
    assert(slot_serves(hosts[i], ext));
}

/// More host slots never withdraw support, wherever they are added.
pub proof fn lemma_more_slots_keep_support(
    before: Seq<MongoExtensionAPIVersion>,
    after: Seq<MongoExtensionAPIVersion>,
    extra: Seq<MongoExtensionAPIVersion>,
    ext: MongoExtensionAPIVersion,
)
    requires
        spec_host_supports(before + after, ext),
    ensures
        spec_host_supports(before + extra + after, ext),
{
    let s = before + after;
    let t = before + extra + after;
    let i = choose|i: int| 0 <= i < s.len() && slot_serves(#[trigger] s[i], ext);
    if i < before.len() {
        assert(t[i] == s[i]);
    } else {
        assert(t[i + extra.len()] == s[i]);
    }
}

/// A host that supports an extension minor version supports every older minor of the same
/// major: minors are backward compatible, majors are not.
pub proof fn lemma_older_minor_supported(hosts: Seq<MongoExtensionAPIVersion>, ext: MongoExtensionAPIVersion, minor: u32)
    requires
        spec_host_supports(hosts, ext),
        minor <= ext.minor,
    ensures
        spec_host_supports(hosts, MongoExtensionAPIVersion { major: ext.major, minor }),
{
    let older = MongoExtensionAPIVersion { major: ext.major, minor };
    let i = choose|i: int| 0 <= i < hosts.len() && slot_serves(#[trigger] hosts[i], ext);
    assert(slot_serves(hosts[i], older));
}

/// Returns true if `host_versions` contains a compatible slot for `extension_version`.
pub fn host_supports_extension(
    host_versions: &MongoExtensionAPIVersionVector,
    extension_version: MongoExtensionAPIVersion,
) -> (r: bool)
    ensures
        r == spec_host_supports(host_versions.versions@, extension_version),
{
    let n = host_versions.versions.len();
    if n == 0 {
        return false;
    }
    let mut found_major = false;
    let mut found_minor = false;
    let mut i: usize = 0;
    while i < n
        invariant_except_break
            n == host_versions.versions@.len(),
            i <= n,
            !found_minor,
            forall|j: int| 0 <= j < i ==> !slot_serves(#[trigger] host_versions.versions@[j], extension_version),
            found_major == exists|j: int| 0 <= j < i && (#[trigger] host_versions.versions@[j]).major == extension_version.major,
        ensures
            found_minor ==> found_major && spec_host_supports(host_versions.versions@, extension_version),
            !found_minor ==> !spec_host_supports(host_versions.versions@, extension_version),
        decreases n - i,
    {
        let host = host_versions.versions[i];
        if host.major == extension_version.major {
            found_major = true;
            if host.minor >= extension_version.minor {
                found_minor = true;
                assert(slot_serves(host_versions.versions@[i as int], extension_version));
                break;
            }
        }
        i = i + 1;
    }
    found_major && found_minor
}

} // verus!
