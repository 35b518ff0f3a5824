//! The runtime's version.

use vstd::prelude::*;

verus! {

pub const AUTHORING_VERSION: u32 = 3;

pub const SPEC_VERSION: u32 = 84;

pub const IMPL_VERSION: u32 = 84;

/// Names and numbers that identify a runtime: extrinsics name the spec version
/// they were made for.
#[derive(Clone, Debug)]
pub struct RuntimeVersion {
    pub spec_name: String,
    pub impl_name: String,
    pub authoring_version: u32,
    pub spec_version: u32,
    pub impl_version: u32,
}

/// The version of the native runtime, with the authoring versions it can also
/// author blocks for.
#[derive(Clone, Debug)]
pub struct NativeVersion {
    pub runtime_version: RuntimeVersion,
    pub can_author_with: Vec<u32>,
}

/// This runtime's version.
pub fn runtime_version() -> (v: RuntimeVersion)
    ensures
        v.spec_name@ == "node"@,
        v.impl_name@ == "darwinia-node"@,
        v.authoring_version == AUTHORING_VERSION,
        v.spec_version == SPEC_VERSION,
        v.impl_version == IMPL_VERSION,
{
    RuntimeVersion {
        spec_name: "node".to_string(),
        impl_name: "darwinia-node".to_string(),
        authoring_version: AUTHORING_VERSION,
        spec_version: SPEC_VERSION,
        impl_version: IMPL_VERSION,
    }
}

/// The native version: this runtime's version, authoring with no other.
pub fn native_version() -> (v: NativeVersion)
    ensures
        v.runtime_version.spec_name@ == "node"@,
        v.runtime_version.impl_name@ == "darwinia-node"@,
        v.runtime_version.authoring_version == AUTHORING_VERSION,
        v.runtime_version.spec_version == SPEC_VERSION,
        v.runtime_version.impl_version == IMPL_VERSION,
        v.can_author_with@.len() == 0,
{
    NativeVersion { runtime_version: runtime_version(), can_author_with: Vec::new() }
}

} // verus!
