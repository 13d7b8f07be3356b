use vstd::prelude::*;

verus! {

/// Specification of a single-component version resource: the deployable unit's
/// name together with its human-readable version tag.
#[derive(Debug)]
pub struct VersionSpec {
    pub name: String,
    pub version: String,
}

/// Reported status of a version resource: whether its rollout has completed.
#[derive(Debug)]
pub struct VersionStatus {
    pub is_deployed: bool,
}

} // verus!
