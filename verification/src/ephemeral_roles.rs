use vstd::prelude::*;

verus! {

/// One deployable unit within a desired version: a human-readable version tag
/// (not used for any ordering decision) and the ordered list of manifest
/// references to apply. The order of `files` is significant: manifests are
/// applied in listed order, and a later manifest may depend on an earlier one.
#[derive(Debug)]
pub struct Component {
    pub version: String,
    pub files: Vec<String>,
}

/// Spec of the ERVersion custom resource: the named components that make up
/// the desired software version, keyed by component name.
#[derive(Debug)]
pub struct ERVersionSpec {
    pub components: Vec<(String, Component)>,
}

/// Status of the ERVersion custom resource.
#[derive(Debug)]
pub struct ERVersionStatus {}

/// A snapshot of one ERVersion resource as delivered by a watch event.
#[derive(Debug)]
pub struct ERVersion {
    pub name: String,
    pub spec: ERVersionSpec,
    pub status: Option<ERVersionStatus>,
}

impl ERVersionSpec {
    /// Component names are unique within one version.
    pub open spec fn wf(self) -> bool {
        forall|i: int, j: int|
            0 <= i < j < self.components@.len() ==> self.components@[i].0@ != self.components@[j].0@
    }
}

} // verus!
