//! Reconciliation core of the ephemeral-roles operator: decides, for a
//! watched desired-version resource, how each component's manifests are
//! fetched, decoded, located and applied, and how the components' outcomes
//! are aggregated. All I/O is performed by the surroundings, which carry out
//! the actions the core asks for and feed the answers back in.

use vstd::prelude::*;

pub mod deployer;
pub mod ephemeral_roles;
pub mod errors;
pub mod handler;
pub mod locator;
pub mod manifest;
pub mod version;

verus! {

} // verus!
