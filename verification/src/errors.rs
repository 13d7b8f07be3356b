use vstd::prelude::*;
use crate::locator::UnknownObject;

verus! {

/// The HTTP-style status code with which the cluster API reports that the
/// object to be created already exists; it selects the update fallback.
pub const CONFLICT_STATUS: u16 = 409;

/// Manifest retrieval failed: a network failure or a non-success status.
#[derive(Debug)]
pub struct FetchError {
    pub message: String,
}

/// A failure reported by the cluster API transport: either a status answer
/// from the control plane, carrying its status code, or a transport-level
/// failure with no status at all.
#[derive(Debug)]
pub enum ClusterError {
    Status { code: u16, message: String },
    Transport { message: String },
}

/// The conflict signal: a status answer whose code says the object already
/// exists. Only this signal selects the update fallback; every other error
/// is fatal for its manifest.
pub open spec fn is_conflict(e: ClusterError) -> bool {
    e matches ClusterError::Status { code, .. } && code == CONFLICT_STATUS
}

impl ClusterError {
    /// Whether this error is the conflict signal.
    pub fn conflict(&self) -> (b: bool)
        ensures
            b == is_conflict(*self),
    {
        match self {
            ClusterError::Status { code, .. } => *code == CONFLICT_STATUS,
            ClusterError::Transport { .. } => false,
        }
    }
}

/// The underlying cause of a manifest's failure, by pipeline stage.
#[derive(Debug)]
pub enum DeployError {
    /// The manifest document could not be retrieved.
    Fetch { message: String },
    /// The manifest document is malformed.
    Decode,
    /// The decoded object carries no type descriptor.
    Unknown(UnknownObject),
    /// Creating the object failed with something other than the conflict
    /// signal.
    Create(ClusterError),
    /// The update fallback after a conflict failed.
    Update(ClusterError),
}

/// One component's failure: the component's name, the manifest reference at
/// which deployment stopped, and the underlying cause.
#[derive(Debug)]
pub struct ComponentFailure {
    pub component: String,
    pub reference: String,
    pub error: DeployError,
}

/// The aggregated failures of one reconciliation: every failed component's
/// cause, in completion order, never truncated to the first one.
#[derive(Debug)]
pub struct JoinErrors {
    pub errors: Vec<ComponentFailure>,
}

} // verus!
