use vstd::prelude::*;

verus! {

/// Why a vetting operation did not run to a plain success.
#[derive(Clone, Copy, Debug, PartialEq, Eq, Structural)]
pub enum WorkflowError {
    /// A pending request for the subject already exists.
    DuplicateRequest,
    /// The subject already holds the member role.
    AlreadyVerified,
    /// The actor lacks the admin capability.
    NotAuthorized,
    /// No pending request exists for the subject.
    NotFound,
    /// A role, removal or profile call to the platform failed.
    ExternalServiceFailure,
    /// A message could not be delivered.
    NotificationFailure,
}

} // verus!
