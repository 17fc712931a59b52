//! Errors of every operation.
use vstd::prelude::*;

verus! {

/// A failure reported by the remote service.
#[derive(Clone, Debug, PartialEq, Eq)]
pub struct RemoteError {
    /// Whether the service answered "not found" (read as: no active device).
    pub not_found: bool,
    /// The service's own description.
    pub message: String,
}

/// Why an operation failed.
#[derive(Clone, Debug, PartialEq, Eq)]
pub enum OperationError {
    /// The text is not a reference of the expected shape.
    MalformedReference,
    /// The kind keyword of a reference is not one of the six kinds.
    UnknownKind,
    /// A web link was asked for but the text is not one.
    InvalidReference,
    /// A search that had to resolve one item found none.
    EmptySearchResult,
    /// No device has the requested name.
    DeviceNotFound,
    /// The service reports no devices at all.
    NoDevicesFound,
    /// The chosen device has no id to transfer playback to.
    MissingDeviceId,
    /// Nothing is being played.
    NoActivePlayback,
    /// The content has no child items that could be queued one by one.
    QueueUnsupported,
    /// Queueing the children of a context stopped at the first failing call;
    /// the calls before it stand.
    QueueExpansionPartialFailure(RemoteError),
    /// A remote call failed.
    Remote(RemoteError),
    /// A reply arrived that does not answer the pending request.
    UnexpectedReply,
}

} // verus!
