//! The error taxonomy of the GPU memory subsystem.

use vstd::prelude::*;

verus! {

/// Every failure the subsystem can report.
///
/// `AdapterUnavailable` and `DeviceRequestFailed` are fatal: the stage cannot
/// start without a device.  `CapabilityMissing`, `AlreadyMapped`, `MapTimeout`
/// and `AllocationFailed` are recoverable by the caller (retry, or fall back
/// to the explicit copy path).  `MalformedDescriptor` and
/// `NegotiatedBeforeCommit` are ordering or protocol errors fatal to the
/// stage instance.  `NotNegotiated` is recoverable at the pipeline level: the
/// stage reports failure for the offending buffer only.
#[derive(Clone, Copy, Debug, PartialEq, Eq, Structural)]
pub enum PipelineError {
    /// No GPU adapter matched the request.
    AdapterUnavailable,
    /// An adapter was found but refused the device request.
    DeviceRequestFailed,
    /// The operation needs a capability bit absent from the object's mask.
    CapabilityMissing,
    /// A second map was attempted while a view is still live.
    AlreadyMapped,
    /// The manual-mode poll loop exhausted its caller-supplied bound.
    MapTimeout,
    /// A fixed capability descriptor lacks a required field.
    MalformedDescriptor,
    /// An operation that needs committed descriptors ran before the commit.
    NegotiatedBeforeCommit,
    /// The incoming buffer does not match what negotiation agreed on.
    NotNegotiated,
    /// The device-side allocation failed.
    AllocationFailed,
}

impl PipelineError {
    /// Whether the pipeline may keep running after this error: per-buffer
    /// and retryable failures are recoverable, startup and protocol
    /// failures are not.
    pub fn is_recoverable(&self) -> (r: bool)
        ensures
            r == self.spec_is_recoverable(),
    {
        match self {
            PipelineError::CapabilityMissing => true,
            PipelineError::AlreadyMapped => true,
            PipelineError::MapTimeout => true,
            PipelineError::NotNegotiated => true,
            PipelineError::AllocationFailed => true,
            _ => false,
        }
    }

    /// Which errors the pipeline survives.
    pub open spec fn spec_is_recoverable(self) -> bool {
        self is CapabilityMissing || self is AlreadyMapped || self is MapTimeout
            || self is NotNegotiated || self is AllocationFailed
    }
}

} // verus!
