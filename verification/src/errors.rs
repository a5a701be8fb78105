//! The error taxonomy of the lifecycle controller and the callback bridge.

use vstd::prelude::*;

verus! {

/// Fatal failure of the initial connect operation. It is the only error that
/// propagates out of the controller: the process must exit non-zero with the
/// engine's reported cause.
pub struct StartupError {
    pub cause: String,
}

impl StartupError {
    /// The engine-reported cause, for the host to surface on standard error.
    pub fn message(&self) -> (r: &str)
        ensures
            r@ == self.cause@,
    {
        self.cause.as_str()
    }
}

/// Failure of the log sink's roll-to-new-file operation. Non-fatal by design:
/// the bridge records it and the session continues uninterrupted.
pub struct RotationError {
    pub cause: String,
}

/// An error surfaced asynchronously through the bridge's error-reporting
/// capability: either a rotation failure routed back through that single
/// channel, or any other error the tunnel engine reports. The bridge only
/// records these; it never acts on their semantics.
pub enum ErrorEvent {
    RotationFailed { cause: String },
    EngineReported { cause: String },
}

} // verus!
