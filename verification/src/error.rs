//! The ways in which the construction of an environment fails.

use vstd::prelude::*;

verus! {

/// Why the negotiation of an environment was abandoned. Every failure is final:
/// no step is retried and no fallback is attempted.
#[derive(Clone, Copy, Debug, PartialEq, Eq, Structural)]
pub enum EnvError {
    /// The window system refused to create the window.
    WindowCreationFailed,
    /// No presentation surface could be bound to the window.
    SurfaceCreationFailed,
    /// No adapter satisfies the compatibility and power constraints.
    NoCompatibleAdapter,
    /// The adapter refused a device and queue under the default requirements.
    DeviceRequestFailed,
}

} // verus!
