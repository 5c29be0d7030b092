//! The environment that a completed negotiation yields.

use vstd::prelude::*;
use crate::surface::PhysicalSize;
use crate::surface::SurfaceCapabilities;
use crate::surface::SurfaceConfig;
use crate::surface::has_srgb;
use crate::surface::srgb_encoded;

verus! {

/// The identity of a window, as the window system numbers it.
#[derive(Clone, Copy, Debug, PartialEq, Eq, Structural)]
pub struct WindowId(pub u64);

/// What is settled about a rendering environment once it is negotiated: the
/// window it presents to and the configuration its surface carries. The
/// handles to the surface, the device and the queue stay with the caller that
/// performed the negotiation.
#[derive(Clone, Copy, Debug, PartialEq, Eq)]
pub struct Environment {
    pub config: SurfaceConfig,
    pub window: WindowId,
}

impl Environment {
    /// The environment of `window` whose surface reported `capabilities` and
    /// whose size was measured as `size`.
    pub open spec fn negotiated(
        window: WindowId,
        capabilities: SurfaceCapabilities,
        size: PhysicalSize,
    ) -> Environment
        recommends
            capabilities.usable(),
    {
        Environment { config: SurfaceConfig::derived(capabilities, size), window }
    }

    /// Settles the environment of `window` from what its surface supports and
    /// from the physical size measured on the window after its creation. The
    /// configuration takes that measured size, whatever size was asked for
    /// when the window was created.
    pub fn new(window: WindowId, capabilities: &SurfaceCapabilities, size: PhysicalSize) -> (env:
        Environment)
        requires
            capabilities.usable(),
        ensures
            env == Environment::negotiated(window, *capabilities, size),
            env.window == window,
            env.config.width == size.width,
            env.config.height == size.height,
            has_srgb(capabilities.formats@) ==> srgb_encoded(env.config.format),
            !has_srgb(capabilities.formats@) ==> env.config.format == capabilities.formats@[0],
    {
        Environment { config: SurfaceConfig::derive(capabilities, size), window }
    }
}

} // verus!
