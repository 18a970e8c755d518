//! A cross-platform windowing abstraction: one logical window type backed by
//! a platform-specific primitive, a builder that accumulates construction
//! parameters, a build-action hook that can intercept native handle creation,
//! and an event loop that translates native messages into abstract window
//! events under a two-state control-flow register.
//!
//! The platform-neutral core lives here and is verified; the per-OS glue
//! (native window system calls) sits outside the library and drives this core.
use vstd::prelude::*;

pub mod window;

verus! {

/// The window backend a build of the library targets.
#[derive(Clone, Copy, Debug, PartialEq, Eq, Structural)]
pub enum Platform {
    Windows,
    Macos,
    XLib,
    Wayland,
}

/// The operating system a build is configured for, as the build glue
/// detects it.
#[derive(Clone, Copy, Debug, PartialEq, Eq, Structural)]
pub enum BuildOs {
    Windows,
    Macos,
    Linux,
}

/// Which platform backend the environment selects: Windows and macOS decide
/// by operating system alone; on Linux a Wayland display takes precedence
/// over an X11 display, and with neither present no backend is enabled.
pub open spec fn spec_platform_choice(
    os: BuildOs,
    wayland_display: bool,
    x11_display: bool,
) -> Option<Platform> {
    match os {
        BuildOs::Windows => Some(Platform::Windows),
        BuildOs::Macos => Some(Platform::Macos),
        BuildOs::Linux => if wayland_display {
            Some(Platform::Wayland)
        } else if x11_display {
            Some(Platform::XLib)
        } else {
            None
        },
    }
}

/// Resolves the platform backend from the environment signals: the target
/// operating system and whether a Wayland or X11 display is reachable.
/// The caller reads those signals; this function alone decides.
pub fn get_platform(os: BuildOs, wayland_display: bool, x11_display: bool) -> (r: Option<
    Platform,
>)
    ensures
        r == spec_platform_choice(os, wayland_display, x11_display),
{
    match os {
        BuildOs::Windows => Some(Platform::Windows),
        BuildOs::Macos => Some(Platform::Macos),
        BuildOs::Linux => {
            if wayland_display {
                Some(Platform::Wayland)
            } else if x11_display {
                Some(Platform::XLib)
            } else {
                None
            }
        },
    }
}

} // verus!
