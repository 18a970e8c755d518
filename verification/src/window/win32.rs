//! Translation of Win32 message traffic into native message batches.
//!
//! A Win32 message pump retrieves a queued message and dispatches it through
//! the window procedure. Structural traffic (creation, paint, destroy)
//! arrives through the window procedure, while raw key traffic is read off
//! the retrieved message itself, so one pump iteration yields one batch with
//! up to two classifiable parts. The window procedure relays exactly the
//! structural codes below and leaves everything else to default processing.
use vstd::prelude::*;

use crate::window::message::{KeyMessage, NativeMessage, StructuralMessage};

verus! {

/// Win32 message code: a window is being created.
pub const WM_CREATE: u32 = 0x0001;

/// Win32 message code: a window is being destroyed.
pub const WM_DESTROY: u32 = 0x0002;

/// Win32 message code: a window must repaint.
pub const WM_PAINT: u32 = 0x000F;

/// Win32 message code: a non-system key was pressed.
pub const WM_KEYDOWN: u32 = 0x0100;

/// Win32 message code: a non-system key was released.
pub const WM_KEYUP: u32 = 0x0101;

/// The structural part a window-procedure message code stands for, if any.
pub open spec fn spec_structural_from_win32(code: u32) -> Option<StructuralMessage> {
    if code == WM_CREATE {
        Some(StructuralMessage::FrameSetup)
    } else if code == WM_PAINT {
        Some(StructuralMessage::Paint)
    } else if code == WM_DESTROY {
        Some(StructuralMessage::Destroy)
    } else {
        None
    }
}

/// The key part a retrieved message stands for, if any. The low half of the
/// message's word-sized parameter is the virtual key code.
pub open spec fn spec_key_from_win32(code: u32, wparam: u64) -> Option<KeyMessage> {
    if code == WM_KEYDOWN {
        Some(KeyMessage::Down(wparam as u32))
    } else if code == WM_KEYUP {
        Some(KeyMessage::Up(wparam as u32))
    } else {
        None
    }
}

/// Whether the window procedure relays a message code for classification
/// instead of handing it to default processing.
pub open spec fn spec_win32_relays(code: u32) -> bool {
    code == WM_CREATE || code == WM_PAINT || code == WM_DESTROY
}

/// Decides, for the window procedure, whether a message code is relayed for
/// classification; all other codes get default processing.
pub fn win32_relays(code: u32) -> (r: bool)
    ensures
        r == spec_win32_relays(code),
{
    code == WM_CREATE || code == WM_PAINT || code == WM_DESTROY
}

/// Builds the native message batch of one pump iteration from the message
/// code the window procedure relayed, the message code of the retrieved
/// message, and the retrieved message's word-sized parameter.
pub fn message_from_win32(relayed: u32, retrieved: u32, wparam: u64) -> (r: NativeMessage)
    ensures
        r.structural == spec_structural_from_win32(relayed),
        r.key == spec_key_from_win32(retrieved, wparam),
{
    let structural: Option<StructuralMessage> = if relayed == WM_CREATE {
        Some(StructuralMessage::FrameSetup)
    } else if relayed == WM_PAINT {
        Some(StructuralMessage::Paint)
    } else if relayed == WM_DESTROY {
        Some(StructuralMessage::Destroy)
    } else {
        None
    };
    let key: Option<KeyMessage> = if retrieved == WM_KEYDOWN {
        Some(KeyMessage::Down(#[verifier::truncate] (wparam as u32)))
    } else if retrieved == WM_KEYUP {
        Some(KeyMessage::Up(#[verifier::truncate] (wparam as u32)))
    } else {
        None
    };
    NativeMessage { structural, key }
}

} // verus!
