//! Planned backend calls.
//!
//! The push and lifecycle routines return these as plain values; the
//! adapter around the library performs the matching native call for each
//! and logs any failure without aborting the cycle.

use vstd::prelude::*;
use crate::monitor::VideoMode;
use crate::window::CursorIcon;
use crate::window::WindowTitle;

verus! {

/// One backend setter call, addressed by the native window identifier.
#[derive(Debug)]
pub enum BackendCommand {
    /// Set the window's title.
    SetTitle { window: u64, title: WindowTitle },
    /// Leave fullscreen.
    SetWindowed { window: u64 },
    /// Enter borderless fullscreen on the window's current monitor.
    SetBorderlessFullscreen { window: u64 },
    /// Enter exclusive fullscreen in this video mode.
    SetExclusiveFullscreen { window: u64, mode: VideoMode },
    /// Set the inner size, in physical pixels.
    SetInnerSize { window: u64, width: u32, height: u32 },
    /// Move the pointer, in physical pixels with the backend's top-left
    /// origin.
    SetCursorPosition { window: u64, x: i64, y: i64 },
    /// Set the cursor icon.
    SetCursorIcon { window: u64, icon: CursorIcon },
    /// Grab or release the cursor.
    SetCursorGrab { window: u64, locked: bool },
    /// Show or hide the cursor.
    SetCursorVisible { window: u64, visible: bool },
    /// Set the minimum inner size, in logical pixels.
    SetMinInnerSize { window: u64, width: u32, height: u32 },
    /// Set the maximum inner size, in logical pixels.
    SetMaxInnerSize { window: u64, width: u32, height: u32 },
    /// Move the window, in physical pixels.
    SetOuterPosition { window: u64, x: i64, y: i64 },
    /// Maximize or restore the window.
    SetMaximized { window: u64, maximized: bool },
    /// Minimize or restore the window.
    SetMinimized { window: u64, minimized: bool },
    /// Destroy the native window.
    DestroyWindow { window: u64 },
}

} // verus!
