//! Typed domain events.
//!
//! The translator turns backend events into these; external systems
//! consume them.  Logical quantities are exact rationals, so an event
//! carries precisely the value the contracts speak about.

use vstd::prelude::*;
use crate::entity::Entity;
use crate::geometry::IVec2;
use crate::geometry::LogicalPoint;
use crate::geometry::LogicalPx;
use crate::geometry::ScaleFactor;

verus! {

/// A window's logical size has changed.
#[derive(Clone, Copy, Debug, PartialEq, Eq, Structural)]
pub struct WindowResized {
    pub entity: Entity,
    /// The new logical width of the window.
    pub width: LogicalPx,
    /// The new logical height of the window.
    pub height: LogicalPx,
}

/// The window should redraw even if the event loop is idle.
#[derive(Clone, Copy, Debug, PartialEq, Eq, Structural)]
pub struct RequestRedraw;

/// A new window was created.
#[derive(Clone, Copy, Debug, PartialEq, Eq, Structural)]
pub struct WindowCreated {
    pub entity: Entity,
}

/// The operating system requested that a window be closed.
#[derive(Clone, Copy, Debug, PartialEq, Eq, Structural)]
pub struct WindowCloseRequested {
    pub entity: Entity,
}

/// A window was closed; its record disappears one cycle later.
#[derive(Clone, Copy, Debug, PartialEq, Eq, Structural)]
pub struct WindowClosed {
    pub entity: Entity,
}

/// The cursor moved over a window.
#[derive(Clone, Copy, Debug, PartialEq, Eq, Structural)]
pub struct CursorMoved {
    /// Window that the cursor moved inside.
    pub entity: Entity,
    /// The cursor position in logical pixels, bottom-left origin.
    pub position: LogicalPoint,
}

/// The cursor entered a window.
#[derive(Clone, Copy, Debug, PartialEq, Eq, Structural)]
pub struct CursorEntered {
    pub entity: Entity,
}

/// The cursor left a window.
#[derive(Clone, Copy, Debug, PartialEq, Eq, Structural)]
pub struct CursorLeft {
    pub entity: Entity,
}

/// A window received a character.
#[derive(Clone, Copy, Debug, PartialEq, Eq, Structural)]
pub struct ReceivedCharacter {
    pub entity: Entity,
    pub char: char,
}

/// A window gained or lost focus.
#[derive(Clone, Copy, Debug, PartialEq, Eq, Structural)]
pub struct WindowFocused {
    pub entity: Entity,
    /// Whether it gained (true) or lost (false) focus.
    pub focused: bool,
}

/// A window's effective scale factor changed.
#[derive(Clone, Copy, Debug, PartialEq, Eq, Structural)]
pub struct WindowScaleFactorChanged {
    pub entity: Entity,
    /// The new scale factor.
    pub scale_factor: ScaleFactor,
}

/// The backend reported a new scale factor for a window, whether or not
/// an override keeps the effective factor unchanged.
#[derive(Clone, Copy, Debug, PartialEq, Eq, Structural)]
pub struct WindowBackendScaleFactorChanged {
    pub entity: Entity,
    pub scale_factor: ScaleFactor,
}

/// Files being dragged and dropped on a window.
#[derive(Clone, Debug)]
pub enum FileDragAndDrop {
    DroppedFile {
        /// Window the file was dropped into.
        entity: Entity,
        /// Path to the file that was dropped in.
        path_buf: String,
    },
    HoveredFile {
        /// Window a file is possibly going to be dropped into.
        entity: Entity,
        /// Path to the file that might be dropped in.
        path_buf: String,
    },
    HoveredFileCancelled {
        /// Window that had a cancelled file drop.
        entity: Entity,
    },
}

/// A window was repositioned, in physical pixels.
#[derive(Clone, Copy, Debug, PartialEq, Eq, Structural)]
pub struct WindowMoved {
    pub entity: Entity,
    /// Where the window moved to, in physical pixels.
    pub position: IVec2,
}

/// A mouse button, re-shaped from the backend's encoding.
#[derive(Clone, Copy, Debug, PartialEq, Eq, Structural)]
pub enum MouseButton {
    Left,
    Right,
    Middle,
    Other(u16),
}

/// A key press or release, re-shaped from the backend's encoding.
#[derive(Clone, Copy, Debug, PartialEq, Eq, Structural)]
pub struct KeyboardInput {
    pub scan_code: u32,
    /// The backend's key code, when the key has one.
    pub key_code: Option<u32>,
    pub pressed: bool,
}

/// A mouse button press or release.
#[derive(Clone, Copy, Debug, PartialEq, Eq, Structural)]
pub struct MouseButtonInput {
    pub button: MouseButton,
    pub pressed: bool,
}

/// The unit a mouse-wheel delta is measured in.
#[derive(Clone, Copy, Debug, PartialEq, Eq, Structural)]
pub enum MouseScrollUnit {
    Line,
    Pixel,
}

/// A mouse-wheel movement.  Deltas are in thousandths of the unit, so a
/// fractional backend delta survives re-shaping without floating point.
#[derive(Clone, Copy, Debug, PartialEq, Eq, Structural)]
pub struct MouseWheel {
    pub unit: MouseScrollUnit,
    pub x_milli: i64,
    pub y_milli: i64,
}

/// The phase of a touch.
#[derive(Clone, Copy, Debug, PartialEq, Eq, Structural)]
pub enum TouchPhase {
    Started,
    Moved,
    Ended,
    Cancelled,
}

/// A touch, with its location in logical pixels, bottom-left origin.
#[derive(Clone, Copy, Debug, PartialEq, Eq, Structural)]
pub struct TouchInput {
    pub phase: TouchPhase,
    pub position: LogicalPoint,
    pub finger_id: u64,
}

/// Every event the translator can emit for one backend event, in the
/// order they are produced.
#[derive(Clone, Debug)]
pub enum DomainEvent {
    Created(WindowCreated),
    Closed(WindowClosed),
    Resized(WindowResized),
    CloseRequested(WindowCloseRequested),
    Moved(WindowMoved),
    CursorMoved(CursorMoved),
    CursorEntered(CursorEntered),
    CursorLeft(CursorLeft),
    ReceivedCharacter(ReceivedCharacter),
    Focused(WindowFocused),
    ScaleFactorChanged(WindowScaleFactorChanged),
    BackendScaleFactorChanged(WindowBackendScaleFactorChanged),
    FileDragAndDrop(FileDragAndDrop),
    Keyboard(KeyboardInput),
    MouseButton(MouseButtonInput),
    MouseWheel(MouseWheel),
    Touch(TouchInput),
}

} // verus!
