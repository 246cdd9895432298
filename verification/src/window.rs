//! The window record's component types.
//!
//! Each field of a window record is a small type of its own with an
//! explicit default, so that a record can be assembled field by field and
//! each field tracked for changes independently.

use vstd::prelude::*;
use crate::geometry::IVec2;
use crate::geometry::LogicalPx;
use crate::geometry::PhysicalPoint;
use crate::geometry::ScaleFactor;
use crate::geometry::to_logical;

verus! {

/// Presentation mode for a window: when a finished frame is shown.
#[derive(Clone, Copy, Debug, PartialEq, Eq, Structural)]
pub enum PresentMode {
    /// Pick a vsynced mode from what the platform offers.
    AutoVsync,
    /// Pick a low-latency mode from what the platform offers.
    AutoNoVsync,
    /// Present immediately; tearing may be observed.
    Immediate,
    /// Present at the next vertical blank, submitting without delay.
    Mailbox,
    /// Present at the next vertical blank, capped at the refresh rate.
    Fifo,
}

impl Default for PresentMode {
    fn default() -> (m: Self)
        ensures
            m == PresentMode::Fifo,
    {
        PresentMode::Fifo
    }
}

/// The way a window is displayed.
#[derive(Clone, Copy, Debug, PartialEq, Eq, Structural)]
pub enum WindowMode {
    /// An ordinary window of the requested size.
    Windowed,
    /// A borderless window covering the full screen.
    BorderlessFullscreen,
    /// Exclusive fullscreen at the supported size closest to the request.
    SizedFullscreen,
    /// Exclusive fullscreen at the largest supported size.
    Fullscreen,
}

impl Default for WindowMode {
    fn default() -> (m: Self)
        ensures
            m == WindowMode::Windowed,
    {
        WindowMode::Windowed
    }
}

/// Marker component denoting a record as a window.
#[derive(Clone, Copy, Debug, PartialEq, Eq, Structural)]
pub struct Window;

impl Default for Window {
    fn default() -> (w: Self)
        ensures
            w == Window,
    {
        Window
    }
}

/// The cursor images a window can ask the backend for.
#[derive(Clone, Copy, Debug, PartialEq, Eq, Structural)]
pub enum CursorIcon {
    Default,
    Crosshair,
    Hand,
    Arrow,
    Move,
    Text,
    Wait,
    Help,
    Progress,
    NotAllowed,
    EwResize,
    NsResize,
    NeswResize,
    NwseResize,
}

/// Data about the window's cursor: icon, visibility, and lock state.
#[derive(Clone, Copy, Debug)]
pub struct Cursor {
    icon: CursorIcon,
    visible: bool,
    locked: bool,
}

impl Cursor {
    pub closed spec fn spec_icon(self) -> CursorIcon {
        self.icon
    }

    pub closed spec fn spec_visible(self) -> bool {
        self.visible
    }

    pub closed spec fn spec_locked(self) -> bool {
        self.locked
    }

    /// Creates a new [`Cursor`].
    pub fn new(icon: CursorIcon, visible: bool, locked: bool) -> (c: Self)
        ensures
            c.spec_icon() == icon,
            c.spec_visible() == visible,
            c.spec_locked() == locked,
    {
        Self { icon, visible, locked }
    }

    /// The current cursor icon.
    pub fn icon(&self) -> (r: CursorIcon)
        ensures
            r == self.spec_icon(),
    {
        self.icon
    }

    /// Whether the cursor is visible.
    pub fn visible(&self) -> (r: bool)
        ensures
            r == self.spec_visible(),
    {
        self.visible
    }

    /// Whether the cursor is locked to the window.
    pub fn locked(&self) -> (r: bool)
        ensures
            r == self.spec_locked(),
    {
        self.locked
    }

    /// Set the cursor icon.
    pub fn set_icon(&mut self, icon: CursorIcon)
        ensures
            final(self).spec_icon() == icon,
            final(self).spec_visible() == old(self).spec_visible(),
            final(self).spec_locked() == old(self).spec_locked(),
    {
        self.icon = icon;
    }

    /// Set whether the cursor is visible.
    pub fn set_visible(&mut self, visible: bool)
        ensures
            final(self).spec_icon() == old(self).spec_icon(),
            final(self).spec_visible() == visible,
            final(self).spec_locked() == old(self).spec_locked(),
    {
        self.visible = visible;
    }

    /// Set whether the cursor is locked to the window.
    pub fn set_locked(&mut self, locked: bool)
        ensures
            final(self).spec_icon() == old(self).spec_icon(),
            final(self).spec_visible() == old(self).spec_visible(),
            final(self).spec_locked() == locked,
    {
        self.locked = locked;
    }
}

impl Default for Cursor {
    /// A visible, unlocked cursor with the default icon.
    fn default() -> (c: Self)
        ensures
            c.spec_icon() == CursorIcon::Default,
            c.spec_visible(),
            !c.spec_locked(),
    {
        Cursor { icon: CursorIcon::Default, visible: true, locked: false }
    }
}

/// The cursor position within a window, in physical pixels with a
/// bottom-left origin; absent while the pointer is outside the window.
#[derive(Clone, Copy, Debug)]
pub struct CursorPosition {
    pub physical_cursor_position: Option<PhysicalPoint>,
}

impl CursorPosition {
    pub open spec fn spec_physical_position(self) -> Option<PhysicalPoint> {
        self.physical_cursor_position
    }

    /// Cursor coordinates stay within a window of what a backend can
    /// report, so that the coordinate flip cannot overflow.
    pub open spec fn wf(self) -> bool {
        match self.spec_physical_position() {
            Some(p) => -0x200000000 <= p.x <= 0x200000000 && -0x200000000 <= p.y <= 0x200000000,
            None => true,
        }
    }

    /// Creates a new [`CursorPosition`].
    pub fn new(physical_cursor_position: Option<PhysicalPoint>) -> (c: Self)
        ensures
            c.spec_physical_position() == physical_cursor_position,
    {
        Self { physical_cursor_position }
    }

    /// The current cursor position, in physical pixels.
    pub fn physical_position(&self) -> (r: Option<PhysicalPoint>)
        ensures
            r == self.spec_physical_position(),
    {
        self.physical_cursor_position
    }

    /// Set the cursor's position, in physical pixels.
    pub fn set(&mut self, position: Option<PhysicalPoint>)
        ensures
            final(self).spec_physical_position() == position,
    {
        self.physical_cursor_position = position;
    }
}

impl Default for CursorPosition {
    /// The pointer starts outside the window.
    fn default() -> (c: Self)
        ensures
            c.spec_physical_position() is None,
    {
        CursorPosition { physical_cursor_position: None }
    }
}

/// The association of a record with its native window, kept as the opaque
/// identifier the backend assigned when the window was created.
#[derive(Clone, Copy, Debug, PartialEq, Eq, Structural)]
pub struct WindowHandle {
    pub raw_window_handle: u64,
}

impl WindowHandle {
    pub open spec fn spec_raw(self) -> u64 {
        self.raw_window_handle
    }

    /// Creates a new [`WindowHandle`] from the backend's window identifier.
    pub fn new(raw_window_handle: u64) -> (h: Self)
        ensures
            h.spec_raw() == raw_window_handle,
    {
        Self { raw_window_handle }
    }

    /// The backend's identifier for this window.
    pub fn raw_window_handle(&self) -> (r: u64)
        ensures
            r == self.spec_raw(),
    {
        self.raw_window_handle
    }
}

/// Which monitor a centered window should be centered on.
#[derive(Clone, Copy, Debug, PartialEq, Eq, Structural)]
pub enum MonitorSelection {
    /// The monitor the window is currently on.
    Current,
    /// The system's primary monitor.
    Primary,
    /// The monitor at this index in the backend's enumeration order.
    Number(usize),
}

/// Where a window should be placed.
#[derive(Clone, Copy, Debug, PartialEq, Eq, Structural)]
pub enum WindowPosition {
    /// The window manager decides.
    Automatic,
    /// Centered on the selected monitor.
    Centered(MonitorSelection),
    /// The top-left corner sits at this position, in logical pixels,
    /// with (0,0) the top-left corner of screen space.
    At(IVec2),
}

impl WindowPosition {
    /// Creates a new [`WindowPosition`] at a concrete position.
    pub fn new(position: IVec2) -> (p: Self)
        ensures
            p == WindowPosition::At(position),
    {
        Self::At(position)
    }

    /// Set the position to a specific point.
    pub fn set(&mut self, position: IVec2)
        ensures
            *final(self) == WindowPosition::At(position),
    {
        *self = WindowPosition::At(position);
    }

    /// Center the window on a specific monitor.
    pub fn center(&mut self, monitor: MonitorSelection)
        ensures
            *final(self) == WindowPosition::Centered(monitor),
    {
        *self = WindowPosition::Centered(monitor);
    }
}

impl Default for WindowPosition {
    fn default() -> (p: Self)
        ensures
            p == WindowPosition::Automatic,
    {
        WindowPosition::Automatic
    }
}

/// A window's sizes: the requested size in logical pixels, the physical
/// size the backend last acknowledged, and the scale factor relating the
/// two, with an optional override of the backend-reported factor.
#[derive(Clone, Copy, Debug)]
pub struct WindowResolution {
    pub requested_width: u32,
    pub requested_height: u32,
    pub physical_width: u32,
    pub physical_height: u32,
    pub scale_factor_override: Option<ScaleFactor>,
    pub scale_factor: ScaleFactor,
}

impl WindowResolution {
    pub open spec fn spec_requested_width(self) -> int {
        self.requested_width as int
    }

    pub open spec fn spec_requested_height(self) -> int {
        self.requested_height as int
    }

    pub open spec fn spec_physical_width(self) -> int {
        self.physical_width as int
    }

    pub open spec fn spec_physical_height(self) -> int {
        self.physical_height as int
    }

    pub open spec fn spec_scale_factor_override(self) -> Option<ScaleFactor> {
        self.scale_factor_override
    }

    pub open spec fn spec_base_scale_factor(self) -> ScaleFactor {
        self.scale_factor
    }

    /// The factor in effect: the override when one is set, otherwise the
    /// backend-reported factor.
    pub open spec fn spec_scale_factor(self) -> ScaleFactor {
        match self.spec_scale_factor_override() {
            Some(s) => s,
            None => self.spec_base_scale_factor(),
        }
    }

    pub open spec fn wf(self) -> bool {
        &&& self.spec_base_scale_factor().wf()
        &&& match self.spec_scale_factor_override() {
            Some(s) => s.wf(),
            None => true,
        }
    }

    /// Creates a new [`WindowResolution`] from a requested logical size,
    /// starting with the identity scale factor.
    pub fn new(requested_width: u32, requested_height: u32) -> (r: Self)
        ensures
            r.wf(),
            r.spec_requested_width() == requested_width,
            r.spec_requested_height() == requested_height,
            r.spec_physical_width() == requested_width,
            r.spec_physical_height() == requested_height,
            r.spec_scale_factor_override() is None,
            r.spec_base_scale_factor().spec_num() == 1,
            r.spec_base_scale_factor().spec_den() == 1,
    {
        Self {
            requested_width,
            requested_height,
            physical_width: requested_width,
            physical_height: requested_height,
            scale_factor_override: None,
            scale_factor: ScaleFactor::one(),
        }
    }

    /// Creates a new [`WindowResolution`] whose scale factor overrides
    /// whatever the backend reports.
    pub fn new_with_scale_factor_override(
        requested_width: u32,
        requested_height: u32,
        scale_factor_override: ScaleFactor,
    ) -> (r: Self)
        requires
            scale_factor_override.wf(),
        ensures
            r.wf(),
            r.spec_requested_width() == requested_width,
            r.spec_requested_height() == requested_height,
            r.spec_physical_width() == requested_width,
            r.spec_physical_height() == requested_height,
            r.spec_scale_factor_override() == Some(scale_factor_override),
            r.spec_base_scale_factor().spec_num() == 1,
            r.spec_base_scale_factor().spec_den() == 1,
    {
        Self {
            requested_width,
            requested_height,
            physical_width: requested_width,
            physical_height: requested_height,
            scale_factor_override: Some(scale_factor_override),
            scale_factor: ScaleFactor::one(),
        }
    }

    /// The requested width of the window's client area, in logical pixels.
    pub fn requested_width(&self) -> (r: u32)
        ensures
            r == self.spec_requested_width(),
    {
        self.requested_width
    }

    /// The requested height of the window's client area, in logical pixels.
    pub fn requested_height(&self) -> (r: u32)
        ensures
            r == self.spec_requested_height(),
    {
        self.requested_height
    }

    /// The whole number of logical pixels of the client area's width,
    /// rounded down, saturating at `u32::MAX`.
    pub open spec fn spec_logical_width_floor(self) -> int {
        vstd::math::min(
            self.spec_physical_width() * self.spec_scale_factor().spec_den()
                / self.spec_scale_factor().spec_num(),
            u32::MAX as int,
        )
    }

    /// The whole number of logical pixels of the client area's height,
    /// rounded down, saturating at `u32::MAX`.
    pub open spec fn spec_logical_height_floor(self) -> int {
        vstd::math::min(
            self.spec_physical_height() * self.spec_scale_factor().spec_den()
                / self.spec_scale_factor().spec_num(),
            u32::MAX as int,
        )
    }

    /// The window's client area width in logical pixels: the physical
    /// width divided, exactly, by the scale factor.
    pub fn width(&self) -> (r: LogicalPx)
        requires
            self.wf(),
        ensures
            r.wf(),
            r.spec_num() == self.spec_physical_width() * self.spec_scale_factor().spec_den(),
            r.spec_den() == self.spec_scale_factor().spec_num(),
            r.spec_num() >= 0,
    {
        to_logical(self.physical_width, self.scale_factor())
    }

    /// The window's client area height in logical pixels: the physical
    /// height divided, exactly, by the scale factor.
    pub fn height(&self) -> (r: LogicalPx)
        requires
            self.wf(),
        ensures
            r.wf(),
            r.spec_num() == self.spec_physical_height() * self.spec_scale_factor().spec_den(),
            r.spec_den() == self.spec_scale_factor().spec_num(),
            r.spec_num() >= 0,
    {
        to_logical(self.physical_height, self.scale_factor())
    }

    /// The window's client area width in physical pixels.
    pub fn physical_width(&self) -> (r: u32)
        ensures
            r == self.spec_physical_width(),
    {
        self.physical_width
    }

    /// The window's client area height in physical pixels.
    pub fn physical_height(&self) -> (r: u32)
        ensures
            r == self.spec_physical_height(),
    {
        self.physical_height
    }

    /// Whether the window has zero resolution (how a minimized window
    /// shows up on platforms that report no explicit minimize).
    pub fn zero(&self) -> (r: bool)
        ensures
            r == (self.spec_physical_width() == 0 && self.spec_physical_height() == 0),
    {
        self.physical_height == 0 && self.physical_width == 0
    }

    /// The ratio of physical pixels to logical pixels in effect.
    pub fn scale_factor(&self) -> (r: ScaleFactor)
        ensures
            r == self.spec_scale_factor(),
    {
        match self.scale_factor_override {
            Some(s) => s,
            None => self.scale_factor,
        }
    }

    /// The scale factor as the backend reported it, unaffected by any
    /// override.
    pub fn base_scale_factor(&self) -> (r: ScaleFactor)
        ensures
            r == self.spec_base_scale_factor(),
    {
        self.scale_factor
    }

    /// The override, when one is set.
    pub fn scale_factor_override(&self) -> (r: Option<ScaleFactor>)
        ensures
            r == self.spec_scale_factor_override(),
    {
        self.scale_factor_override
    }

    /// Set the requested logical resolution.
    pub fn set_requested_resolution(&mut self, width: u32, height: u32)
        ensures
            final(self).spec_requested_width() == width,
            final(self).spec_requested_height() == height,
            final(self).spec_physical_width() == old(self).spec_physical_width(),
            final(self).spec_physical_height() == old(self).spec_physical_height(),
            final(self).spec_scale_factor_override() == old(self).spec_scale_factor_override(),
            final(self).spec_base_scale_factor() == old(self).spec_base_scale_factor(),
    {
        self.requested_width = width;
        self.requested_height = height;
    }

    /// Set the physical resolution, as acknowledged by the backend.
    pub fn set_physical_resolution(&mut self, width: u32, height: u32)
        ensures
            final(self).spec_physical_width() == width,
            final(self).spec_physical_height() == height,
            final(self).spec_requested_width() == old(self).spec_requested_width(),
            final(self).spec_requested_height() == old(self).spec_requested_height(),
            final(self).spec_scale_factor_override() == old(self).spec_scale_factor_override(),
            final(self).spec_base_scale_factor() == old(self).spec_base_scale_factor(),
    {
        self.physical_width = width;
        self.physical_height = height;
    }

    /// Set the backend-reported scale factor.
    pub fn set_scale_factor(&mut self, scale_factor: ScaleFactor)
        requires
            scale_factor.wf(),
        ensures
            final(self).spec_base_scale_factor() == scale_factor,
            final(self).spec_scale_factor_override() == old(self).spec_scale_factor_override(),
            final(self).spec_requested_width() == old(self).spec_requested_width(),
            final(self).spec_requested_height() == old(self).spec_requested_height(),
            final(self).spec_physical_width() == old(self).spec_physical_width(),
            final(self).spec_physical_height() == old(self).spec_physical_height(),
    {
        self.scale_factor = scale_factor;
    }

    /// Set or clear the scale factor override.
    pub fn set_scale_factor_override(&mut self, scale_factor_override: Option<ScaleFactor>)
        requires
            match scale_factor_override {
                Some(s) => s.wf(),
                None => true,
            },
        ensures
            final(self).spec_scale_factor_override() == scale_factor_override,
            final(self).spec_base_scale_factor() == old(self).spec_base_scale_factor(),
            final(self).spec_requested_width() == old(self).spec_requested_width(),
            final(self).spec_requested_height() == old(self).spec_requested_height(),
            final(self).spec_physical_width() == old(self).spec_physical_width(),
            final(self).spec_physical_height() == old(self).spec_physical_height(),
    {
        self.scale_factor_override = scale_factor_override;
    }
}

impl Default for WindowResolution {
    fn default() -> (r: Self)
        ensures
            r.wf(),
            r.spec_requested_width() == 1280,
            r.spec_requested_height() == 720,
            r.spec_physical_width() == 1280,
            r.spec_physical_height() == 720,
            r.spec_scale_factor_override() is None,
            r.spec_base_scale_factor().spec_num() == 1,
            r.spec_base_scale_factor().spec_den() == 1,
    {
        WindowResolution::new(1280, 720)
    }
}

/// The title of the window.
#[derive(Debug)]
pub struct WindowTitle {
    title: String,
}

impl Clone for WindowTitle {
    fn clone(&self) -> (r: Self)
        ensures
            r == *self,
    {
        WindowTitle { title: self.title.clone() }
    }
}

impl WindowTitle {
    pub closed spec fn spec_title(self) -> Seq<char> {
        self.title@
    }

    /// Creates a new [`WindowTitle`].
    pub fn new(title: String) -> (t: Self)
        ensures
            t.spec_title() == title@,
    {
        WindowTitle { title }
    }

    /// Sets the window's title.
    pub fn set(&mut self, title: String)
        ensures
            final(self).spec_title() == title@,
    {
        self.title = title;
    }

    /// The title of the window as a string slice.
    pub fn as_str(&self) -> (r: &str)
        ensures
            r@ == self.spec_title(),
    {
        self.title.as_str()
    }
}

/// Whether a window has decorations (title bar, borders, buttons).
#[derive(Clone, Copy, Debug, PartialEq, Eq, Structural)]
pub enum WindowDecorations {
    /// The window has decorations.
    Decorated,
    /// The window has no decorations.
    Undecorated,
}

impl WindowDecorations {
    /// Whether the window is decorated.
    pub fn decorated(&self) -> (r: bool)
        ensures
            r == (*self == WindowDecorations::Decorated),
    {
        match self {
            WindowDecorations::Decorated => true,
            WindowDecorations::Undecorated => false,
        }
    }
}

impl Default for WindowDecorations {
    fn default() -> (d: Self)
        ensures
            d == WindowDecorations::Decorated,
    {
        WindowDecorations::Decorated
    }
}

/// Whether this window currently has input focus.
#[derive(Clone, Copy, Debug, PartialEq, Eq, Structural)]
pub struct WindowFocus(pub bool);

impl WindowFocus {
    pub open spec fn spec_focused(self) -> bool {
        self.0
    }

    /// Whether the window has focus.
    pub fn focused(&self) -> (r: bool)
        ensures
            r == self.spec_focused(),
    {
        self.0
    }

    /// Set whether this window has focus.
    pub fn set(&mut self, focused: bool)
        ensures
            final(self).spec_focused() == focused,
    {
        self.0 = focused;
    }
}

impl Default for WindowFocus {
    fn default() -> (f: Self)
        ensures
            !f.spec_focused(),
    {
        WindowFocus(false)
    }
}

/// Whether the user may resize the window.
#[derive(Clone, Copy, Debug, PartialEq, Eq, Structural)]
pub enum WindowResizable {
    /// The user may resize the window.
    Resizable,
    /// The user may not resize the window.
    Unresizable,
}

impl WindowResizable {
    /// Whether the window can be resized.
    pub fn resizable(&self) -> (r: bool)
        ensures
            r == (*self == WindowResizable::Resizable),
    {
        match self {
            WindowResizable::Resizable => true,
            WindowResizable::Unresizable => false,
        }
    }
}

impl Default for WindowResizable {
    fn default() -> (r: Self)
        ensures
            r == WindowResizable::Resizable,
    {
        WindowResizable::Resizable
    }
}

/// Whether the window's background is transparent.
#[derive(Clone, Copy, Debug, PartialEq, Eq, Structural)]
pub enum WindowTransparency {
    /// Opaque background.
    Opaque,
    /// See-through background.
    Transparent,
}

impl WindowTransparency {
    /// Whether this window is transparent.
    pub fn transparent(&self) -> (r: bool)
        ensures
            r == (*self == WindowTransparency::Transparent),
    {
        match self {
            WindowTransparency::Opaque => false,
            WindowTransparency::Transparent => true,
        }
    }
}

impl Default for WindowTransparency {
    fn default() -> (t: Self)
        ensures
            t == WindowTransparency::Opaque,
    {
        WindowTransparency::Opaque
    }
}

/// The states a window can be in.
#[derive(Clone, Copy, Debug, PartialEq, Eq, Structural)]
pub enum WindowState {
    /// Neither maximized nor minimized.
    Normal,
    /// Minimized to the task bar.
    Minimized,
    /// Taking up the maximum space allowed without becoming fullscreen.
    Maximized,
}

impl WindowState {
    /// Whether the state is `Normal`.
    pub fn normal(&self) -> (r: bool)
        ensures
            r == (*self == WindowState::Normal),
    {
        match self {
            WindowState::Normal => true,
            _ => false,
        }
    }

    /// Whether the state is `Maximized`.
    pub fn maximized(&self) -> (r: bool)
        ensures
            r == (*self == WindowState::Maximized),
    {
        match self {
            WindowState::Maximized => true,
            _ => false,
        }
    }

    /// Whether the state is `Minimized`.
    pub fn minimized(&self) -> (r: bool)
        ensures
            r == (*self == WindowState::Minimized),
    {
        match self {
            WindowState::Minimized => true,
            _ => false,
        }
    }
}

impl Default for WindowState {
    fn default() -> (s: Self)
        ensures
            s == WindowState::Normal,
    {
        WindowState::Normal
    }
}

/// How a window relates to a web canvas element; inert on other platforms.
#[derive(Debug)]
pub struct WindowCanvas {
    canvas: Option<String>,
    fit_canvas_to_parent: bool,
}

impl Clone for WindowCanvas {
    fn clone(&self) -> (r: Self)
        ensures
            r == *self,
    {
        WindowCanvas {
            canvas: match &self.canvas {
                Some(s) => Some(s.clone()),
                None => None,
            },
            fit_canvas_to_parent: self.fit_canvas_to_parent,
        }
    }
}

impl WindowCanvas {
    pub closed spec fn spec_canvas(self) -> Option<Seq<char>> {
        match self.canvas {
            Some(s) => Some(s@),
            None => None,
        }
    }

    pub closed spec fn spec_fit_canvas_to_parent(self) -> bool {
        self.fit_canvas_to_parent
    }

    /// Creates a new [`WindowCanvas`].
    pub fn new(canvas: Option<String>, fit_canvas_to_parent: bool) -> (c: Self)
        ensures
            c.spec_fit_canvas_to_parent() == fit_canvas_to_parent,
            match canvas {
                Some(s) => c.spec_canvas() == Some(s@),
                None => c.spec_canvas() is None,
            },
    {
        Self { canvas, fit_canvas_to_parent }
    }

    /// The selector of the canvas element to attach to, if any.
    pub fn canvas(&self) -> (r: Option<&String>)
        ensures
            match r {
                Some(s) => self.spec_canvas() == Some(s@),
                None => self.spec_canvas() is None,
            },
    {
        match &self.canvas {
            Some(s) => Some(s),
            None => None,
        }
    }

    /// Whether the canvas should track its parent element's size.
    pub fn fit_canvas_to_parent(&self) -> (r: bool)
        ensures
            r == self.spec_fit_canvas_to_parent(),
    {
        self.fit_canvas_to_parent
    }
}

impl Default for WindowCanvas {
    fn default() -> (c: Self)
        ensures
            c.spec_canvas() is None,
            !c.spec_fit_canvas_to_parent(),
    {
        WindowCanvas { canvas: None, fit_canvas_to_parent: false }
    }
}

/// The size limits on a window, in logical pixels.  A maximum of
/// `u32::MAX` stands for "unbounded".
#[derive(Clone, Copy, Debug, PartialEq, Eq, Structural)]
pub struct WindowResizeConstraints {
    /// The minimum width the window can have.
    pub min_width: u32,
    /// The minimum height the window can have.
    pub min_height: u32,
    /// The maximum width the window can have.
    pub max_width: u32,
    /// The maximum height the window can have.
    pub max_height: u32,
}

/// The normalized form of a set of resize constraints: each minimum is at
/// least one, and a maximum below its minimum is raised to that minimum.
pub open spec fn spec_check_constraints(c: WindowResizeConstraints) -> WindowResizeConstraints {
    let min_width = if c.min_width >= 1 {
        c.min_width
    } else {
        1u32
    };
    let min_height = if c.min_height >= 1 {
        c.min_height
    } else {
        1u32
    };
    let max_width = if c.max_width < min_width {
        min_width
    } else {
        c.max_width
    };
    let max_height = if c.max_height < min_height {
        min_height
    } else {
        c.max_height
    };
    WindowResizeConstraints { min_width, min_height, max_width, max_height }
}

impl WindowResizeConstraints {
    /// The normalized constraints: minima at least one, maxima no smaller
    /// than the minima.  An inverted axis is a warning condition, not an
    /// error; its maximum is raised to the minimum.
    #[must_use]
    pub fn check_constraints(&self) -> (r: Self)
        ensures
            r == spec_check_constraints(*self),
            r.min_width >= 1,
            r.min_height >= 1,
            r.max_width >= r.min_width,
            r.max_height >= r.min_height,
    {
        let min_width: u32 = if self.min_width >= 1 {
            self.min_width
        } else {
            1
        };
        let min_height: u32 = if self.min_height >= 1 {
            self.min_height
        } else {
            1
        };
        let max_width: u32 = if self.max_width < min_width {
            min_width
        } else {
            self.max_width
        };
        let max_height: u32 = if self.max_height < min_height {
            min_height
        } else {
            self.max_height
        };
        WindowResizeConstraints { min_width, min_height, max_width, max_height }
    }
}

impl Default for WindowResizeConstraints {
    fn default() -> (c: Self)
        ensures
            c.min_width == 180,
            c.min_height == 120,
            c.max_width == u32::MAX,
            c.max_height == u32::MAX,
    {
        WindowResizeConstraints {
            min_width: 180,
            min_height: 120,
            max_width: u32::MAX,
            max_height: u32::MAX,
        }
    }
}

/// Normalizing constraints whose maximum width falls below the minimum
/// width yields an axis pinned to the minimum, and the minimum is at
/// least one; the same holds for the height axis.
pub proof fn lemma_check_constraints_inverted_axis(c: WindowResizeConstraints)
    ensures
        c.max_width < c.min_width ==> spec_check_constraints(c).max_width
            == spec_check_constraints(c).min_width,
        c.max_height < c.min_height ==> spec_check_constraints(c).max_height
            == spec_check_constraints(c).min_height,
        spec_check_constraints(c).min_width >= 1,
        spec_check_constraints(c).min_height >= 1,
{
}

/// Normalization is idempotent: applying it twice equals applying it once.
pub proof fn lemma_check_constraints_idempotent(c: WindowResizeConstraints)
    ensures
        spec_check_constraints(spec_check_constraints(c)) == spec_check_constraints(c),
{
}

} // verus!
