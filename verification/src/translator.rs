//! The native event translator.
//!
//! The backend delivers one event at a time, in order.  Each event maps to
//! a record mutation and/or typed domain events; afterwards the window
//! state is recomputed from the backend's maximized flag and from whether
//! the resolution is degenerate, so the stored state stays authoritative
//! even on platforms without explicit minimize or maximize notifications.
//! The whole translation is a function from the old record and the event
//! to the new record, the events, and an optional rewritten size for the
//! backend's resize negotiation.

use vstd::prelude::*;
use crate::event::CursorEntered;
use crate::event::CursorLeft;
use crate::event::CursorMoved;
use crate::event::DomainEvent;
use crate::event::FileDragAndDrop;
use crate::event::KeyboardInput;
use crate::event::MouseButton;
use crate::event::MouseButtonInput;
use crate::event::MouseScrollUnit;
use crate::event::MouseWheel;
use crate::event::ReceivedCharacter;
use crate::event::TouchInput;
use crate::event::TouchPhase;
use crate::event::WindowBackendScaleFactorChanged;
use crate::event::WindowCloseRequested;
use crate::event::WindowFocused;
use crate::event::WindowMoved;
use crate::event::WindowResized;
use crate::event::WindowScaleFactorChanged;
use crate::geometry::IVec2;
use crate::geometry::LogicalPoint;
use crate::geometry::LogicalPx;
use crate::geometry::PhysicalPoint;
use crate::geometry::ScaleFactor;
use crate::geometry::spec_to_physical;
use crate::geometry::to_physical;
use crate::registry::WinitWindows;
use crate::registry::spec_id_maps;
use crate::window::CursorPosition;
use crate::window::WindowFocus;
use crate::window::WindowPosition;
use crate::window::WindowResolution;
use crate::window::WindowState;
use crate::world::ChangeFlags;
use crate::world::WindowRecord;
use crate::world::WindowWorld;
use crate::world::lemma_wf_after_field_update;

verus! {

/// One event as the backend reports it, re-shaped into plain values.
/// Coordinates are physical pixels in the backend's top-left-origin
/// convention; wheel deltas are thousandths of a unit.
#[derive(Debug)]
pub enum BackendWindowEvent {
    /// The window's physical size changed.
    Resized { width: u32, height: u32 },
    /// The user asked to close the window.
    CloseRequested,
    /// A key was pressed or released.
    KeyboardInput { scan_code: u32, key_code: Option<u32>, pressed: bool },
    /// The pointer moved over the window.
    CursorMoved { x: i64, y: i64 },
    /// The pointer entered the window.
    CursorEntered,
    /// The pointer left the window.
    CursorLeft,
    /// A mouse button was pressed or released.
    MouseInput { button: MouseButton, pressed: bool },
    /// The wheel scrolled by lines.
    MouseWheelLine { x_milli: i64, y_milli: i64 },
    /// The wheel scrolled by pixels.
    MouseWheelPixel { x_milli: i64, y_milli: i64 },
    /// A touch, with its physical position.
    Touch { phase: TouchPhase, x: i64, y: i64, finger_id: u64 },
    /// The window received a character.
    ReceivedCharacter { character: char },
    /// The backend reports a new scale factor together with the physical
    /// size it proposes; the callback may rewrite the proposal.
    ScaleFactorChanged { scale_factor: ScaleFactor, inner_width: u32, inner_height: u32 },
    /// The window gained or lost focus.
    Focused { focused: bool },
    /// A file was dropped into the window.
    DroppedFile { path: String },
    /// A file hovers over the window.
    HoveredFile { path: String },
    /// The hovering file left.
    HoveredFileCancelled,
    /// The window moved, in physical pixels.
    Moved { x: i32, y: i32 },
}

/// Machine bounds on event payloads: coordinates fit comfortably below
/// the coordinate-flip budget, and a reported scale factor is a valid
/// ratio.
pub open spec fn spec_event_wf(event: BackendWindowEvent) -> bool {
    match event {
        BackendWindowEvent::CursorMoved { x, y } => -0x80000000 <= x <= 0x80000000 && -0x80000000
            <= y <= 0x80000000,
        BackendWindowEvent::Touch { x, y, .. } => -0x80000000 <= x <= 0x80000000 && -0x80000000 <= y
            <= 0x80000000,
        BackendWindowEvent::ScaleFactorChanged { scale_factor, .. } => scale_factor.wf(),
        _ => true,
    }
}

/// The exact logical quantity a physical count corresponds to under a
/// scale factor.
pub open spec fn spec_logical(physical: int, s: ScaleFactor) -> LogicalPx {
    LogicalPx { num: (physical * s.spec_den()) as i64, den: s.num }
}

/// Whether two physical sizes under their scale factors denote different
/// logical sizes, compared as exact rationals.
pub open spec fn spec_logical_differs(
    new_phys: int,
    new_f: ScaleFactor,
    old_phys: int,
    old_f: ScaleFactor,
) -> bool {
    new_phys * new_f.spec_den() * old_f.spec_num() != old_phys * old_f.spec_den()
        * new_f.spec_num()
}

/// Recompute the window state from the backend's maximized flag and from
/// a degenerate resolution (both dimensions zero means minimized), and
/// record a change only if the stored state differs.
pub open spec fn spec_state_fixup(r: WindowRecord, is_maximized: bool) -> WindowRecord {
    let should_be = if is_maximized {
        WindowState::Maximized
    } else if r.resolution.spec_physical_width() == 0 && r.resolution.spec_physical_height()
        == 0 {
        WindowState::Minimized
    } else {
        WindowState::Normal
    };
    if r.state != should_be {
        WindowRecord { state: should_be, changed: ChangeFlags { state: true, ..r.changed }, ..r }
    } else {
        r
    }
}

/// The record, events, and proposal rewrite a scale-factor report leads
/// to.  The backend-reported factor is always recorded and announced as a
/// backend change; with an override in force the override-driven target
/// size is handed back to the resize negotiation, otherwise an effective
/// factor change is announced; either way a Resized event follows exactly
/// when the logical size differs from the previous one.
#[verifier::opaque]
pub open spec fn spec_scale_changed(
    r: WindowRecord,
    scale_factor: ScaleFactor,
    inner_width: u32,
    inner_height: u32,
) -> (WindowRecord, Seq<DomainEvent>, Option<(u32, u32)>) {
    let prior = r.resolution.spec_scale_factor();
    let backend_ev = DomainEvent::BackendScaleFactorChanged(
        WindowBackendScaleFactorChanged { entity: r.entity, scale_factor },
    );
    match r.resolution.spec_scale_factor_override() {
        Some(forced) => {
            let fw = spec_to_physical(
                LogicalPx { num: r.resolution.requested_width as i64, den: 1 },
                forced,
            );
            let fh = spec_to_physical(
                LogicalPx { num: r.resolution.requested_height as i64, den: 1 },
                forced,
            );
            let resized = spec_logical_differs(
                fw,
                forced,
                r.resolution.spec_physical_width(),
                prior,
            ) || spec_logical_differs(fh, forced, r.resolution.spec_physical_height(), prior);
            let r1 = WindowRecord {
                resolution: WindowResolution {
                    scale_factor,
                    physical_width: fw as u32,
                    physical_height: fh as u32,
                    ..r.resolution
                },
                changed: ChangeFlags { resolution: true, ..r.changed },
                ..r
            };
            let events = seq![backend_ev] + (if resized {
                seq![
                    DomainEvent::Resized(
                        WindowResized {
                            entity: r.entity,
                            width: spec_logical(fw, forced),
                            height: spec_logical(fh, forced),
                        },
                    ),
                ]
            } else {
                Seq::empty()
            });
            (r1, events, Some((fw as u32, fh as u32)))
        },
        None => {
            let factor_changed = prior.spec_num() * scale_factor.spec_den()
                != scale_factor.spec_num() * prior.spec_den();
            let resized = spec_logical_differs(
                inner_width as int,
                scale_factor,
                r.resolution.spec_physical_width(),
                prior,
            ) || spec_logical_differs(
                inner_height as int,
                scale_factor,
                r.resolution.spec_physical_height(),
                prior,
            );
            let r1 = WindowRecord {
                resolution: WindowResolution {
                    scale_factor,
                    physical_width: inner_width,
                    physical_height: inner_height,
                    ..r.resolution
                },
                changed: ChangeFlags { resolution: true, ..r.changed },
                ..r
            };
            let events = seq![backend_ev] + (if factor_changed {
                seq![
                    DomainEvent::ScaleFactorChanged(
                        WindowScaleFactorChanged { entity: r.entity, scale_factor },
                    ),
                ]
            } else {
                Seq::empty()
            }) + (if resized {
                seq![
                    DomainEvent::Resized(
                        WindowResized {
                            entity: r.entity,
                            width: spec_logical(inner_width as int, scale_factor),
                            height: spec_logical(inner_height as int, scale_factor),
                        },
                    ),
                ]
            } else {
                Seq::empty()
            });
            (r1, events, None)
        },
    }
}

/// The application of one backend event to one record, before the state
/// recomputation: the new record, the domain events, and the rewritten
/// size proposal when a scale-factor override forces one.
#[verifier::opaque]
pub open spec fn spec_apply_event(
    r: WindowRecord,
    event: BackendWindowEvent,
    flip_touch_y: bool,
) -> (WindowRecord, Seq<DomainEvent>, Option<(u32, u32)>) {
    let s = r.resolution.spec_scale_factor();
    let outcome: (WindowRecord, Seq<DomainEvent>, Option<(u32, u32)>) = match event {
        BackendWindowEvent::Resized { width, height } => (
            WindowRecord {
                resolution: WindowResolution {
                    physical_width: width,
                    physical_height: height,
                    ..r.resolution
                },
                changed: ChangeFlags { resolution: true, ..r.changed },
                ..r
            },
            seq![
                DomainEvent::Resized(
                    WindowResized {
                        entity: r.entity,
                        width: spec_logical(width as int, s),
                        height: spec_logical(height as int, s),
                    },
                ),
            ],
            None,
        ),
        BackendWindowEvent::CloseRequested => (
            r,
            seq![DomainEvent::CloseRequested(WindowCloseRequested { entity: r.entity })],
            None,
        ),
        BackendWindowEvent::KeyboardInput { scan_code, key_code, pressed } => (
            r,
            seq![DomainEvent::Keyboard(KeyboardInput { scan_code, key_code, pressed })],
            None,
        ),
        BackendWindowEvent::CursorMoved { x, y } => {
            let flipped = r.resolution.spec_physical_height() - y;
            (
                WindowRecord {
                    cursor_position: CursorPosition {
                        physical_cursor_position: Some(PhysicalPoint { x, y: flipped as i64 }),
                    },
                    changed: ChangeFlags { cursor_position: true, ..r.changed },
                    ..r
                },
                seq![
                    DomainEvent::CursorMoved(
                        CursorMoved {
                            entity: r.entity,
                            position: LogicalPoint {
                                x: spec_logical(x as int, s),
                                y: spec_logical(flipped, s),
                            },
                        },
                    ),
                ],
                None,
            )
        },
        BackendWindowEvent::CursorEntered => (
            r,
            seq![DomainEvent::CursorEntered(CursorEntered { entity: r.entity })],
            None,
        ),
        BackendWindowEvent::CursorLeft => (
            WindowRecord {
                cursor_position: CursorPosition { physical_cursor_position: None },
                changed: ChangeFlags { cursor_position: true, ..r.changed },
                ..r
            },
            seq![DomainEvent::CursorLeft(CursorLeft { entity: r.entity })],
            None,
        ),
        BackendWindowEvent::MouseInput { button, pressed } => (
            r,
            seq![DomainEvent::MouseButton(MouseButtonInput { button, pressed })],
            None,
        ),
        BackendWindowEvent::MouseWheelLine { x_milli, y_milli } => (
            r,
            seq![
                DomainEvent::MouseWheel(
                    MouseWheel { unit: MouseScrollUnit::Line, x_milli, y_milli },
                ),
            ],
            None,
        ),
        BackendWindowEvent::MouseWheelPixel { x_milli, y_milli } => (
            r,
            seq![
                DomainEvent::MouseWheel(
                    MouseWheel { unit: MouseScrollUnit::Pixel, x_milli, y_milli },
                ),
            ],
            None,
        ),
        BackendWindowEvent::Touch { phase, x, y, finger_id } => {
            let y_phys = if flip_touch_y {
                r.resolution.spec_physical_height() - y
            } else {
                y as int
            };
            (
                r,
                seq![
                    DomainEvent::Touch(
                        TouchInput {
                            phase,
                            position: LogicalPoint {
                                x: spec_logical(x as int, s),
                                y: spec_logical(y_phys, s),
                            },
                            finger_id,
                        },
                    ),
                ],
                None,
            )
        },
        BackendWindowEvent::ReceivedCharacter { character } => (
            r,
            seq![
                DomainEvent::ReceivedCharacter(
                    ReceivedCharacter { entity: r.entity, char: character },
                ),
            ],
            None,
        ),
        BackendWindowEvent::ScaleFactorChanged { scale_factor, inner_width, inner_height } => {
            spec_scale_changed(r, scale_factor, inner_width, inner_height)
        },
        BackendWindowEvent::Focused { focused } => (
            WindowRecord { focus: WindowFocus(focused), ..r },
            seq![DomainEvent::Focused(WindowFocused { entity: r.entity, focused })],
            None,
        ),
        BackendWindowEvent::DroppedFile { path } => (
            r,
            seq![
                DomainEvent::FileDragAndDrop(
                    FileDragAndDrop::DroppedFile { entity: r.entity, path_buf: path },
                ),
            ],
            None,
        ),
        BackendWindowEvent::HoveredFile { path } => (
            r,
            seq![
                DomainEvent::FileDragAndDrop(
                    FileDragAndDrop::HoveredFile { entity: r.entity, path_buf: path },
                ),
            ],
            None,
        ),
        BackendWindowEvent::HoveredFileCancelled => (
            r,
            seq![
                DomainEvent::FileDragAndDrop(
                    FileDragAndDrop::HoveredFileCancelled { entity: r.entity },
                ),
            ],
            None,
        ),
        BackendWindowEvent::Moved { x, y } => (
            WindowRecord {
                position: WindowPosition::At(IVec2 { x, y }),
                changed: ChangeFlags { position: true, ..r.changed },
                ..r
            },
            seq![DomainEvent::Moved(WindowMoved { entity: r.entity, position: IVec2 { x, y } })],
            None,
        ),
    };
    outcome
}

/// The translation of one backend event against one record: the event is
/// applied, then the window state is recomputed from the backend's
/// maximized flag.
pub open spec fn spec_translate(
    r: WindowRecord,
    event: BackendWindowEvent,
    is_maximized: bool,
    flip_touch_y: bool,
) -> (WindowRecord, Seq<DomainEvent>, Option<(u32, u32)>) {
    let applied = spec_apply_event(r, event, flip_touch_y);
    (spec_state_fixup(applied.0, is_maximized), applied.1, applied.2)
}

/// What translating one backend event produced.
#[derive(Debug)]
pub struct TranslationOutcome {
    /// Whether a record handled the event; an event for an unknown or
    /// stale window id is dropped, never fatal.
    pub handled: bool,
    /// The domain events, in emission order.
    pub events: Vec<DomainEvent>,
    /// The rewritten size for the backend's resize negotiation, present
    /// only when a scale-factor override forces a size.
    pub resize_override: Option<(u32, u32)>,
}

/// Whether two physical sizes under their scale factors denote different
/// logical sizes.
fn logical_differs(new_phys: u32, new_f: ScaleFactor, old_phys: u32, old_f: ScaleFactor) -> (r:
    bool)
    requires
        new_f.wf(),
        old_f.wf(),
    ensures
        r == spec_logical_differs(new_phys as int, new_f, old_phys as int, old_f),
{
    proof {
        assert(0 <= new_phys * new_f.spec_den() <= 0xFFFFFFFF * 65536) by (nonlinear_arith)
            requires
                0 <= new_phys <= 0xFFFFFFFF,
                1 <= new_f.spec_den() <= 65536,
        ;
        assert(0 <= old_phys * old_f.spec_den() <= 0xFFFFFFFF * 65536) by (nonlinear_arith)
            requires
                0 <= old_phys <= 0xFFFFFFFF,
                1 <= old_f.spec_den() <= 65536,
        ;
        assert(0 <= new_phys * new_f.spec_den() * old_f.spec_num() <= 0xFFFFFFFF * 65536 * 65536)
            by (nonlinear_arith)
            requires
                0 <= new_phys * new_f.spec_den() <= 0xFFFFFFFF * 65536,
                1 <= old_f.spec_num() <= 65536,
        ;
        assert(0 <= old_phys * old_f.spec_den() * new_f.spec_num() <= 0xFFFFFFFF * 65536 * 65536)
            by (nonlinear_arith)
            requires
                0 <= old_phys * old_f.spec_den() <= 0xFFFFFFFF * 65536,
                1 <= new_f.spec_num() <= 65536,
        ;
    }
    (new_phys as u128) * (new_f.den as u128) * (old_f.num as u128) != (old_phys as u128) * (
    old_f.den as u128) * (new_f.num as u128)
}

/// Build the exact logical quantity for a physical count.
fn logical_of(physical: i64, s: ScaleFactor) -> (l: LogicalPx)
    requires
        s.wf(),
        -0x200000000 <= physical <= 0x200000000,
    ensures
        l == spec_logical(physical as int, s),
{
    proof {
        assert(-0x200000000 * 65536 <= physical * s.spec_den() <= 0x200000000 * 65536)
            by (nonlinear_arith)
            requires
                -0x200000000 <= physical <= 0x200000000,
                1 <= s.spec_den() <= 65536,
        ;
    }
    LogicalPx { num: physical * (s.den as i64), den: s.num }
}

/// Apply a backend scale-factor report to the record and produce the
/// events and the proposal rewrite it leads to.
fn apply_scale_factor_changed(
    record: &mut WindowRecord,
    scale_factor: ScaleFactor,
    inner_width: u32,
    inner_height: u32,
) -> (out: (Vec<DomainEvent>, Option<(u32, u32)>))
    requires
        old(record).wf(),
        scale_factor.wf(),
    ensures
        final(record).wf(),
        final(record).entity == old(record).entity,
        final(record).lifecycle == old(record).lifecycle,
        final(record).handle == old(record).handle,
        final(record).state == old(record).state,
        ({
            let t = spec_scale_changed(*old(record), scale_factor, inner_width, inner_height);
            &&& *final(record) == t.0
            &&& out.0@ == t.1
            &&& out.1 == t.2
        }),
{
    proof {
        reveal(spec_scale_changed);
    }
    let entity = record.entity;
    let mut events: Vec<DomainEvent> = Vec::new();
    events.push(
        DomainEvent::BackendScaleFactorChanged(
            WindowBackendScaleFactorChanged { entity, scale_factor },
        ),
    );
    let prior = record.resolution.scale_factor();
    let old_w = record.resolution.physical_width();
    let old_h = record.resolution.physical_height();
    record.resolution.scale_factor = scale_factor;
    record.changed.resolution = true;
    match record.resolution.scale_factor_override() {
        Some(forced) => {
            let fw = to_physical(LogicalPx::from_pixels(record.resolution.requested_width()), forced);
            let fh = to_physical(
                LogicalPx::from_pixels(record.resolution.requested_height()),
                forced,
            );
            let resized = logical_differs(fw, forced, old_w, prior) || logical_differs(
                fh,
                forced,
                old_h,
                prior,
            );
            record.resolution.physical_width = fw;
            record.resolution.physical_height = fh;
            if resized {
                events.push(
                    DomainEvent::Resized(
                        WindowResized {
                            entity,
                            width: logical_of(fw as i64, forced),
                            height: logical_of(fh as i64, forced),
                        },
                    ),
                );
            }
            (events, Some((fw, fh)))
        },
        None => {
            let factor_changed = !prior.same_ratio(&scale_factor);
            let resized = logical_differs(inner_width, scale_factor, old_w, prior)
                || logical_differs(inner_height, scale_factor, old_h, prior);
            record.resolution.physical_width = inner_width;
            record.resolution.physical_height = inner_height;
            if factor_changed {
                events.push(
                    DomainEvent::ScaleFactorChanged(
                        WindowScaleFactorChanged { entity, scale_factor },
                    ),
                );
            }
            if resized {
                events.push(
                    DomainEvent::Resized(
                        WindowResized {
                            entity,
                            width: logical_of(inner_width as i64, scale_factor),
                            height: logical_of(inner_height as i64, scale_factor),
                        },
                    ),
                );
            }
            (events, None)
        },
    }
}

/// Recompute the stored window state from the backend's maximized flag
/// and a degenerate resolution, marking a change only when it differs.
fn state_fixup(record: &mut WindowRecord, is_maximized: bool)
    ensures
        *final(record) == spec_state_fixup(*old(record), is_maximized),
{
    let should_be = if is_maximized {
        WindowState::Maximized
    } else if record.resolution.zero() {
        WindowState::Minimized
    } else {
        WindowState::Normal
    };
    if record.state != should_be {
        record.state = should_be;
        record.changed.state = true;
    }
}

/// Pointer and touch events.
pub open spec fn spec_is_pointer_event(event: BackendWindowEvent) -> bool {
    ||| event is CursorMoved
    ||| event is CursorEntered
    ||| event is CursorLeft
    ||| event is MouseInput
    ||| event is MouseWheelLine
    ||| event is MouseWheelPixel
    ||| event is Touch
}

/// Events about the window itself.
pub open spec fn spec_is_window_event(event: BackendWindowEvent) -> bool {
    ||| event is Resized
    ||| event is CloseRequested
    ||| event is ScaleFactorChanged
    ||| event is Focused
    ||| event is Moved
}

/// Keyboard, character, and file-drag events.
pub open spec fn spec_is_misc_event(event: BackendWindowEvent) -> bool {
    ||| event is KeyboardInput
    ||| event is ReceivedCharacter
    ||| event is DroppedFile
    ||| event is HoveredFile
    ||| event is HoveredFileCancelled
}

/// Apply a pointer or touch event.
#[verifier::rlimit(100)]
#[verifier::spinoff_prover]
fn apply_pointer_event(
    record: &mut WindowRecord,
    event: BackendWindowEvent,
    flip_touch_y: bool,
) -> (out: TranslationOutcome)
    requires
        old(record).wf(),
        spec_event_wf(event),
        spec_is_pointer_event(event),
    ensures
        final(record).wf(),
        final(record).entity == old(record).entity,
        final(record).lifecycle == old(record).lifecycle,
        final(record).handle == old(record).handle,
        out.handled,
        ({
            let t = spec_apply_event(*old(record), event, flip_touch_y);
            &&& *final(record) == t.0
            &&& out.events@ == t.1
            &&& out.resize_override == t.2
        }),
{
    proof {
        reveal(spec_apply_event);
    }
    let entity = record.entity;
    match event {
        BackendWindowEvent::CursorMoved { x, y } => {
            let s = record.resolution.scale_factor();
            let inner_height = record.resolution.physical_height();
            let flipped: i64 = inner_height as i64 - y;
            record.cursor_position.physical_cursor_position = Some(PhysicalPoint { x, y: flipped });
            record.changed.cursor_position = true;
            let ev = DomainEvent::CursorMoved(
                CursorMoved {
                    entity,
                    position: LogicalPoint { x: logical_of(x, s), y: logical_of(flipped, s) },
                },
            );
            TranslationOutcome { handled: true, events: vec![ev], resize_override: None }
        },
        BackendWindowEvent::CursorEntered => {
            let ev = DomainEvent::CursorEntered(CursorEntered { entity });
            TranslationOutcome { handled: true, events: vec![ev], resize_override: None }
        },
        BackendWindowEvent::CursorLeft => {
            record.cursor_position.physical_cursor_position = None;
            record.changed.cursor_position = true;
            let ev = DomainEvent::CursorLeft(CursorLeft { entity });
            TranslationOutcome { handled: true, events: vec![ev], resize_override: None }
        },
        BackendWindowEvent::MouseInput { button, pressed } => {
            let ev = DomainEvent::MouseButton(MouseButtonInput { button, pressed });
            TranslationOutcome { handled: true, events: vec![ev], resize_override: None }
        },
        BackendWindowEvent::MouseWheelLine { x_milli, y_milli } => {
            let ev = DomainEvent::MouseWheel(
                MouseWheel { unit: MouseScrollUnit::Line, x_milli, y_milli },
            );
            TranslationOutcome { handled: true, events: vec![ev], resize_override: None }
        },
        BackendWindowEvent::MouseWheelPixel { x_milli, y_milli } => {
            let ev = DomainEvent::MouseWheel(
                MouseWheel { unit: MouseScrollUnit::Pixel, x_milli, y_milli },
            );
            TranslationOutcome { handled: true, events: vec![ev], resize_override: None }
        },
        BackendWindowEvent::Touch { phase, x, y, finger_id } => {
            let s = record.resolution.scale_factor();
            let y_phys: i64 = if flip_touch_y {
                record.resolution.physical_height() as i64 - y
            } else {
                y
            };
            let ev = DomainEvent::Touch(
                TouchInput {
                    phase,
                    position: LogicalPoint { x: logical_of(x, s), y: logical_of(y_phys, s) },
                    finger_id,
                },
            );
            TranslationOutcome { handled: true, events: vec![ev], resize_override: None }
        },
        _ => unreached(),
    }
}

/// Apply an event about the window itself.
#[verifier::rlimit(100)]
#[verifier::spinoff_prover]
fn apply_window_level_event(
    record: &mut WindowRecord,
    event: BackendWindowEvent,
    flip_touch_y: bool,
) -> (out: TranslationOutcome)
    requires
        old(record).wf(),
        spec_event_wf(event),
        spec_is_window_event(event),
    ensures
        final(record).wf(),
        final(record).entity == old(record).entity,
        final(record).lifecycle == old(record).lifecycle,
        final(record).handle == old(record).handle,
        out.handled,
        ({
            let t = spec_apply_event(*old(record), event, flip_touch_y);
            &&& *final(record) == t.0
            &&& out.events@ == t.1
            &&& out.resize_override == t.2
        }),
{
    proof {
        reveal(spec_apply_event);
    }
    let entity = record.entity;
    match event {
        BackendWindowEvent::Resized { width, height } => {
            let s = record.resolution.scale_factor();
            record.resolution.physical_width = width;
            record.resolution.physical_height = height;
            record.changed.resolution = true;
            let ev = DomainEvent::Resized(
                WindowResized {
                    entity,
                    width: logical_of(width as i64, s),
                    height: logical_of(height as i64, s),
                },
            );
            TranslationOutcome { handled: true, events: vec![ev], resize_override: None }
        },
        BackendWindowEvent::CloseRequested => {
            let ev = DomainEvent::CloseRequested(WindowCloseRequested { entity });
            TranslationOutcome { handled: true, events: vec![ev], resize_override: None }
        },
        BackendWindowEvent::ScaleFactorChanged { scale_factor, inner_width, inner_height } => {
            let (events, resize_override) = apply_scale_factor_changed(
                record,
                scale_factor,
                inner_width,
                inner_height,
            );
            TranslationOutcome { handled: true, events, resize_override }
        },
        BackendWindowEvent::Focused { focused } => {
            record.focus = WindowFocus(focused);
            let ev = DomainEvent::Focused(WindowFocused { entity, focused });
            TranslationOutcome { handled: true, events: vec![ev], resize_override: None }
        },
        BackendWindowEvent::Moved { x, y } => {
            record.position = WindowPosition::At(IVec2 { x, y });
            record.changed.position = true;
            let ev = DomainEvent::Moved(WindowMoved { entity, position: IVec2 { x, y } });
            TranslationOutcome { handled: true, events: vec![ev], resize_override: None }
        },
        _ => unreached(),
    }
}

/// Apply a keyboard, character, or file-drag event.
#[verifier::rlimit(100)]
#[verifier::spinoff_prover]
fn apply_misc_event(
    record: &mut WindowRecord,
    event: BackendWindowEvent,
    flip_touch_y: bool,
) -> (out: TranslationOutcome)
    requires
        old(record).wf(),
        spec_event_wf(event),
        spec_is_misc_event(event),
    ensures
        final(record).wf(),
        final(record).entity == old(record).entity,
        final(record).lifecycle == old(record).lifecycle,
        final(record).handle == old(record).handle,
        out.handled,
        ({
            let t = spec_apply_event(*old(record), event, flip_touch_y);
            &&& *final(record) == t.0
            &&& out.events@ == t.1
            &&& out.resize_override == t.2
        }),
{
    proof {
        reveal(spec_apply_event);
    }
    let entity = record.entity;
    match event {
        BackendWindowEvent::KeyboardInput { scan_code, key_code, pressed } => {
            let ev = DomainEvent::Keyboard(KeyboardInput { scan_code, key_code, pressed });
            TranslationOutcome { handled: true, events: vec![ev], resize_override: None }
        },
        BackendWindowEvent::ReceivedCharacter { character } => {
            let ev = DomainEvent::ReceivedCharacter(ReceivedCharacter { entity, char: character });
            TranslationOutcome { handled: true, events: vec![ev], resize_override: None }
        },
        BackendWindowEvent::DroppedFile { path } => {
            let ev = DomainEvent::FileDragAndDrop(
                FileDragAndDrop::DroppedFile { entity, path_buf: path },
            );
            TranslationOutcome { handled: true, events: vec![ev], resize_override: None }
        },
        BackendWindowEvent::HoveredFile { path } => {
            let ev = DomainEvent::FileDragAndDrop(
                FileDragAndDrop::HoveredFile { entity, path_buf: path },
            );
            TranslationOutcome { handled: true, events: vec![ev], resize_override: None }
        },
        BackendWindowEvent::HoveredFileCancelled => {
            let ev = DomainEvent::FileDragAndDrop(FileDragAndDrop::HoveredFileCancelled { entity });
            TranslationOutcome { handled: true, events: vec![ev], resize_override: None }
        },
        _ => unreached(),
    }
}

/// Apply one backend event to its record, producing the domain events
/// and the optional proposal rewrite; the state recomputation follows
/// separately.
fn apply_event(
    record: &mut WindowRecord,
    event: BackendWindowEvent,
    flip_touch_y: bool,
) -> (out: TranslationOutcome)
    requires
        old(record).wf(),
        spec_event_wf(event),
    ensures
        final(record).wf(),
        final(record).entity == old(record).entity,
        final(record).lifecycle == old(record).lifecycle,
        final(record).handle == old(record).handle,
        out.handled,
        ({
            let t = spec_apply_event(*old(record), event, flip_touch_y);
            &&& *final(record) == t.0
            &&& out.events@ == t.1
            &&& out.resize_override == t.2
        }),
{
    let kind: u8 = match &event {
        BackendWindowEvent::CursorMoved { .. } => 0,
        BackendWindowEvent::CursorEntered => 0,
        BackendWindowEvent::CursorLeft => 0,
        BackendWindowEvent::MouseInput { .. } => 0,
        BackendWindowEvent::MouseWheelLine { .. } => 0,
        BackendWindowEvent::MouseWheelPixel { .. } => 0,
        BackendWindowEvent::Touch { .. } => 0,
        BackendWindowEvent::Resized { .. } => 1,
        BackendWindowEvent::CloseRequested => 1,
        BackendWindowEvent::ScaleFactorChanged { .. } => 1,
        BackendWindowEvent::Focused { .. } => 1,
        BackendWindowEvent::Moved { .. } => 1,
        BackendWindowEvent::KeyboardInput { .. } => 2,
        BackendWindowEvent::ReceivedCharacter { .. } => 2,
        BackendWindowEvent::DroppedFile { .. } => 2,
        BackendWindowEvent::HoveredFile { .. } => 2,
        BackendWindowEvent::HoveredFileCancelled => 2,
    };
    if kind == 0 {
        apply_pointer_event(record, event, flip_touch_y)
    } else if kind == 1 {
        apply_window_level_event(record, event, flip_touch_y)
    } else {
        apply_misc_event(record, event, flip_touch_y)
    }
}

/// Translate one backend event against its record: apply the mutation,
/// produce the domain events, and recompute the window state afterwards.
pub fn handle_window_event(
    record: &mut WindowRecord,
    event: BackendWindowEvent,
    is_maximized: bool,
    flip_touch_y: bool,
) -> (out: TranslationOutcome)
    requires
        old(record).wf(),
        spec_event_wf(event),
    ensures
        final(record).wf(),
        final(record).entity == old(record).entity,
        final(record).lifecycle == old(record).lifecycle,
        final(record).handle == old(record).handle,
        out.handled,
        ({
            let t = spec_translate(*old(record), event, is_maximized, flip_touch_y);
            &&& *final(record) == t.0
            &&& out.events@ == t.1
            &&& out.resize_override == t.2
        }),
{
    let out = apply_event(record, event, flip_touch_y);
    state_fixup(record, is_maximized);
    out
}

/// Translate one backend event addressed by native window id.  An unknown
/// id (never registered) and a stale one (window already destroyed) are
/// dropped: the event is ignored, never fatal.
pub fn translate_backend_event(
    world: &mut WindowWorld,
    winit: &WinitWindows,
    window_id: u64,
    event: BackendWindowEvent,
    is_maximized: bool,
    flip_touch_y: bool,
) -> (out: TranslationOutcome)
    requires
        old(world).wf(),
        winit.wf(),
        spec_event_wf(event),
    ensures
        final(world).wf(),
        final(world).primary == old(world).primary,
        final(world).closing@ == old(world).closing@,
        final(world).records@.len() == old(world).records@.len(),
        !out.handled ==> final(world).records@ == old(world).records@ && out.events@.len() == 0
            && out.resize_override is None,
        out.handled ==> exists|i: int|
            {
                let t = spec_translate(
                    #[trigger] old(world).records@[i],
                    event,
                    is_maximized,
                    flip_touch_y,
                );
                &&& 0 <= i < old(world).records@.len()
                &&& spec_id_maps(winit.spec_id_map(), window_id, old(world).records@[i].entity)
                &&& final(world).records@ == old(world).records@.update(i, t.0)
                &&& out.events@ == t.1
                &&& out.resize_override == t.2
            },
{
    let entity = match winit.get_window_entity(window_id) {
        Some(e) => e,
        None => {
            return TranslationOutcome { handled: false, events: Vec::new(), resize_override: None };
        },
    };
    let i = match world.find_window(entity) {
        Some(i) => i,
        None => {
            return TranslationOutcome { handled: false, events: Vec::new(), resize_override: None };
        },
    };
    proof {
        assert(old(world).records@[i as int].wf());
    }
    let out = handle_window_event(&mut world.records[i], event, is_maximized, flip_touch_y);
    proof {
        assert(world.records@ == old(world).records@.update(i as int, world.records@[i as int]));
        lemma_wf_after_field_update(*old(world), *world);
    }
    out
}

} // verus!
