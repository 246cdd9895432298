//! The shared world of window records.
//!
//! Each record carries every window field together with a per-field
//! "changed since the last push" flag and a lifecycle state.  Mutation
//! goes through setters that record the change, so the push routines can
//! later reconcile exactly what changed outward to the backend.

use vstd::prelude::*;
use crate::entity::Entity;
use crate::window::Cursor;
use crate::window::CursorPosition;
use crate::window::PresentMode;
use crate::window::Window;
use crate::window::WindowCanvas;
use crate::window::WindowDecorations;
use crate::window::WindowFocus;
use crate::window::WindowHandle;
use crate::window::WindowMode;
use crate::window::WindowPosition;
use crate::window::WindowResizable;
use crate::window::WindowResizeConstraints;
use crate::window::WindowResolution;
use crate::window::WindowState;
use crate::window::WindowTitle;
use crate::window::WindowTransparency;

verus! {

/// Where a record stands between creation and destruction.
///
/// `Pending` records have no backend window yet; `Live` ones are in sync
/// with the backend; `Closing` ones have had their Closed event emitted
/// and disappear at the start of the next cycle.  A destroyed record is
/// removed from the world altogether.
#[derive(Clone, Copy, Debug, PartialEq, Eq, Structural)]
pub enum WindowLifecycle {
    Pending,
    Live,
    Closing,
}

/// One flag per window field group: has the field changed since the last
/// push cycle observed it?
#[derive(Clone, Copy, Debug, PartialEq, Eq, Structural)]
pub struct ChangeFlags {
    pub title: bool,
    pub mode: bool,
    pub resolution: bool,
    pub cursor_position: bool,
    pub cursor: bool,
    pub resize_constraints: bool,
    pub position: bool,
    pub state: bool,
}

impl ChangeFlags {
    /// Every field counts as changed (a fresh record).
    pub fn all() -> (c: ChangeFlags)
        ensures
            c == ChangeFlags::spec_all(),
    {
        ChangeFlags {
            title: true,
            mode: true,
            resolution: true,
            cursor_position: true,
            cursor: true,
            resize_constraints: true,
            position: true,
            state: true,
        }
    }

    pub open spec fn spec_all() -> ChangeFlags {
        ChangeFlags {
            title: true,
            mode: true,
            resolution: true,
            cursor_position: true,
            cursor: true,
            resize_constraints: true,
            position: true,
            state: true,
        }
    }
}

/// Resource naming the record currently considered the primary window.
#[derive(Clone, Copy, Debug, PartialEq, Eq, Structural)]
pub struct PrimaryWindow {
    /// Record which is currently the primary window.
    pub window: Entity,
}

/// The full set of components a new window record starts with.
#[derive(Debug)]
pub struct WindowBundle {
    pub window: Window,
    pub cursor: Cursor,
    pub cursor_position: CursorPosition,
    pub present_mode: PresentMode,
    pub mode: WindowMode,
    pub position: WindowPosition,
    pub resolution: WindowResolution,
    pub title: WindowTitle,
    pub state: WindowState,
    pub resize_constraints: WindowResizeConstraints,
    pub resizable: WindowResizable,
    pub decorations: WindowDecorations,
    pub transparency: WindowTransparency,
    pub focus: WindowFocus,
    pub canvas: WindowCanvas,
}

impl WindowBundle {
    pub open spec fn wf(self) -> bool {
        self.resolution.wf() && self.cursor_position.wf()
    }
}

impl Default for WindowBundle {
    fn default() -> (b: Self)
        ensures
            b.wf(),
            b.mode == WindowMode::Windowed,
            b.position == WindowPosition::Automatic,
            b.resolution.spec_requested_width() == 1280,
            b.resolution.spec_requested_height() == 720,
            b.resolution.spec_physical_width() == 1280,
            b.resolution.spec_physical_height() == 720,
            b.resolution.spec_scale_factor_override() is None,
            b.state == WindowState::Normal,
            b.resize_constraints == (WindowResizeConstraints {
                min_width: 180,
                min_height: 120,
                max_width: u32::MAX,
                max_height: u32::MAX,
            }),
            b.resizable == WindowResizable::Resizable,
            b.decorations == WindowDecorations::Decorated,
            b.transparency == WindowTransparency::Opaque,
            !b.focus.spec_focused(),
            b.cursor_position.spec_physical_position() is None,
            b.canvas.spec_canvas() is None,
            b.title.spec_title() == "App"@,
    {
        WindowBundle {
            window: Window,
            cursor: Cursor::default(),
            cursor_position: CursorPosition::default(),
            present_mode: PresentMode::default(),
            mode: WindowMode::default(),
            position: WindowPosition::default(),
            resolution: WindowResolution::default(),
            title: WindowTitle::new(String::from_str("App")),
            state: WindowState::default(),
            resize_constraints: WindowResizeConstraints::default(),
            resizable: WindowResizable::default(),
            decorations: WindowDecorations::default(),
            transparency: WindowTransparency::default(),
            focus: WindowFocus::default(),
            canvas: WindowCanvas::default(),
        }
    }
}

/// One window record: every field, its change flags, its lifecycle state,
/// and the handle of its native window once one exists.
#[derive(Debug)]
pub struct WindowRecord {
    pub entity: Entity,
    pub window: Window,
    pub cursor: Cursor,
    pub cursor_position: CursorPosition,
    pub present_mode: PresentMode,
    pub mode: WindowMode,
    pub position: WindowPosition,
    pub resolution: WindowResolution,
    pub title: WindowTitle,
    pub state: WindowState,
    pub resize_constraints: WindowResizeConstraints,
    pub resizable: WindowResizable,
    pub decorations: WindowDecorations,
    pub transparency: WindowTransparency,
    pub focus: WindowFocus,
    pub canvas: WindowCanvas,
    pub lifecycle: WindowLifecycle,
    pub handle: Option<WindowHandle>,
    pub changed: ChangeFlags,
}

impl WindowRecord {
    pub open spec fn wf(self) -> bool {
        &&& self.resolution.wf()
        &&& self.cursor_position.wf()
        &&& (self.lifecycle is Pending <==> self.handle is None)
    }
}

impl Clone for WindowRecord {
    fn clone(&self) -> (r: Self)
        ensures
            r == *self,
    {
        WindowRecord {
            entity: self.entity,
            window: self.window,
            cursor: self.cursor,
            cursor_position: self.cursor_position,
            present_mode: self.present_mode,
            mode: self.mode,
            position: self.position,
            resolution: self.resolution,
            title: self.title.clone(),
            state: self.state,
            resize_constraints: self.resize_constraints,
            resizable: self.resizable,
            decorations: self.decorations,
            transparency: self.transparency,
            focus: self.focus,
            canvas: self.canvas.clone(),
            lifecycle: self.lifecycle,
            handle: self.handle,
            changed: self.changed,
        }
    }
}

/// The record a spawn produces: the bundle's fields, all marked changed,
/// with no backend window yet.
pub open spec fn spec_spawned_record(entity: Entity, bundle: WindowBundle) -> WindowRecord {
    WindowRecord {
        entity,
        window: bundle.window,
        cursor: bundle.cursor,
        cursor_position: bundle.cursor_position,
        present_mode: bundle.present_mode,
        mode: bundle.mode,
        position: bundle.position,
        resolution: bundle.resolution,
        title: bundle.title,
        state: bundle.state,
        resize_constraints: bundle.resize_constraints,
        resizable: bundle.resizable,
        decorations: bundle.decorations,
        transparency: bundle.transparency,
        focus: bundle.focus,
        canvas: bundle.canvas,
        lifecycle: WindowLifecycle::Pending,
        handle: None,
        changed: ChangeFlags::spec_all(),
    }
}

/// Whether some record in the sequence belongs to the entity.
pub open spec fn spec_has_entity(records: Seq<WindowRecord>, entity: Entity) -> bool {
    exists|i: int| 0 <= i < records.len() && (#[trigger] records[i]).entity == entity
}

/// Whether the entity has a record in the `Closing` state.
pub open spec fn spec_closing_ok(records: Seq<WindowRecord>, entity: Entity) -> bool {
    exists|i: int|
        0 <= i < records.len() && (#[trigger] records[i]).entity == entity
            && records[i].lifecycle is Closing
}

/// The world: the window records, the primary-window designation, and the
/// queue of records whose destruction is deferred to the next cycle.
#[derive(Debug)]
pub struct WindowWorld {
    pub records: Vec<WindowRecord>,
    pub primary: Option<PrimaryWindow>,
    pub closing: Vec<Entity>,
}

impl WindowWorld {
    /// Entities are unique; every record is well formed; the primary
    /// designation, if any, names an existing record; and the closing
    /// queue lists exactly the records in the `Closing` state, each once.
    pub open spec fn wf(self) -> bool {
        &&& forall|i: int, j: int|
            0 <= i < j < self.records@.len() ==> (#[trigger] self.records@[i]).entity != (
            #[trigger] self.records@[j]).entity
        &&& forall|i: int| 0 <= i < self.records@.len() ==> (#[trigger] self.records@[i]).wf()
        &&& match self.primary {
            Some(p) => spec_has_entity(self.records@, p.window),
            None => true,
        }
        &&& forall|k: int|
            0 <= k < self.closing@.len() ==> spec_closing_ok(
                self.records@,
                #[trigger] self.closing@[k],
            )
        &&& forall|k: int, l: int|
            0 <= k < l < self.closing@.len() ==> self.closing@[k] != self.closing@[l]
        &&& forall|i: int|
            0 <= i < self.records@.len() && (#[trigger] self.records@[i]).lifecycle is Closing
                ==> self.closing@.contains(self.records@[i].entity)
    }

    /// An empty world.
    pub fn new() -> (w: WindowWorld)
        ensures
            w.wf(),
            w.records@.len() == 0,
            w.primary is None,
            w.closing@.len() == 0,
    {
        WindowWorld { records: Vec::new(), primary: None, closing: Vec::new() }
    }

    /// The position of the entity's record, if it has one.
    pub fn find_window(&self, entity: Entity) -> (r: Option<usize>)
        ensures
            match r {
                Some(i) => i < self.records@.len() && self.records@[i as int].entity == entity,
                None => !spec_has_entity(self.records@, entity),
            },
    {
        let mut i: usize = 0;
        while i < self.records.len()
            invariant
                i <= self.records@.len(),
                forall|j: int| 0 <= j < i ==> (#[trigger] self.records@[j]).entity != entity,
            decreases self.records@.len() - i,
        {
            if self.records[i].entity == entity {
                return Some(i);
            }
            i = i + 1;
        }
        None
    }

    /// Whether the entity has a record in the world.
    pub fn contains_entity(&self, entity: Entity) -> (r: bool)
        ensures
            r == spec_has_entity(self.records@, entity),
    {
        match self.find_window(entity) {
            Some(_) => true,
            None => false,
        }
    }

    /// Create a record for a new window.  It starts `Pending`: the
    /// lifecycle manager will ask the backend for a native window on the
    /// next opportunity.
    pub fn spawn_window(&mut self, entity: Entity, bundle: WindowBundle)
        requires
            old(self).wf(),
            !spec_has_entity(old(self).records@, entity),
            bundle.wf(),
        ensures
            final(self).wf(),
            final(self).records@ == old(self).records@.push(spec_spawned_record(entity, bundle)),
            final(self).primary == old(self).primary,
            final(self).closing@ == old(self).closing@,
    {
        let record = WindowRecord {
            entity,
            window: bundle.window,
            cursor: bundle.cursor,
            cursor_position: bundle.cursor_position,
            present_mode: bundle.present_mode,
            mode: bundle.mode,
            position: bundle.position,
            resolution: bundle.resolution,
            title: bundle.title,
            state: bundle.state,
            resize_constraints: bundle.resize_constraints,
            resizable: bundle.resizable,
            decorations: bundle.decorations,
            transparency: bundle.transparency,
            focus: bundle.focus,
            canvas: bundle.canvas,
            lifecycle: WindowLifecycle::Pending,
            handle: None,
            changed: ChangeFlags::all(),
        };
        self.records.push(record);
        proof {
            assert(self.records@.drop_last() == old(self).records@);
            assert forall|k: int| 0 <= k < self.closing@.len() implies spec_closing_ok(
                self.records@,
                self.closing@[k],
            ) by {
                assert(spec_closing_ok(old(self).records@, old(self).closing@[k]));
                let i = choose|i: int|
                    0 <= i < old(self).records@.len() && (#[trigger] old(self).records@[i]).entity
                        == old(self).closing@[k] && old(self).records@[i].lifecycle is Closing;
                assert(self.records@[i].entity == self.closing@[k]);
            }
        }
    }

    /// Designate the primary window.
    pub fn set_primary(&mut self, primary: PrimaryWindow)
        requires
            old(self).wf(),
            spec_has_entity(old(self).records@, primary.window),
        ensures
            final(self).wf(),
            final(self).primary == Some(primary),
            final(self).records@ == old(self).records@,
            final(self).closing@ == old(self).closing@,
    {
        self.primary = Some(primary);
    }

    /// The current primary-window designation; its absence is a legal
    /// state that every consumer must handle.
    pub fn primary_window(&self) -> (r: Option<PrimaryWindow>)
        ensures
            r == self.primary,
    {
        self.primary
    }

    /// Set the window's title, marking the field changed for the next push.
    pub fn set_title(&mut self, entity: Entity, title: WindowTitle) -> (r: bool)
        requires
            old(self).wf(),
        ensures
            final(self).wf(),
            r == spec_has_entity(old(self).records@, entity),
            !r ==> final(self).records@ == old(self).records@,
            r ==> exists|i: int|
                0 <= i < old(self).records@.len() && (#[trigger] old(self).records@[i]).entity
                    == entity && final(self).records@ == old(self).records@.update(
                    i,
                    WindowRecord {
                        title: title,
                        changed: ChangeFlags { title: true, ..old(self).records@[i].changed },
                        ..old(self).records@[i]
                    },
                ),
            final(self).primary == old(self).primary,
            final(self).closing@ == old(self).closing@,
    {
        match self.find_window(entity) {
            Some(i) => {
                self.records[i].title = title;
                self.records[i].changed.title = true;
                proof {
                    assert(self.records@ =~= old(self).records@.update(
                        i as int,
                        WindowRecord {
                            title: self.records@[i as int].title,
                            changed: ChangeFlags {
                                title: true,
                                ..old(self).records@[i as int].changed
                            },
                            ..old(self).records@[i as int]
                        },
                    ));
                    lemma_wf_after_field_update(*old(self), *self);
                }
                true
            },
            None => false,
        }
    }

    /// Set the window's display mode, marking the field changed for the next push.
    pub fn set_mode(&mut self, entity: Entity, mode: WindowMode) -> (r: bool)
        requires
            old(self).wf(),
        ensures
            final(self).wf(),
            r == spec_has_entity(old(self).records@, entity),
            !r ==> final(self).records@ == old(self).records@,
            r ==> exists|i: int|
                0 <= i < old(self).records@.len() && (#[trigger] old(self).records@[i]).entity
                    == entity && final(self).records@ == old(self).records@.update(
                    i,
                    WindowRecord {
                        mode: mode,
                        changed: ChangeFlags { mode: true, ..old(self).records@[i].changed },
                        ..old(self).records@[i]
                    },
                ),
            final(self).primary == old(self).primary,
            final(self).closing@ == old(self).closing@,
    {
        match self.find_window(entity) {
            Some(i) => {
                self.records[i].mode = mode;
                self.records[i].changed.mode = true;
                proof {
                    assert(self.records@ =~= old(self).records@.update(
                        i as int,
                        WindowRecord {
                            mode: self.records@[i as int].mode,
                            changed: ChangeFlags {
                                mode: true,
                                ..old(self).records@[i as int].changed
                            },
                            ..old(self).records@[i as int]
                        },
                    ));
                    lemma_wf_after_field_update(*old(self), *self);
                }
                true
            },
            None => false,
        }
    }

    /// Set the window's resolution, marking the field changed for the next push.
    pub fn set_resolution(&mut self, entity: Entity, resolution: WindowResolution) -> (r: bool)
        requires
            old(self).wf(),
            resolution.wf(),
        ensures
            final(self).wf(),
            r == spec_has_entity(old(self).records@, entity),
            !r ==> final(self).records@ == old(self).records@,
            r ==> exists|i: int|
                0 <= i < old(self).records@.len() && (#[trigger] old(self).records@[i]).entity
                    == entity && final(self).records@ == old(self).records@.update(
                    i,
                    WindowRecord {
                        resolution: resolution,
                        changed: ChangeFlags { resolution: true, ..old(self).records@[i].changed },
                        ..old(self).records@[i]
                    },
                ),
            final(self).primary == old(self).primary,
            final(self).closing@ == old(self).closing@,
    {
        match self.find_window(entity) {
            Some(i) => {
                self.records[i].resolution = resolution;
                self.records[i].changed.resolution = true;
                proof {
                    assert(self.records@ =~= old(self).records@.update(
                        i as int,
                        WindowRecord {
                            resolution: self.records@[i as int].resolution,
                            changed: ChangeFlags {
                                resolution: true,
                                ..old(self).records@[i as int].changed
                            },
                            ..old(self).records@[i as int]
                        },
                    ));
                    lemma_wf_after_field_update(*old(self), *self);
                }
                true
            },
            None => false,
        }
    }

    /// Set the window's cursor position, marking the field changed for the next push.
    pub fn set_cursor_position(&mut self, entity: Entity, cursor_position: CursorPosition) -> (r: bool)
        requires
            old(self).wf(),
            cursor_position.wf(),
        ensures
            final(self).wf(),
            r == spec_has_entity(old(self).records@, entity),
            !r ==> final(self).records@ == old(self).records@,
            r ==> exists|i: int|
                0 <= i < old(self).records@.len() && (#[trigger] old(self).records@[i]).entity
                    == entity && final(self).records@ == old(self).records@.update(
                    i,
                    WindowRecord {
                        cursor_position: cursor_position,
                        changed: ChangeFlags { cursor_position: true, ..old(self).records@[i].changed },
                        ..old(self).records@[i]
                    },
                ),
            final(self).primary == old(self).primary,
            final(self).closing@ == old(self).closing@,
    {
        match self.find_window(entity) {
            Some(i) => {
                self.records[i].cursor_position = cursor_position;
                self.records[i].changed.cursor_position = true;
                proof {
                    assert(self.records@ =~= old(self).records@.update(
                        i as int,
                        WindowRecord {
                            cursor_position: self.records@[i as int].cursor_position,
                            changed: ChangeFlags {
                                cursor_position: true,
                                ..old(self).records@[i as int].changed
                            },
                            ..old(self).records@[i as int]
                        },
                    ));
                    lemma_wf_after_field_update(*old(self), *self);
                }
                true
            },
            None => false,
        }
    }

    /// Set the window's cursor appearance and lock state, marking the field changed for the next push.
    pub fn set_cursor(&mut self, entity: Entity, cursor: Cursor) -> (r: bool)
        requires
            old(self).wf(),
        ensures
            final(self).wf(),
            r == spec_has_entity(old(self).records@, entity),
            !r ==> final(self).records@ == old(self).records@,
            r ==> exists|i: int|
                0 <= i < old(self).records@.len() && (#[trigger] old(self).records@[i]).entity
                    == entity && final(self).records@ == old(self).records@.update(
                    i,
                    WindowRecord {
                        cursor: cursor,
                        changed: ChangeFlags { cursor: true, ..old(self).records@[i].changed },
                        ..old(self).records@[i]
                    },
                ),
            final(self).primary == old(self).primary,
            final(self).closing@ == old(self).closing@,
    {
        match self.find_window(entity) {
            Some(i) => {
                self.records[i].cursor = cursor;
                self.records[i].changed.cursor = true;
                proof {
                    assert(self.records@ =~= old(self).records@.update(
                        i as int,
                        WindowRecord {
                            cursor: self.records@[i as int].cursor,
                            changed: ChangeFlags {
                                cursor: true,
                                ..old(self).records@[i as int].changed
                            },
                            ..old(self).records@[i as int]
                        },
                    ));
                    lemma_wf_after_field_update(*old(self), *self);
                }
                true
            },
            None => false,
        }
    }

    /// Set the window's resize constraints, marking the field changed for the next push.
    pub fn set_resize_constraints(&mut self, entity: Entity, resize_constraints: WindowResizeConstraints) -> (r: bool)
        requires
            old(self).wf(),
        ensures
            final(self).wf(),
            r == spec_has_entity(old(self).records@, entity),
            !r ==> final(self).records@ == old(self).records@,
            r ==> exists|i: int|
                0 <= i < old(self).records@.len() && (#[trigger] old(self).records@[i]).entity
                    == entity && final(self).records@ == old(self).records@.update(
                    i,
                    WindowRecord {
                        resize_constraints: resize_constraints,
                        changed: ChangeFlags { resize_constraints: true, ..old(self).records@[i].changed },
                        ..old(self).records@[i]
                    },
                ),
            final(self).primary == old(self).primary,
            final(self).closing@ == old(self).closing@,
    {
        match self.find_window(entity) {
            Some(i) => {
                self.records[i].resize_constraints = resize_constraints;
                self.records[i].changed.resize_constraints = true;
                proof {
                    assert(self.records@ =~= old(self).records@.update(
                        i as int,
                        WindowRecord {
                            resize_constraints: self.records@[i as int].resize_constraints,
                            changed: ChangeFlags {
                                resize_constraints: true,
                                ..old(self).records@[i as int].changed
                            },
                            ..old(self).records@[i as int]
                        },
                    ));
                    lemma_wf_after_field_update(*old(self), *self);
                }
                true
            },
            None => false,
        }
    }

    /// Set the window's position, marking the field changed for the next push.
    pub fn set_position(&mut self, entity: Entity, position: WindowPosition) -> (r: bool)
        requires
            old(self).wf(),
        ensures
            final(self).wf(),
            r == spec_has_entity(old(self).records@, entity),
            !r ==> final(self).records@ == old(self).records@,
            r ==> exists|i: int|
                0 <= i < old(self).records@.len() && (#[trigger] old(self).records@[i]).entity
                    == entity && final(self).records@ == old(self).records@.update(
                    i,
                    WindowRecord {
                        position: position,
                        changed: ChangeFlags { position: true, ..old(self).records@[i].changed },
                        ..old(self).records@[i]
                    },
                ),
            final(self).primary == old(self).primary,
            final(self).closing@ == old(self).closing@,
    {
        match self.find_window(entity) {
            Some(i) => {
                self.records[i].position = position;
                self.records[i].changed.position = true;
                proof {
                    assert(self.records@ =~= old(self).records@.update(
                        i as int,
                        WindowRecord {
                            position: self.records@[i as int].position,
                            changed: ChangeFlags {
                                position: true,
                                ..old(self).records@[i as int].changed
                            },
                            ..old(self).records@[i as int]
                        },
                    ));
                    lemma_wf_after_field_update(*old(self), *self);
                }
                true
            },
            None => false,
        }
    }

    /// Set the window's window state, marking the field changed for the next push.
    pub fn set_state(&mut self, entity: Entity, state: WindowState) -> (r: bool)
        requires
            old(self).wf(),
        ensures
            final(self).wf(),
            r == spec_has_entity(old(self).records@, entity),
            !r ==> final(self).records@ == old(self).records@,
            r ==> exists|i: int|
                0 <= i < old(self).records@.len() && (#[trigger] old(self).records@[i]).entity
                    == entity && final(self).records@ == old(self).records@.update(
                    i,
                    WindowRecord {
                        state: state,
                        changed: ChangeFlags { state: true, ..old(self).records@[i].changed },
                        ..old(self).records@[i]
                    },
                ),
            final(self).primary == old(self).primary,
            final(self).closing@ == old(self).closing@,
    {
        match self.find_window(entity) {
            Some(i) => {
                self.records[i].state = state;
                self.records[i].changed.state = true;
                proof {
                    assert(self.records@ =~= old(self).records@.update(
                        i as int,
                        WindowRecord {
                            state: self.records@[i as int].state,
                            changed: ChangeFlags {
                                state: true,
                                ..old(self).records@[i as int].changed
                            },
                            ..old(self).records@[i as int]
                        },
                    ));
                    lemma_wf_after_field_update(*old(self), *self);
                }
                true
            },
            None => false,
        }
    }
}

/// A mutation that replaces fields of single records but touches no
/// entity, lifecycle, or handle, and keeps resolutions well formed,
/// preserves the world's invariant.
pub proof fn lemma_wf_after_field_update(prev: WindowWorld, cur: WindowWorld)
    requires
        prev.wf(),
        cur.records@.len() == prev.records@.len(),
        forall|i: int|
            0 <= i < prev.records@.len() ==> {
                &&& (#[trigger] cur.records@[i]).entity == prev.records@[i].entity
                &&& cur.records@[i].lifecycle == prev.records@[i].lifecycle
                &&& cur.records@[i].handle == prev.records@[i].handle
                &&& cur.records@[i].resolution.wf()
                &&& cur.records@[i].cursor_position.wf()
            },
        cur.primary == prev.primary,
        cur.closing@ == prev.closing@,
    ensures
        cur.wf(),
{
    match cur.primary {
        Some(p) => {
            let i = choose|i: int|
                0 <= i < prev.records@.len() && (#[trigger] prev.records@[i]).entity == p.window;
            assert(cur.records@[i].entity == p.window);
        },
        None => {},
    }
    assert forall|k: int| 0 <= k < cur.closing@.len() implies spec_closing_ok(
        cur.records@,
        #[trigger] cur.closing@[k],
    ) by {
        assert(spec_closing_ok(prev.records@, prev.closing@[k]));
        let i = choose|i: int|
            0 <= i < prev.records@.len() && (#[trigger] prev.records@[i]).entity
                == prev.closing@[k] && prev.records@[i].lifecycle is Closing;
        assert(cur.records@[i].entity == cur.closing@[k] && cur.records@[i].lifecycle is Closing);
    }
    assert forall|i: int|
        0 <= i < cur.records@.len() && (#[trigger] cur.records@[i]).lifecycle is Closing implies cur
        .closing@.contains(cur.records@[i].entity) by {
        assert(prev.records@[i].lifecycle is Closing);
        assert(prev.closing@.contains(prev.records@[i].entity));
        let k = choose|k: int|
            0 <= k < prev.closing@.len() && prev.closing@[k] == prev.records@[i].entity;
        assert(cur.closing@[k] == cur.records@[i].entity);
    }
}

} // verus!
