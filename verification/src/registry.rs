//! The backend handle table and the planning of native window creation.
//!
//! [`WinitWindows`] owns the only association between records and native
//! window identifiers.  [`plan_window_creation`] and
//! [`winit_window_position`] compute, as plain values, everything the
//! backend needs to create or place a native window; performing the
//! backend calls is the adapter's job, outside this library.

use vstd::prelude::*;
use crate::entity::Entity;
use crate::geometry::PhysicalPoint;
use crate::geometry::spec_to_physical_offset;
use crate::geometry::to_physical;
use crate::geometry::to_physical_offset;
use crate::geometry::lemma_logical_physical_round_trip;
use crate::monitor::Monitor;
use crate::monitor::VideoMode;
use crate::monitor::fitting_choice_at;
use crate::monitor::get_best_videomode;
use crate::monitor::get_fitting_videomode;
use crate::monitor::mode_lex_le;
use crate::window::MonitorSelection;
use crate::window::WindowCanvas;
use crate::window::WindowMode;
use crate::window::WindowPosition;
use crate::window::WindowResolution;
use crate::window::WindowTitle;
use crate::window::spec_check_constraints;
use crate::world::WindowRecord;

verus! {

/// Whether some pair in the table has this entity as its key.
pub open spec fn spec_entity_key(s: Seq<(Entity, u64)>, e: Entity) -> bool {
    exists|i: int| 0 <= i < s.len() && (#[trigger] s[i]).0 == e
}

/// Whether some pair in the table has this native window id as its key.
pub open spec fn spec_id_key(s: Seq<(u64, Entity)>, w: u64) -> bool {
    exists|i: int| 0 <= i < s.len() && (#[trigger] s[i]).0 == w
}

/// Whether the table maps this native window id to this entity.
pub open spec fn spec_id_maps(s: Seq<(u64, Entity)>, w: u64, e: Entity) -> bool {
    exists|i: int| 0 <= i < s.len() && #[trigger] s[i] == (w, e)
}

/// The table associating records with their native windows.  It is owned
/// exclusively by the lifecycle manager and the translator, on the event
/// loop's thread; no other component holds a copy.
///
/// An entity's entry disappears when its window is destroyed, but the
/// reverse direction remembers every identifier ever registered, so a
/// late event for a destroyed window is recognized as stale rather than
/// unknown.
#[derive(Debug)]
pub struct WinitWindows {
    window_id_to_winit: Vec<(Entity, u64)>,
    winit_to_window_id: Vec<(u64, Entity)>,
}

impl WinitWindows {
    /// The live associations, entity to native window id.
    pub closed spec fn spec_entity_map(self) -> Seq<(Entity, u64)> {
        self.window_id_to_winit@
    }

    /// Every association ever made, native window id to entity.
    pub closed spec fn spec_id_map(self) -> Seq<(u64, Entity)> {
        self.winit_to_window_id@
    }

    /// Keys are unique on both sides, no two entities share a native
    /// window, and every live association is remembered in the reverse
    /// direction.
    pub open spec fn wf(self) -> bool {
        &&& forall|i: int, j: int|
            0 <= i < j < self.spec_entity_map().len() ==> (#[trigger] self.spec_entity_map()[i]).0
                != (#[trigger] self.spec_entity_map()[j]).0
        &&& forall|i: int, j: int|
            0 <= i < j < self.spec_entity_map().len() ==> (#[trigger] self.spec_entity_map()[i]).1
                != (#[trigger] self.spec_entity_map()[j]).1
        &&& forall|i: int, j: int|
            0 <= i < j < self.spec_id_map().len() ==> (#[trigger] self.spec_id_map()[i]).0 != (
            #[trigger] self.spec_id_map()[j]).0
        &&& forall|i: int|
            0 <= i < self.spec_entity_map().len() ==> spec_id_maps(
                self.spec_id_map(),
                (#[trigger] self.spec_entity_map()[i]).1,
                self.spec_entity_map()[i].0,
            )
    }

    /// An empty table.
    pub fn new() -> (w: WinitWindows)
        ensures
            w.wf(),
            w.spec_entity_map().len() == 0,
            w.spec_id_map().len() == 0,
    {
        WinitWindows { window_id_to_winit: Vec::new(), winit_to_window_id: Vec::new() }
    }

    /// Record that the backend created a native window for this entity.
    /// The identifier must be one the backend never handed out before.
    pub fn register_window(&mut self, entity: Entity, window_id: u64)
        requires
            old(self).wf(),
            !spec_entity_key(old(self).spec_entity_map(), entity),
            !spec_id_key(old(self).spec_id_map(), window_id),
        ensures
            final(self).wf(),
            final(self).spec_entity_map() == old(self).spec_entity_map().push((entity, window_id)),
            final(self).spec_id_map() == old(self).spec_id_map().push((window_id, entity)),
    {
        self.window_id_to_winit.push((entity, window_id));
        self.winit_to_window_id.push((window_id, entity));
        proof {
            assert(self.spec_entity_map().drop_last() == old(self).spec_entity_map());
            assert(self.spec_id_map().drop_last() == old(self).spec_id_map());
            assert forall|i: int| 0 <= i < self.spec_entity_map().len() implies spec_id_maps(
                self.spec_id_map(),
                (#[trigger] self.spec_entity_map()[i]).1,
                self.spec_entity_map()[i].0,
            ) by {
                if i < old(self).spec_entity_map().len() {
                    let k = choose|k: int|
                        0 <= k < old(self).spec_id_map().len() && #[trigger] old(self).spec_id_map()[k] == (old(self).spec_entity_map()[i].1, old(self).spec_entity_map()[i].0);
                    assert(self.spec_id_map()[k] == (
                        self.spec_entity_map()[i].1,
                        self.spec_entity_map()[i].0,
                    ));
                } else {
                    let k = self.spec_id_map().len() - 1;
                    assert(self.spec_id_map()[k] == (
                        self.spec_entity_map()[i].1,
                        self.spec_entity_map()[i].0,
                    ));
                }
            }
            // A fresh id also never appears as a live value, because live
            // values are remembered as reverse keys.
            assert forall|i: int, j: int|
                0 <= i < j < self.spec_entity_map().len() implies (
            #[trigger] self.spec_entity_map()[i]).1 != (#[trigger] self.spec_entity_map()[j]).1 by {
                if j == self.spec_entity_map().len() - 1 && i < j {
                    if self.spec_entity_map()[i].1 == window_id {
                        assert(spec_id_maps(
                            old(self).spec_id_map(),
                            old(self).spec_entity_map()[i].1,
                            old(self).spec_entity_map()[i].0,
                        ));
                        let k = choose|k: int|
                            0 <= k < old(self).spec_id_map().len() && #[trigger] old(self).spec_id_map()[k] == (old(self).spec_entity_map()[i].1, old(self).spec_entity_map()[i].0);
                        assert(spec_id_key(old(self).spec_id_map(), window_id));
                    }
                }
            }
        }
    }

    /// The native window id associated with our entity, while the native
    /// window is alive.
    pub fn get_window(&self, entity: Entity) -> (r: Option<u64>)
        ensures
            match r {
                Some(w) => self.spec_entity_map().contains((entity, w)),
                None => !spec_entity_key(self.spec_entity_map(), entity),
            },
    {
        let mut i: usize = 0;
        while i < self.window_id_to_winit.len()
            invariant
                i <= self.spec_entity_map().len(),
                forall|j: int| 0 <= j < i ==> (#[trigger] self.spec_entity_map()[j]).0 != entity,
            decreases self.spec_entity_map().len() - i,
        {
            if self.window_id_to_winit[i].0 == entity {
                return Some(self.window_id_to_winit[i].1);
            }
            i = i + 1;
        }
        None
    }

    /// The entity associated with a native window id, including windows
    /// that have since been destroyed.
    pub fn get_window_entity(&self, window_id: u64) -> (r: Option<Entity>)
        ensures
            match r {
                Some(e) => self.spec_id_map().contains((window_id, e)),
                None => !spec_id_key(self.spec_id_map(), window_id),
            },
    {
        let mut i: usize = 0;
        while i < self.winit_to_window_id.len()
            invariant
                i <= self.spec_id_map().len(),
                forall|j: int| 0 <= j < i ==> (#[trigger] self.spec_id_map()[j]).0 != window_id,
            decreases self.spec_id_map().len() - i,
        {
            if self.winit_to_window_id[i].0 == window_id {
                return Some(self.winit_to_window_id[i].1);
            }
            i = i + 1;
        }
        None
    }

    /// Forget the live association for an entity, returning the native
    /// window id so the caller can have the backend destroy the window.
    /// The reverse direction keeps remembering the identifier.
    pub fn remove_window(&mut self, entity: Entity) -> (r: Option<u64>)
        requires
            old(self).wf(),
        ensures
            final(self).wf(),
            final(self).spec_id_map() == old(self).spec_id_map(),
            match r {
                Some(w) => exists|i: int|
                    0 <= i < old(self).spec_entity_map().len() && #[trigger] old(self).spec_entity_map()[i] == (entity, w) && final(self).spec_entity_map() == old(self).spec_entity_map().remove(i),
                None => !spec_entity_key(old(self).spec_entity_map(), entity) && final(self).spec_entity_map() == old(self).spec_entity_map(),
            },
            !spec_entity_key(final(self).spec_entity_map(), entity),
    {
        let mut i: usize = 0;
        while i < self.window_id_to_winit.len()
            invariant
                old(self).wf(),
                i <= self.spec_entity_map().len(),
                forall|j: int| 0 <= j < i ==> (#[trigger] self.spec_entity_map()[j]).0 != entity,
                *self == *old(self),
            decreases self.spec_entity_map().len() - i,
        {
            if self.window_id_to_winit[i].0 == entity {
                let pair = self.window_id_to_winit.remove(i);
                proof {
                    old(self).spec_entity_map().remove_ensures(i as int);
                    assert forall|k: int|
                        0 <= k < self.spec_entity_map().len() implies spec_id_maps(
                        self.spec_id_map(),
                        (#[trigger] self.spec_entity_map()[k]).1,
                        self.spec_entity_map()[k].0,
                    ) by {
                        let k0 = if k < i { k } else { k + 1 };
                        assert(self.spec_entity_map()[k] == old(self).spec_entity_map()[k0]);
                    }
                    assert forall|j: int|
                        0 <= j < self.spec_entity_map().len() implies (
                    #[trigger] self.spec_entity_map()[j]).0 != entity by {
                        let j0 = if j < i { j } else { j + 1 };
                        assert(self.spec_entity_map()[j] == old(self).spec_entity_map()[j0]);
                    }
                }
                return Some(pair.1);
            }
            i = i + 1;
        }
        None
    }
}

/// The position a centered window gets on a monitor: the leftover space
/// split in half, clamped at zero when the window is larger than the
/// monitor, offset by the monitor's origin.
pub open spec fn spec_centered_position(m: Monitor, w: int, h: int) -> PhysicalPoint {
    PhysicalPoint {
        x: ((if m.width >= w {
            m.width - w
        } else {
            0
        }) / 2 + m.position.x) as i64,
        y: ((if m.height >= h {
            m.height - h
        } else {
            0
        }) / 2 + m.position.y) as i64,
    }
}

/// The physical position a window position spec resolves to, given the
/// monitors the backend reports: `Automatic` and an unresolvable monitor
/// selection stay with the backend (`None`); centering uses the record's
/// physical size; a concrete logical position is scaled to physical
/// pixels.
pub open spec fn spec_window_position(
    position: WindowPosition,
    resolution: WindowResolution,
    monitors: Seq<Monitor>,
    primary_monitor: Option<&Monitor>,
    current_monitor: Option<&Monitor>,
) -> Option<PhysicalPoint> {
    match position {
        WindowPosition::Automatic => None,
        WindowPosition::Centered(selection) => {
            let chosen = match selection {
                MonitorSelection::Current => match current_monitor {
                    Some(m) => Some(*m),
                    None => None,
                },
                MonitorSelection::Primary => match primary_monitor {
                    Some(m) => Some(*m),
                    None => None,
                },
                MonitorSelection::Number(n) => if (n as int) < monitors.len() {
                    Some(monitors[n as int])
                } else {
                    None
                },
            };
            match chosen {
                Some(m) => Some(
                    spec_centered_position(
                        m,
                        resolution.spec_physical_width(),
                        resolution.spec_physical_height(),
                    ),
                ),
                None => None,
            }
        },
        WindowPosition::At(p) => Some(
            PhysicalPoint {
                x: spec_to_physical_offset(p.x as int, resolution.spec_scale_factor()) as i64,
                y: spec_to_physical_offset(p.y as int, resolution.spec_scale_factor()) as i64,
            },
        ),
    }
}

/// Resolve a window position spec to a concrete physical position, or to
/// `None` where the backend should decide.  An unresolvable monitor
/// selection (no current monitor at creation, an index out of range) is a
/// warning condition, never an error: the position is left unresolved.
pub fn winit_window_position(
    position: &WindowPosition,
    resolution: &WindowResolution,
    available_monitors: &Vec<Monitor>,
    primary_monitor: Option<&Monitor>,
    current_monitor: Option<&Monitor>,
) -> (r: Option<PhysicalPoint>)
    requires
        resolution.wf(),
    ensures
        r == spec_window_position(
            *position,
            *resolution,
            available_monitors@,
            primary_monitor,
            current_monitor,
        ),
{
    match position {
        WindowPosition::Automatic => None,
        WindowPosition::Centered(monitor_selection) => {
            let maybe_monitor: Option<&Monitor> = match monitor_selection {
                MonitorSelection::Current => current_monitor,
                MonitorSelection::Primary => primary_monitor,
                MonitorSelection::Number(n) => {
                    if *n < available_monitors.len() {
                        Some(&available_monitors[*n])
                    } else {
                        None
                    }
                },
            };
            match maybe_monitor {
                Some(monitor) => {
                    let scale = resolution.scale_factor();
                    let width_logical = resolution.width();
                    let height_logical = resolution.height();
                    let physical_w: u32 = resolution.physical_width();
                    let physical_h: u32 = resolution.physical_height();
                    // Converting the exact logical size back to physical
                    // pixels reproduces the stored physical size.
                    let width: u32 = to_physical(width_logical, scale);
                    let height: u32 = to_physical(height_logical, scale);
                    proof {
                        lemma_logical_physical_round_trip(physical_w, width_logical, scale);
                        lemma_logical_physical_round_trip(physical_h, height_logical, scale);
                    }
                    let avail_w: u32 = if monitor.width >= width {
                        monitor.width - width
                    } else {
                        0
                    };
                    let avail_h: u32 = if monitor.height >= height {
                        monitor.height - height
                    } else {
                        0
                    };
                    let x: i64 = (avail_w / 2) as i64 + monitor.position.x as i64;
                    let y: i64 = (avail_h / 2) as i64 + monitor.position.y as i64;
                    Some(PhysicalPoint::new(x, y))
                },
                None => None,
            }
        },
        WindowPosition::At(p) => {
            let scale = resolution.scale_factor();
            Some(
                PhysicalPoint::new(to_physical_offset(p.x, scale), to_physical_offset(p.y, scale)),
            )
        },
    }
}

/// How the native window's fullscreen state should start.
#[derive(Clone, Copy, Debug, PartialEq, Eq, Structural)]
pub enum FullscreenPlan {
    /// An ordinary window.
    Windowed,
    /// Borderless fullscreen on the primary monitor.
    Borderless,
    /// Exclusive fullscreen in this video mode.
    Exclusive(VideoMode),
}

/// Everything the backend needs to create one native window, computed
/// from the record's current field values.
#[derive(Debug)]
pub struct WindowCreationPlan {
    pub fullscreen: FullscreenPlan,
    /// Where to place the window; `None` leaves it to the backend.
    pub position: Option<PhysicalPoint>,
    /// The inner size in physical pixels, for a windowed window.
    pub inner_size: Option<(u32, u32)>,
    /// The minimum inner size, in logical pixels, after normalization.
    pub min_inner_size: (u32, u32),
    /// The maximum inner size, in logical pixels, when both axes are
    /// bounded.
    pub max_inner_size: Option<(u32, u32)>,
    pub title: WindowTitle,
    pub maximized: bool,
    pub resizable: bool,
    pub decorations: bool,
    pub transparent: bool,
    pub cursor_visible: bool,
    pub cursor_locked: bool,
    /// Whether to minimize the window right after creation.
    pub start_minimized: bool,
    pub canvas: WindowCanvas,
}

/// Compute the initial configuration of a record's native window.
///
/// A record asking for exclusive fullscreen needs a primary monitor that
/// reports at least one video mode; anything else is an environment fault
/// outside this library.
pub fn plan_window_creation(
    record: &WindowRecord,
    available_monitors: &Vec<Monitor>,
    primary_monitor: Option<&Monitor>,
) -> (plan: WindowCreationPlan)
    requires
        record.wf(),
        (record.mode is Fullscreen || record.mode is SizedFullscreen) ==> match primary_monitor {
            Some(m) => m.video_modes@.len() > 0,
            None => false,
        },
    ensures
        record.mode is Windowed ==> {
            &&& plan.fullscreen is Windowed
            &&& plan.position == spec_window_position(
                record.position,
                record.resolution,
                available_monitors@,
                primary_monitor,
                None,
            )
            &&& plan.inner_size matches Some(sz) && sz.0 == record.resolution.spec_physical_width()
                && sz.1 == record.resolution.spec_physical_height()
        },
        record.mode is BorderlessFullscreen ==> plan.fullscreen is Borderless
            && plan.position is None && plan.inner_size is None,
        record.mode is Fullscreen ==> (match primary_monitor {
            Some(m) => {
                &&& plan.fullscreen matches FullscreenPlan::Exclusive(vm)
                &&& m.video_modes@.contains(vm)
                &&& forall|i: int|
                    0 <= i < m.video_modes@.len() ==> mode_lex_le(#[trigger] m.video_modes@[i], vm)
            },
            None => false,
        }),
        record.mode is SizedFullscreen ==> (match primary_monitor {
            Some(m) => {
                &&& plan.fullscreen matches FullscreenPlan::Exclusive(vm)
                &&& exists|i: int|
                    #[trigger] fitting_choice_at(
                        m.video_modes@,
                        vstd::math::min(
                            record.resolution.spec_physical_width()
                                * record.resolution.spec_scale_factor().spec_den()
                                / record.resolution.spec_scale_factor().spec_num(),
                            u32::MAX as int,
                        ),
                        vstd::math::min(
                            record.resolution.spec_physical_height()
                                * record.resolution.spec_scale_factor().spec_den()
                                / record.resolution.spec_scale_factor().spec_num(),
                            u32::MAX as int,
                        ),
                        i,
                    ) && vm == m.video_modes@[i]
            },
            None => false,
        }),
        ({
            let c = spec_check_constraints(record.resize_constraints);
            &&& plan.min_inner_size.0 == c.min_width
            &&& plan.min_inner_size.1 == c.min_height
            &&& if c.max_width != u32::MAX && c.max_height != u32::MAX {
                plan.max_inner_size == Some((c.max_width, c.max_height))
            } else {
                plan.max_inner_size is None
            }
        }),
        plan.title.spec_title() == record.title.spec_title(),
        plan.maximized == (record.state is Maximized),
        plan.start_minimized == (record.state is Minimized),
        plan.resizable == (record.resizable is Resizable),
        plan.decorations == (record.decorations is Decorated),
        plan.transparent == (record.transparency is Transparent),
        plan.cursor_visible == record.cursor.spec_visible(),
        plan.cursor_locked == record.cursor.spec_locked(),
        plan.canvas.spec_canvas() == record.canvas.spec_canvas(),
        plan.canvas.spec_fit_canvas_to_parent() == record.canvas.spec_fit_canvas_to_parent(),
{
    let (fullscreen, window_position, inner_size): (
        FullscreenPlan,
        Option<PhysicalPoint>,
        Option<(u32, u32)>,
    ) = match record.mode {
        WindowMode::BorderlessFullscreen => (FullscreenPlan::Borderless, None, None),
        WindowMode::Fullscreen => {
            let monitor = match primary_monitor {
                Some(m) => m,
                None => unreached(),
            };
            (FullscreenPlan::Exclusive(get_best_videomode(monitor)), None, None)
        },
        WindowMode::SizedFullscreen => {
            let monitor = match primary_monitor {
                Some(m) => m,
                None => unreached(),
            };
            let target_w: u32 = record.resolution.width().floor_px();
            let target_h: u32 = record.resolution.height().floor_px();
            (
                FullscreenPlan::Exclusive(get_fitting_videomode(monitor, target_w, target_h)),
                None,
                None,
            )
        },
        WindowMode::Windowed => {
            let resolved = winit_window_position(
                &record.position,
                &record.resolution,
                available_monitors,
                primary_monitor,
                None,
            );
            (
                FullscreenPlan::Windowed,
                resolved,
                Some((record.resolution.physical_width(), record.resolution.physical_height())),
            )
        },
    };
    let constraints = record.resize_constraints.check_constraints();
    let max_inner_size: Option<(u32, u32)> = if constraints.max_width != u32::MAX
        && constraints.max_height != u32::MAX {
        Some((constraints.max_width, constraints.max_height))
    } else {
        None
    };
    WindowCreationPlan {
        fullscreen,
        position: window_position,
        inner_size,
        min_inner_size: (constraints.min_width, constraints.min_height),
        max_inner_size,
        title: record.title.clone(),
        maximized: record.state.maximized(),
        resizable: record.resizable.resizable(),
        decorations: record.decorations.decorated(),
        transparent: record.transparency.transparent(),
        cursor_visible: record.cursor.visible(),
        cursor_locked: record.cursor.locked(),
        start_minimized: record.state.minimized(),
        canvas: record.canvas.clone(),
    }
}

} // verus!
