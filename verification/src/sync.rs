//! State diff and push: reconciling changed record fields outward.
//!
//! For each field group one idempotent push routine scans the records,
//! plans one backend call per record whose field changed since the last
//! push and which already has a native window, and clears the flag it
//! consumed, so that pushing again plans nothing.  Side effects stay with
//! the adapter that performs the planned calls.

use vstd::prelude::*;
use crate::command::BackendCommand;
use crate::monitor::Monitor;
use crate::monitor::spec_best_mode;
use crate::monitor::spec_fitting_mode;
use crate::monitor::get_best_videomode;
use crate::monitor::get_fitting_videomode;
use crate::registry::spec_window_position;
use crate::registry::winit_window_position;
use crate::window::WindowMode;
use crate::window::WindowState;
use crate::window::spec_check_constraints;
use crate::world::ChangeFlags;
use crate::world::WindowRecord;
use crate::world::WindowWorld;
use crate::world::lemma_wf_after_field_update;

verus! {

/// The items a sequence of records generates: for each record the
/// selector accepts, in order, the items `f` derives from it.
pub open spec fn emitted<T>(
    records: Seq<WindowRecord>,
    sel: spec_fn(WindowRecord) -> bool,
    f: spec_fn(WindowRecord) -> Seq<T>,
) -> Seq<T>
    decreases records.len(),
{
    if records.len() == 0 {
        Seq::empty()
    } else {
        emitted(records.drop_last(), sel, f) + (if sel(records.last()) {
            f(records.last())
        } else {
            Seq::empty()
        })
    }
}

/// Whether the title push owes this record a backend call.
pub open spec fn spec_title_pending(r: WindowRecord) -> bool {
    r.changed.title && r.handle is Some
}

/// The backend calls one record's title push makes.
pub open spec fn spec_title_commands(r: WindowRecord) -> Seq<BackendCommand> {
    seq![BackendCommand::SetTitle { window: (r.handle->0).spec_raw(), title: r.title }]
}

/// The record with the title flag consumed, once pushed.
pub open spec fn spec_title_cleared(r: WindowRecord) -> WindowRecord {
    if spec_title_pending(r) {
        WindowRecord { changed: ChangeFlags { title: false, ..r.changed }, ..r }
    } else {
        r
    }
}

/// The backend calls a whole push cycle makes for the title group.
pub open spec fn spec_title_push(records: Seq<WindowRecord>) -> Seq<
    BackendCommand,
> {
    emitted(
        records,
        |r: WindowRecord| spec_title_pending(r),
        |r: WindowRecord| spec_title_commands(r),
    )
}

/// Push changed titles: one title call per changed record with a\n/// native window.
pub fn update_title(world: &mut WindowWorld) -> (cmds: Vec<BackendCommand>)
    requires
        old(world).wf(),
    ensures
        final(world).wf(),
        cmds@ == spec_title_push(old(world).records@),
        final(world).records@.len() == old(world).records@.len(),
        forall|i: int|
            0 <= i < old(world).records@.len() ==> final(world).records@[i] == spec_title_cleared(
                #[trigger] old(world).records@[i],
            ),
        final(world).primary == old(world).primary,
        final(world).closing@ == old(world).closing@,
{
    let mut cmds: Vec<BackendCommand> = Vec::new();
    let mut i: usize = 0;
    proof {
        assert(old(world).records@.take(0) =~= Seq::<WindowRecord>::empty());
    }
    while i < world.records.len()
        invariant
            old(world).wf(),
            i <= world.records@.len(),
            world.records@.len() == old(world).records@.len(),
            world.primary == old(world).primary,
            world.closing@ == old(world).closing@,
            forall|j: int|
                i <= j < old(world).records@.len() ==> #[trigger] world.records@[j] == old(
                    world,
                ).records@[j],
            forall|j: int|
                0 <= j < i ==> #[trigger] world.records@[j] == spec_title_cleared(
                    old(world).records@[j],
                ),
            cmds@ == spec_title_push(old(world).records@.take(i as int)),
        decreases world.records@.len() - i,
    {
        proof {
            assert(old(world).records@[i as int].wf());
        }
        if world.records[i].changed.title {
            match world.records[i].handle {
                Some(h) => {
                    let window = h.raw_window_handle();
                    let title = world.records[i].title.clone();
                    cmds.push(BackendCommand::SetTitle { window, title });
                    world.records[i].changed.title = false;
                },
                None => {},
            }
        }
        proof {
            assert(old(world).records@.take(i as int + 1).drop_last() =~= old(world).records@.take(
                i as int,
            ));
            assert(old(world).records@.take(i as int + 1).last() == old(world).records@[i as int]);
            assert(cmds@ =~= spec_title_push(
                old(world).records@.take(i as int + 1),
            ));
            assert(world.records@[i as int] == spec_title_cleared(old(world).records@[i as int]));
        }
        i = i + 1;
    }
    proof {
        assert(old(world).records@.take(old(world).records@.len() as int) =~= old(world).records@);
        lemma_wf_after_field_update(*old(world), *world);
    }
    cmds
}

/// Whether the display-mode push owes this record a backend call.
pub open spec fn spec_mode_pending(r: WindowRecord) -> bool {
    r.changed.mode && r.handle is Some
}

/// The backend calls one record's display-mode push makes.
pub open spec fn spec_mode_commands(r: WindowRecord, monitor: Monitor) -> Seq<BackendCommand> {
    match r.mode {
        WindowMode::Windowed => seq![
            BackendCommand::SetWindowed { window: (r.handle->0).spec_raw() },
        ],
        WindowMode::BorderlessFullscreen => seq![
            BackendCommand::SetBorderlessFullscreen { window: (r.handle->0).spec_raw() },
        ],
        WindowMode::Fullscreen => seq![
            BackendCommand::SetExclusiveFullscreen {
                window: (r.handle->0).spec_raw(),
                mode: spec_best_mode(monitor.video_modes@),
            },
        ],
        WindowMode::SizedFullscreen => seq![
            BackendCommand::SetExclusiveFullscreen {
                window: (r.handle->0).spec_raw(),
                mode: spec_fitting_mode(
                    monitor.video_modes@,
                    r.resolution.spec_logical_width_floor(),
                    r.resolution.spec_logical_height_floor(),
                ),
            },
        ],
    }
}

/// The record with the display-mode flag consumed, once pushed.
pub open spec fn spec_mode_cleared(r: WindowRecord) -> WindowRecord {
    if spec_mode_pending(r) {
        WindowRecord { changed: ChangeFlags { mode: false, ..r.changed }, ..r }
    } else {
        r
    }
}

/// The backend calls a whole push cycle makes for the display-mode group.
pub open spec fn spec_mode_push(records: Seq<WindowRecord>, monitor: Monitor) -> Seq<
    BackendCommand,
> {
    emitted(
        records,
        |r: WindowRecord| spec_mode_pending(r),
        |r: WindowRecord| spec_mode_commands(r, monitor),
    )
}

/// Push changed display modes: fullscreen modes pick their video\n/// mode from the window's current monitor.
pub fn update_window_mode(world: &mut WindowWorld, current_monitor: &Monitor) -> (cmds: Vec<BackendCommand>)
    requires
        old(world).wf(),
        current_monitor.video_modes@.len() > 0,
    ensures
        final(world).wf(),
        cmds@ == spec_mode_push(old(world).records@, *current_monitor),
        final(world).records@.len() == old(world).records@.len(),
        forall|i: int|
            0 <= i < old(world).records@.len() ==> final(world).records@[i] == spec_mode_cleared(
                #[trigger] old(world).records@[i],
            ),
        final(world).primary == old(world).primary,
        final(world).closing@ == old(world).closing@,
{
    let mut cmds: Vec<BackendCommand> = Vec::new();
    let mut i: usize = 0;
    proof {
        assert(old(world).records@.take(0) =~= Seq::<WindowRecord>::empty());
    }
    while i < world.records.len()
        invariant
            old(world).wf(),
            current_monitor.video_modes@.len() > 0,
            i <= world.records@.len(),
            world.records@.len() == old(world).records@.len(),
            world.primary == old(world).primary,
            world.closing@ == old(world).closing@,
            forall|j: int|
                i <= j < old(world).records@.len() ==> #[trigger] world.records@[j] == old(
                    world,
                ).records@[j],
            forall|j: int|
                0 <= j < i ==> #[trigger] world.records@[j] == spec_mode_cleared(
                    old(world).records@[j],
                ),
            cmds@ == spec_mode_push(old(world).records@.take(i as int), *current_monitor),
        decreases world.records@.len() - i,
    {
        proof {
            assert(old(world).records@[i as int].wf());
        }
        if world.records[i].changed.mode {
            match world.records[i].handle {
                Some(h) => {
                    let window = h.raw_window_handle();
                    match world.records[i].mode {
                        WindowMode::Windowed => {
                            cmds.push(BackendCommand::SetWindowed { window });
                        },
                        WindowMode::BorderlessFullscreen => {
                            cmds.push(BackendCommand::SetBorderlessFullscreen { window });
                        },
                        WindowMode::Fullscreen => {
                            let mode = get_best_videomode(current_monitor);
                            cmds.push(BackendCommand::SetExclusiveFullscreen { window, mode });
                        },
                        WindowMode::SizedFullscreen => {
                            let target_w = world.records[i].resolution.width().floor_px();
                            let target_h = world.records[i].resolution.height().floor_px();
                            let mode = get_fitting_videomode(current_monitor, target_w, target_h);
                            cmds.push(BackendCommand::SetExclusiveFullscreen { window, mode });
                        },
                    }
                    world.records[i].changed.mode = false;
                },
                None => {},
            }
        }
        proof {
            assert(old(world).records@.take(i as int + 1).drop_last() =~= old(world).records@.take(
                i as int,
            ));
            assert(old(world).records@.take(i as int + 1).last() == old(world).records@[i as int]);
            assert(cmds@ =~= spec_mode_push(
                old(world).records@.take(i as int + 1), *current_monitor,
            ));
            assert(world.records@[i as int] == spec_mode_cleared(old(world).records@[i as int]));
        }
        i = i + 1;
    }
    proof {
        assert(old(world).records@.take(old(world).records@.len() as int) =~= old(world).records@);
        lemma_wf_after_field_update(*old(world), *world);
    }
    cmds
}

/// Whether the resolution push owes this record a backend call.
pub open spec fn spec_resolution_pending(r: WindowRecord) -> bool {
    r.changed.resolution && r.handle is Some
}

/// The backend calls one record's resolution push makes.
pub open spec fn spec_resolution_commands(r: WindowRecord) -> Seq<BackendCommand> {
    seq![
        BackendCommand::SetInnerSize {
            window: (r.handle->0).spec_raw(),
            width: r.resolution.spec_physical_width() as u32,
            height: r.resolution.spec_physical_height() as u32,
        },
    ]
}

/// The record with the resolution flag consumed, once pushed.
pub open spec fn spec_resolution_cleared(r: WindowRecord) -> WindowRecord {
    if spec_resolution_pending(r) {
        WindowRecord { changed: ChangeFlags { resolution: false, ..r.changed }, ..r }
    } else {
        r
    }
}

/// The backend calls a whole push cycle makes for the resolution group.
pub open spec fn spec_resolution_push(records: Seq<WindowRecord>) -> Seq<
    BackendCommand,
> {
    emitted(
        records,
        |r: WindowRecord| spec_resolution_pending(r),
        |r: WindowRecord| spec_resolution_commands(r),
    )
}

/// Push changed resolutions: the inner size the backend is asked\n/// for is the record's physical size, which the exact logical size\n/// scales back to.
pub fn update_resolution(world: &mut WindowWorld) -> (cmds: Vec<BackendCommand>)
    requires
        old(world).wf(),
    ensures
        final(world).wf(),
        cmds@ == spec_resolution_push(old(world).records@),
        final(world).records@.len() == old(world).records@.len(),
        forall|i: int|
            0 <= i < old(world).records@.len() ==> final(world).records@[i] == spec_resolution_cleared(
                #[trigger] old(world).records@[i],
            ),
        final(world).primary == old(world).primary,
        final(world).closing@ == old(world).closing@,
{
    let mut cmds: Vec<BackendCommand> = Vec::new();
    let mut i: usize = 0;
    proof {
        assert(old(world).records@.take(0) =~= Seq::<WindowRecord>::empty());
    }
    while i < world.records.len()
        invariant
            old(world).wf(),
            i <= world.records@.len(),
            world.records@.len() == old(world).records@.len(),
            world.primary == old(world).primary,
            world.closing@ == old(world).closing@,
            forall|j: int|
                i <= j < old(world).records@.len() ==> #[trigger] world.records@[j] == old(
                    world,
                ).records@[j],
            forall|j: int|
                0 <= j < i ==> #[trigger] world.records@[j] == spec_resolution_cleared(
                    old(world).records@[j],
                ),
            cmds@ == spec_resolution_push(old(world).records@.take(i as int)),
        decreases world.records@.len() - i,
    {
        proof {
            assert(old(world).records@[i as int].wf());
        }
        if world.records[i].changed.resolution {
            match world.records[i].handle {
                Some(h) => {
                    let window = h.raw_window_handle();
                    let width = world.records[i].resolution.physical_width();
                    let height = world.records[i].resolution.physical_height();
                    cmds.push(BackendCommand::SetInnerSize { window, width, height });
                    world.records[i].changed.resolution = false;
                },
                None => {},
            }
        }
        proof {
            assert(old(world).records@.take(i as int + 1).drop_last() =~= old(world).records@.take(
                i as int,
            ));
            assert(old(world).records@.take(i as int + 1).last() == old(world).records@[i as int]);
            assert(cmds@ =~= spec_resolution_push(
                old(world).records@.take(i as int + 1),
            ));
            assert(world.records@[i as int] == spec_resolution_cleared(old(world).records@[i as int]));
        }
        i = i + 1;
    }
    proof {
        assert(old(world).records@.take(old(world).records@.len() as int) =~= old(world).records@);
        lemma_wf_after_field_update(*old(world), *world);
    }
    cmds
}

/// Whether the cursor-position push owes this record a backend call.
pub open spec fn spec_cursor_position_pending(r: WindowRecord) -> bool {
    r.changed.cursor_position && r.handle is Some
}

/// The backend calls one record's cursor-position push makes.
pub open spec fn spec_cursor_position_commands(r: WindowRecord) -> Seq<BackendCommand> {
    match r.cursor_position.spec_physical_position() {
        Some(p) => seq![
            BackendCommand::SetCursorPosition {
                window: (r.handle->0).spec_raw(),
                x: p.x,
                y: (r.resolution.spec_physical_height() - p.y) as i64,
            },
        ],
        None => Seq::empty(),
    }
}

/// The record with the cursor-position flag consumed, once pushed.
pub open spec fn spec_cursor_position_cleared(r: WindowRecord) -> WindowRecord {
    if spec_cursor_position_pending(r) {
        WindowRecord { changed: ChangeFlags { cursor_position: false, ..r.changed }, ..r }
    } else {
        r
    }
}

/// The backend calls a whole push cycle makes for the cursor-position group.
pub open spec fn spec_cursor_position_push(records: Seq<WindowRecord>) -> Seq<
    BackendCommand,
> {
    emitted(
        records,
        |r: WindowRecord| spec_cursor_position_pending(r),
        |r: WindowRecord| spec_cursor_position_commands(r),
    )
}

/// Push changed cursor positions, flipping the vertical axis back\n/// to the backend's top-left origin; a pointer outside the window has\n/// nothing to push.
pub fn update_cursor_position(world: &mut WindowWorld) -> (cmds: Vec<BackendCommand>)
    requires
        old(world).wf(),
    ensures
        final(world).wf(),
        cmds@ == spec_cursor_position_push(old(world).records@),
        final(world).records@.len() == old(world).records@.len(),
        forall|i: int|
            0 <= i < old(world).records@.len() ==> final(world).records@[i] == spec_cursor_position_cleared(
                #[trigger] old(world).records@[i],
            ),
        final(world).primary == old(world).primary,
        final(world).closing@ == old(world).closing@,
{
    let mut cmds: Vec<BackendCommand> = Vec::new();
    let mut i: usize = 0;
    proof {
        assert(old(world).records@.take(0) =~= Seq::<WindowRecord>::empty());
    }
    while i < world.records.len()
        invariant
            old(world).wf(),
            i <= world.records@.len(),
            world.records@.len() == old(world).records@.len(),
            world.primary == old(world).primary,
            world.closing@ == old(world).closing@,
            forall|j: int|
                i <= j < old(world).records@.len() ==> #[trigger] world.records@[j] == old(
                    world,
                ).records@[j],
            forall|j: int|
                0 <= j < i ==> #[trigger] world.records@[j] == spec_cursor_position_cleared(
                    old(world).records@[j],
                ),
            cmds@ == spec_cursor_position_push(old(world).records@.take(i as int)),
        decreases world.records@.len() - i,
    {
        proof {
            assert(old(world).records@[i as int].wf());
        }
        if world.records[i].changed.cursor_position {
            match world.records[i].handle {
                Some(h) => {
                    let window = h.raw_window_handle();
                    match world.records[i].cursor_position.physical_position() {
                        Some(p) => {
                            let inner_height = world.records[i].resolution.physical_height();
                            let y: i64 = inner_height as i64 - p.y;
                            cmds.push(BackendCommand::SetCursorPosition { window, x: p.x, y });
                        },
                        None => {},
                    }
                    world.records[i].changed.cursor_position = false;
                },
                None => {},
            }
        }
        proof {
            assert(old(world).records@.take(i as int + 1).drop_last() =~= old(world).records@.take(
                i as int,
            ));
            assert(old(world).records@.take(i as int + 1).last() == old(world).records@[i as int]);
            assert(cmds@ =~= spec_cursor_position_push(
                old(world).records@.take(i as int + 1),
            ));
            assert(world.records@[i as int] == spec_cursor_position_cleared(old(world).records@[i as int]));
        }
        i = i + 1;
    }
    proof {
        assert(old(world).records@.take(old(world).records@.len() as int) =~= old(world).records@);
        lemma_wf_after_field_update(*old(world), *world);
    }
    cmds
}

/// Whether the cursor-appearance push owes this record a backend call.
pub open spec fn spec_cursor_pending(r: WindowRecord) -> bool {
    r.changed.cursor && r.handle is Some
}

/// The backend calls one record's cursor-appearance push makes.
pub open spec fn spec_cursor_commands(r: WindowRecord) -> Seq<BackendCommand> {
    seq![
        BackendCommand::SetCursorIcon {
            window: (r.handle->0).spec_raw(),
            icon: r.cursor.spec_icon(),
        },
        BackendCommand::SetCursorGrab {
            window: (r.handle->0).spec_raw(),
            locked: r.cursor.spec_locked(),
        },
        BackendCommand::SetCursorVisible {
            window: (r.handle->0).spec_raw(),
            visible: r.cursor.spec_visible(),
        },
    ]
}

/// The record with the cursor-appearance flag consumed, once pushed.
pub open spec fn spec_cursor_cleared(r: WindowRecord) -> WindowRecord {
    if spec_cursor_pending(r) {
        WindowRecord { changed: ChangeFlags { cursor: false, ..r.changed }, ..r }
    } else {
        r
    }
}

/// The backend calls a whole push cycle makes for the cursor-appearance group.
pub open spec fn spec_cursor_push(records: Seq<WindowRecord>) -> Seq<
    BackendCommand,
> {
    emitted(
        records,
        |r: WindowRecord| spec_cursor_pending(r),
        |r: WindowRecord| spec_cursor_commands(r),
    )
}

/// Push changed cursor appearance and lock state: icon, grab, and\n/// visibility in that order.
pub fn update_cursor(world: &mut WindowWorld) -> (cmds: Vec<BackendCommand>)
    requires
        old(world).wf(),
    ensures
        final(world).wf(),
        cmds@ == spec_cursor_push(old(world).records@),
        final(world).records@.len() == old(world).records@.len(),
        forall|i: int|
            0 <= i < old(world).records@.len() ==> final(world).records@[i] == spec_cursor_cleared(
                #[trigger] old(world).records@[i],
            ),
        final(world).primary == old(world).primary,
        final(world).closing@ == old(world).closing@,
{
    let mut cmds: Vec<BackendCommand> = Vec::new();
    let mut i: usize = 0;
    proof {
        assert(old(world).records@.take(0) =~= Seq::<WindowRecord>::empty());
    }
    while i < world.records.len()
        invariant
            old(world).wf(),
            i <= world.records@.len(),
            world.records@.len() == old(world).records@.len(),
            world.primary == old(world).primary,
            world.closing@ == old(world).closing@,
            forall|j: int|
                i <= j < old(world).records@.len() ==> #[trigger] world.records@[j] == old(
                    world,
                ).records@[j],
            forall|j: int|
                0 <= j < i ==> #[trigger] world.records@[j] == spec_cursor_cleared(
                    old(world).records@[j],
                ),
            cmds@ == spec_cursor_push(old(world).records@.take(i as int)),
        decreases world.records@.len() - i,
    {
        proof {
            assert(old(world).records@[i as int].wf());
        }
        if world.records[i].changed.cursor {
            match world.records[i].handle {
                Some(h) => {
                    let window = h.raw_window_handle();
                    let icon = world.records[i].cursor.icon();
                    let locked = world.records[i].cursor.locked();
                    let visible = world.records[i].cursor.visible();
                    cmds.push(BackendCommand::SetCursorIcon { window, icon });
                    cmds.push(BackendCommand::SetCursorGrab { window, locked });
                    cmds.push(BackendCommand::SetCursorVisible { window, visible });
                    world.records[i].changed.cursor = false;
                },
                None => {},
            }
        }
        proof {
            assert(old(world).records@.take(i as int + 1).drop_last() =~= old(world).records@.take(
                i as int,
            ));
            assert(old(world).records@.take(i as int + 1).last() == old(world).records@[i as int]);
            assert(cmds@ =~= spec_cursor_push(
                old(world).records@.take(i as int + 1),
            ));
            assert(world.records@[i as int] == spec_cursor_cleared(old(world).records@[i as int]));
        }
        i = i + 1;
    }
    proof {
        assert(old(world).records@.take(old(world).records@.len() as int) =~= old(world).records@);
        lemma_wf_after_field_update(*old(world), *world);
    }
    cmds
}

/// Whether the resize-constraint push owes this record a backend call.
pub open spec fn spec_resize_constraints_pending(r: WindowRecord) -> bool {
    r.changed.resize_constraints && r.handle is Some
}

/// The backend calls one record's resize-constraint push makes.
pub open spec fn spec_resize_constraints_commands(r: WindowRecord) -> Seq<BackendCommand> {
    {
        let c = spec_check_constraints(r.resize_constraints);
        seq![
            BackendCommand::SetMinInnerSize {
                window: (r.handle->0).spec_raw(),
                width: c.min_width,
                height: c.min_height,
            },
        ] + (if c.max_width != u32::MAX && c.max_height != u32::MAX {
            seq![
                BackendCommand::SetMaxInnerSize {
                    window: (r.handle->0).spec_raw(),
                    width: c.max_width,
                    height: c.max_height,
                },
            ]
        } else {
            Seq::empty()
        })
    }
}

/// The record with the resize-constraint flag consumed, once pushed.
pub open spec fn spec_resize_constraints_cleared(r: WindowRecord) -> WindowRecord {
    if spec_resize_constraints_pending(r) {
        WindowRecord { changed: ChangeFlags { resize_constraints: false, ..r.changed }, ..r }
    } else {
        r
    }
}

/// The backend calls a whole push cycle makes for the resize-constraint group.
pub open spec fn spec_resize_constraints_push(records: Seq<WindowRecord>) -> Seq<
    BackendCommand,
> {
    emitted(
        records,
        |r: WindowRecord| spec_resize_constraints_pending(r),
        |r: WindowRecord| spec_resize_constraints_commands(r),
    )
}

/// Push changed resize constraints, normalized first; a maximum is\n/// pushed only when both axes are bounded.
pub fn update_resize_constraints(world: &mut WindowWorld) -> (cmds: Vec<BackendCommand>)
    requires
        old(world).wf(),
    ensures
        final(world).wf(),
        cmds@ == spec_resize_constraints_push(old(world).records@),
        final(world).records@.len() == old(world).records@.len(),
        forall|i: int|
            0 <= i < old(world).records@.len() ==> final(world).records@[i] == spec_resize_constraints_cleared(
                #[trigger] old(world).records@[i],
            ),
        final(world).primary == old(world).primary,
        final(world).closing@ == old(world).closing@,
{
    let mut cmds: Vec<BackendCommand> = Vec::new();
    let mut i: usize = 0;
    proof {
        assert(old(world).records@.take(0) =~= Seq::<WindowRecord>::empty());
    }
    while i < world.records.len()
        invariant
            old(world).wf(),
            i <= world.records@.len(),
            world.records@.len() == old(world).records@.len(),
            world.primary == old(world).primary,
            world.closing@ == old(world).closing@,
            forall|j: int|
                i <= j < old(world).records@.len() ==> #[trigger] world.records@[j] == old(
                    world,
                ).records@[j],
            forall|j: int|
                0 <= j < i ==> #[trigger] world.records@[j] == spec_resize_constraints_cleared(
                    old(world).records@[j],
                ),
            cmds@ == spec_resize_constraints_push(old(world).records@.take(i as int)),
        decreases world.records@.len() - i,
    {
        proof {
            assert(old(world).records@[i as int].wf());
        }
        if world.records[i].changed.resize_constraints {
            match world.records[i].handle {
                Some(h) => {
                    let window = h.raw_window_handle();
                    let c = world.records[i].resize_constraints.check_constraints();
                    cmds.push(
                        BackendCommand::SetMinInnerSize {
                            window,
                            width: c.min_width,
                            height: c.min_height,
                        },
                    );
                    if c.max_width != u32::MAX && c.max_height != u32::MAX {
                        cmds.push(
                            BackendCommand::SetMaxInnerSize {
                                window,
                                width: c.max_width,
                                height: c.max_height,
                            },
                        );
                    }
                    world.records[i].changed.resize_constraints = false;
                },
                None => {},
            }
        }
        proof {
            assert(old(world).records@.take(i as int + 1).drop_last() =~= old(world).records@.take(
                i as int,
            ));
            assert(old(world).records@.take(i as int + 1).last() == old(world).records@[i as int]);
            assert(cmds@ =~= spec_resize_constraints_push(
                old(world).records@.take(i as int + 1),
            ));
            assert(world.records@[i as int] == spec_resize_constraints_cleared(old(world).records@[i as int]));
        }
        i = i + 1;
    }
    proof {
        assert(old(world).records@.take(old(world).records@.len() as int) =~= old(world).records@);
        lemma_wf_after_field_update(*old(world), *world);
    }
    cmds
}

/// Whether the position push owes this record a backend call.
pub open spec fn spec_position_pending(r: WindowRecord) -> bool {
    r.changed.position && r.handle is Some
}

/// The backend calls one record's position push makes.
pub open spec fn spec_position_commands(r: WindowRecord,
    monitors: Seq<Monitor>,
    primary: Option<&Monitor>,
    current: Option<&Monitor>,) -> Seq<BackendCommand> {
    match spec_window_position(r.position, r.resolution, monitors, primary, current) {
        Some(p) => seq![
            BackendCommand::SetOuterPosition {
                window: (r.handle->0).spec_raw(),
                x: p.x,
                y: p.y,
            },
        ],
        None => Seq::empty(),
    }
}

/// The record with the position flag consumed, once pushed.
pub open spec fn spec_position_cleared(r: WindowRecord) -> WindowRecord {
    if spec_position_pending(r) {
        WindowRecord { changed: ChangeFlags { position: false, ..r.changed }, ..r }
    } else {
        r
    }
}

/// The backend calls a whole push cycle makes for the position group.
pub open spec fn spec_position_push(records: Seq<WindowRecord>,
    monitors: Seq<Monitor>,
    primary: Option<&Monitor>,
    current: Option<&Monitor>,) -> Seq<
    BackendCommand,
> {
    emitted(
        records,
        |r: WindowRecord| spec_position_pending(r),
        |r: WindowRecord| spec_position_commands(r, monitors, primary, current),
    )
}

/// Push changed positions, resolved against the monitors the\n/// backend reports; a position the backend decides has nothing to push.
pub fn update_window_position(world: &mut WindowWorld,
    available_monitors: &Vec<Monitor>,
    primary_monitor: Option<&Monitor>,
    current_monitor: Option<&Monitor>,) -> (cmds: Vec<BackendCommand>)
    requires
        old(world).wf(),
    ensures
        final(world).wf(),
        cmds@ == spec_position_push(old(world).records@, available_monitors@, primary_monitor, current_monitor),
        final(world).records@.len() == old(world).records@.len(),
        forall|i: int|
            0 <= i < old(world).records@.len() ==> final(world).records@[i] == spec_position_cleared(
                #[trigger] old(world).records@[i],
            ),
        final(world).primary == old(world).primary,
        final(world).closing@ == old(world).closing@,
{
    let mut cmds: Vec<BackendCommand> = Vec::new();
    let mut i: usize = 0;
    proof {
        assert(old(world).records@.take(0) =~= Seq::<WindowRecord>::empty());
    }
    while i < world.records.len()
        invariant
            old(world).wf(),
            i <= world.records@.len(),
            world.records@.len() == old(world).records@.len(),
            world.primary == old(world).primary,
            world.closing@ == old(world).closing@,
            forall|j: int|
                i <= j < old(world).records@.len() ==> #[trigger] world.records@[j] == old(
                    world,
                ).records@[j],
            forall|j: int|
                0 <= j < i ==> #[trigger] world.records@[j] == spec_position_cleared(
                    old(world).records@[j],
                ),
            cmds@ == spec_position_push(old(world).records@.take(i as int), available_monitors@, primary_monitor, current_monitor),
        decreases world.records@.len() - i,
    {
        proof {
            assert(old(world).records@[i as int].wf());
        }
        if world.records[i].changed.position {
            match world.records[i].handle {
                Some(h) => {
                    let window = h.raw_window_handle();
                    let resolved = winit_window_position(
                        &world.records[i].position,
                        &world.records[i].resolution,
                        available_monitors,
                        primary_monitor,
                        current_monitor,
                    );
                    match resolved {
                        Some(p) => {
                            cmds.push(
                                BackendCommand::SetOuterPosition { window, x: p.x, y: p.y },
                            );
                        },
                        None => {},
                    }
                    world.records[i].changed.position = false;
                },
                None => {},
            }
        }
        proof {
            assert(old(world).records@.take(i as int + 1).drop_last() =~= old(world).records@.take(
                i as int,
            ));
            assert(old(world).records@.take(i as int + 1).last() == old(world).records@[i as int]);
            assert(cmds@ =~= spec_position_push(
                old(world).records@.take(i as int + 1), available_monitors@, primary_monitor, current_monitor,
            ));
            assert(world.records@[i as int] == spec_position_cleared(old(world).records@[i as int]));
        }
        i = i + 1;
    }
    proof {
        assert(old(world).records@.take(old(world).records@.len() as int) =~= old(world).records@);
        lemma_wf_after_field_update(*old(world), *world);
    }
    cmds
}

/// Whether the window-state push owes this record a backend call.
pub open spec fn spec_state_pending(r: WindowRecord) -> bool {
    r.changed.state && r.handle is Some
}

/// The backend calls one record's window-state push makes.
pub open spec fn spec_state_commands(r: WindowRecord) -> Seq<BackendCommand> {
    match r.state {
        WindowState::Normal => seq![
            BackendCommand::SetMinimized { window: (r.handle->0).spec_raw(), minimized: false },
            BackendCommand::SetMaximized { window: (r.handle->0).spec_raw(), maximized: false },
        ],
        WindowState::Maximized => seq![
            BackendCommand::SetMaximized { window: (r.handle->0).spec_raw(), maximized: true },
        ],
        WindowState::Minimized => seq![
            BackendCommand::SetMinimized { window: (r.handle->0).spec_raw(), minimized: true },
        ],
    }
}

/// The record with the window-state flag consumed, once pushed.
pub open spec fn spec_state_cleared(r: WindowRecord) -> WindowRecord {
    if spec_state_pending(r) {
        WindowRecord { changed: ChangeFlags { state: false, ..r.changed }, ..r }
    } else {
        r
    }
}

/// The backend calls a whole push cycle makes for the window-state group.
pub open spec fn spec_state_push(records: Seq<WindowRecord>) -> Seq<
    BackendCommand,
> {
    emitted(
        records,
        |r: WindowRecord| spec_state_pending(r),
        |r: WindowRecord| spec_state_commands(r),
    )
}

/// Push changed window states: restoring to normal clears both the\n/// minimized and the maximized state.
pub fn update_window_state(world: &mut WindowWorld) -> (cmds: Vec<BackendCommand>)
    requires
        old(world).wf(),
    ensures
        final(world).wf(),
        cmds@ == spec_state_push(old(world).records@),
        final(world).records@.len() == old(world).records@.len(),
        forall|i: int|
            0 <= i < old(world).records@.len() ==> final(world).records@[i] == spec_state_cleared(
                #[trigger] old(world).records@[i],
            ),
        final(world).primary == old(world).primary,
        final(world).closing@ == old(world).closing@,
{
    let mut cmds: Vec<BackendCommand> = Vec::new();
    let mut i: usize = 0;
    proof {
        assert(old(world).records@.take(0) =~= Seq::<WindowRecord>::empty());
    }
    while i < world.records.len()
        invariant
            old(world).wf(),
            i <= world.records@.len(),
            world.records@.len() == old(world).records@.len(),
            world.primary == old(world).primary,
            world.closing@ == old(world).closing@,
            forall|j: int|
                i <= j < old(world).records@.len() ==> #[trigger] world.records@[j] == old(
                    world,
                ).records@[j],
            forall|j: int|
                0 <= j < i ==> #[trigger] world.records@[j] == spec_state_cleared(
                    old(world).records@[j],
                ),
            cmds@ == spec_state_push(old(world).records@.take(i as int)),
        decreases world.records@.len() - i,
    {
        proof {
            assert(old(world).records@[i as int].wf());
        }
        if world.records[i].changed.state {
            match world.records[i].handle {
                Some(h) => {
                    let window = h.raw_window_handle();
                    match world.records[i].state {
                        WindowState::Normal => {
                            cmds.push(
                                BackendCommand::SetMinimized { window, minimized: false },
                            );
                            cmds.push(
                                BackendCommand::SetMaximized { window, maximized: false },
                            );
                        },
                        WindowState::Maximized => {
                            cmds.push(BackendCommand::SetMaximized { window, maximized: true });
                        },
                        WindowState::Minimized => {
                            cmds.push(BackendCommand::SetMinimized { window, minimized: true });
                        },
                    }
                    world.records[i].changed.state = false;
                },
                None => {},
            }
        }
        proof {
            assert(old(world).records@.take(i as int + 1).drop_last() =~= old(world).records@.take(
                i as int,
            ));
            assert(old(world).records@.take(i as int + 1).last() == old(world).records@[i as int]);
            assert(cmds@ =~= spec_state_push(
                old(world).records@.take(i as int + 1),
            ));
            assert(world.records@[i as int] == spec_state_cleared(old(world).records@[i as int]));
        }
        i = i + 1;
    }
    proof {
        assert(old(world).records@.take(old(world).records@.len() as int) =~= old(world).records@);
        lemma_wf_after_field_update(*old(world), *world);
    }
    cmds
}

/// Pushing the title group is idempotent: the push consumed every
/// flag it acted on, so a second pass over the records it left behind
/// plans no backend call at all.
pub proof fn lemma_title_push_idempotent(
    before: Seq<WindowRecord>,
    after: Seq<WindowRecord>,
)
    requires
        after.len() == before.len(),
        forall|i: int|
            0 <= i < before.len() ==> after[i] == spec_title_cleared(#[trigger] before[i]),
    ensures
        spec_title_push(after) == Seq::<BackendCommand>::empty(),
    decreases before.len(),
{
    if before.len() > 0 {
        lemma_title_push_idempotent(before.drop_last(), after.drop_last());
        assert(after.last() == spec_title_cleared(before.last()));
        assert(spec_title_push(after) =~= Seq::<BackendCommand>::empty());
    } else {
        assert(spec_title_push(after) =~= Seq::<BackendCommand>::empty());
    }
}

/// Pushing the display-mode group is idempotent: the push consumed every
/// flag it acted on, so a second pass over the records it left behind
/// plans no backend call at all.
pub proof fn lemma_mode_push_idempotent(
    before: Seq<WindowRecord>,
    after: Seq<WindowRecord>,
    monitor: Monitor,
)
    requires
        after.len() == before.len(),
        forall|i: int|
            0 <= i < before.len() ==> after[i] == spec_mode_cleared(#[trigger] before[i]),
    ensures
        spec_mode_push(after, monitor) == Seq::<BackendCommand>::empty(),
    decreases before.len(),
{
    if before.len() > 0 {
        lemma_mode_push_idempotent(before.drop_last(), after.drop_last(), monitor);
        assert(after.last() == spec_mode_cleared(before.last()));
        assert(spec_mode_push(after, monitor) =~= Seq::<BackendCommand>::empty());
    } else {
        assert(spec_mode_push(after, monitor) =~= Seq::<BackendCommand>::empty());
    }
}

/// Pushing the resolution group is idempotent: the push consumed every
/// flag it acted on, so a second pass over the records it left behind
/// plans no backend call at all.
pub proof fn lemma_resolution_push_idempotent(
    before: Seq<WindowRecord>,
    after: Seq<WindowRecord>,
)
    requires
        after.len() == before.len(),
        forall|i: int|
            0 <= i < before.len() ==> after[i] == spec_resolution_cleared(#[trigger] before[i]),
    ensures
        spec_resolution_push(after) == Seq::<BackendCommand>::empty(),
    decreases before.len(),
{
    if before.len() > 0 {
        lemma_resolution_push_idempotent(before.drop_last(), after.drop_last());
        assert(after.last() == spec_resolution_cleared(before.last()));
        assert(spec_resolution_push(after) =~= Seq::<BackendCommand>::empty());
    } else {
        assert(spec_resolution_push(after) =~= Seq::<BackendCommand>::empty());
    }
}

/// Pushing the cursor-position group is idempotent: the push consumed every
/// flag it acted on, so a second pass over the records it left behind
/// plans no backend call at all.
pub proof fn lemma_cursor_position_push_idempotent(
    before: Seq<WindowRecord>,
    after: Seq<WindowRecord>,
)
    requires
        after.len() == before.len(),
        forall|i: int|
            0 <= i < before.len() ==> after[i] == spec_cursor_position_cleared(#[trigger] before[i]),
    ensures
        spec_cursor_position_push(after) == Seq::<BackendCommand>::empty(),
    decreases before.len(),
{
    if before.len() > 0 {
        lemma_cursor_position_push_idempotent(before.drop_last(), after.drop_last());
        assert(after.last() == spec_cursor_position_cleared(before.last()));
        assert(spec_cursor_position_push(after) =~= Seq::<BackendCommand>::empty());
    } else {
        assert(spec_cursor_position_push(after) =~= Seq::<BackendCommand>::empty());
    }
}

/// Pushing the cursor-appearance group is idempotent: the push consumed every
/// flag it acted on, so a second pass over the records it left behind
/// plans no backend call at all.
pub proof fn lemma_cursor_push_idempotent(
    before: Seq<WindowRecord>,
    after: Seq<WindowRecord>,
)
    requires
        after.len() == before.len(),
        forall|i: int|
            0 <= i < before.len() ==> after[i] == spec_cursor_cleared(#[trigger] before[i]),
    ensures
        spec_cursor_push(after) == Seq::<BackendCommand>::empty(),
    decreases before.len(),
{
    if before.len() > 0 {
        lemma_cursor_push_idempotent(before.drop_last(), after.drop_last());
        assert(after.last() == spec_cursor_cleared(before.last()));
        assert(spec_cursor_push(after) =~= Seq::<BackendCommand>::empty());
    } else {
        assert(spec_cursor_push(after) =~= Seq::<BackendCommand>::empty());
    }
}

/// Pushing the resize-constraint group is idempotent: the push consumed every
/// flag it acted on, so a second pass over the records it left behind
/// plans no backend call at all.
pub proof fn lemma_resize_constraints_push_idempotent(
    before: Seq<WindowRecord>,
    after: Seq<WindowRecord>,
)
    requires
        after.len() == before.len(),
        forall|i: int|
            0 <= i < before.len() ==> after[i] == spec_resize_constraints_cleared(#[trigger] before[i]),
    ensures
        spec_resize_constraints_push(after) == Seq::<BackendCommand>::empty(),
    decreases before.len(),
{
    if before.len() > 0 {
        lemma_resize_constraints_push_idempotent(before.drop_last(), after.drop_last());
        assert(after.last() == spec_resize_constraints_cleared(before.last()));
        assert(spec_resize_constraints_push(after) =~= Seq::<BackendCommand>::empty());
    } else {
        assert(spec_resize_constraints_push(after) =~= Seq::<BackendCommand>::empty());
    }
}

/// Pushing the position group is idempotent: the push consumed every
/// flag it acted on, so a second pass over the records it left behind
/// plans no backend call at all.
pub proof fn lemma_position_push_idempotent(
    before: Seq<WindowRecord>,
    after: Seq<WindowRecord>,
    monitors: Seq<Monitor>,
    primary: Option<&Monitor>,
    current: Option<&Monitor>,
)
    requires
        after.len() == before.len(),
        forall|i: int|
            0 <= i < before.len() ==> after[i] == spec_position_cleared(#[trigger] before[i]),
    ensures
        spec_position_push(after, monitors, primary, current) == Seq::<BackendCommand>::empty(),
    decreases before.len(),
{
    if before.len() > 0 {
        lemma_position_push_idempotent(before.drop_last(), after.drop_last(), monitors, primary, current);
        assert(after.last() == spec_position_cleared(before.last()));
        assert(spec_position_push(after, monitors, primary, current) =~= Seq::<BackendCommand>::empty());
    } else {
        assert(spec_position_push(after, monitors, primary, current) =~= Seq::<BackendCommand>::empty());
    }
}

/// Pushing the window-state group is idempotent: the push consumed every
/// flag it acted on, so a second pass over the records it left behind
/// plans no backend call at all.
pub proof fn lemma_state_push_idempotent(
    before: Seq<WindowRecord>,
    after: Seq<WindowRecord>,
)
    requires
        after.len() == before.len(),
        forall|i: int|
            0 <= i < before.len() ==> after[i] == spec_state_cleared(#[trigger] before[i]),
    ensures
        spec_state_push(after) == Seq::<BackendCommand>::empty(),
    decreases before.len(),
{
    if before.len() > 0 {
        lemma_state_push_idempotent(before.drop_last(), after.drop_last());
        assert(after.last() == spec_state_cleared(before.last()));
        assert(spec_state_push(after) =~= Seq::<BackendCommand>::empty());
    } else {
        assert(spec_state_push(after) =~= Seq::<BackendCommand>::empty());
    }
}

} // verus!
