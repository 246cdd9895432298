//! Lifecycle management and exit policy.
//!
//! A record moves `Pending` → `Live` when the backend creates its native
//! window, `Live` → `Closing` when a close is honored (the Closed event is
//! observable that same cycle), and disappears one cycle later when the
//! deferred destruction queue is drained.

use vstd::prelude::*;
use crate::command::BackendCommand;
use crate::entity::Entity;
use crate::event::WindowCloseRequested;
use crate::event::WindowClosed;
use crate::event::WindowCreated;
use crate::registry::WinitWindows;
use crate::registry::spec_entity_key;
use crate::registry::spec_id_key;
use crate::window::WindowHandle;
use crate::world::WindowLifecycle;
use crate::world::WindowRecord;
use crate::world::PrimaryWindow;
use crate::world::WindowBundle;
use crate::world::WindowWorld;
use crate::world::spec_closing_ok;
use crate::world::spec_has_entity;

verus! {

/// The conditions under which the application should exit.
#[derive(Clone, Copy, Debug, PartialEq, Eq, Structural)]
pub enum ExitCondition {
    /// Exit when the primary window is closed, or none is designated.
    OnPrimaryClosed,
    /// Exit when no window remains open.
    OnAllClosed,
    /// Keep running headless even after every window has closed.
    DontExit,
}

/// Configuration of the windowing engine's policies.
#[derive(Clone, Copy, Debug)]
pub struct WindowSettings {
    /// Whether to create a primary window on startup.
    pub add_primary_window: bool,
    /// When the application should exit.
    pub exit_condition: ExitCondition,
    /// Whether a close request from the backend closes the window.
    pub close_when_requested: bool,
}

impl Default for WindowSettings {
    fn default() -> (s: Self)
        ensures
            s.add_primary_window,
            s.exit_condition == ExitCondition::OnAllClosed,
            s.close_when_requested,
    {
        WindowSettings {
            add_primary_window: true,
            exit_condition: ExitCondition::OnAllClosed,
            close_when_requested: true,
        }
    }
}

/// Set up a fresh world according to the settings: with a primary window
/// requested, one record is spawned from the bundle and designated
/// primary; otherwise the world starts empty (headless operation is
/// legal).
pub fn build_window_world(
    settings: &WindowSettings,
    bundle: WindowBundle,
    primary_entity: Entity,
) -> (w: WindowWorld)
    requires
        bundle.wf(),
    ensures
        w.wf(),
        settings.add_primary_window ==> w.records@ == Seq::<WindowRecord>::empty().push(
            crate::world::spec_spawned_record(primary_entity, bundle),
        ) && w.primary == Some(PrimaryWindow { window: primary_entity }),
        !settings.add_primary_window ==> w.records@.len() == 0 && w.primary is None,
        w.closing@.len() == 0,
{
    let mut world = WindowWorld::new();
    if settings.add_primary_window {
        world.spawn_window(primary_entity, bundle);
        proof {
            assert(world.records@[0].entity == primary_entity);
        }
        world.set_primary(PrimaryWindow { window: primary_entity });
    }
    world
}

/// Attach a freshly created native window to its `Pending` record: the
/// record becomes `Live`, the handle table learns the association, and a
/// Created event is emitted, all before the next application-logic phase
/// can query the handle.
pub fn create_window(
    world: &mut WindowWorld,
    winit: &mut WinitWindows,
    entity: Entity,
    window_id: u64,
) -> (ev: WindowCreated)
    requires
        old(world).wf(),
        old(winit).wf(),
        exists|i: int|
            0 <= i < old(world).records@.len() && (#[trigger] old(world).records@[i]).entity
                == entity && old(world).records@[i].lifecycle is Pending,
        !spec_entity_key(old(winit).spec_entity_map(), entity),
        !spec_id_key(old(winit).spec_id_map(), window_id),
    ensures
        final(world).wf(),
        final(winit).wf(),
        ev == (WindowCreated { entity }),
        exists|i: int|
            0 <= i < old(world).records@.len() && (#[trigger] old(world).records@[i]).entity
                == entity && final(world).records@ == old(world).records@.update(
                i,
                WindowRecord {
                    lifecycle: WindowLifecycle::Live,
                    handle: Some(WindowHandle { raw_window_handle: window_id }),
                    ..old(world).records@[i]
                },
            ),
        final(world).primary == old(world).primary,
        final(world).closing@ == old(world).closing@,
        final(winit).spec_entity_map() == old(winit).spec_entity_map().push((entity, window_id)),
        final(winit).spec_id_map() == old(winit).spec_id_map().push((window_id, entity)),
{
    let i = match world.find_window(entity) {
        Some(i) => i,
        None => unreached(),
    };
    proof {
        // The found record is the pending one: entities are unique.
        let j = choose|j: int|
            0 <= j < old(world).records@.len() && (#[trigger] old(world).records@[j]).entity
                == entity && old(world).records@[j].lifecycle is Pending;
        assert(j == i as int);
    }
    world.records[i].lifecycle = WindowLifecycle::Live;
    world.records[i].handle = Some(WindowHandle::new(window_id));
    winit.register_window(entity, window_id);
    proof {
        assert(world.records@ =~= old(world).records@.update(
            i as int,
            WindowRecord {
                lifecycle: WindowLifecycle::Live,
                handle: Some(WindowHandle { raw_window_handle: window_id }),
                ..old(world).records@[i as int]
            },
        ));
        lemma_wf_after_lifecycle_update(*old(world), *world, i as int);
    }
    WindowCreated { entity }
}

/// Whether the entity has a `Live` record in the sequence.
pub open spec fn spec_live_entity(records: Seq<WindowRecord>, entity: Entity) -> bool {
    exists|i: int|
        0 <= i < records.len() && (#[trigger] records[i]).entity == entity && records[i].lifecycle
            is Live
}

/// Honor a close for one window: a `Live` record moves to `Closing`, is
/// queued for destruction at the start of the next cycle, and the Closed
/// event is emitted now, so consumers observe it while the record still
/// exists.
pub fn close_window(world: &mut WindowWorld, entity: Entity) -> (r: Option<WindowClosed>)
    requires
        old(world).wf(),
    ensures
        final(world).wf(),
        final(world).primary == old(world).primary,
        match r {
            Some(ev) => {
                &&& ev == (WindowClosed { entity })
                &&& spec_live_entity(old(world).records@, entity)
                &&& exists|i: int|
                    0 <= i < old(world).records@.len() && (#[trigger] old(world).records@[i]).entity
                        == entity && old(world).records@[i].lifecycle is Live && final(world).records@ == old(world).records@.update(
                        i,
                        WindowRecord {
                            lifecycle: WindowLifecycle::Closing,
                            ..old(world).records@[i]
                        },
                    )
                &&& final(world).closing@ == old(world).closing@.push(entity)
            },
            None => {
                &&& final(world).records@ == old(world).records@
                &&& final(world).closing@ == old(world).closing@
                &&& !spec_live_entity(old(world).records@, entity)
            },
        },
{
    let i = match world.find_window(entity) {
        Some(i) => i,
        None => {
            return None;
        },
    };
    let live = match world.records[i].lifecycle {
        WindowLifecycle::Live => true,
        _ => false,
    };
    if !live {
        proof {
            // Entities are unique, so no other record of this entity can
            // be live either.
            assert forall|j: int|
                0 <= j < old(world).records@.len() && (#[trigger] old(world).records@[j]).entity == entity implies !(old(world).records@[j].lifecycle
                is Live) by {
                assert(j == i as int);
            }
        }
        return None;
    }
    world.records[i].lifecycle = WindowLifecycle::Closing;
    world.closing.push(entity);
    proof {
        assert(world.records@ =~= old(world).records@.update(
            i as int,
            WindowRecord { lifecycle: WindowLifecycle::Closing, ..old(world).records@[i as int] },
        ));
        assert(world.closing@.drop_last() == old(world).closing@);
        lemma_wf_after_close(*old(world), *world, i as int, entity);
    }
    Some(WindowClosed { entity })
}

/// Lifecycle and handle may change at one record, everything else stays:
/// the world stays well formed provided the updated record is, the queue
/// is untouched, and no `Closing` state is created or destroyed.
proof fn lemma_wf_after_lifecycle_update(prev: WindowWorld, cur: WindowWorld, i: int)
    requires
        prev.wf(),
        0 <= i < prev.records@.len(),
        cur.records@.len() == prev.records@.len(),
        forall|j: int|
            0 <= j < prev.records@.len() && j != i ==> #[trigger] cur.records@[j]
                == prev.records@[j],
        cur.records@[i].entity == prev.records@[i].entity,
        cur.records@[i].resolution == prev.records@[i].resolution,
        cur.records@[i].wf(),
        cur.records@[i].lifecycle is Closing <==> prev.records@[i].lifecycle is Closing,
        cur.primary == prev.primary,
        cur.closing@ == prev.closing@,
    ensures
        cur.wf(),
{
    assert forall|a: int, b: int|
        0 <= a < b < cur.records@.len() implies (#[trigger] cur.records@[a]).entity != (
    #[trigger] cur.records@[b]).entity by {
        assert(cur.records@[a].entity == prev.records@[a].entity);
        assert(cur.records@[b].entity == prev.records@[b].entity);
    }
    match cur.primary {
        Some(p) => {
            let j = choose|j: int|
                0 <= j < prev.records@.len() && (#[trigger] prev.records@[j]).entity == p.window;
            assert(cur.records@[j].entity == p.window);
        },
        None => {},
    }
    assert forall|k: int| 0 <= k < cur.closing@.len() implies spec_closing_ok(
        cur.records@,
        #[trigger] cur.closing@[k],
    ) by {
        assert(spec_closing_ok(prev.records@, prev.closing@[k]));
        let j = choose|j: int|
            0 <= j < prev.records@.len() && (#[trigger] prev.records@[j]).entity
                == prev.closing@[k] && prev.records@[j].lifecycle is Closing;
        assert(cur.records@[j].entity == cur.closing@[k]);
        assert(cur.records@[j].lifecycle is Closing);
    }
    assert forall|j: int|
        0 <= j < cur.records@.len() && (#[trigger] cur.records@[j]).lifecycle is Closing implies cur
        .closing@.contains(cur.records@[j].entity) by {
        assert(prev.records@[j].lifecycle is Closing);
        assert(prev.closing@.contains(prev.records@[j].entity));
    }
}

/// The world stays well formed when a `Live` record moves to `Closing`
/// and is appended to the destruction queue.
proof fn lemma_wf_after_close(prev: WindowWorld, cur: WindowWorld, i: int, entity: Entity)
    requires
        prev.wf(),
        0 <= i < prev.records@.len(),
        prev.records@[i].entity == entity,
        prev.records@[i].lifecycle is Live,
        cur.records@ == prev.records@.update(
            i,
            WindowRecord { lifecycle: WindowLifecycle::Closing, ..prev.records@[i] },
        ),
        cur.primary == prev.primary,
        cur.closing@ == prev.closing@.push(entity),
    ensures
        cur.wf(),
{
    match cur.primary {
        Some(p) => {
            let j = choose|j: int|
                0 <= j < prev.records@.len() && (#[trigger] prev.records@[j]).entity == p.window;
            assert(cur.records@[j].entity == p.window);
        },
        None => {},
    }
    // The entity was live, so it was not queued before.
    assert forall|k: int| 0 <= k < prev.closing@.len() implies prev.closing@[k] != entity by {
        if prev.closing@[k] == entity {
            assert(spec_closing_ok(prev.records@, prev.closing@[k]));
            let j = choose|j: int|
                0 <= j < prev.records@.len() && (#[trigger] prev.records@[j]).entity == entity
                    && prev.records@[j].lifecycle is Closing;
            assert(j == i);
        }
    }
    assert forall|k: int| 0 <= k < cur.closing@.len() implies spec_closing_ok(
        cur.records@,
        #[trigger] cur.closing@[k],
    ) by {
        if k < prev.closing@.len() {
            assert(spec_closing_ok(prev.records@, prev.closing@[k]));
            let j = choose|j: int|
                0 <= j < prev.records@.len() && (#[trigger] prev.records@[j]).entity
                    == prev.closing@[k] && prev.records@[j].lifecycle is Closing;
            assert(cur.records@[j].entity == cur.closing@[k]);
            assert(cur.records@[j].lifecycle is Closing);
        } else {
            assert(cur.closing@[k] == entity);
            assert(cur.records@[i].entity == entity && cur.records@[i].lifecycle is Closing);
        }
    }
    assert forall|j: int|
        0 <= j < cur.records@.len() && (#[trigger] cur.records@[j]).lifecycle is Closing implies cur
        .closing@.contains(cur.records@[j].entity) by {
        if j == i {
            assert(cur.closing@[cur.closing@.len() - 1] == cur.records@[j].entity);
        } else {
            assert(prev.records@[j].lifecycle is Closing);
            assert(prev.closing@.contains(prev.records@[j].entity));
            let k = choose|k: int|
                0 <= k < prev.closing@.len() && prev.closing@[k] == prev.records@[j].entity;
            assert(cur.closing@[k] == cur.records@[j].entity);
        }
    }
}

/// Whether one of the close requests names this entity.
pub open spec fn spec_requested(reqs: Seq<WindowCloseRequested>, entity: Entity) -> bool {
    exists|k: int| 0 <= k < reqs.len() && (#[trigger] reqs[k]).entity == entity
}

/// What a record looks like after a batch of close requests is honored:
/// a `Live` record whose entity was named moves to `Closing`, every other
/// record is untouched.
pub open spec fn spec_record_after_close(
    rec: WindowRecord,
    reqs: Seq<WindowCloseRequested>,
) -> WindowRecord {
    if rec.lifecycle is Live && spec_requested(reqs, rec.entity) {
        WindowRecord { lifecycle: WindowLifecycle::Closing, ..rec }
    } else {
        rec
    }
}

/// A request for a prefix one longer is a request for the prefix or the
/// newly included event.
proof fn lemma_requested_take_step(reqs: Seq<WindowCloseRequested>, k: int)
    requires
        0 <= k < reqs.len(),
    ensures
        forall|e: Entity|
            #[trigger] spec_requested(reqs.take(k + 1), e) <==> (spec_requested(reqs.take(k), e)
                || reqs[k].entity == e),
{
    assert forall|e: Entity| #[trigger] spec_requested(reqs.take(k + 1), e) implies (spec_requested(
        reqs.take(k),
        e,
    ) || reqs[k].entity == e) by {
        let j = choose|j: int|
            0 <= j < reqs.take(k + 1).len() && (#[trigger] reqs.take(k + 1)[j]).entity == e;
        if j < k {
            assert(reqs.take(k)[j].entity == e);
        }
    }
    assert forall|e: Entity|
        (spec_requested(reqs.take(k), e) || reqs[k].entity == e) implies #[trigger] spec_requested(
        reqs.take(k + 1),
        e,
    ) by {
        if spec_requested(reqs.take(k), e) {
            let j = choose|j: int|
                0 <= j < reqs.take(k).len() && (#[trigger] reqs.take(k)[j]).entity == e;
            assert(reqs.take(k + 1)[j].entity == e);
        } else {
            assert(reqs.take(k + 1)[k].entity == e);
        }
    }
}

/// Honor this cycle's close requests: every `Live` record named by a
/// request moves to `Closing` and its Closed event is emitted this cycle;
/// the records themselves are removed only on the next cycle's drain.
pub fn close_when_requested(
    world: &mut WindowWorld,
    requested: &Vec<WindowCloseRequested>,
) -> (events: Vec<WindowClosed>)
    requires
        old(world).wf(),
    ensures
        final(world).wf(),
        final(world).primary == old(world).primary,
        final(world).records@.len() == old(world).records@.len(),
        forall|i: int|
            0 <= i < old(world).records@.len() ==> final(world).records@[i]
                == spec_record_after_close(#[trigger] old(world).records@[i], requested@),
        forall|j: int|
            0 <= j < events@.len() ==> spec_requested(requested@, (#[trigger] events@[j]).entity)
                && spec_live_entity(old(world).records@, events@[j].entity),
        forall|i: int|
            0 <= i < old(world).records@.len() && (#[trigger] old(world).records@[i]).lifecycle
                is Live && spec_requested(requested@, old(world).records@[i].entity)
                ==> spec_closed_contains(events@, old(world).records@[i].entity),
        final(world).closing@ == old(world).closing@ + events@.map_values(
            |ev: WindowClosed| ev.entity,
        ),
{
    let mut events: Vec<WindowClosed> = Vec::new();
    let mut k: usize = 0;
    proof {
        assert(world.closing@ =~= old(world).closing@ + events@.map_values(
            |ev: WindowClosed| ev.entity,
        ));
        assert(requested@.take(0) =~= Seq::<WindowCloseRequested>::empty());
    }
    while k < requested.len()
        invariant
            old(world).wf(),
            world.wf(),
            k <= requested@.len(),
            world.primary == old(world).primary,
            world.records@.len() == old(world).records@.len(),
            forall|i: int|
                0 <= i < old(world).records@.len() ==> world.records@[i] == spec_record_after_close(
                    #[trigger] old(world).records@[i],
                    requested@.take(k as int),
                ),
            forall|j: int|
                0 <= j < events@.len() ==> spec_requested(
                    requested@.take(k as int),
                    (#[trigger] events@[j]).entity,
                ) && spec_live_entity(old(world).records@, events@[j].entity),
            forall|i: int|
                0 <= i < old(world).records@.len() && (#[trigger] old(
                    world,
                ).records@[i]).lifecycle is Live && spec_requested(
                    requested@.take(k as int),
                    old(world).records@[i].entity,
                ) ==> spec_closed_contains(events@, old(world).records@[i].entity),
            world.closing@ == old(world).closing@ + events@.map_values(
                |ev: WindowClosed| ev.entity,
            ),
        decreases requested@.len() - k,
    {
        let entity = requested[k].entity;
        let ghost events_before = events@;
        let ghost world_before = *world;
        match close_window(world, entity) {
            Some(ev) => {
                proof {
                    // The record close_window found live maps back to a
                    // record that was live at entry: honoring requests
                    // never makes a record live.
                    let i = choose|i: int|
                        0 <= i < world_before.records@.len() && (
                        #[trigger] world_before.records@[i]).entity == entity
                            && world_before.records@[i].lifecycle is Live;
                    assert(world_before.records@[i] == spec_record_after_close(
                        old(world).records@[i],
                        requested@.take(k as int),
                    ));
                    assert(old(world).records@[i].entity == entity);
                    assert(old(world).records@[i].lifecycle is Live);
                    assert(spec_live_entity(old(world).records@, entity));
                }
                events.push(ev);
            },
            None => {},
        }
        proof {
            lemma_requested_take_step(requested@, k as int);
            assert(world.closing@ =~= old(world).closing@ + events@.map_values(
                |ev: WindowClosed| ev.entity,
            ));
            assert forall|j: int| 0 <= j < events@.len() implies spec_requested(
                requested@.take(k as int + 1),
                (#[trigger] events@[j]).entity,
            ) && spec_live_entity(old(world).records@, events@[j].entity) by {
                if j < events_before.len() {
                    assert(events@[j] == events_before[j]);
                    assert(spec_requested(requested@.take(k as int), events@[j].entity));
                } else {
                    assert(events@[j].entity == entity);
                    assert(requested@[k as int].entity == entity);
                }
            }
            assert forall|i: int| 0 <= i < old(world).records@.len() implies world.records@[i]
                == spec_record_after_close(
                #[trigger] old(world).records@[i],
                requested@.take(k as int + 1),
            ) by {
                let before = spec_record_after_close(
                    old(world).records@[i],
                    requested@.take(k as int),
                );
                assert(world_before.records@[i] == before);
                if world.records@ != world_before.records@ {
                    let j = choose|j: int|
                        0 <= j < world_before.records@.len() && (
                        #[trigger] world_before.records@[j]).entity == entity
                            && world_before.records@[j].lifecycle is Live && world.records@
                            == world_before.records@.update(
                            j,
                            WindowRecord {
                                lifecycle: WindowLifecycle::Closing,
                                ..world_before.records@[j]
                            },
                        );
                    if old(world).records@[i].entity == entity {
                        assert(old(world).records@[j].entity == entity);
                        assert(j == i);
                    } else {
                        assert(world.records@[i] == world_before.records@[i]);
                    }
                } else {
                    if old(world).records@[i].entity == entity && before.lifecycle is Live {
                        assert(spec_live_entity(world_before.records@, entity));
                    }
                }
            }
            assert forall|i: int|
                0 <= i < old(world).records@.len() && (#[trigger] old(
                    world,
                ).records@[i]).lifecycle is Live && spec_requested(
                    requested@.take(k as int + 1),
                    old(world).records@[i].entity,
                ) implies spec_closed_contains(events@, old(world).records@[i].entity) by {
                let e = old(world).records@[i].entity;
                if spec_requested(requested@.take(k as int), e) {
                    assert(spec_closed_contains(events_before, e));
                    let j = choose|j: int|
                        0 <= j < events_before.len() && (#[trigger] events_before[j]).entity == e;
                    assert(events@[j].entity == e);
                } else {
                    assert(e == entity);
                    let before = spec_record_after_close(
                        old(world).records@[i],
                        requested@.take(k as int),
                    );
                    assert(world_before.records@[i] == before);
                    assert(before.lifecycle is Live);
                    assert(spec_live_entity(world_before.records@, entity));
                    assert(events@.len() > events_before.len());
                    assert(events@[events@.len() - 1].entity == e);
                }
            }
        }
        k = k + 1;
    }
    proof {
        assert(requested@.take(requested@.len() as int) =~= requested@);
    }
    events
}

/// The records that survive a drain of the destruction queue: everything
/// not in the `Closing` state, in order.
pub open spec fn spec_surviving(records: Seq<WindowRecord>) -> Seq<WindowRecord> {
    records.filter(|r: WindowRecord| !(r.lifecycle is Closing))
}

/// Whether the commands ask the backend to destroy this native window.
pub open spec fn spec_destroys(cmds: Seq<BackendCommand>, window: u64) -> bool {
    exists|k: int|
        0 <= k < cmds.len() && #[trigger] cmds[k] == (BackendCommand::DestroyWindow { window })
}

/// Drain the deferred destruction queue, exactly one cycle after the
/// Closed events went out: every `Closing` record leaves the world, its
/// native window is handed to the backend for destruction, and a primary
/// designation pointing at a drained record is cleared.  Runs at a fixed
/// point in the cycle, before new close requests are honored.
pub fn finalize_closing(world: &mut WindowWorld, winit: &mut WinitWindows) -> (cmds: Vec<
    BackendCommand,
>)
    requires
        old(world).wf(),
        old(winit).wf(),
    ensures
        final(world).wf(),
        final(winit).wf(),
        final(world).closing@.len() == 0,
        final(world).records@ == spec_surviving(old(world).records@),
        final(world).primary == (match old(world).primary {
            Some(p) => if old(world).closing@.contains(p.window) {
                None
            } else {
                Some(p)
            },
            None => None::<crate::world::PrimaryWindow>,
        }),
        final(winit).spec_id_map() == old(winit).spec_id_map(),
        forall|j: int|
            0 <= j < final(winit).spec_entity_map().len() ==> old(winit).spec_entity_map().contains(
                #[trigger] final(winit).spec_entity_map()[j],
            ) && !old(world).closing@.contains(final(winit).spec_entity_map()[j].0),
        forall|j: int|
            0 <= j < old(winit).spec_entity_map().len() && !old(world).closing@.contains(
                (#[trigger] old(winit).spec_entity_map()[j]).0,
            ) ==> final(winit).spec_entity_map().contains(old(winit).spec_entity_map()[j]),
        forall|k: int|
            0 <= k < cmds@.len() ==> ((#[trigger] cmds@[k])
                matches BackendCommand::DestroyWindow { window } && exists|l: int|
                0 <= l < old(winit).spec_entity_map().len() && (#[trigger] old(
                    winit,
                ).spec_entity_map()[l]).1 == window && old(world).closing@.contains(
                    old(winit).spec_entity_map()[l].0,
                )),
        forall|l: int|
            0 <= l < old(winit).spec_entity_map().len() && old(world).closing@.contains(
                (#[trigger] old(winit).spec_entity_map()[l]).0,
            ) ==> spec_destroys(cmds@, old(winit).spec_entity_map()[l].1),
{
    let ghost em0 = old(winit).spec_entity_map();
    let ghost closing0 = old(world).closing@;
    let mut cmds: Vec<BackendCommand> = Vec::new();
    let mut k: usize = 0;
    while k < world.closing.len()
        invariant
            old(world).wf(),
            old(winit).wf(),
            em0 == old(winit).spec_entity_map(),
            closing0 == old(world).closing@,
            k <= closing0.len(),
            world.records@ == old(world).records@,
            world.closing@ == closing0,
            winit.wf(),
            winit.spec_id_map() == old(winit).spec_id_map(),
            world.primary == (match old(world).primary {
                Some(p) => if closing0.take(k as int).contains(p.window) {
                    None
                } else {
                    Some(p)
                },
                None => None::<crate::world::PrimaryWindow>,
            }),
            forall|j: int|
                0 <= j < winit.spec_entity_map().len() ==> em0.contains(
                    #[trigger] winit.spec_entity_map()[j],
                ) && !closing0.take(k as int).contains(winit.spec_entity_map()[j].0),
            forall|j: int|
                0 <= j < em0.len() && !closing0.take(k as int).contains((#[trigger] em0[j]).0)
                    ==> winit.spec_entity_map().contains(em0[j]),
            forall|c: int|
                0 <= c < cmds@.len() ==> ((#[trigger] cmds@[c])
                    matches BackendCommand::DestroyWindow { window } && exists|l: int|
                    0 <= l < em0.len() && (#[trigger] em0[l]).1 == window && closing0.contains(
                        em0[l].0,
                    )),
            forall|l: int|
                0 <= l < em0.len() && closing0.take(k as int).contains((#[trigger] em0[l]).0)
                    ==> spec_destroys(cmds@, em0[l].1),
        decreases closing0.len() - k,
    {
        let entity = world.closing[k];
        let ghost winit_before = *winit;
        let ghost cmds_before = cmds@;
        match world.primary {
            Some(p) => {
                if p.window == entity {
                    world.primary = None;
                }
            },
            None => {},
        }
        let removed = winit.remove_window(entity);
        match removed {
            Some(window) => {
                cmds.push(BackendCommand::DestroyWindow { window });
            },
            None => {},
        }
        proof {
            assert(closing0.take(k as int + 1).drop_last() =~= closing0.take(k as int));
            assert(closing0.take(k as int + 1).last() == closing0[k as int]);
            assert forall|e: Entity| #[trigger]
                closing0.take(k as int + 1).contains(e) implies (closing0.take(
                k as int,
            ).contains(e) || e == entity) by {
                let j = choose|j: int|
                    0 <= j < closing0.take(k as int + 1).len() && #[trigger] closing0.take(
                        k as int + 1,
                    )[j] == e;
                if j < k as int {
                    assert(closing0.take(k as int)[j] == e);
                }
            }
            assert forall|e: Entity|
                (closing0.take(k as int).contains(e) || e == entity) implies #[trigger] closing0.take(
                k as int + 1,
            ).contains(e) by {
                if closing0.take(k as int).contains(e) {
                    let j = choose|j: int|
                        0 <= j < closing0.take(k as int).len() && #[trigger] closing0.take(
                            k as int,
                        )[j] == e;
                    assert(closing0.take(k as int + 1)[j] == e);
                } else {
                    assert(closing0.take(k as int + 1)[k as int] == e);
                }
            }
            assert(closing0.contains(entity)) by {
                assert(closing0[k as int] == entity);
            }
            if winit.spec_entity_map() != winit_before.spec_entity_map() {
                let i = choose|i: int|
                    0 <= i < winit_before.spec_entity_map().len() && #[trigger] winit_before.spec_entity_map()[i]
                        == (entity, winit_before.spec_entity_map()[i].1)
                        && winit.spec_entity_map() == winit_before.spec_entity_map().remove(i);
                winit_before.spec_entity_map().remove_ensures(i);
                assert forall|j: int|
                    0 <= j < winit.spec_entity_map().len() implies em0.contains(
                    #[trigger] winit.spec_entity_map()[j],
                ) && !closing0.take(k as int + 1).contains(winit.spec_entity_map()[j].0) by {
                    let j0 = if j < i {
                        j
                    } else {
                        j + 1
                    };
                    assert(winit.spec_entity_map()[j] == winit_before.spec_entity_map()[j0]);
                    // The surviving pair's key is not the drained entity:
                    // entity keys were unique before the removal.
                    if winit_before.spec_entity_map()[j0].0 == entity {
                        assert(winit_before.spec_entity_map()[i].0 == entity);
                        assert(j0 != i);
                    }
                }
                assert forall|j: int|
                    0 <= j < em0.len() && !closing0.take(k as int + 1).contains(
                        (#[trigger] em0[j]).0,
                    ) implies winit.spec_entity_map().contains(em0[j]) by {
                    assert(winit_before.spec_entity_map().contains(em0[j]));
                    let j0 = choose|j0: int|
                        0 <= j0 < winit_before.spec_entity_map().len()
                            && winit_before.spec_entity_map()[j0] == em0[j];
                    assert(j0 != i);
                    if j0 < i {
                        assert(winit.spec_entity_map()[j0] == em0[j]);
                    } else {
                        assert(winit.spec_entity_map()[j0 - 1] == em0[j]);
                    }
                }
            }
            assert forall|l: int|
                0 <= l < em0.len() && closing0.take(k as int + 1).contains(
                    (#[trigger] em0[l]).0,
                ) implies spec_destroys(cmds@, em0[l].1) by {
                if closing0.take(k as int).contains(em0[l].0) {
                    assert(spec_destroys(cmds_before, em0[l].1));
                    let c = choose|c: int|
                        0 <= c < cmds_before.len() && #[trigger] cmds_before[c] == (
                        BackendCommand::DestroyWindow { window: em0[l].1 });
                    assert(cmds@[c] == (BackendCommand::DestroyWindow { window: em0[l].1 }));
                } else {
                    assert(em0[l].0 == entity);
                    if closing0.take(k as int).contains(entity) {
                        let j = choose|j: int|
                            0 <= j < closing0.take(k as int).len() && #[trigger] closing0.take(
                                k as int,
                            )[j] == entity;
                        assert(closing0[j] == entity);
                        assert(closing0[k as int] == entity);
                        assert(false);
                    }
                    assert(winit_before.spec_entity_map().contains(em0[l]));
                    let li = choose|li: int|
                        0 <= li < winit_before.spec_entity_map().len()
                            && #[trigger] winit_before.spec_entity_map()[li] == em0[l];
                    assert(spec_entity_key(winit_before.spec_entity_map(), entity));
                    match removed {
                        Some(w) => {
                            let ri = choose|ri: int|
                                0 <= ri < winit_before.spec_entity_map().len()
                                    && #[trigger] winit_before.spec_entity_map()[ri] == (entity, w);
                            assert(em0.contains(winit_before.spec_entity_map()[ri]));
                            let l2 = choose|l2: int|
                                0 <= l2 < em0.len() && #[trigger] em0[l2] == (entity, w);
                            // Entity keys are unique in the original table.
                            assert(old(winit).spec_entity_map()[l2] == em0[l2]);
                            assert(old(winit).spec_entity_map()[l] == em0[l]);
                            assert(l2 == l);
                            assert(cmds@[cmds@.len() - 1] == (
                            BackendCommand::DestroyWindow { window: w }));
                        },
                        None => {
                            assert(false);
                        },
                    }
                }
            }
        }
        k = k + 1;
    }
    proof {
        assert(closing0.take(closing0.len() as int) =~= closing0);
    }
    // Drop every record the queue named; the queue holds exactly the
    // records in the `Closing` state.
    let mut kept: Vec<WindowRecord> = Vec::new();
    let mut i: usize = 0;
    proof {
        assert(world.records@.take(0) =~= Seq::<WindowRecord>::empty());
        assert(kept@ =~= spec_surviving(world.records@.take(0)));
    }
    while i < world.records.len()
        invariant
            old(world).wf(),
            i <= world.records@.len(),
            world.records@ == old(world).records@,
            kept@ == spec_surviving(world.records@.take(i as int)),
            forall|c: int|
                0 <= c < kept@.len() ==> exists|j: int|
                    0 <= j < i && #[trigger] kept@[c] == world.records@[j],
            forall|c: int, d: int|
                0 <= c < d < kept@.len() ==> (#[trigger] kept@[c]).entity != (
                #[trigger] kept@[d]).entity,
            forall|c: int| 0 <= c < kept@.len() ==> !((#[trigger] kept@[c]).lifecycle is Closing),
            forall|j: int|
                0 <= j < i && !((#[trigger] world.records@[j]).lifecycle is Closing)
                    ==> kept@.contains(world.records@[j]),
        decreases world.records@.len() - i,
    {
        let keep = match world.records[i].lifecycle {
            WindowLifecycle::Closing => false,
            _ => true,
        };
        let ghost kept_before = kept@;
        if keep {
            let record = world.records[i].clone();
            kept.push(record);
        }
        proof {
            broadcast use vstd::prelude::Seq::lemma_filter_push;

            assert(world.records@.take(i as int + 1) =~= world.records@.take(i as int).push(
                world.records@[i as int],
            ));
            assert(kept@ == spec_surviving(
                world.records@.take(i as int).push(world.records@[i as int]),
            ));
            assert(kept@ == spec_surviving(world.records@.take(i as int + 1)));
            assert forall|c: int| 0 <= c < kept@.len() implies exists|j: int|
                0 <= j < i + 1 && #[trigger] kept@[c] == world.records@[j] by {
                if c < kept_before.len() {
                    let j = choose|j: int|
                        0 <= j < i && #[trigger] kept_before[c] == world.records@[j];
                    assert(kept@[c] == world.records@[j]);
                } else {
                    assert(kept@[c] == world.records@[i as int]);
                }
            }
            assert forall|c: int, d: int| 0 <= c < d < kept@.len() implies (
            #[trigger] kept@[c]).entity != (#[trigger] kept@[d]).entity by {
                if d == kept@.len() - 1 && kept@.len() > kept_before.len() {
                    let j = choose|j: int|
                        0 <= j < i && #[trigger] kept_before[c] == world.records@[j];
                    assert(kept@[c] == world.records@[j]);
                    assert(kept@[d] == world.records@[i as int]);
                    assert(world.records@[j].entity != world.records@[i as int].entity);
                } else {
                    assert(kept@[c] == kept_before[c] && kept@[d] == kept_before[d]);
                }
            }
            assert forall|j: int|
                0 <= j < i + 1 && !((#[trigger] world.records@[j]).lifecycle is Closing) implies kept@.contains(
                world.records@[j],
            ) by {
                if j < i {
                    assert(kept_before.contains(world.records@[j]));
                    let c = choose|c: int|
                        0 <= c < kept_before.len() && kept_before[c] == world.records@[j];
                    assert(kept@[c] == world.records@[j]);
                } else {
                    assert(kept@[kept@.len() - 1] == world.records@[j]);
                }
            }
        }
        i = i + 1;
    }
    proof {
        assert(world.records@.take(world.records@.len() as int) =~= world.records@);
    }
    proof {
        assert forall|c: int| 0 <= c < kept@.len() implies old(world).records@.contains(
            #[trigger] kept@[c],
        ) by {
            let j = choose|j: int| 0 <= j < i && #[trigger] kept@[c] == world.records@[j];
            assert(old(world).records@[j] == kept@[c]);
        }
    }
    let ghost kept_view = kept@;
    world.records = kept;
    world.closing = Vec::new();
    proof {
        assert(world.records@ == kept_view);
        assert forall|c: int| 0 <= c < world.records@.len() implies old(world).records@.contains(
            #[trigger] world.records@[c],
        ) by {
            assert(world.records@[c] == kept_view[c]);
        }
        lemma_wf_after_drain(*old(world), *world);
    }
    cmds
}

/// The world stays well formed after a drain: the surviving records come
/// from the old ones with entities still unique, none of them `Closing`,
/// every non-`Closing` record survives, the queue is empty, and the
/// primary designation survives only if its record does.
proof fn lemma_wf_after_drain(prev: WindowWorld, cur: WindowWorld)
    requires
        prev.wf(),
        cur.closing@.len() == 0,
        forall|c: int|
            0 <= c < cur.records@.len() ==> prev.records@.contains(#[trigger] cur.records@[c]),
        forall|c: int, d: int|
            0 <= c < d < cur.records@.len() ==> (#[trigger] cur.records@[c]).entity != (
            #[trigger] cur.records@[d]).entity,
        forall|c: int| 0 <= c < cur.records@.len() ==> !((#[trigger] cur.records@[c]).lifecycle is Closing),
        forall|j: int|
            0 <= j < prev.records@.len() && !((#[trigger] prev.records@[j]).lifecycle is Closing)
                ==> cur.records@.contains(prev.records@[j]),
        match cur.primary {
            Some(p) => prev.primary == Some(p) && !prev.closing@.contains(p.window),
            None => true,
        },
    ensures
        cur.wf(),
{
    assert forall|c: int| 0 <= c < cur.records@.len() implies (#[trigger] cur.records@[c]).wf() by {
        assert(prev.records@.contains(cur.records@[c]));
        let j = choose|j: int|
            0 <= j < prev.records@.len() && prev.records@[j] == cur.records@[c];
        assert(prev.records@[j].wf());
    }
    match cur.primary {
        Some(p) => {
            let j = choose|j: int|
                0 <= j < prev.records@.len() && (#[trigger] prev.records@[j]).entity == p.window;
            if prev.records@[j].lifecycle is Closing {
                assert(prev.closing@.contains(prev.records@[j].entity));
            }
            assert(cur.records@.contains(prev.records@[j]));
            let c = choose|c: int|
                0 <= c < cur.records@.len() && cur.records@[c] == prev.records@[j];
            assert(cur.records@[c].entity == p.window);
        },
        None => {},
    }
}

/// Whether the entity has a focused record in the sequence.
spec fn spec_focused_entity(records: Seq<WindowRecord>, entity: Entity) -> bool {
    exists|j: int|
        0 <= j < records.len() && (#[trigger] records[j]).entity == entity
            && records[j].focus.spec_focused()
}

/// Close every focused window when the escape key was just pressed;
/// useful for prototyping.  Key decoding belongs to the input layer
/// outside this library; the decision of which windows close is made and
/// proved here.
pub fn close_on_esc(world: &mut WindowWorld, esc_just_pressed: bool) -> (events: Vec<WindowClosed>)
    requires
        old(world).wf(),
    ensures
        final(world).wf(),
        final(world).primary == old(world).primary,
        final(world).records@.len() == old(world).records@.len(),
        !esc_just_pressed ==> final(world).records@ == old(world).records@ && events@.len() == 0
            && final(world).closing@ == old(world).closing@,
        esc_just_pressed ==> forall|i: int|
            0 <= i < old(world).records@.len() ==> final(world).records@[i] == (if (
            #[trigger] old(world).records@[i]).focus.spec_focused() && old(
                world,
            ).records@[i].lifecycle is Live {
                WindowRecord { lifecycle: WindowLifecycle::Closing, ..old(world).records@[i] }
            } else {
                old(world).records@[i]
            }),
        esc_just_pressed ==> forall|i: int|
            0 <= i < old(world).records@.len() && (#[trigger] old(world).records@[i]).lifecycle
                is Live && old(world).records@[i].focus.spec_focused() ==> spec_closed_contains(
                events@,
                old(world).records@[i].entity,
            ),
        forall|k: int|
            0 <= k < events@.len() ==> spec_live_entity(
                old(world).records@,
                (#[trigger] events@[k]).entity,
            ),
{
    if !esc_just_pressed {
        return Vec::new();
    }
    // Collect the focused windows first, then honor a close request for
    // each of them.
    let mut requests: Vec<WindowCloseRequested> = Vec::new();
    let mut i: usize = 0;
    while i < world.records.len()
        invariant
            old(world).wf(),
            *world == *old(world),
            i <= world.records@.len(),
            forall|k: int|
                0 <= k < requests@.len() ==> spec_focused_entity(
                    world.records@,
                    (#[trigger] requests@[k]).entity,
                ),
            forall|j: int|
                0 <= j < i && (#[trigger] world.records@[j]).focus.spec_focused()
                    ==> spec_requested(requests@, world.records@[j].entity),
        decreases world.records@.len() - i,
    {
        let ghost requests_before = requests@;
        let focused = world.records[i].focus.focused();
        if focused {
            requests.push(WindowCloseRequested { entity: world.records[i].entity });
        }
        proof {
            assert forall|k: int| 0 <= k < requests@.len() implies spec_focused_entity(
                world.records@,
                (#[trigger] requests@[k]).entity,
            ) by {
                if k < requests_before.len() {
                    assert(requests@[k] == requests_before[k]);
                } else {
                    assert(requests@[k].entity == world.records@[i as int].entity);
                    assert(world.records@[i as int].focus.spec_focused());
                }
            }
            assert forall|j: int|
                0 <= j < i + 1 && (#[trigger] world.records@[j]).focus.spec_focused() implies spec_requested(
                requests@,
                world.records@[j].entity,
            ) by {
                if j < i {
                    assert(spec_requested(requests_before, world.records@[j].entity));
                    let k = choose|k: int|
                        0 <= k < requests_before.len() && (#[trigger] requests_before[k]).entity
                            == world.records@[j].entity;
                    assert(requests@[k].entity == world.records@[j].entity);
                } else {
                    assert(focused);
                    assert(requests@[requests@.len() - 1].entity == world.records@[j].entity);
                }
            }
        }
        i = i + 1;
    }
    let events = close_when_requested(world, &requests);
    proof {
        // A record's entity is requested exactly when the record itself
        // is focused: entities are unique.
        assert forall|j: int| 0 <= j < old(world).records@.len() implies #[trigger] spec_requested(
            requests@,
            old(world).records@[j].entity,
        ) == old(world).records@[j].focus.spec_focused() by {
            if spec_requested(requests@, old(world).records@[j].entity) {
                let k = choose|k: int|
                    0 <= k < requests@.len() && (#[trigger] requests@[k]).entity == old(
                        world,
                    ).records@[j].entity;
                assert(spec_focused_entity(old(world).records@, requests@[k].entity));
                let j2 = choose|j2: int|
                    0 <= j2 < old(world).records@.len() && (#[trigger] old(
                        world,
                    ).records@[j2]).entity == requests@[k].entity && old(
                        world,
                    ).records@[j2].focus.spec_focused();
                assert(j2 == j);
            }
        }
    }
    events
}

/// Every surviving record comes from the original sequence and none of
/// them is in the `Closing` state.
proof fn lemma_surviving_elements(records: Seq<WindowRecord>)
    ensures
        forall|c: int|
            0 <= c < spec_surviving(records).len() ==> !((#[trigger] spec_surviving(
                records,
            )[c]).lifecycle is Closing) && records.contains(spec_surviving(records)[c]),
    decreases records.len(),
{
    reveal(Seq::filter);
    if records.len() > 0 {
        lemma_surviving_elements(records.drop_last());
        assert forall|c: int|
            0 <= c < spec_surviving(records).len() implies !((#[trigger] spec_surviving(
            records,
        )[c]).lifecycle is Closing) && records.contains(spec_surviving(records)[c]) by {
            let shorter = spec_surviving(records.drop_last());
            if c < shorter.len() {
                assert(spec_surviving(records)[c] == shorter[c]);
                assert(records.drop_last().contains(shorter[c]));
                let j = choose|j: int|
                    0 <= j < records.drop_last().len() && records.drop_last()[j] == shorter[c];
                assert(records[j] == shorter[c]);
            } else {
                assert(spec_surviving(records)[c] == records.last());
                assert(records[records.len() - 1] == records.last());
            }
        }
    }
}

/// Window destruction ordering: when a close is honored for record X, the
/// Closed event goes out in a cycle where X's record still exists, and
/// the record is removed no earlier than the following cycle's drain —
/// after which it is gone.  The three worlds are the states before the
/// close, after the close, and after the next cycle's drain, related as
/// [`close_window`] and [`finalize_closing`] relate them.
pub proof fn lemma_deferred_destruction(
    w0: WindowWorld,
    w1: WindowWorld,
    w2: WindowWorld,
    entity: Entity,
    i: int,
)
    requires
        w0.wf(),
        0 <= i < w0.records@.len(),
        w0.records@[i].entity == entity,
        w0.records@[i].lifecycle is Live,
        w1.records@ == w0.records@.update(
            i,
            WindowRecord { lifecycle: WindowLifecycle::Closing, ..w0.records@[i] },
        ),
        w2.records@ == spec_surviving(w1.records@),
    ensures
        spec_has_entity(w1.records@, entity),
        !spec_has_entity(w2.records@, entity),
{
    assert(w1.records@[i].entity == entity);
    lemma_surviving_elements(w1.records@);
    if spec_has_entity(w2.records@, entity) {
        let c = choose|c: int|
            0 <= c < w2.records@.len() && (#[trigger] w2.records@[c]).entity == entity;
        assert(w1.records@.contains(w2.records@[c]));
        let j = choose|j: int| 0 <= j < w1.records@.len() && w1.records@[j] == w2.records@[c];
        // Entities are unique, so the only record of this entity in the
        // closed world is the one that is closing.
        if j != i {
            assert(w0.records@[j].entity != w0.records@[i].entity);
        }
        assert(j == i);
        assert(w2.records@[c].lifecycle is Closing);
        assert(false);
    }
}

/// The primary-window invariant: at most one record is ever designated
/// primary — the designation is a single optional value — and a
/// designation present in a well-formed world always names an existing
/// record, so clearing it on destruction never leaves a dangling
/// reference.
pub proof fn lemma_primary_never_dangles(w: WindowWorld)
    requires
        w.wf(),
    ensures
        match w.primary {
            Some(p) => spec_has_entity(w.records@, p.window),
            None => true,
        },
{
}

/// Whether any record still counts as an open window: `Pending` and
/// `Live` records do, a `Closing` one no longer does.
pub open spec fn spec_any_open(records: Seq<WindowRecord>) -> bool {
    exists|i: int|
        0 <= i < records.len() && ((#[trigger] records[i]).lifecycle is Pending
            || records[i].lifecycle is Live)
}

/// The on-all-closed exit policy: exit once no open window remains.
pub fn exit_on_all_closed(world: &WindowWorld) -> (exit: bool)
    ensures
        exit == !spec_any_open(world.records@),
{
    let mut i: usize = 0;
    while i < world.records.len()
        invariant
            i <= world.records@.len(),
            forall|j: int|
                0 <= j < i ==> !((#[trigger] world.records@[j]).lifecycle is Pending
                    || world.records@[j].lifecycle is Live),
        decreases world.records@.len() - i,
    {
        let open = match world.records[i].lifecycle {
            WindowLifecycle::Pending => true,
            WindowLifecycle::Live => true,
            WindowLifecycle::Closing => false,
        };
        if open {
            return false;
        }
        i = i + 1;
    }
    true
}

/// Whether one of the Closed events names this entity.
pub open spec fn spec_closed_contains(events: Seq<WindowClosed>, entity: Entity) -> bool {
    exists|k: int| 0 <= k < events.len() && (#[trigger] events[k]).entity == entity
}

/// The on-primary-closed exit policy: exit when the primary window is
/// among this cycle's Closed events, or when no primary window exists at
/// all — a missing primary is a valid terminal state that counts as
/// already satisfied.
pub fn exit_on_primary_closed(world: &WindowWorld, closed: &Vec<WindowClosed>) -> (exit: bool)
    ensures
        exit == match world.primary {
            Some(p) => spec_closed_contains(closed@, p.window),
            None => true,
        },
{
    let primary = match world.primary_window() {
        Some(p) => p,
        None => {
            return true;
        },
    };
    let mut k: usize = 0;
    while k < closed.len()
        invariant
            k <= closed@.len(),
            world.primary == Some(primary),
            forall|j: int| 0 <= j < k ==> (#[trigger] closed@[j]).entity != primary.window,
        decreases closed@.len() - k,
    {
        if closed[k].entity == primary.window {
            proof {
                assert(spec_closed_contains(closed@, primary.window));
            }
            return true;
        }
        k = k + 1;
    }
    false
}

/// Apply the configured exit policy to this cycle's Closed events.
pub fn exit_requested(
    condition: ExitCondition,
    world: &WindowWorld,
    closed: &Vec<WindowClosed>,
) -> (exit: bool)
    ensures
        exit == match condition {
            ExitCondition::OnPrimaryClosed => match world.primary {
                Some(p) => spec_closed_contains(closed@, p.window),
                None => true,
            },
            ExitCondition::OnAllClosed => !spec_any_open(world.records@),
            ExitCondition::DontExit => false,
        },
{
    match condition {
        ExitCondition::OnPrimaryClosed => exit_on_primary_closed(world, closed),
        ExitCondition::OnAllClosed => exit_on_all_closed(world),
        ExitCondition::DontExit => false,
    }
}

} // verus!
