use winstate::close_when_requested;
use winstate::close_window;
use winstate::create_window;
use winstate::exit_on_all_closed;
use winstate::exit_on_primary_closed;
use winstate::exit_requested;
use winstate::finalize_closing;
use winstate::BackendCommand;
use winstate::Entity;
use winstate::ExitCondition;
use winstate::PrimaryWindow;
use winstate::WindowBundle;
use winstate::WindowCloseRequested;
use winstate::WindowClosed;
use winstate::WindowLifecycle;
use winstate::WindowSettings;
use winstate::WindowWorld;
use winstate::WinitWindows;

fn world_with_live_window(entity: Entity, window_id: u64) -> (WindowWorld, WinitWindows) {
    let mut world = WindowWorld::new();
    let mut winit = WinitWindows::new();
    world.spawn_window(entity, WindowBundle::default());
    let created = create_window(&mut world, &mut winit, entity, window_id);
    assert_eq!(created.entity, entity);
    (world, winit)
}

#[test]
fn spawn_starts_pending_and_creation_goes_live() {
    let entity = Entity::new(1);
    let mut world = WindowWorld::new();
    let mut winit = WinitWindows::new();
    world.spawn_window(entity, WindowBundle::default());
    assert_eq!(world.records[0].lifecycle, WindowLifecycle::Pending);
    assert!(world.records[0].handle.is_none());
    assert!(winit.get_window(entity).is_none());

    create_window(&mut world, &mut winit, entity, 77);
    assert_eq!(world.records[0].lifecycle, WindowLifecycle::Live);
    assert_eq!(world.records[0].handle.map(|h| h.raw_window_handle()), Some(77));
    assert_eq!(winit.get_window(entity), Some(77));
    assert_eq!(winit.get_window_entity(77), Some(entity));
}

#[test]
fn close_is_deferred_by_one_cycle() {
    // A CloseRequested honored this cycle emits Closed immediately, while
    // the record survives until the next cycle's drain.
    let entity = Entity::new(1);
    let (mut world, mut winit) = world_with_live_window(entity, 7);

    let requests = vec![WindowCloseRequested { entity }];
    let closed = close_when_requested(&mut world, &requests);
    assert_eq!(closed.len(), 1);
    assert_eq!(closed[0], WindowClosed { entity });
    // Same cycle: the record is still observable, now closing.
    assert!(world.contains_entity(entity));
    assert_eq!(world.records[0].lifecycle, WindowLifecycle::Closing);

    // Next cycle: the drain destroys the native window and removes the
    // record.
    let cmds = finalize_closing(&mut world, &mut winit);
    assert!(!world.contains_entity(entity));
    assert_eq!(world.records.len(), 0);
    assert_eq!(cmds.len(), 1);
    assert!(matches!(cmds[0], BackendCommand::DestroyWindow { window: 7 }));
    assert!(winit.get_window(entity).is_none());
    // The reverse direction remembers the stale identifier.
    assert_eq!(winit.get_window_entity(7), Some(entity));
}

#[test]
fn duplicate_close_requests_emit_one_event() {
    let entity = Entity::new(1);
    let (mut world, _winit) = world_with_live_window(entity, 7);
    let requests = vec![
        WindowCloseRequested { entity },
        WindowCloseRequested { entity },
    ];
    let closed = close_when_requested(&mut world, &requests);
    assert_eq!(closed.len(), 1);
}

#[test]
fn close_of_unknown_window_is_ignored() {
    let mut world = WindowWorld::new();
    assert!(close_window(&mut world, Entity::new(9)).is_none());
}

#[test]
fn closing_the_primary_clears_the_designation() {
    let entity = Entity::new(1);
    let (mut world, mut winit) = world_with_live_window(entity, 7);
    world.set_primary(PrimaryWindow { window: entity });
    assert_eq!(world.primary_window(), Some(PrimaryWindow { window: entity }));

    close_window(&mut world, entity);
    // The designation survives while the Closed event is observable.
    assert_eq!(world.primary_window(), Some(PrimaryWindow { window: entity }));

    finalize_closing(&mut world, &mut winit);
    // Cleared with the record, leaving no dangling reference.
    assert_eq!(world.primary_window(), None);
}

#[test]
fn other_windows_survive_the_drain() {
    let first = Entity::new(1);
    let second = Entity::new(2);
    let mut world = WindowWorld::new();
    let mut winit = WinitWindows::new();
    world.spawn_window(first, WindowBundle::default());
    world.spawn_window(second, WindowBundle::default());
    create_window(&mut world, &mut winit, first, 7);
    create_window(&mut world, &mut winit, second, 8);

    close_window(&mut world, first);
    let cmds = finalize_closing(&mut world, &mut winit);
    assert_eq!(cmds.len(), 1);
    assert!(!world.contains_entity(first));
    assert!(world.contains_entity(second));
    assert_eq!(winit.get_window(second), Some(8));
}

#[test]
fn exit_on_all_closed_waits_for_every_window() {
    let entity = Entity::new(1);
    let (mut world, mut winit) = world_with_live_window(entity, 7);
    assert!(!exit_on_all_closed(&world));
    close_window(&mut world, entity);
    // A closing record no longer counts as open.
    assert!(exit_on_all_closed(&world));
    finalize_closing(&mut world, &mut winit);
    assert!(exit_on_all_closed(&world));
}

#[test]
fn exit_on_primary_closed_fires_for_the_primary_only() {
    let primary = Entity::new(1);
    let other = Entity::new(2);
    let mut world = WindowWorld::new();
    let mut winit = WinitWindows::new();
    world.spawn_window(primary, WindowBundle::default());
    world.spawn_window(other, WindowBundle::default());
    create_window(&mut world, &mut winit, primary, 7);
    create_window(&mut world, &mut winit, other, 8);
    world.set_primary(PrimaryWindow { window: primary });

    let other_closed = vec![WindowClosed { entity: other }];
    assert!(!exit_on_primary_closed(&world, &other_closed));
    let primary_closed = vec![WindowClosed { entity: primary }];
    assert!(exit_on_primary_closed(&world, &primary_closed));
}

#[test]
fn missing_primary_counts_as_already_satisfied() {
    let world = WindowWorld::new();
    assert!(exit_on_primary_closed(&world, &Vec::new()));
}

#[test]
fn exit_policy_dispatch() {
    let entity = Entity::new(1);
    let (world, _winit) = world_with_live_window(entity, 7);
    let closed: Vec<WindowClosed> = Vec::new();
    assert!(!exit_requested(ExitCondition::OnAllClosed, &world, &closed));
    assert!(!exit_requested(ExitCondition::DontExit, &world, &closed));
    // No primary is designated, which the primary policy treats as done.
    assert!(exit_requested(ExitCondition::OnPrimaryClosed, &world, &closed));
}

#[test]
fn settings_default_closes_when_requested() {
    let settings = WindowSettings::default();
    assert!(settings.add_primary_window);
    assert!(settings.close_when_requested);
    assert_eq!(settings.exit_condition, ExitCondition::OnAllClosed);
}

#[test]
fn build_window_world_spawns_the_primary() {
    let settings = WindowSettings::default();
    let world = winstate::build_window_world(&settings, WindowBundle::default(), Entity::new(1));
    assert_eq!(world.records.len(), 1);
    assert_eq!(world.records[0].entity, Entity::new(1));
    assert_eq!(world.records[0].lifecycle, WindowLifecycle::Pending);
    assert_eq!(world.primary_window(), Some(PrimaryWindow { window: Entity::new(1) }));
    assert_eq!(world.records[0].title.as_str(), "App");
}

#[test]
fn build_window_world_can_start_headless() {
    let settings = WindowSettings {
        add_primary_window: false,
        exit_condition: ExitCondition::DontExit,
        close_when_requested: true,
    };
    let world = winstate::build_window_world(&settings, WindowBundle::default(), Entity::new(1));
    assert_eq!(world.records.len(), 0);
    assert_eq!(world.primary_window(), None);
}

#[test]
fn escape_closes_only_focused_windows() {
    let focused = Entity::new(1);
    let unfocused = Entity::new(2);
    let mut world = WindowWorld::new();
    let mut winit = WinitWindows::new();
    world.spawn_window(focused, WindowBundle::default());
    world.spawn_window(unfocused, WindowBundle::default());
    create_window(&mut world, &mut winit, focused, 7);
    create_window(&mut world, &mut winit, unfocused, 8);
    world.records[0].focus.set(true);

    // Without a key press nothing happens.
    let closed = winstate::close_on_esc(&mut world, false);
    assert!(closed.is_empty());
    assert_eq!(world.records[0].lifecycle, WindowLifecycle::Live);

    let closed = winstate::close_on_esc(&mut world, true);
    assert_eq!(closed.len(), 1);
    assert_eq!(closed[0], WindowClosed { entity: focused });
    assert_eq!(world.records[0].lifecycle, WindowLifecycle::Closing);
    assert_eq!(world.records[1].lifecycle, WindowLifecycle::Live);
}
