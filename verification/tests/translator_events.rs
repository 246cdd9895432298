use winstate::create_window;
use winstate::handle_window_event;
use winstate::translate_backend_event;
use winstate::BackendWindowEvent;
use winstate::DomainEvent;
use winstate::Entity;
use winstate::IVec2;
use winstate::LogicalPx;
use winstate::PhysicalPoint;
use winstate::ScaleFactor;
use winstate::WindowBundle;
use winstate::WindowPosition;
use winstate::WindowResolution;
use winstate::WindowState;
use winstate::WindowWorld;
use winstate::WinitWindows;

fn live_world(bundle: WindowBundle) -> (WindowWorld, WinitWindows, Entity) {
    let entity = Entity::new(1);
    let mut world = WindowWorld::new();
    let mut winit = WinitWindows::new();
    world.spawn_window(entity, bundle);
    create_window(&mut world, &mut winit, entity, 7);
    (world, winit, entity)
}

#[test]
fn resize_updates_physical_and_reports_logical() {
    let mut bundle = WindowBundle::default();
    let mut resolution = WindowResolution::new(800, 600);
    resolution.set_scale_factor(ScaleFactor::new(2, 1));
    bundle.resolution = resolution;
    let (mut world, _winit, _entity) = live_world(bundle);

    let out = handle_window_event(
        &mut world.records[0],
        BackendWindowEvent::Resized { width: 1000, height: 500 },
        false,
        false,
    );
    assert_eq!(world.records[0].resolution.physical_width(), 1000);
    assert_eq!(world.records[0].resolution.physical_height(), 500);
    assert!(world.records[0].changed.resolution);
    assert_eq!(out.events.len(), 1);
    match &out.events[0] {
        DomainEvent::Resized(ev) => {
            // 1000 physical pixels at scale 2 are exactly 500 logical ones.
            assert!(ev.width.same_value(&LogicalPx::from_pixels(500)));
            assert!(ev.height.same_value(&LogicalPx::from_pixels(250)));
        },
        other => panic!("expected a Resized event, got {:?}", other),
    }
}

#[test]
fn scale_factor_change_keeps_logical_size_quiet() {
    // A record at (800,600) with scale factor 1: the backend reports the
    // factor becoming 2 and proposes (1600,1200).  The physical size
    // follows the proposal, the logical size is unchanged, so a
    // ScaleFactorChanged event goes out and no Resized event does.
    let mut bundle = WindowBundle::default();
    bundle.resolution = WindowResolution::new(800, 600);
    let (mut world, _winit, _entity) = live_world(bundle);

    let out = handle_window_event(
        &mut world.records[0],
        BackendWindowEvent::ScaleFactorChanged {
            scale_factor: ScaleFactor::new(2, 1),
            inner_width: 1600,
            inner_height: 1200,
        },
        false,
        false,
    );
    let resolution = &world.records[0].resolution;
    assert_eq!(resolution.physical_width(), 1600);
    assert_eq!(resolution.physical_height(), 1200);
    assert_eq!(resolution.requested_width(), 800);
    assert_eq!(resolution.requested_height(), 600);
    assert!(resolution.width().same_value(&LogicalPx::from_pixels(800)));

    assert_eq!(out.events.len(), 2);
    assert!(matches!(out.events[0], DomainEvent::BackendScaleFactorChanged(_)));
    match &out.events[1] {
        DomainEvent::ScaleFactorChanged(ev) => {
            assert!(ev.scale_factor.same_ratio(&ScaleFactor::new(2, 1)));
        },
        other => panic!("expected a ScaleFactorChanged event, got {:?}", other),
    }
    assert!(out.resize_override.is_none());
}

#[test]
fn scale_factor_change_with_different_logical_size_also_resizes() {
    let mut bundle = WindowBundle::default();
    bundle.resolution = WindowResolution::new(800, 600);
    let (mut world, _winit, _entity) = live_world(bundle);

    let out = handle_window_event(
        &mut world.records[0],
        BackendWindowEvent::ScaleFactorChanged {
            scale_factor: ScaleFactor::new(2, 1),
            inner_width: 1800,
            inner_height: 1200,
        },
        false,
        false,
    );
    assert_eq!(out.events.len(), 3);
    assert!(matches!(out.events[1], DomainEvent::ScaleFactorChanged(_)));
    match &out.events[2] {
        DomainEvent::Resized(ev) => {
            assert!(ev.width.same_value(&LogicalPx::from_pixels(900)));
            assert!(ev.height.same_value(&LogicalPx::from_pixels(600)));
        },
        other => panic!("expected a Resized event, got {:?}", other),
    }
}

#[test]
fn scale_factor_override_rewrites_the_proposal() {
    let mut bundle = WindowBundle::default();
    let mut resolution = WindowResolution::new_with_scale_factor_override(
        800,
        600,
        ScaleFactor::new(2, 1),
    );
    // The backend honored the override at creation: 800x600 logical at a
    // factor of 2 is 1600x1200 physical.
    resolution.set_physical_resolution(1600, 1200);
    bundle.resolution = resolution;
    let (mut world, _winit, _entity) = live_world(bundle);

    let out = handle_window_event(
        &mut world.records[0],
        BackendWindowEvent::ScaleFactorChanged {
            scale_factor: ScaleFactor::new(3, 1),
            inner_width: 2400,
            inner_height: 1800,
        },
        false,
        false,
    );
    // The override forces the requested size times the override factor.
    assert_eq!(out.resize_override, Some((1600, 1200)));
    assert_eq!(world.records[0].resolution.physical_width(), 1600);
    // The effective factor did not change, so only the backend event is
    // emitted.
    assert_eq!(out.events.len(), 1);
    assert!(matches!(out.events[0], DomainEvent::BackendScaleFactorChanged(_)));
}

#[test]
fn cursor_moved_flips_to_bottom_left_origin() {
    let mut bundle = WindowBundle::default();
    bundle.resolution = WindowResolution::new(800, 600);
    let (mut world, _winit, _entity) = live_world(bundle);

    let out = handle_window_event(
        &mut world.records[0],
        BackendWindowEvent::CursorMoved { x: 100, y: 100 },
        false,
        false,
    );
    assert_eq!(
        world.records[0].cursor_position.physical_position(),
        Some(PhysicalPoint::new(100, 500)),
    );
    assert!(world.records[0].changed.cursor_position);
    match &out.events[0] {
        DomainEvent::CursorMoved(ev) => {
            assert!(ev.position.x.same_value(&LogicalPx::from_pixels(100)));
            assert!(ev.position.y.same_value(&LogicalPx::from_pixels(500)));
        },
        other => panic!("expected a CursorMoved event, got {:?}", other),
    }
}

#[test]
fn cursor_left_clears_the_position() {
    let (mut world, _winit, _entity) = live_world(WindowBundle::default());
    handle_window_event(
        &mut world.records[0],
        BackendWindowEvent::CursorMoved { x: 1, y: 1 },
        false,
        false,
    );
    let out = handle_window_event(
        &mut world.records[0],
        BackendWindowEvent::CursorLeft,
        false,
        false,
    );
    assert!(world.records[0].cursor_position.physical_position().is_none());
    assert!(matches!(out.events[0], DomainEvent::CursorLeft(_)));
}

#[test]
fn close_request_emits_event_without_destroying() {
    let (mut world, _winit, entity) = live_world(WindowBundle::default());
    let out = handle_window_event(
        &mut world.records[0],
        BackendWindowEvent::CloseRequested,
        false,
        false,
    );
    match &out.events[0] {
        DomainEvent::CloseRequested(ev) => assert_eq!(ev.entity, entity),
        other => panic!("expected a CloseRequested event, got {:?}", other),
    }
    assert!(world.contains_entity(entity));
}

#[test]
fn focus_and_move_update_the_record() {
    let (mut world, _winit, _entity) = live_world(WindowBundle::default());
    handle_window_event(
        &mut world.records[0],
        BackendWindowEvent::Focused { focused: true },
        false,
        false,
    );
    assert!(world.records[0].focus.focused());

    handle_window_event(
        &mut world.records[0],
        BackendWindowEvent::Moved { x: 30, y: 40 },
        false,
        false,
    );
    assert_eq!(world.records[0].position, WindowPosition::At(IVec2::new(30, 40)));
    assert!(world.records[0].changed.position);
}

#[test]
fn state_recomputed_after_every_event() {
    let (mut world, _winit, _entity) = live_world(WindowBundle::default());
    // The backend reports the window maximized.
    handle_window_event(
        &mut world.records[0],
        BackendWindowEvent::CursorEntered,
        true,
        false,
    );
    assert_eq!(world.records[0].state, WindowState::Maximized);
    assert!(world.records[0].changed.state);

    // A zero resolution counts as minimized.
    handle_window_event(
        &mut world.records[0],
        BackendWindowEvent::Resized { width: 0, height: 0 },
        false,
        false,
    );
    assert_eq!(world.records[0].state, WindowState::Minimized);

    handle_window_event(
        &mut world.records[0],
        BackendWindowEvent::Resized { width: 640, height: 480 },
        false,
        false,
    );
    assert_eq!(world.records[0].state, WindowState::Normal);
}

#[test]
fn touch_flips_only_on_top_left_platforms() {
    let mut bundle = WindowBundle::default();
    bundle.resolution = WindowResolution::new(800, 600);
    let (mut world, _winit, _entity) = live_world(bundle);

    let flipped = handle_window_event(
        &mut world.records[0],
        BackendWindowEvent::Touch {
            phase: winstate::TouchPhase::Started,
            x: 10,
            y: 100,
            finger_id: 3,
        },
        false,
        true,
    );
    match &flipped.events[0] {
        DomainEvent::Touch(ev) => {
            assert!(ev.position.y.same_value(&LogicalPx::from_pixels(500)));
            assert_eq!(ev.finger_id, 3);
        },
        other => panic!("expected a Touch event, got {:?}", other),
    }

    let unflipped = handle_window_event(
        &mut world.records[0],
        BackendWindowEvent::Touch {
            phase: winstate::TouchPhase::Moved,
            x: 10,
            y: 100,
            finger_id: 3,
        },
        false,
        false,
    );
    match &unflipped.events[0] {
        DomainEvent::Touch(ev) => {
            assert!(ev.position.y.same_value(&LogicalPx::from_pixels(100)));
        },
        other => panic!("expected a Touch event, got {:?}", other),
    }
}

#[test]
fn file_drag_and_drop_events_carry_the_path() {
    let (mut world, _winit, entity) = live_world(WindowBundle::default());
    let out = handle_window_event(
        &mut world.records[0],
        BackendWindowEvent::DroppedFile { path: String::from("/tmp/drop.txt") },
        false,
        false,
    );
    match &out.events[0] {
        DomainEvent::FileDragAndDrop(winstate::FileDragAndDrop::DroppedFile {
            entity: e,
            path_buf,
        }) => {
            assert_eq!(*e, entity);
            assert_eq!(path_buf, "/tmp/drop.txt");
        },
        other => panic!("expected a DroppedFile event, got {:?}", other),
    }
}

#[test]
fn unknown_window_id_is_dropped() {
    let (mut world, winit, _entity) = live_world(WindowBundle::default());
    let out = translate_backend_event(
        &mut world,
        &winit,
        999,
        BackendWindowEvent::CloseRequested,
        false,
        false,
    );
    assert!(!out.handled);
    assert!(out.events.is_empty());
}

#[test]
fn dispatch_reaches_the_addressed_record() {
    let (mut world, winit, entity) = live_world(WindowBundle::default());
    let out = translate_backend_event(
        &mut world,
        &winit,
        7,
        BackendWindowEvent::Focused { focused: true },
        false,
        false,
    );
    assert!(out.handled);
    assert!(world.records[0].focus.focused());
    match &out.events[0] {
        DomainEvent::Focused(ev) => assert_eq!(ev.entity, entity),
        other => panic!("expected a Focused event, got {:?}", other),
    }
}
