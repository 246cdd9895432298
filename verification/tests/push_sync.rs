use winstate::create_window;
use winstate::update_cursor;
use winstate::update_cursor_position;
use winstate::update_resize_constraints;
use winstate::update_resolution;
use winstate::update_title;
use winstate::update_window_mode;
use winstate::update_window_position;
use winstate::update_window_state;
use winstate::BackendCommand;
use winstate::Cursor;
use winstate::CursorIcon;
use winstate::CursorPosition;
use winstate::Entity;
use winstate::IVec2;
use winstate::Monitor;
use winstate::PhysicalPoint;
use winstate::VideoMode;
use winstate::WindowBundle;
use winstate::WindowMode;
use winstate::WindowPosition;
use winstate::WindowResizeConstraints;
use winstate::WindowResolution;
use winstate::WindowState;
use winstate::WindowTitle;
use winstate::WindowWorld;
use winstate::WinitWindows;

fn live_world(bundle: WindowBundle) -> (WindowWorld, WinitWindows, Entity) {
    let entity = Entity::new(1);
    let mut world = WindowWorld::new();
    let mut winit = WinitWindows::new();
    world.spawn_window(entity, bundle);
    create_window(&mut world, &mut winit, entity, 7);
    (world, winit, entity)
}

fn test_monitor() -> Monitor {
    Monitor {
        position: IVec2::new(0, 0),
        width: 1920,
        height: 1080,
        video_modes: vec![
            VideoMode::new(1920, 1080, 60000),
            VideoMode::new(1280, 720, 60000),
        ],
    }
}

#[test]
fn title_push_fires_once_per_change() {
    let (mut world, _winit, entity) = live_world(WindowBundle::default());
    // A fresh record counts as changed, so the first push echoes it.
    let cmds = update_title(&mut world);
    assert_eq!(cmds.len(), 1);
    // The push consumed the flag: pushing again plans nothing.
    let cmds = update_title(&mut world);
    assert!(cmds.is_empty());

    world.set_title(entity, WindowTitle::new(String::from("renamed")));
    let cmds = update_title(&mut world);
    assert_eq!(cmds.len(), 1);
    match &cmds[0] {
        BackendCommand::SetTitle { window, title } => {
            assert_eq!(*window, 7);
            assert_eq!(title.as_str(), "renamed");
        },
        other => panic!("expected a SetTitle command, got {:?}", other),
    }
}

#[test]
fn push_never_fires_without_a_native_window() {
    let entity = Entity::new(1);
    let mut world = WindowWorld::new();
    world.spawn_window(entity, WindowBundle::default());
    // Still pending: nothing to push to.
    let cmds = update_title(&mut world);
    assert!(cmds.is_empty());
    // The change is not lost: once the window exists, the push fires.
    let mut winit = WinitWindows::new();
    create_window(&mut world, &mut winit, entity, 7);
    let cmds = update_title(&mut world);
    assert_eq!(cmds.len(), 1);
}

#[test]
fn cursor_push_plans_icon_grab_and_visibility() {
    let (mut world, _winit, entity) = live_world(WindowBundle::default());
    update_cursor(&mut world);
    world.set_cursor(entity, Cursor::new(CursorIcon::Hand, false, true));
    let cmds = update_cursor(&mut world);
    assert_eq!(cmds.len(), 3);
    assert!(matches!(cmds[0], BackendCommand::SetCursorIcon { window: 7, icon: CursorIcon::Hand }));
    assert!(matches!(cmds[1], BackendCommand::SetCursorGrab { window: 7, locked: true }));
    assert!(matches!(cmds[2], BackendCommand::SetCursorVisible { window: 7, visible: false }));
}

#[test]
fn cursor_position_push_flips_back_to_the_backend_origin() {
    let mut bundle = WindowBundle::default();
    bundle.resolution = WindowResolution::new(800, 600);
    let (mut world, _winit, entity) = live_world(bundle);
    update_cursor_position(&mut world);
    world.set_cursor_position(entity, CursorPosition::new(Some(PhysicalPoint::new(100, 500))));
    let cmds = update_cursor_position(&mut world);
    assert_eq!(cmds.len(), 1);
    assert!(matches!(cmds[0], BackendCommand::SetCursorPosition { window: 7, x: 100, y: 100 }));
}

#[test]
fn absent_cursor_position_plans_nothing_but_settles() {
    let (mut world, _winit, entity) = live_world(WindowBundle::default());
    update_cursor_position(&mut world);
    world.set_cursor_position(entity, CursorPosition::new(None));
    let cmds = update_cursor_position(&mut world);
    assert!(cmds.is_empty());
    // The flag was still consumed.
    assert!(!world.records[0].changed.cursor_position);
}

#[test]
fn resolution_push_sends_the_physical_size() {
    let mut bundle = WindowBundle::default();
    bundle.resolution = WindowResolution::new(800, 600);
    let (mut world, _winit, entity) = live_world(bundle);
    update_resolution(&mut world);
    let mut resolution = WindowResolution::new(1024, 768);
    resolution.set_physical_resolution(1024, 768);
    world.set_resolution(entity, resolution);
    let cmds = update_resolution(&mut world);
    assert_eq!(cmds.len(), 1);
    assert!(matches!(
        cmds[0],
        BackendCommand::SetInnerSize { window: 7, width: 1024, height: 768 },
    ));
}

#[test]
fn constraints_push_normalizes_and_bounds() {
    let (mut world, _winit, entity) = live_world(WindowBundle::default());
    update_resize_constraints(&mut world);

    world.set_resize_constraints(
        entity,
        WindowResizeConstraints { min_width: 300, min_height: 200, max_width: 100, max_height: 800 },
    );
    let cmds = update_resize_constraints(&mut world);
    assert_eq!(cmds.len(), 2);
    assert!(matches!(
        cmds[0],
        BackendCommand::SetMinInnerSize { window: 7, width: 300, height: 200 },
    ));
    // The inverted width axis was raised to the minimum.
    assert!(matches!(
        cmds[1],
        BackendCommand::SetMaxInnerSize { window: 7, width: 300, height: 800 },
    ));

    // An unbounded maximum is never pushed.
    world.set_resize_constraints(
        entity,
        WindowResizeConstraints {
            min_width: 10,
            min_height: 10,
            max_width: u32::MAX,
            max_height: u32::MAX,
        },
    );
    let cmds = update_resize_constraints(&mut world);
    assert_eq!(cmds.len(), 1);
    assert!(matches!(cmds[0], BackendCommand::SetMinInnerSize { window: 7, width: 10, height: 10 }));
}

#[test]
fn window_state_push_restores_both_axes() {
    let (mut world, _winit, entity) = live_world(WindowBundle::default());
    update_window_state(&mut world);

    world.set_state(entity, WindowState::Maximized);
    let cmds = update_window_state(&mut world);
    assert_eq!(cmds.len(), 1);
    assert!(matches!(cmds[0], BackendCommand::SetMaximized { window: 7, maximized: true }));

    world.set_state(entity, WindowState::Normal);
    let cmds = update_window_state(&mut world);
    assert_eq!(cmds.len(), 2);
    assert!(matches!(cmds[0], BackendCommand::SetMinimized { window: 7, minimized: false }));
    assert!(matches!(cmds[1], BackendCommand::SetMaximized { window: 7, maximized: false }));
}

#[test]
fn mode_push_chooses_video_modes_from_the_monitor() {
    let (mut world, _winit, entity) = live_world(WindowBundle::default());
    let monitor = test_monitor();
    update_window_mode(&mut world, &monitor);

    world.set_mode(entity, WindowMode::Fullscreen);
    let cmds = update_window_mode(&mut world, &monitor);
    assert_eq!(cmds.len(), 1);
    match &cmds[0] {
        BackendCommand::SetExclusiveFullscreen { window, mode } => {
            assert_eq!(*window, 7);
            assert_eq!(*mode, VideoMode::new(1920, 1080, 60000));
        },
        other => panic!("expected exclusive fullscreen, got {:?}", other),
    }

    world.set_mode(entity, WindowMode::Windowed);
    let cmds = update_window_mode(&mut world, &monitor);
    assert_eq!(cmds.len(), 1);
    assert!(matches!(cmds[0], BackendCommand::SetWindowed { window: 7 }));
}

#[test]
fn position_push_resolves_against_monitors() {
    let mut bundle = WindowBundle::default();
    bundle.resolution = WindowResolution::new(800, 600);
    let (mut world, _winit, entity) = live_world(bundle);
    let monitors = vec![test_monitor()];
    update_window_position(&mut world, &monitors, Some(&monitors[0]), None);

    world.set_position(entity, WindowPosition::At(IVec2::new(25, 75)));
    let cmds = update_window_position(&mut world, &monitors, Some(&monitors[0]), None);
    assert_eq!(cmds.len(), 1);
    assert!(matches!(cmds[0], BackendCommand::SetOuterPosition { window: 7, x: 25, y: 75 }));

    // An automatic position has nothing to push, but settles the flag.
    world.set_position(entity, WindowPosition::Automatic);
    let cmds = update_window_position(&mut world, &monitors, Some(&monitors[0]), None);
    assert!(cmds.is_empty());
    assert!(!world.records[0].changed.position);
}
