use winstate::plan_window_creation;
use winstate::winit_window_position;
use winstate::Entity;
use winstate::FullscreenPlan;
use winstate::IVec2;
use winstate::Monitor;
use winstate::MonitorSelection;
use winstate::PhysicalPoint;
use winstate::ScaleFactor;
use winstate::VideoMode;
use winstate::WindowBundle;
use winstate::WindowMode;
use winstate::WindowPosition;
use winstate::WindowResolution;
use winstate::WindowWorld;

fn primary_monitor() -> Monitor {
    Monitor {
        position: IVec2::new(0, 0),
        width: 1920,
        height: 1080,
        video_modes: vec![
            VideoMode::new(1920, 1080, 60000),
            VideoMode::new(1280, 720, 60000),
        ],
    }
}

#[test]
fn centered_on_primary_monitor() {
    // A 800x600 window centered on a 1920x1080 monitor at the origin
    // resolves to (560, 240).
    let position = WindowPosition::Centered(MonitorSelection::Primary);
    let resolution = WindowResolution::new(800, 600);
    let monitors = vec![primary_monitor()];
    let resolved = winit_window_position(&position, &resolution, &monitors, Some(&monitors[0]), None);
    assert_eq!(resolved, Some(PhysicalPoint::new(560, 240)));
}

#[test]
fn centered_clamps_oversized_window_to_origin() {
    let position = WindowPosition::Centered(MonitorSelection::Primary);
    let resolution = WindowResolution::new(4000, 3000);
    let monitors = vec![primary_monitor()];
    let resolved = winit_window_position(&position, &resolution, &monitors, Some(&monitors[0]), None);
    assert_eq!(resolved, Some(PhysicalPoint::new(0, 0)));
}

#[test]
fn automatic_position_stays_with_backend() {
    let resolution = WindowResolution::new(800, 600);
    let monitors = vec![primary_monitor()];
    let resolved = winit_window_position(
        &WindowPosition::Automatic,
        &resolution,
        &monitors,
        Some(&monitors[0]),
        None,
    );
    assert_eq!(resolved, None);
}

#[test]
fn unresolvable_monitor_selection_is_not_an_error() {
    let resolution = WindowResolution::new(800, 600);
    let monitors = vec![primary_monitor()];
    // No current monitor at creation time.
    let current = winit_window_position(
        &WindowPosition::Centered(MonitorSelection::Current),
        &resolution,
        &monitors,
        Some(&monitors[0]),
        None,
    );
    assert_eq!(current, None);
    // Monitor index out of range.
    let by_index = winit_window_position(
        &WindowPosition::Centered(MonitorSelection::Number(5)),
        &resolution,
        &monitors,
        Some(&monitors[0]),
        None,
    );
    assert_eq!(by_index, None);
}

#[test]
fn explicit_position_scales_logical_to_physical() {
    let mut resolution = WindowResolution::new(800, 600);
    resolution.set_scale_factor(ScaleFactor::new(2, 1));
    let monitors = vec![primary_monitor()];
    let resolved = winit_window_position(
        &WindowPosition::At(IVec2::new(100, 50)),
        &resolution,
        &monitors,
        Some(&monitors[0]),
        None,
    );
    assert_eq!(resolved, Some(PhysicalPoint::new(200, 100)));
}

fn spawned_record(bundle: WindowBundle) -> WindowWorld {
    let mut world = WindowWorld::new();
    world.spawn_window(Entity::new(1), bundle);
    world
}

#[test]
fn windowed_creation_plan_uses_record_values() {
    let mut bundle = WindowBundle::default();
    bundle.resolution = WindowResolution::new(800, 600);
    bundle.position = WindowPosition::Centered(MonitorSelection::Primary);
    let world = spawned_record(bundle);
    let monitors = vec![primary_monitor()];
    let plan = plan_window_creation(&world.records[0], &monitors, Some(&monitors[0]));
    assert_eq!(plan.fullscreen, FullscreenPlan::Windowed);
    assert_eq!(plan.position, Some(PhysicalPoint::new(560, 240)));
    assert_eq!(plan.inner_size, Some((800, 600)));
    assert_eq!(plan.min_inner_size, (180, 120));
    assert_eq!(plan.max_inner_size, None);
    assert_eq!(plan.title.as_str(), "App");
    assert!(!plan.maximized);
    assert!(plan.resizable);
    assert!(plan.decorations);
    assert!(!plan.transparent);
    assert!(plan.cursor_visible);
    assert!(!plan.cursor_locked);
    assert!(!plan.start_minimized);
}

#[test]
fn fullscreen_creation_plan_picks_best_mode() {
    let mut bundle = WindowBundle::default();
    bundle.mode = WindowMode::Fullscreen;
    let world = spawned_record(bundle);
    let monitors = vec![primary_monitor()];
    let plan = plan_window_creation(&world.records[0], &monitors, Some(&monitors[0]));
    assert_eq!(plan.fullscreen, FullscreenPlan::Exclusive(VideoMode::new(1920, 1080, 60000)));
    assert_eq!(plan.inner_size, None);
}

#[test]
fn sized_fullscreen_creation_plan_picks_fitting_mode() {
    let mut bundle = WindowBundle::default();
    bundle.mode = WindowMode::SizedFullscreen;
    bundle.resolution = WindowResolution::new(1300, 700);
    let world = spawned_record(bundle);
    let monitors = vec![primary_monitor()];
    let plan = plan_window_creation(&world.records[0], &monitors, Some(&monitors[0]));
    assert_eq!(plan.fullscreen, FullscreenPlan::Exclusive(VideoMode::new(1280, 720, 60000)));
}
