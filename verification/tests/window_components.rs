use winstate::Cursor;
use winstate::CursorIcon;
use winstate::CursorPosition;
use winstate::IVec2;
use winstate::MonitorSelection;
use winstate::PhysicalPoint;
use winstate::PresentMode;
use winstate::ScaleFactor;
use winstate::WindowCanvas;
use winstate::WindowDecorations;
use winstate::WindowFocus;
use winstate::WindowHandle;
use winstate::WindowMode;
use winstate::WindowPosition;
use winstate::WindowResizable;
use winstate::WindowResizeConstraints;
use winstate::WindowResolution;
use winstate::WindowState;
use winstate::WindowTitle;
use winstate::WindowTransparency;

#[test]
fn cursor_accessors_and_setters() {
    let mut cursor = Cursor::new(CursorIcon::Hand, false, true);
    assert_eq!(cursor.icon(), CursorIcon::Hand);
    assert!(!cursor.visible());
    assert!(cursor.locked());
    cursor.set_icon(CursorIcon::Text);
    cursor.set_visible(true);
    cursor.set_locked(false);
    assert_eq!(cursor.icon(), CursorIcon::Text);
    assert!(cursor.visible());
    assert!(!cursor.locked());
}

#[test]
fn cursor_default_is_visible_and_unlocked() {
    let cursor = Cursor::default();
    assert_eq!(cursor.icon(), CursorIcon::Default);
    assert!(cursor.visible());
    assert!(!cursor.locked());
}

#[test]
fn cursor_position_roundtrip() {
    let mut pos = CursorPosition::default();
    assert!(pos.physical_position().is_none());
    pos.set(Some(PhysicalPoint::new(10, 20)));
    assert_eq!(pos.physical_position(), Some(PhysicalPoint::new(10, 20)));
    let built = CursorPosition::new(Some(PhysicalPoint::new(1, 2)));
    assert_eq!(built.physical_position(), Some(PhysicalPoint::new(1, 2)));
}

#[test]
fn window_handle_keeps_identifier() {
    let handle = WindowHandle::new(42);
    assert_eq!(handle.raw_window_handle(), 42);
}

#[test]
fn window_position_setters() {
    let mut position = WindowPosition::default();
    assert_eq!(position, WindowPosition::Automatic);
    position.set(IVec2::new(3, 4));
    assert_eq!(position, WindowPosition::At(IVec2::new(3, 4)));
    position.center(MonitorSelection::Primary);
    assert_eq!(position, WindowPosition::Centered(MonitorSelection::Primary));
    assert_eq!(WindowPosition::new(IVec2::new(7, 8)), WindowPosition::At(IVec2::new(7, 8)));
}

#[test]
fn resolution_defaults_and_setters() {
    let mut resolution = WindowResolution::default();
    assert_eq!(resolution.physical_width(), 1280);
    assert_eq!(resolution.physical_height(), 720);
    assert_eq!(resolution.requested_width(), 1280);
    assert_eq!(resolution.requested_height(), 720);
    assert!(resolution.scale_factor_override().is_none());
    assert!(!resolution.zero());

    resolution.set_physical_resolution(0, 0);
    assert!(resolution.zero());
    resolution.set_requested_resolution(640, 480);
    assert_eq!(resolution.requested_width(), 640);
    assert_eq!(resolution.requested_height(), 480);
}

#[test]
fn resolution_scale_factor_override_wins() {
    let mut resolution = WindowResolution::new(800, 600);
    resolution.set_scale_factor(ScaleFactor::new(2, 1));
    assert!(resolution.scale_factor().same_ratio(&ScaleFactor::new(2, 1)));
    resolution.set_scale_factor_override(Some(ScaleFactor::new(3, 1)));
    assert!(resolution.scale_factor().same_ratio(&ScaleFactor::new(3, 1)));
    assert!(resolution.base_scale_factor().same_ratio(&ScaleFactor::new(2, 1)));
}

#[test]
fn resolution_logical_size_divides_by_scale() {
    let mut resolution = WindowResolution::new(800, 600);
    resolution.set_scale_factor(ScaleFactor::new(2, 1));
    let width = resolution.width();
    // 800 physical pixels at scale 2 are exactly 400 logical pixels.
    assert_eq!(width.numerator(), 800);
    assert_eq!(width.denominator(), 2);
    assert_eq!(width.floor_px(), 400);
    assert_eq!(resolution.height().floor_px(), 300);
}

#[test]
fn resolution_with_override_constructor() {
    let resolution = WindowResolution::new_with_scale_factor_override(
        800,
        600,
        ScaleFactor::new(2, 1),
    );
    assert_eq!(resolution.scale_factor_override().map(|s| s.numerator()), Some(2));
    assert_eq!(resolution.physical_width(), 800);
}

#[test]
fn title_set_and_read() {
    let mut title = WindowTitle::new(String::from("hello"));
    assert_eq!(title.as_str(), "hello");
    title.set(String::from("world"));
    assert_eq!(title.as_str(), "world");
}

#[test]
fn small_enums_defaults_and_predicates() {
    assert_eq!(PresentMode::default(), PresentMode::Fifo);
    assert_eq!(WindowMode::default(), WindowMode::Windowed);

    assert!(WindowDecorations::Decorated.decorated());
    assert!(!WindowDecorations::Undecorated.decorated());
    assert_eq!(WindowDecorations::default(), WindowDecorations::Decorated);

    assert!(WindowResizable::Resizable.resizable());
    assert!(!WindowResizable::Unresizable.resizable());
    assert_eq!(WindowResizable::default(), WindowResizable::Resizable);

    assert!(WindowTransparency::Transparent.transparent());
    assert!(!WindowTransparency::Opaque.transparent());
    assert_eq!(WindowTransparency::default(), WindowTransparency::Opaque);

    assert!(WindowState::Normal.normal());
    assert!(WindowState::Maximized.maximized());
    assert!(WindowState::Minimized.minimized());
    assert!(!WindowState::Normal.maximized());
    assert_eq!(WindowState::default(), WindowState::Normal);
}

#[test]
fn focus_flag() {
    let mut focus = WindowFocus::default();
    assert!(!focus.focused());
    focus.set(true);
    assert!(focus.focused());
}

#[test]
fn canvas_accessors() {
    let canvas = WindowCanvas::new(Some(String::from("#game")), true);
    assert_eq!(canvas.canvas().map(|s| s.as_str()), Some("#game"));
    assert!(canvas.fit_canvas_to_parent());
    let default = WindowCanvas::default();
    assert!(default.canvas().is_none());
    assert!(!default.fit_canvas_to_parent());
}

#[test]
fn constraints_default() {
    let constraints = WindowResizeConstraints::default();
    assert_eq!(constraints.min_width, 180);
    assert_eq!(constraints.min_height, 120);
    assert_eq!(constraints.max_width, u32::MAX);
    assert_eq!(constraints.max_height, u32::MAX);
}

#[test]
fn constraints_normalization_raises_inverted_maximum() {
    // An inverted axis is normalized so the maximum equals the minimum,
    // and minima are at least one.
    let constraints = WindowResizeConstraints {
        min_width: 400,
        min_height: 0,
        max_width: 300,
        max_height: 250,
    };
    let checked = constraints.check_constraints();
    assert_eq!(checked.min_width, 400);
    assert_eq!(checked.max_width, 400);
    assert_eq!(checked.min_height, 1);
    assert_eq!(checked.max_height, 250);
}

#[test]
fn constraints_normalization_is_idempotent() {
    let cases = [
        WindowResizeConstraints { min_width: 400, min_height: 0, max_width: 300, max_height: 0 },
        WindowResizeConstraints { min_width: 0, min_height: 0, max_width: 0, max_height: 0 },
        WindowResizeConstraints::default(),
    ];
    for constraints in cases {
        let once = constraints.check_constraints();
        let twice = once.check_constraints();
        assert_eq!(once, twice);
    }
}
