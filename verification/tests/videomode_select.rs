use winstate::get_best_videomode;
use winstate::get_fitting_videomode;
use winstate::IVec2;
use winstate::Monitor;
use winstate::VideoMode;

fn monitor_with(modes: Vec<VideoMode>) -> Monitor {
    Monitor { position: IVec2::new(0, 0), width: 1920, height: 1080, video_modes: modes }
}

#[test]
fn best_videomode_is_lexicographic_maximum() {
    let monitor = monitor_with(vec![
        VideoMode::new(1920, 1080, 60000),
        VideoMode::new(2560, 1440, 59000),
        VideoMode::new(2560, 1440, 60000),
        VideoMode::new(1280, 720, 120000),
    ]);
    assert_eq!(get_best_videomode(&monitor), VideoMode::new(2560, 1440, 60000));
}

#[test]
fn best_videomode_breaks_ties_by_height_then_refresh() {
    let monitor = monitor_with(vec![
        VideoMode::new(1920, 1080, 60000),
        VideoMode::new(1920, 1200, 30000),
        VideoMode::new(1920, 1200, 60000),
    ]);
    assert_eq!(get_best_videomode(&monitor), VideoMode::new(1920, 1200, 60000));
}

#[test]
fn fitting_videomode_minimizes_size_distance() {
    let monitor = monitor_with(vec![
        VideoMode::new(2560, 1440, 60000),
        VideoMode::new(1920, 1080, 60000),
        VideoMode::new(1280, 720, 60000),
    ]);
    assert_eq!(get_fitting_videomode(&monitor, 1900, 1000), VideoMode::new(1920, 1080, 60000));
}

#[test]
fn fitting_videomode_prefers_higher_refresh_on_exact_size() {
    let monitor = monitor_with(vec![
        VideoMode::new(1920, 1080, 60000),
        VideoMode::new(1920, 1080, 75000),
        VideoMode::new(1600, 900, 120000),
    ]);
    assert_eq!(get_fitting_videomode(&monitor, 1920, 1080), VideoMode::new(1920, 1080, 75000));
}

#[test]
fn fitting_videomode_is_idempotent() {
    // Requesting the exact size of a returned mode returns that mode again.
    let monitor = monitor_with(vec![
        VideoMode::new(2560, 1440, 60000),
        VideoMode::new(1920, 1080, 75000),
        VideoMode::new(1920, 1080, 60000),
        VideoMode::new(1280, 720, 120000),
    ]);
    let first = get_fitting_videomode(&monitor, 2000, 1100);
    let again = get_fitting_videomode(&monitor, first.width, first.height);
    assert_eq!(first, again);
}

#[test]
fn fitting_videomode_earliest_wins_on_full_tie() {
    // Symmetric width distances tie; the earliest mode in enumeration
    // order wins.
    let monitor = monitor_with(vec![
        VideoMode::new(1100, 500, 60000),
        VideoMode::new(900, 500, 60000),
    ]);
    assert_eq!(get_fitting_videomode(&monitor, 1000, 500), VideoMode::new(1100, 500, 60000));
}
