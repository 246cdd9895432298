use winstate::scheduler::handle_new_events;
use winstate::scheduler::note_low_power_event;
use winstate::scheduler::record_update;
use winstate::scheduler::redraw_events_cleared;
use winstate::scheduler::set_active;
use winstate::scheduler::should_update;
use winstate::LoopFlow;
use winstate::UpdateMode;
use winstate::WinitPersistentState;
use winstate::WinitSettings;

#[test]
fn low_power_mode_waits_for_the_timeout() {
    // ReactiveLowPower with a 16 ms wait, no events, no redraw request:
    // no application-logic run until 16 ms elapse, then exactly one run,
    // after which the flags are reset for the next cycle.
    let mode = UpdateMode::ReactiveLowPower { max_wait_ms: 16 };
    let mut state = WinitPersistentState::default();

    handle_new_events(&mut state, mode, 10, false);
    assert!(!state.timeout_reached);
    assert!(!should_update(&state, mode));
    let flow = redraw_events_cleared(&mut state, mode, 10, false);
    assert_eq!(flow, LoopFlow::WaitUntil(26));

    handle_new_events(&mut state, mode, 16, false);
    assert!(state.timeout_reached);
    assert!(should_update(&state, mode));
    record_update(&mut state, 16);
    redraw_events_cleared(&mut state, mode, 16, false);

    handle_new_events(&mut state, mode, 20, false);
    assert!(!state.timeout_reached);
    assert!(!state.low_power_event);
    assert!(!state.redraw_request_sent);
    assert!(!should_update(&state, mode));
}

#[test]
fn low_power_mode_wakes_for_events_and_redraws() {
    let mode = UpdateMode::ReactiveLowPower { max_wait_ms: 1000 };
    let mut state = WinitPersistentState::default();

    handle_new_events(&mut state, mode, 1, false);
    note_low_power_event(&mut state);
    assert!(should_update(&state, mode));

    let mut state = WinitPersistentState::default();
    handle_new_events(&mut state, mode, 1, false);
    redraw_events_cleared(&mut state, mode, 1, true);
    handle_new_events(&mut state, mode, 2, false);
    // The redraw flag set last cycle gates this cycle's update.
    assert!(state.redraw_request_sent);
    assert!(should_update(&state, mode));
}

#[test]
fn continuous_and_reactive_always_update_while_active() {
    let mut state = WinitPersistentState::default();
    handle_new_events(&mut state, UpdateMode::Continuous, 5, false);
    assert!(should_update(&state, UpdateMode::Continuous));
    assert!(should_update(&state, UpdateMode::Reactive { max_wait_ms: 16 }));
}

#[test]
fn suspended_application_never_updates() {
    let mut state = WinitPersistentState::default();
    set_active(&mut state, false);
    note_low_power_event(&mut state);
    assert!(!should_update(&state, UpdateMode::Continuous));
    set_active(&mut state, true);
    assert!(should_update(&state, UpdateMode::Continuous));
}

#[test]
fn backend_timeout_report_counts() {
    let mode = UpdateMode::ReactiveLowPower { max_wait_ms: 1000 };
    let mut state = WinitPersistentState::default();
    handle_new_events(&mut state, mode, 1, true);
    assert!(state.timeout_reached);
    assert!(should_update(&state, mode));
}

#[test]
fn control_flow_follows_the_mode() {
    let mut state = WinitPersistentState::default();
    assert_eq!(
        redraw_events_cleared(&mut state, UpdateMode::Continuous, 100, false),
        LoopFlow::Poll,
    );
    assert_eq!(
        redraw_events_cleared(&mut state, UpdateMode::Reactive { max_wait_ms: 16 }, 100, false),
        LoopFlow::WaitUntil(116),
    );
    // A deadline past the clock's range degrades to an indefinite wait.
    assert_eq!(
        redraw_events_cleared(
            &mut state,
            UpdateMode::Reactive { max_wait_ms: u64::MAX },
            100,
            false,
        ),
        LoopFlow::Wait,
    );
    // A redraw request forces another immediate cycle.
    assert_eq!(
        redraw_events_cleared(&mut state, UpdateMode::Reactive { max_wait_ms: 16 }, 100, true),
        LoopFlow::Poll,
    );
    assert!(state.redraw_request_sent);
}

#[test]
fn settings_select_the_mode_by_focus() {
    let settings = WinitSettings {
        return_from_run: false,
        focused_mode: UpdateMode::Continuous,
        unfocused_mode: UpdateMode::ReactiveLowPower { max_wait_ms: 60000 },
    };
    assert_eq!(settings.update_mode(true), UpdateMode::Continuous);
    assert_eq!(
        settings.update_mode(false),
        UpdateMode::ReactiveLowPower { max_wait_ms: 60000 },
    );
    let default = WinitSettings::default();
    assert_eq!(default.update_mode(true), UpdateMode::Continuous);
}
