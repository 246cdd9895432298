//! The event-loop scheduler.
//!
//! Once per backend callback cycle the scheduler decides whether the
//! application is allowed to run a frame and how long the backend may
//! block before the next cycle, balancing responsiveness against idle
//! power use.  Times are milliseconds on a monotonic clock the adapter
//! supplies; the library never reads a clock itself.

use vstd::prelude::*;

verus! {

/// How often the application should update.
#[derive(Clone, Copy, Debug, PartialEq, Eq, Structural)]
pub enum UpdateMode {
    /// Update every cycle, never waiting.
    Continuous,
    /// Wait up to `max_wait_ms` unless an event arrives sooner; every
    /// cycle still runs application logic.
    Reactive { max_wait_ms: u64 },
    /// As `Reactive`, but application logic runs only when an event
    /// arrived, a redraw was requested, or the wait timed out.
    ReactiveLowPower { max_wait_ms: u64 },
}

/// Which update mode to use while focused and while unfocused.
#[derive(Clone, Copy, Debug, PartialEq, Eq, Structural)]
pub struct WinitSettings {
    /// Whether the event loop hands control back when it ends.
    pub return_from_run: bool,
    /// The mode while some window has focus.
    pub focused_mode: UpdateMode,
    /// The mode while no window has focus.
    pub unfocused_mode: UpdateMode,
}

impl WinitSettings {
    /// The mode the scheduler runs under, given whether any window
    /// currently has focus.
    pub fn update_mode(&self, focused: bool) -> (m: UpdateMode)
        ensures
            m == if focused {
                self.focused_mode
            } else {
                self.unfocused_mode
            },
    {
        if focused {
            self.focused_mode
        } else {
            self.unfocused_mode
        }
    }
}

impl Default for WinitSettings {
    fn default() -> (s: Self)
        ensures
            s.return_from_run == false,
            s.focused_mode == UpdateMode::Continuous,
            s.unfocused_mode == UpdateMode::Continuous,
    {
        WinitSettings {
            return_from_run: false,
            focused_mode: UpdateMode::Continuous,
            unfocused_mode: UpdateMode::Continuous,
        }
    }
}

/// What the backend should do after this cycle.
#[derive(Clone, Copy, Debug, PartialEq, Eq, Structural)]
pub enum LoopFlow {
    /// Run another cycle immediately.
    Poll,
    /// Block until this time (milliseconds) or the next event.
    WaitUntil(u64),
    /// Block until the next event.
    Wait,
    /// Stop delivering cycles.
    Exit,
}

/// Scheduler state that persists between cycles.
#[derive(Clone, Copy, Debug, PartialEq, Eq, Structural)]
pub struct WinitPersistentState {
    /// Whether the application is active rather than suspended.
    pub active: bool,
    /// Whether an event arrived this cycle that wakes a low-power loop.
    pub low_power_event: bool,
    /// Whether the cycle started because a redraw was requested.
    pub redraw_request_sent: bool,
    /// Whether the cycle started because the wait timed out.
    pub timeout_reached: bool,
    /// When the application logic last ran, in milliseconds.
    pub last_update_ms: u64,
}

impl Default for WinitPersistentState {
    fn default() -> (s: Self)
        ensures
            s.active,
            !s.low_power_event,
            !s.redraw_request_sent,
            !s.timeout_reached,
            s.last_update_ms == 0,
    {
        WinitPersistentState {
            active: true,
            low_power_event: false,
            redraw_request_sent: false,
            timeout_reached: false,
            last_update_ms: 0,
        }
    }
}

/// Whether a reactive mode's wait has elapsed since the last update.
pub open spec fn spec_wait_elapsed(mode: UpdateMode, last_update_ms: u64, now_ms: u64) -> bool {
    match mode {
        UpdateMode::Continuous => false,
        UpdateMode::Reactive { max_wait_ms } => now_ms - last_update_ms >= max_wait_ms,
        UpdateMode::ReactiveLowPower { max_wait_ms } => now_ms - last_update_ms >= max_wait_ms,
    }
}

/// Begin a cycle: record why it woke.  The timeout counts as reached when
/// the backend reports its wait deadline fired, or when the wait has
/// elapsed on the clock — the backend cannot know yet whether this
/// cycle's update criteria will be met.  The event flag resets here, at
/// the start of the cycle.
pub fn handle_new_events(
    winit_state: &mut WinitPersistentState,
    mode: UpdateMode,
    now_ms: u64,
    resume_time_reached: bool,
)
    requires
        old(winit_state).last_update_ms <= now_ms,
    ensures
        final(winit_state).timeout_reached == (resume_time_reached || spec_wait_elapsed(
            mode,
            old(winit_state).last_update_ms,
            now_ms,
        )),
        !final(winit_state).low_power_event,
        final(winit_state).active == old(winit_state).active,
        final(winit_state).redraw_request_sent == old(winit_state).redraw_request_sent,
        final(winit_state).last_update_ms == old(winit_state).last_update_ms,
{
    let manual_timeout_reached = match mode {
        UpdateMode::Continuous => false,
        UpdateMode::Reactive { max_wait_ms } => now_ms - winit_state.last_update_ms >= max_wait_ms,
        UpdateMode::ReactiveLowPower { max_wait_ms } => now_ms - winit_state.last_update_ms
            >= max_wait_ms,
    };
    winit_state.low_power_event = false;
    winit_state.timeout_reached = resume_time_reached || manual_timeout_reached;
}

/// Note that a window or input event arrived this cycle: a low-power
/// loop wakes for it.
pub fn note_low_power_event(winit_state: &mut WinitPersistentState)
    ensures
        *final(winit_state) == (WinitPersistentState {
            low_power_event: true,
            ..*old(winit_state)
        }),
{
    winit_state.low_power_event = true;
}

/// Note that the application was suspended or resumed.
pub fn set_active(winit_state: &mut WinitPersistentState, active: bool)
    ensures
        *final(winit_state) == (WinitPersistentState { active, ..*old(winit_state) }),
{
    winit_state.active = active;
}

/// Whether an application-logic run is due this cycle: always while
/// active in `Continuous` and `Reactive` modes; in `ReactiveLowPower`
/// mode only when an event arrived, a redraw was requested, or the wait
/// timed out.  A suspended application never updates.
pub fn should_update(winit_state: &WinitPersistentState, mode: UpdateMode) -> (update: bool)
    ensures
        update == (winit_state.active && match mode {
            UpdateMode::Continuous => true,
            UpdateMode::Reactive { .. } => true,
            UpdateMode::ReactiveLowPower { .. } => winit_state.low_power_event
                || winit_state.redraw_request_sent || winit_state.timeout_reached,
        }),
{
    if !winit_state.active {
        return false;
    }
    match mode {
        UpdateMode::Continuous => true,
        UpdateMode::Reactive { .. } => true,
        UpdateMode::ReactiveLowPower { .. } => winit_state.low_power_event
            || winit_state.redraw_request_sent || winit_state.timeout_reached,
    }
}

/// Record that application logic ran now.
pub fn record_update(winit_state: &mut WinitPersistentState, now_ms: u64)
    ensures
        *final(winit_state) == (WinitPersistentState {
            last_update_ms: now_ms,
            ..*old(winit_state)
        }),
{
    winit_state.last_update_ms = now_ms;
}

/// What the backend should do after this cycle.  The deadline is
/// `now + max_wait` for the reactive modes and no wait at all for
/// `Continuous`; a redraw request forces another immediate cycle.  The
/// redraw flag is reset only here, after the deadline computation, so a
/// redraw request arriving late in the cycle is not lost.
pub fn redraw_events_cleared(
    winit_state: &mut WinitPersistentState,
    mode: UpdateMode,
    now_ms: u64,
    redraw_requested: bool,
) -> (flow: LoopFlow)
    ensures
        *final(winit_state) == (WinitPersistentState {
            redraw_request_sent: redraw_requested,
            ..*old(winit_state)
        }),
        flow == if redraw_requested {
            LoopFlow::Poll
        } else {
            match mode {
                UpdateMode::Continuous => LoopFlow::Poll,
                UpdateMode::Reactive { max_wait_ms } => if now_ms + max_wait_ms <= u64::MAX {
                    LoopFlow::WaitUntil((now_ms + max_wait_ms) as u64)
                } else {
                    LoopFlow::Wait
                },
                UpdateMode::ReactiveLowPower { max_wait_ms } => if now_ms + max_wait_ms
                    <= u64::MAX {
                    LoopFlow::WaitUntil((now_ms + max_wait_ms) as u64)
                } else {
                    LoopFlow::Wait
                },
            }
        },
{
    let flow = match mode {
        UpdateMode::Continuous => LoopFlow::Poll,
        UpdateMode::Reactive { max_wait_ms } => match now_ms.checked_add(max_wait_ms) {
            Some(deadline) => LoopFlow::WaitUntil(deadline),
            None => LoopFlow::Wait,
        },
        UpdateMode::ReactiveLowPower { max_wait_ms } => match now_ms.checked_add(max_wait_ms) {
            Some(deadline) => LoopFlow::WaitUntil(deadline),
            None => LoopFlow::Wait,
        },
    };
    let flow = if redraw_requested {
        LoopFlow::Poll
    } else {
        flow
    };
    winit_state.redraw_request_sent = redraw_requested;
    flow
}

/// In `ReactiveLowPower` mode with no event and no redraw request, no
/// application-logic run is due before the wait elapses; once it has
/// elapsed, a run is due, and after it runs the cycle's flags reset for
/// the next cycle.
pub proof fn lemma_low_power_gating(
    winit_state: WinitPersistentState,
    max_wait_ms: u64,
    now_ms: u64,
)
    requires
        winit_state.active,
        !winit_state.redraw_request_sent,
        winit_state.last_update_ms <= now_ms,
    ensures
        ({
            let mode = UpdateMode::ReactiveLowPower { max_wait_ms };
            let woken = WinitPersistentState {
                low_power_event: false,
                timeout_reached: spec_wait_elapsed(mode, winit_state.last_update_ms, now_ms),
                ..winit_state
            };
            (woken.active && (woken.low_power_event || woken.redraw_request_sent
                || woken.timeout_reached)) <==> now_ms - winit_state.last_update_ms >= max_wait_ms
        }),
{
}

} // verus!
