//! Monitors and video modes, and the selection of a fullscreen video mode.
//!
//! A monitor is described by its physical origin and size and by the list
//! of video modes it supports; the backend enumerates them, the library
//! only chooses among them.

use vstd::prelude::*;
use crate::geometry::IVec2;

verus! {

/// A video mode a monitor supports: a (width, height, refresh-rate) tuple.
#[derive(Clone, Copy, Debug, PartialEq, Eq, Structural)]
pub struct VideoMode {
    /// Width in physical pixels.
    pub width: u32,
    /// Height in physical pixels.
    pub height: u32,
    /// Refresh rate in millihertz.
    pub refresh_rate: u32,
}

impl VideoMode {
    pub fn new(width: u32, height: u32, refresh_rate: u32) -> (m: VideoMode)
        ensures
            m == (VideoMode { width, height, refresh_rate }),
    {
        VideoMode { width, height, refresh_rate }
    }
}

/// One monitor as the backend reports it: physical origin, physical size,
/// and the video modes it supports.
#[derive(Clone, Debug)]
pub struct Monitor {
    /// Origin of the monitor in the global physical coordinate space.
    pub position: IVec2,
    /// Width of the monitor in physical pixels.
    pub width: u32,
    /// Height of the monitor in physical pixels.
    pub height: u32,
    /// The video modes the monitor supports.
    pub video_modes: Vec<VideoMode>,
}

/// Lexicographic order on (width, height, refresh rate): `a` is no better
/// a mode than `b` for exclusive fullscreen at maximum size.
pub open spec fn mode_lex_le(a: VideoMode, b: VideoMode) -> bool {
    ||| a.width < b.width
    ||| (a.width == b.width && a.height < b.height)
    ||| (a.width == b.width && a.height == b.height && a.refresh_rate <= b.refresh_rate)
}

/// Exec mirror of [`mode_lex_le`].
fn mode_le(a: &VideoMode, b: &VideoMode) -> (r: bool)
    ensures
        r == mode_lex_le(*a, *b),
{
    if a.width != b.width {
        a.width < b.width
    } else if a.height != b.height {
        a.height < b.height
    } else {
        a.refresh_rate <= b.refresh_rate
    }
}

/// The largest (width, height, refresh rate) tuple among the modes, in
/// lexicographic order.  There is exactly one such value, so `choose`
/// names it.
pub open spec fn spec_best_mode(modes: Seq<VideoMode>) -> VideoMode {
    choose|m: VideoMode|
        modes.contains(m) && forall|i: int| 0 <= i < modes.len() ==> mode_lex_le(
            #[trigger] modes[i],
            m,
        )
}

/// The mode of a monitor with the largest (width, height, refresh rate)
/// tuple, in lexicographic order.
///
/// Only a monitor that reports no modes at all has no best mode; that is a
/// configuration fault outside this library, so it is excluded up front.
pub fn get_best_videomode(monitor: &Monitor) -> (m: VideoMode)
    requires
        monitor.video_modes@.len() > 0,
    ensures
        monitor.video_modes@.contains(m),
        forall|i: int|
            0 <= i < monitor.video_modes@.len() ==> mode_lex_le(
                #[trigger] monitor.video_modes@[i],
                m,
            ),
        m == spec_best_mode(monitor.video_modes@),
{
    let modes: &Vec<VideoMode> = &monitor.video_modes;
    let mut best: VideoMode = modes[0];
    let mut idx: usize = 1;
    while idx < modes.len()
        invariant
            1 <= idx <= modes@.len(),
            modes@.contains(best),
            forall|j: int| 0 <= j < idx ==> mode_lex_le(#[trigger] modes@[j], best),
        decreases modes@.len() - idx,
    {
        let candidate: VideoMode = modes[idx];
        if !mode_le(&candidate, &best) {
            best = candidate;
        }
        idx = idx + 1;
    }
    proof {
        // The maximum is unique as a value, so the chosen one is ours.
        let m1 = spec_best_mode(modes@);
        assert(modes@.contains(m1) && forall|i: int|
            0 <= i < modes@.len() ==> mode_lex_le(#[trigger] modes@[i], m1)) by {
            assert(modes@.contains(best) && forall|i: int|
                0 <= i < modes@.len() ==> mode_lex_le(#[trigger] modes@[i], best));
        }
        let bi = choose|i: int| 0 <= i < modes@.len() && modes@[i] == best;
        let mi = choose|i: int| 0 <= i < modes@.len() && modes@[i] == m1;
        assert(mode_lex_le(modes@[bi], m1));
        assert(mode_lex_le(modes@[mi], best));
        assert(m1 == best);
    }
    best
}

/// Distance between two pixel counts.
pub open spec fn abs_diff_spec(a: int, b: int) -> int {
    if a >= b {
        a - b
    } else {
        b - a
    }
}

fn abs_diff(a: u32, b: u32) -> (r: u32)
    ensures
        r == abs_diff_spec(a as int, b as int),
{
    if a >= b {
        a - b
    } else {
        b - a
    }
}

/// `a` fits the requested size at least as well as `b`: smaller width
/// distance first, then smaller height distance, then higher refresh rate.
pub open spec fn mode_fits_at_least(a: VideoMode, b: VideoMode, w: int, h: int) -> bool {
    let daw = abs_diff_spec(a.width as int, w);
    let dbw = abs_diff_spec(b.width as int, w);
    let dah = abs_diff_spec(a.height as int, h);
    let dbh = abs_diff_spec(b.height as int, h);
    ||| daw < dbw
    ||| (daw == dbw && dah < dbh)
    ||| (daw == dbw && dah == dbh && a.refresh_rate >= b.refresh_rate)
}

/// Exec mirror of [`mode_fits_at_least`].
fn mode_fits_le(a: &VideoMode, b: &VideoMode, w: u32, h: u32) -> (r: bool)
    ensures
        r == mode_fits_at_least(*a, *b, w as int, h as int),
{
    let daw: u32 = abs_diff(a.width, w);
    let dbw: u32 = abs_diff(b.width, w);
    if daw != dbw {
        daw < dbw
    } else {
        let dah: u32 = abs_diff(a.height, h);
        let dbh: u32 = abs_diff(b.height, h);
        if dah != dbh {
            dah < dbh
        } else {
            a.refresh_rate >= b.refresh_rate
        }
    }
}

/// The mode at position `i` is the one `get_fitting_videomode` picks for
/// the requested size: it fits at least as well as every mode in the list,
/// and strictly better than every mode before it.
pub open spec fn fitting_choice_at(modes: Seq<VideoMode>, w: int, h: int, i: int) -> bool {
    &&& 0 <= i < modes.len()
    &&& forall|j: int| 0 <= j < modes.len() ==> mode_fits_at_least(modes[i], #[trigger] modes[j], w, h)
    &&& forall|j: int| 0 <= j < i ==> !mode_fits_at_least(#[trigger] modes[j], modes[i], w, h)
}

/// Only one position can hold the earliest best-fitting mode.
pub proof fn lemma_fitting_choice_unique(modes: Seq<VideoMode>, w: int, h: int, i: int, j: int)
    requires
        fitting_choice_at(modes, w, h, i),
        fitting_choice_at(modes, w, h, j),
    ensures
        i == j,
{
    if i < j {
        assert(mode_fits_at_least(modes[i], modes[j], w, h));
        assert(!mode_fits_at_least(modes[i], modes[j], w, h));
    }
    if j < i {
        assert(mode_fits_at_least(modes[j], modes[i], w, h));
        assert(!mode_fits_at_least(modes[j], modes[i], w, h));
    }
}

/// The mode `get_fitting_videomode` picks: the one at the unique position
/// the selection predicate names.
pub open spec fn spec_fitting_mode(modes: Seq<VideoMode>, w: int, h: int) -> VideoMode {
    modes[choose|i: int| fitting_choice_at(modes, w, h, i)]
}

/// The mode of a monitor that fits the requested width and height best:
/// it minimizes the width distance, then the height distance, then
/// maximizes the refresh rate; among equally fitting modes the earliest in
/// the monitor's enumeration order wins.
pub fn get_fitting_videomode(monitor: &Monitor, width: u32, height: u32) -> (m: VideoMode)
    requires
        monitor.video_modes@.len() > 0,
    ensures
        exists|i: int|
            #[trigger] fitting_choice_at(monitor.video_modes@, width as int, height as int, i)
                && m == monitor.video_modes@[i],
        m == spec_fitting_mode(monitor.video_modes@, width as int, height as int),
{
    let modes: &Vec<VideoMode> = &monitor.video_modes;
    let mut best: VideoMode = modes[0];
    let mut best_idx: usize = 0;
    let mut idx: usize = 1;
    while idx < modes.len()
        invariant
            1 <= idx <= modes@.len(),
            0 <= best_idx < idx,
            best == modes@[best_idx as int],
            forall|j: int|
                0 <= j < idx ==> mode_fits_at_least(
                    best,
                    #[trigger] modes@[j],
                    width as int,
                    height as int,
                ),
            forall|j: int|
                0 <= j < best_idx ==> !mode_fits_at_least(
                    #[trigger] modes@[j],
                    best,
                    width as int,
                    height as int,
                ),
        decreases modes@.len() - idx,
    {
        let candidate: VideoMode = modes[idx];
        if !mode_fits_le(&best, &candidate, width, height) {
            best = candidate;
            best_idx = idx;
        }
        idx = idx + 1;
    }
    proof {
        assert(fitting_choice_at(modes@, width as int, height as int, best_idx as int));
        let ci = choose|i: int| fitting_choice_at(modes@, width as int, height as int, i);
        lemma_fitting_choice_unique(modes@, width as int, height as int, best_idx as int, ci);
    }
    best
}

/// Requesting the exact width and height of a fitting mode returns a mode
/// of the same size with the highest refresh rate among modes of that
/// size; when that refresh rate is unique, it returns the very same mode.
pub proof fn lemma_fitting_videomode_idempotent(
    modes: Seq<VideoMode>,
    w: int,
    h: int,
    i: int,
    i2: int,
)
    requires
        fitting_choice_at(modes, w, h, i),
        fitting_choice_at(modes, modes[i].width as int, modes[i].height as int, i2),
    ensures
        modes[i2] == modes[i],
{
    let m = modes[i];
    let m2 = modes[i2];
    // The second request is for m's exact size, and m is a candidate, so
    // the second choice matches that size exactly.
    assert(mode_fits_at_least(m2, m, m.width as int, m.height as int));
    assert(m2.width == m.width && m2.height == m.height);
    // Refresh rates agree: the second choice has the best refresh rate at
    // that size, and the first choice fits at least as well as the second
    // under the original request, where their size distances are equal.
    assert(mode_fits_at_least(m, m2, w, h));
    assert(m2.refresh_rate == m.refresh_rate);
    // Same size and refresh rate means the two are the same mode value.
}

} // verus!
