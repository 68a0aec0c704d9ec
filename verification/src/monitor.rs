//! Monitors, video modes, and the resolution of a logical monitor or video
//! mode selection to a concrete one.

use vstd::prelude::*;

verus! {

/// One video mode of a monitor, in physical pixels.
///
/// A refresh rate or bit depth that the platform does not report is stored as
/// the sentinel value 0.
#[derive(Clone, Copy, PartialEq, Eq, Debug)]
pub struct VideoMode {
    pub physical_width: u32,
    pub physical_height: u32,
    /// Refresh rate in millihertz; 0 when unreported.
    pub refresh_rate_millihertz: u32,
    /// Colour depth in bits; 0 when unreported.
    pub bit_depth: u32,
}

/// The plain facts about a monitor that window placement reads: its origin in
/// the global physical coordinate space, its scale factor, and its currently
/// active video mode (if the platform reports one).
///
/// Scale factors are carried in thousandths, so a factor of one is 1000.
#[derive(Clone, Copy, PartialEq, Eq, Debug)]
pub struct MonitorInfo {
    pub position_x: i32,
    pub position_y: i32,
    /// Scale factor in thousandths (1000 is a factor of one).
    pub scale_factor_millis: u32,
    /// The currently active video mode, as reported by the platform.
    pub current_mode: Option<VideoMode>,
}

/// A known monitor: its placement facts, its enumerated video modes in
/// platform enumeration order, and the window entity that owns it, if any.
#[derive(Debug)]
pub struct Monitor {
    pub info: MonitorInfo,
    /// All video modes the platform enumerates for this monitor.
    pub video_modes: Vec<VideoMode>,
    /// The window entity this monitor is associated with, if any.
    pub owner: Option<u64>,
}

/// An ordered list of the known monitors, supporting lookup by index and by
/// owning entity.
#[derive(Debug)]
pub struct MonitorDirectory {
    pub monitors: Vec<Monitor>,
}

/// A logical monitor choice, resolved against a [`MonitorDirectory`] and the
/// primary and current monitors handed in by the caller.
#[derive(Clone, Copy, PartialEq, Eq, Debug)]
pub enum MonitorSelection {
    /// The monitor the window is currently on.
    Current,
    /// The primary monitor.
    Primary,
    /// The n-th monitor of the directory, in enumeration order.
    Index(usize),
    /// The monitor owned by the given window entity.
    Entity(u64),
}

/// A logical video mode choice for exclusive fullscreen.
#[derive(Clone, Copy, PartialEq, Eq, Debug)]
pub enum VideoModeSelection {
    /// The monitor's currently active video mode.
    Current,
    /// The first enumerated mode that matches all four fields exactly.
    Specific(VideoMode),
}

/// The value behind an optional reference, for stating contracts about
/// `Option<&T>` parameters.
pub open spec fn opt_ref_view<T>(o: Option<&T>) -> Option<T> {
    match o {
        Option::Some(t) => Option::Some(*t),
        Option::None => Option::None,
    }
}

impl MonitorDirectory {
    /// The first monitor at or after index `i` owned by entity `e`.
    pub open spec fn find_owned_from(self, e: u64, i: int) -> Option<Monitor>
        decreases self.monitors@.len() - i,
    {
        if i < 0 || i >= self.monitors@.len() {
            Option::None
        } else if self.monitors@[i].owner == Option::Some(e) {
            Option::Some(self.monitors@[i])
        } else {
            self.find_owned_from(e, i + 1)
        }
    }

    /// The monitor resolved for `MonitorSelection::Index(n)`.
    pub open spec fn nth_spec(self, n: int) -> Option<Monitor> {
        if 0 <= n < self.monitors@.len() {
            Option::Some(self.monitors@[n])
        } else {
            Option::None
        }
    }

    /// The monitor resolved for `MonitorSelection::Entity(e)`: the first
    /// monitor owned by `e`.
    pub open spec fn find_entity_spec(self, e: u64) -> Option<Monitor> {
        self.find_owned_from(e, 0)
    }

    /// Returns the n-th monitor in enumeration order, or nothing when `n` is
    /// out of range.
    pub fn nth(&self, n: usize) -> (r: Option<&Monitor>)
        ensures
            opt_ref_view(r) == self.nth_spec(n as int),
    {
        if n < self.monitors.len() {
            Some(&self.monitors[n])
        } else {
            None
        }
    }

    /// Returns the first monitor owned by entity `e`, or nothing when no
    /// monitor is owned by it.
    pub fn find_entity(&self, e: u64) -> (r: Option<&Monitor>)
        ensures
            opt_ref_view(r) == self.find_entity_spec(e),
    {
        let mut i: usize = 0;
        while i < self.monitors.len()
            invariant
                0 <= i <= self.monitors@.len(),
                self.find_owned_from(e, 0) == self.find_owned_from(e, i as int),
            decreases self.monitors@.len() - i,
        {
            if let Some(owner) = self.monitors[i].owner {
                if owner == e {
                    return Some(&self.monitors[i]);
                }
            }
            i = i + 1;
        }
        None
    }
}

/// What `select_monitor` resolves a selection to, stated over plain values.
pub open spec fn select_monitor_spec(
    monitors: MonitorDirectory,
    primary: Option<Monitor>,
    current: Option<Monitor>,
    selection: MonitorSelection,
) -> Option<Monitor> {
    match selection {
        MonitorSelection::Current => current,
        MonitorSelection::Primary => primary,
        MonitorSelection::Index(n) => monitors.nth_spec(n as int),
        MonitorSelection::Entity(e) => monitors.find_entity_spec(e),
    }
}

/// Resolves a [`MonitorSelection`] to a concrete monitor.
///
/// `Current` yields the passed-in current monitor (which is absent during
/// window creation); `Primary` yields the passed-in primary monitor verbatim;
/// `Index(n)` yields the directory's n-th monitor, or nothing when out of
/// range; `Entity(e)` yields the first monitor owned by `e`, or nothing.
pub fn select_monitor<'a>(
    monitors: &'a MonitorDirectory,
    primary: Option<&'a Monitor>,
    current: Option<&'a Monitor>,
    monitor_selection: &MonitorSelection,
) -> (r: Option<&'a Monitor>)
    ensures
        opt_ref_view(r) == select_monitor_spec(
            *monitors,
            opt_ref_view(primary),
            opt_ref_view(current),
            *monitor_selection,
        ),
{
    match monitor_selection {
        MonitorSelection::Current => current,
        MonitorSelection::Primary => primary,
        MonitorSelection::Index(n) => monitors.nth(*n),
        MonitorSelection::Entity(e) => monitors.find_entity(*e),
    }
}

/// Selecting a monitor by an index that is out of the directory's range
/// resolves to nothing, whatever the directory and the primary and current
/// monitors are.
pub proof fn lemma_index_out_of_range(
    monitors: MonitorDirectory,
    primary: Option<Monitor>,
    current: Option<Monitor>,
    n: usize,
)
    requires
        n >= monitors.monitors@.len(),
    ensures
        select_monitor_spec(monitors, primary, current, MonitorSelection::Index(n)) is None,
{
}

/// Whether `mode` matches a requested mode exactly, on all four fields.
pub open spec fn video_mode_matches(mode: VideoMode, wanted: VideoMode) -> bool {
    &&& mode.physical_width == wanted.physical_width
    &&& mode.physical_height == wanted.physical_height
    &&& mode.refresh_rate_millihertz == wanted.refresh_rate_millihertz
    &&& mode.bit_depth == wanted.bit_depth
}

/// The first mode at or after index `i` that matches `wanted` exactly.
pub open spec fn first_matching_mode_from(modes: Seq<VideoMode>, wanted: VideoMode, i: int) -> Option<
    VideoMode,
>
    decreases modes.len() - i,
{
    if i < 0 || i >= modes.len() {
        Option::None
    } else if video_mode_matches(modes[i], wanted) {
        Option::Some(modes[i])
    } else {
        first_matching_mode_from(modes, wanted, i + 1)
    }
}

/// What `get_selected_videomode` resolves a selection to.
pub open spec fn selected_videomode_spec(monitor: Monitor, selection: VideoModeSelection) -> Option<
    VideoMode,
> {
    match selection {
        VideoModeSelection::Current => monitor.info.current_mode,
        VideoModeSelection::Specific(wanted) => first_matching_mode_from(
            monitor.video_modes@,
            wanted,
            0,
        ),
    }
}

/// Resolves a [`VideoModeSelection`] against a monitor.
///
/// `Current` yields the monitor's active mode as the platform reports it.
/// `Specific` scans the monitor's enumerated modes in order and yields the
/// first exact match on width, height, refresh rate (millihertz) and bit
/// depth simultaneously, or nothing when no mode matches all four.
pub fn get_selected_videomode(monitor: &Monitor, selection: &VideoModeSelection) -> (r: Option<
    VideoMode,
>)
    ensures
        r == selected_videomode_spec(*monitor, *selection),
{
    match *selection {
        VideoModeSelection::Current => monitor.info.current_mode,
        VideoModeSelection::Specific(wanted) => {
            let mut i: usize = 0;
            while i < monitor.video_modes.len()
                invariant
                    0 <= i <= monitor.video_modes@.len(),
                    *selection == VideoModeSelection::Specific(wanted),
                    first_matching_mode_from(monitor.video_modes@, wanted, 0)
                        == first_matching_mode_from(monitor.video_modes@, wanted, i as int),
                decreases monitor.video_modes@.len() - i,
            {
                let mode = monitor.video_modes[i];
                if mode.physical_width == wanted.physical_width
                    && mode.physical_height == wanted.physical_height
                    && mode.refresh_rate_millihertz == wanted.refresh_rate_millihertz
                    && mode.bit_depth == wanted.bit_depth {
                    assert(first_matching_mode_from(monitor.video_modes@, wanted, i as int)
                        == Option::Some(mode));
                    return Some(mode);
                }
                i = i + 1;
            }
            None
        },
    }
}

} // verus!
