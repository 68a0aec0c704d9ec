//! Window placement: computing an absolute physical pixel position for a
//! declarative placement policy.
//!
//! All coordinates are integers. Logical sizes are converted to physical
//! pixels with a scale factor carried in thousandths, rounding to the nearest
//! pixel; a "centered" placement halves the free space on each axis,
//! saturating at zero when the window is larger than the monitor.

use vstd::prelude::*;

use crate::monitor::{
    select_monitor, select_monitor_spec, opt_ref_view, Monitor, MonitorDirectory, MonitorSelection,
};

verus! {

/// A position in physical (device) pixels, in the global coordinate space.
#[derive(Clone, Copy, PartialEq, Eq, Debug)]
pub struct PhysicalPosition {
    pub x: i32,
    pub y: i32,
}

/// A window's requested logical size, with an optional scale factor override
/// (in thousandths) that takes precedence over the monitor's own factor.
#[derive(Clone, Copy, PartialEq, Eq, Debug)]
pub struct WindowResolution {
    pub logical_width: u32,
    pub logical_height: u32,
    /// Scale factor override in thousandths, if any (1000 is a factor of one).
    pub scale_factor_override_millis: Option<u32>,
}

/// A declarative window placement policy.
#[derive(Clone, Copy, PartialEq, Eq, Debug)]
pub enum WindowPosition {
    /// Let the window manager place the window.
    Automatic,
    /// Center the window on the selected monitor.
    Centered(MonitorSelection),
    /// Place the window at this point of the physical coordinate space.
    At(i32, i32),
}

/// A logical length scaled to physical pixels: multiplied by a scale factor
/// in thousandths and rounded to the nearest pixel, saturating at `u32::MAX`.
pub open spec fn to_physical_spec(logical: u32, scale_millis: u32) -> u32 {
    let raw = (logical * scale_millis + 500) / 1000;
    if raw > u32::MAX {
        u32::MAX
    } else {
        raw as u32
    }
}

/// One axis of a centered placement: the monitor origin plus half the free
/// space, where the free space saturates at zero when the window is larger
/// than the monitor. The result is clamped to the `i32` range.
pub open spec fn centered_axis_spec(origin: i32, screen: u32, window: u32) -> i32 {
    let free = if window >= screen {
        0
    } else {
        (screen - window) as int
    };
    let sum = origin + free / 2;
    if sum > i32::MAX {
        i32::MAX
    } else if sum < i32::MIN {
        i32::MIN
    } else {
        sum as i32
    }
}

/// The scale factor used for a centered placement: the resolution's override
/// when present, else the monitor's own factor.
pub open spec fn effective_scale_millis(resolution: WindowResolution, monitor: Monitor) -> u32 {
    match resolution.scale_factor_override_millis {
        Option::Some(s) => s,
        Option::None => monitor.info.scale_factor_millis,
    }
}

/// What `winit_window_position` computes, stated over plain values.
///
/// `Automatic` yields nothing; `At` yields that point verbatim; `Centered`
/// resolves the monitor and centers the window's physical size inside the
/// monitor's current video mode, yielding nothing when the monitor cannot be
/// resolved or reports no current video mode.
pub open spec fn window_position_spec(
    position: WindowPosition,
    resolution: WindowResolution,
    monitors: MonitorDirectory,
    primary: Option<Monitor>,
    current: Option<Monitor>,
) -> Option<PhysicalPosition> {
    match position {
        WindowPosition::Automatic => Option::None,
        WindowPosition::At(x, y) => Option::Some(PhysicalPosition { x, y }),
        WindowPosition::Centered(selection) => match select_monitor_spec(
            monitors,
            primary,
            current,
            selection,
        ) {
            Option::None => Option::None,
            Option::Some(monitor) => match monitor.info.current_mode {
                Option::None => Option::None,
                Option::Some(mode) => {
                    let scale = effective_scale_millis(resolution, monitor);
                    Option::Some(
                        PhysicalPosition {
                            x: centered_axis_spec(
                                monitor.info.position_x,
                                mode.physical_width,
                                to_physical_spec(resolution.logical_width, scale),
                            ),
                            y: centered_axis_spec(
                                monitor.info.position_y,
                                mode.physical_height,
                                to_physical_spec(resolution.logical_height, scale),
                            ),
                        },
                    )
                },
            },
        },
    }
}

/// Saturating centering: when the window's physical size on an axis is at
/// least the monitor's, the free space saturates at zero and the centered
/// position on that axis is exactly the monitor's origin — never negative
/// relative to it.
pub proof fn lemma_centering_saturates(origin: i32, screen: u32, window: u32)
    requires
        window >= screen,
    ensures
        centered_axis_spec(origin, screen, window) == origin,
{
}

/// Scales a logical length to physical pixels by a factor in thousandths,
/// rounding to the nearest pixel and saturating at `u32::MAX`.
pub fn to_physical(logical: u32, scale_millis: u32) -> (r: u32)
    ensures
        r == to_physical_spec(logical, scale_millis),
{
    proof {
        assert((logical as int) * (scale_millis as int) <= (u32::MAX as int) * (u32::MAX as int))
            by (nonlinear_arith)
            requires
                logical <= u32::MAX,
                scale_millis <= u32::MAX,
        ;
    }
    let raw: u64 = ((logical as u64) * (scale_millis as u64) + 500) / 1000;
    if raw > u32::MAX as u64 {
        u32::MAX
    } else {
        raw as u32
    }
}

/// One axis of a centered placement; see [`centered_axis_spec`].
fn centered_axis(origin: i32, screen: u32, window: u32) -> (r: i32)
    ensures
        r == centered_axis_spec(origin, screen, window),
{
    let free: u32 = if window >= screen {
        0
    } else {
        screen - window
    };
    let sum: i64 = (origin as i64) + ((free / 2) as i64);
    if sum > i32::MAX as i64 {
        i32::MAX
    } else if sum < i32::MIN as i64 {
        i32::MIN
    } else {
        sum as i32
    }
}

/// Computes the absolute physical position for a placement policy.
///
/// `Automatic` leaves placement to the window manager and yields nothing.
/// `At(x, y)` yields that point unconditionally. `Centered(selection)`
/// resolves the monitor; when it resolves and reports a current video mode,
/// the window's logical size is scaled to physical pixels (by the override
/// factor when present, else the monitor's factor) and centered inside the
/// mode's size, the free space saturating at zero on each axis; otherwise
/// nothing is yielded.
pub fn winit_window_position(
    position: &WindowPosition,
    resolution: &WindowResolution,
    monitors: &MonitorDirectory,
    primary_monitor: Option<&Monitor>,
    current_monitor: Option<&Monitor>,
) -> (r: Option<PhysicalPosition>)
    ensures
        r == window_position_spec(
            *position,
            *resolution,
            *monitors,
            opt_ref_view(primary_monitor),
            opt_ref_view(current_monitor),
        ),
{
    match *position {
        WindowPosition::Automatic => None,
        WindowPosition::At(x, y) => Some(PhysicalPosition { x, y }),
        WindowPosition::Centered(selection) => {
            let maybe_monitor = select_monitor(
                monitors,
                primary_monitor,
                current_monitor,
                &selection,
            );
            match maybe_monitor {
                Some(monitor) => {
                    let mode = match monitor.info.current_mode {
                        Some(mode) => mode,
                        None => {
                            return None;
                        },
                    };
                    let scale: u32 = match resolution.scale_factor_override_millis {
                        Some(s) => s,
                        None => monitor.info.scale_factor_millis,
                    };
                    let width: u32 = to_physical(resolution.logical_width, scale);
                    let height: u32 = to_physical(resolution.logical_height, scale);
                    Some(
                        PhysicalPosition {
                            x: centered_axis(monitor.info.position_x, mode.physical_width, width),
                            y: centered_axis(monitor.info.position_y, mode.physical_height, height),
                        },
                    )
                },
                None => None,
            }
        },
    }
}

} // verus!
