use winit_windows::monitor::{Monitor, MonitorDirectory, MonitorInfo, MonitorSelection, VideoMode};
use winit_windows::position::{
    winit_window_position, PhysicalPosition, WindowPosition, WindowResolution,
};

fn monitor_1920_1080_at(x: i32, y: i32, scale_millis: u32) -> Monitor {
    Monitor {
        info: MonitorInfo {
            position_x: x,
            position_y: y,
            scale_factor_millis: scale_millis,
            current_mode: Some(VideoMode {
                physical_width: 1920,
                physical_height: 1080,
                refresh_rate_millihertz: 60000,
                bit_depth: 24,
            }),
        },
        video_modes: Vec::new(),
        owner: None,
    }
}

fn resolution(w: u32, h: u32, override_millis: Option<u32>) -> WindowResolution {
    WindowResolution {
        logical_width: w,
        logical_height: h,
        scale_factor_override_millis: override_millis,
    }
}

fn empty_directory() -> MonitorDirectory {
    MonitorDirectory { monitors: Vec::new() }
}

#[test]
fn centering_on_primary_monitor() {
    let monitor = monitor_1920_1080_at(0, 0, 1000);
    let r = winit_window_position(
        &WindowPosition::Centered(MonitorSelection::Primary),
        &resolution(800, 600, None),
        &empty_directory(),
        Some(&monitor),
        None,
    );
    assert_eq!(r, Some(PhysicalPosition { x: 560, y: 240 }));
}

#[test]
fn centering_saturates_at_monitor_origin() {
    let monitor = monitor_1920_1080_at(7, 9, 1000);
    let r = winit_window_position(
        &WindowPosition::Centered(MonitorSelection::Primary),
        &resolution(2000, 2000, None),
        &empty_directory(),
        Some(&monitor),
        None,
    );
    assert_eq!(r, Some(PhysicalPosition { x: 7, y: 9 }));
}

#[test]
fn centering_saturates_never_negative() {
    let monitor = monitor_1920_1080_at(0, 0, 1000);
    let r = winit_window_position(
        &WindowPosition::Centered(MonitorSelection::Primary),
        &resolution(4000, 1080, None),
        &empty_directory(),
        Some(&monitor),
        None,
    );
    assert_eq!(r, Some(PhysicalPosition { x: 0, y: 0 }));
}

#[test]
fn centering_uses_scale_factor_override() {
    let monitor = monitor_1920_1080_at(0, 0, 1000);
    let r = winit_window_position(
        &WindowPosition::Centered(MonitorSelection::Primary),
        &resolution(400, 300, Some(2000)),
        &empty_directory(),
        Some(&monitor),
        None,
    );
    assert_eq!(r, Some(PhysicalPosition { x: 560, y: 240 }));
}

#[test]
fn centering_uses_monitor_scale_factor() {
    let monitor = monitor_1920_1080_at(0, 0, 1500);
    let r = winit_window_position(
        &WindowPosition::Centered(MonitorSelection::Primary),
        &resolution(800, 600, None),
        &empty_directory(),
        Some(&monitor),
        None,
    );
    assert_eq!(r, Some(PhysicalPosition { x: 360, y: 90 }));
}

#[test]
fn centering_without_current_mode_yields_none() {
    let mut monitor = monitor_1920_1080_at(0, 0, 1000);
    monitor.info.current_mode = None;
    let r = winit_window_position(
        &WindowPosition::Centered(MonitorSelection::Primary),
        &resolution(800, 600, None),
        &empty_directory(),
        Some(&monitor),
        None,
    );
    assert_eq!(r, None);
}

#[test]
fn centering_with_unresolved_monitor_yields_none() {
    let r = winit_window_position(
        &WindowPosition::Centered(MonitorSelection::Index(5)),
        &resolution(800, 600, None),
        &empty_directory(),
        None,
        None,
    );
    assert_eq!(r, None);
}

#[test]
fn automatic_placement_yields_none() {
    let monitor = monitor_1920_1080_at(0, 0, 1000);
    let r = winit_window_position(
        &WindowPosition::Automatic,
        &resolution(800, 600, None),
        &empty_directory(),
        Some(&monitor),
        None,
    );
    assert_eq!(r, None);
}

#[test]
fn at_placement_is_verbatim() {
    let r = winit_window_position(
        &WindowPosition::At(12, -34),
        &resolution(800, 600, None),
        &empty_directory(),
        None,
        None,
    );
    assert_eq!(r, Some(PhysicalPosition { x: 12, y: -34 }));
}
