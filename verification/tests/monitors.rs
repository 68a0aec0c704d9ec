use winit_windows::monitor::{
    get_selected_videomode, select_monitor, Monitor, MonitorDirectory, MonitorInfo,
    MonitorSelection, VideoMode, VideoModeSelection,
};

fn mode(width: u32, height: u32, refresh: u32, depth: u32) -> VideoMode {
    VideoMode {
        physical_width: width,
        physical_height: height,
        refresh_rate_millihertz: refresh,
        bit_depth: depth,
    }
}

fn monitor_with_modes(modes: Vec<VideoMode>, owner: Option<u64>) -> Monitor {
    Monitor {
        info: MonitorInfo {
            position_x: 0,
            position_y: 0,
            scale_factor_millis: 1000,
            current_mode: modes.first().copied(),
        },
        video_modes: modes,
        owner,
    }
}

fn two_monitor_directory() -> MonitorDirectory {
    MonitorDirectory {
        monitors: vec![
            monitor_with_modes(vec![mode(1920, 1080, 60000, 24)], None),
            monitor_with_modes(vec![mode(2560, 1440, 120000, 32)], Some(42)),
        ],
    }
}

#[test]
fn monitor_index_out_of_range_is_none() {
    let directory = two_monitor_directory();
    let r = select_monitor(&directory, None, None, &MonitorSelection::Index(2));
    assert!(r.is_none());
    let r = select_monitor(&directory, None, None, &MonitorSelection::Index(usize::MAX));
    assert!(r.is_none());
}

#[test]
fn monitor_index_in_range() {
    let directory = two_monitor_directory();
    let r = select_monitor(&directory, None, None, &MonitorSelection::Index(1));
    assert_eq!(r.unwrap().info.current_mode, Some(mode(2560, 1440, 120000, 32)));
}

#[test]
fn monitor_by_owning_entity() {
    let directory = two_monitor_directory();
    let r = select_monitor(&directory, None, None, &MonitorSelection::Entity(42));
    assert_eq!(r.unwrap().owner, Some(42));
    let r = select_monitor(&directory, None, None, &MonitorSelection::Entity(7));
    assert!(r.is_none());
}

#[test]
fn monitor_primary_is_verbatim() {
    let directory = two_monitor_directory();
    let primary = monitor_with_modes(vec![mode(1280, 720, 0, 0)], None);
    let r = select_monitor(&directory, Some(&primary), None, &MonitorSelection::Primary);
    assert_eq!(r.unwrap().info.current_mode, Some(mode(1280, 720, 0, 0)));
    let r = select_monitor(&directory, None, None, &MonitorSelection::Primary);
    assert!(r.is_none());
}

#[test]
fn monitor_current_absent_is_none() {
    let directory = two_monitor_directory();
    let r = select_monitor(&directory, None, None, &MonitorSelection::Current);
    assert!(r.is_none());
}

#[test]
fn video_mode_exact_match_on_bit_depth() {
    let monitor = monitor_with_modes(
        vec![mode(1920, 1080, 60000, 24), mode(1920, 1080, 60000, 32)],
        None,
    );
    let r = get_selected_videomode(
        &monitor,
        &VideoModeSelection::Specific(mode(1920, 1080, 60000, 32)),
    );
    assert_eq!(r, Some(mode(1920, 1080, 60000, 32)));
    assert_ne!(r.unwrap().bit_depth, 24);
}

#[test]
fn video_mode_no_match_is_none() {
    let monitor = monitor_with_modes(
        vec![mode(1920, 1080, 60000, 24), mode(1920, 1080, 60000, 32)],
        None,
    );
    let r = get_selected_videomode(
        &monitor,
        &VideoModeSelection::Specific(mode(1920, 1080, 144000, 24)),
    );
    assert_eq!(r, None);
}

#[test]
fn video_mode_current_is_reported_mode() {
    let monitor = monitor_with_modes(
        vec![mode(1920, 1080, 60000, 24), mode(1920, 1080, 60000, 32)],
        None,
    );
    let r = get_selected_videomode(&monitor, &VideoModeSelection::Current);
    assert_eq!(r, Some(mode(1920, 1080, 60000, 24)));
}

#[test]
fn video_mode_current_absent_is_none() {
    let mut monitor = monitor_with_modes(vec![], None);
    monitor.info.current_mode = None;
    let r = get_selected_videomode(&monitor, &VideoModeSelection::Current);
    assert_eq!(r, None);
}

#[test]
fn video_mode_first_match_wins() {
    let monitor = monitor_with_modes(
        vec![
            mode(1920, 1080, 60000, 24),
            mode(1920, 1080, 120000, 24),
            mode(1920, 1080, 60000, 24),
        ],
        None,
    );
    let r = get_selected_videomode(
        &monitor,
        &VideoModeSelection::Specific(mode(1920, 1080, 60000, 24)),
    );
    assert_eq!(r, Some(mode(1920, 1080, 60000, 24)));
}
