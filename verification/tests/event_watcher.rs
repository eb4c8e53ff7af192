use solar_screen_brightness::event_watcher::{
    win_event_hook_proc, wndproc, Rect, WindowAction, WindowData, EXIT_LOOP, WM_APP,
    WM_DISPLAYCHANGE, WM_WTSSESSION_CHANGE, WTS_SESSION_LOCK, WTS_SESSION_UNLOCK,
};
use solar_screen_brightness::message::Message;
use windows::Win32::UI::WindowsAndMessaging as system;

const OPEN_WINDOW: u32 = 0xC123;

const MONITOR: Rect = Rect { left: 0, top: 0, right: 1920, bottom: 1080 };

fn data() -> WindowData {
    WindowData {
        open_window_msg_code: OPEN_WINDOW,
        has_main_loop: true,
        is_foreground_window_fullscreen: false,
    }
}

fn device(text: &str) -> Vec<u16> {
    let mut units: Vec<u16> = text.encode_utf16().collect();
    units.resize(32, 0);
    units
}

#[test]
fn codes_are_those_of_the_window_system() {
    assert_eq!(WM_APP, system::WM_APP);
    assert_eq!(WM_DISPLAYCHANGE, system::WM_DISPLAYCHANGE);
    assert_eq!(WM_WTSSESSION_CHANGE, system::WM_WTSSESSION_CHANGE);
    assert_eq!(WTS_SESSION_LOCK, system::WTS_SESSION_LOCK);
    assert_eq!(WTS_SESSION_UNLOCK, system::WTS_SESSION_UNLOCK);
    assert_eq!(EXIT_LOOP, system::WM_APP + 999);
}

#[test]
fn display_changes_refresh() {
    let action = wndproc(&data(), WM_DISPLAYCHANGE, 32);
    assert!(matches!(action, WindowAction::Send(Message::Refresh("WM_DISPLAYCHANGE"))));
}

#[test]
fn session_changes_switch() {
    let action = wndproc(&data(), WM_WTSSESSION_CHANGE, 7);
    assert!(matches!(action, WindowAction::Send(Message::Disable("WTS_SESSION_LOCK"))));
    let action = wndproc(&data(), WM_WTSSESSION_CHANGE, 8);
    assert!(matches!(action, WindowAction::Send(Message::Enable("WTS_SESSION_UNLOCK"))));
    assert!(matches!(wndproc(&data(), WM_WTSSESSION_CHANGE, 5), WindowAction::Ignore));
}

#[test]
fn only_the_lower_half_of_the_parameter_counts() {
    let action = wndproc(&data(), WM_WTSSESSION_CHANGE, 0x1_0000_0007);
    assert!(matches!(action, WindowAction::Send(Message::Disable("WTS_SESSION_LOCK"))));
}

#[test]
fn the_loop_is_ended_on_request() {
    assert!(matches!(wndproc(&data(), EXIT_LOOP, 0), WindowAction::Quit));
}

#[test]
fn other_instances_open_the_window() {
    let action = wndproc(&data(), OPEN_WINDOW, 0);
    assert!(matches!(action, WindowAction::OpenWindow("Broadcast Message")));
    let headless = WindowData { has_main_loop: false, ..data() };
    assert!(matches!(wndproc(&headless, OPEN_WINDOW, 0), WindowAction::Ignore));
}

#[test]
fn fixed_meanings_come_first() {
    let clash = WindowData { open_window_msg_code: WM_WTSSESSION_CHANGE, ..data() };
    assert!(matches!(wndproc(&clash, WM_WTSSESSION_CHANGE, 5), WindowAction::Ignore));
    let clash = WindowData { open_window_msg_code: EXIT_LOOP, ..data() };
    assert!(matches!(wndproc(&clash, EXIT_LOOP, 0), WindowAction::Quit));
}

#[test]
fn unknown_messages_are_ignored() {
    assert!(matches!(wndproc(&data(), 0, 0), WindowAction::Ignore));
    assert!(matches!(wndproc(&data(), WM_APP, 7), WindowAction::Ignore));
}

#[test]
fn fullscreen_windows_are_reported_when_that_changes() {
    let mut data = data();
    let small = Rect { right: 1919, ..MONITOR };
    let one = device("\\\\.\\DISPLAY1");

    assert!(win_event_hook_proc(&mut data, &small, &MONITOR, &one).is_none());
    assert!(!data.is_foreground_window_fullscreen);

    match win_event_hook_proc(&mut data, &MONITOR, &MONITOR, &one) {
        Some(Message::FullscreenAdd(name)) => assert_eq!(name, "\\\\.\\DISPLAY1"),
        _ => panic!("the window fills the monitor"),
    }
    assert!(data.is_foreground_window_fullscreen);
    assert!(win_event_hook_proc(&mut data, &MONITOR, &MONITOR, &one).is_none());

    match win_event_hook_proc(&mut data, &small, &MONITOR, &one) {
        Some(Message::FullscreenRemove(name)) => assert_eq!(name, "\\\\.\\DISPLAY1"),
        _ => panic!("the window no longer fills the monitor"),
    }
    assert_eq!(data.open_window_msg_code, OPEN_WINDOW);
    assert!(data.has_main_loop);
}

#[test]
fn every_edge_counts() {
    let windows = [
        Rect { left: 1, ..MONITOR },
        Rect { top: -1, ..MONITOR },
        Rect { right: 1921, ..MONITOR },
        Rect { bottom: 1079, ..MONITOR },
    ];
    for window in windows {
        let mut data = WindowData { is_foreground_window_fullscreen: true, ..data() };
        let message = win_event_hook_proc(&mut data, &window, &MONITOR, &device("D"));
        assert!(matches!(message, Some(Message::FullscreenRemove(_))));
    }
}

#[test]
fn the_report_names_the_monitor_of_the_present_window() {
    let mut data = data();
    let other = Rect { left: 1920, top: 0, right: 3840, bottom: 1080 };
    let message = win_event_hook_proc(&mut data, &MONITOR, &MONITOR, &device("one"));
    assert!(matches!(message, Some(Message::FullscreenAdd(name)) if name == "one"));
    assert!(win_event_hook_proc(&mut data, &other, &other, &device("two")).is_none());
    let message = win_event_hook_proc(&mut data, &MONITOR, &other, &device("two"));
    assert!(matches!(message, Some(Message::FullscreenRemove(name)) if name == "two"));
}
