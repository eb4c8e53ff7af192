use solar_screen_brightness::apply::{ApplyResults, BrightnessDetails, MonitorResult};
use solar_screen_brightness::config::SsbConfig;
use solar_screen_brightness::controller::{is_admissible, run, Action, Controller, Event};
use solar_screen_brightness::event_watcher::{
    win_event_hook_proc, wndproc, Rect, WindowAction, WindowData, WM_WTSSESSION_CHANGE,
};
use solar_screen_brightness::message::Message;
use solar_screen_brightness::sun::{Location, SunriseError};
use solar_screen_brightness::time::Timestamp;
use sunrise_sunset_calculator::SunriseSunsetParameters;

fn at(secs: i64) -> Timestamp {
    Timestamp::from_epoch_secs(secs)
}

fn config(latitude: Option<f64>) -> SsbConfig<u8> {
    SsbConfig {
        brightness_day: 90,
        brightness_night: 50,
        transition_mins: 30,
        location: latitude.map(|latitude| Location {
            coordinates: SunriseSunsetParameters::new(0, latitude, 0.0),
        }),
        overrides: 9,
    }
}

fn step(controller: &mut Controller, event: Event<u8>) -> Action<u8> {
    assert!(is_admissible(&event));
    run(controller, event)
}

fn receive(controller: &mut Controller, message: Message) {
    assert!(matches!(step(controller, Event::Received(message, at(1_000))), Action::Repeat));
}

fn results(expiry: Option<i64>) -> ApplyResults {
    let brightness = Some(BrightnessDetails { expiry_time: expiry });
    ApplyResults { monitors: vec![MonitorResult { brightness }] }
}

#[test]
fn a_controller_starts_enabled() {
    let controller = Controller::new();
    assert!(controller.enabled);
    assert!(controller.paused_until.is_none());
    assert!(controller.fullscreen_overrides.names().is_empty());
}

#[test]
fn a_cycle_applies_publishes_and_sleeps() {
    let mut controller = Controller::new();
    assert!(matches!(step(&mut controller, Event::Wake(at(10))), Action::LoadConfig));
    match step(&mut controller, Event::ConfigLoaded(config(Some(51.0)))) {
        Action::Apply(request) => {
            assert_eq!(request.brightness_day, 90);
            assert_eq!(request.overrides, 9);
            assert!(!request.force_day_brightness);
            assert!(request.fullscreen_overrides.unwrap().names().is_empty());
        }
        other => panic!("{other:?}"),
    }
    match step(&mut controller, Event::Applied(results(Some(500)))) {
        Action::Publish { results: Some(published), timeout } => {
            assert_eq!(published.monitors.len(), 1);
            assert_eq!(timeout, Some(at(500)));
        }
        other => panic!("{other:?}"),
    }
    assert!(matches!(step(&mut controller, Event::TimedOut), Action::Repeat));
}

#[test]
fn without_a_location_the_controller_sleeps_without_end() {
    let mut controller = Controller::new();
    let action = step(&mut controller, Event::ConfigLoaded(config(None)));
    assert!(matches!(action, Action::Publish { results: None, timeout: None }));
}

#[test]
fn a_disabled_controller_leaves_the_screens_alone() {
    let mut controller = Controller::new();
    receive(&mut controller, Message::Disable("test"));
    assert!(matches!(step(&mut controller, Event::Wake(at(10))), Action::Sleep));
    receive(&mut controller, Message::Refresh("test"));
    assert!(matches!(step(&mut controller, Event::Wake(at(11))), Action::Sleep));
    receive(&mut controller, Message::Enable("test"));
    assert!(matches!(step(&mut controller, Event::Wake(at(12))), Action::LoadConfig));
}

#[test]
fn the_last_switch_counts() {
    let mut controller = Controller::new();
    receive(&mut controller, Message::Disable("test"));
    receive(&mut controller, Message::Enable("test"));
    receive(&mut controller, Message::Disable("test"));
    receive(&mut controller, Message::FullscreenAdd("D".to_string()));
    assert!(!controller.enabled);
}

#[test]
fn shutting_down_stops() {
    let mut controller = Controller::new();
    let action = step(&mut controller, Event::Received(Message::Shutdown, at(1)));
    assert!(matches!(action, Action::Stop));
}

#[test]
fn a_pause_forces_the_day_brightness_until_it_ends() {
    let mut controller = Controller::new();
    receive(&mut controller, Message::Pause("test", 60));
    assert_eq!(controller.paused_until, Some(at(1_060)));

    step(&mut controller, Event::Wake(Timestamp::from_nanos(1_059_999_999_999).unwrap()));
    match step(&mut controller, Event::ConfigLoaded(config(Some(51.0)))) {
        Action::Apply(request) => assert!(request.force_day_brightness),
        other => panic!("{other:?}"),
    }

    step(&mut controller, Event::Wake(at(1_060)));
    assert_eq!(controller.paused_until, None);
    match step(&mut controller, Event::ConfigLoaded(config(Some(51.0)))) {
        Action::Apply(request) => assert!(!request.force_day_brightness),
        other => panic!("{other:?}"),
    }
}

#[test]
fn a_pause_ends_on_request() {
    let mut controller = Controller::new();
    receive(&mut controller, Message::Pause("test", 60));
    receive(&mut controller, Message::Unpause("test"));
    assert_eq!(controller.paused_until, None);
    assert!(controller.enabled);
}

#[test]
fn a_pause_of_nothing_is_over_at_once() {
    let mut controller = Controller::new();
    receive(&mut controller, Message::Pause("test", 0));
    assert_eq!(controller.paused_until, Some(at(1_000)));
    step(&mut controller, Event::Wake(at(1_000)));
    assert_eq!(controller.paused_until, None);
}

#[test]
fn a_pause_until_sunrise_needs_the_settings() {
    let mut controller = Controller::new();
    let message = Message::Pause("test", -1);
    let action = step(&mut controller, Event::Received(message, at(1_000)));
    assert!(matches!(action, Action::LoadSunriseConfig));
    assert_eq!(controller.paused_until, None);
    let action = step(&mut controller, Event::SunriseConfigLoaded(config(None), at(1_001)));
    assert!(matches!(action, Action::Repeat));
    assert_eq!(controller.paused_until, Some(at(44_201)));
}

#[test]
fn a_pause_until_sunrise_uses_the_calculator() {
    let now: i64 = 1_542_605_400;
    let sun = SunriseSunsetParameters::new(now, 51.0, 0.0).calculate().unwrap();
    assert!(sun.rise > now);
    let mut controller = Controller::new();
    step(&mut controller, Event::SunriseConfigLoaded(config(Some(51.0)), at(now)));
    assert_eq!(controller.paused_until, Some(at(sun.rise)));
}

#[test]
fn a_failed_calculation_aborts() {
    let mut controller = Controller::new();
    let action = step(&mut controller, Event::SunriseConfigLoaded(config(Some(100.0)), at(5)));
    assert!(matches!(action, Action::Abort(SunriseError::Calculation(_))));
    assert_eq!(controller.paused_until, None);
}

#[test]
fn the_outcome_of_the_calculation_starts_the_pause() {
    let mut controller = Controller::new();
    let action: Action<u8> = controller.pause_until_sunrise(Ok(at(77)));
    assert!(matches!(action, Action::Repeat));
    assert_eq!(controller.paused_until, Some(at(77)));
    let action: Action<u8> = controller.pause_until_sunrise(Err(SunriseError::BeforeEpoch));
    assert!(matches!(action, Action::Abort(SunriseError::BeforeEpoch)));
    assert_eq!(controller.paused_until, Some(at(77)));
}

#[test]
fn filled_monitors_are_handed_on() {
    let mut controller = Controller::new();
    receive(&mut controller, Message::FullscreenAdd("A".to_string()));
    receive(&mut controller, Message::FullscreenAdd("B".to_string()));
    receive(&mut controller, Message::FullscreenAdd("A".to_string()));
    receive(&mut controller, Message::FullscreenRemove("B".to_string()));
    receive(&mut controller, Message::FullscreenRemove("C".to_string()));
    match step(&mut controller, Event::ConfigLoaded(config(Some(51.0)))) {
        Action::Apply(request) => {
            let names = request.fullscreen_overrides.unwrap().names();
            assert_eq!(names, vec!["A".to_string()]);
        }
        other => panic!("{other:?}"),
    }
}

#[test]
fn refreshing_keeps_the_state() {
    let mut controller = Controller::new();
    receive(&mut controller, Message::Pause("test", 5));
    receive(&mut controller, Message::FullscreenAdd("A".to_string()));
    receive(&mut controller, Message::Refresh("test"));
    assert!(controller.enabled);
    assert_eq!(controller.paused_until, Some(at(1_005)));
    assert_eq!(controller.fullscreen_overrides.names(), vec!["A".to_string()]);
}

#[test]
fn locking_and_unlocking_switch_the_controller() {
    let data = WindowData {
        open_window_msg_code: 0xC000,
        has_main_loop: false,
        is_foreground_window_fullscreen: false,
    };
    let mut controller = Controller::new();
    for (wparam, enabled) in [(7, false), (8, true)] {
        match wndproc(&data, WM_WTSSESSION_CHANGE, wparam) {
            WindowAction::Send(message) => receive(&mut controller, message),
            _ => panic!("session changes are sent"),
        }
        assert_eq!(controller.enabled, enabled);
    }
}

#[test]
fn a_single_monitor_is_followed() {
    let mut data = WindowData {
        open_window_msg_code: 0xC000,
        has_main_loop: false,
        is_foreground_window_fullscreen: false,
    };
    let monitor = Rect { left: 0, top: 0, right: 800, bottom: 600 };
    let small = Rect { left: 10, top: 10, right: 20, bottom: 20 };
    let mut controller = Controller::new();
    for fullscreen in [false, true, true, false, false, true] {
        let window = if fullscreen { monitor } else { small };
        if let Some(message) = win_event_hook_proc(&mut data, &window, &monitor, &[68, 0]) {
            receive(&mut controller, message);
        }
        let expected = if fullscreen { vec!["D".to_string()] } else { vec![] };
        assert_eq!(controller.fullscreen_overrides.names(), expected);
    }
}

#[test]
fn times_out_of_range_are_not_admissible() {
    let end = Timestamp::from_nanos((1i128 << 63) * 1_000_000_000 - 1).unwrap();
    assert!(!is_admissible(&Event::<u8>::Received(Message::Pause("test", 1), end)));
    assert!(is_admissible(&Event::<u8>::Received(Message::Pause("test", 0), end)));
    assert!(is_admissible(&Event::<u8>::Received(Message::Pause("test", -1), end)));
    assert!(is_admissible(&Event::<u8>::Received(Message::Shutdown, end)));
    assert!(!is_admissible(&Event::<u8>::Applied(results(Some(-1)))));
    assert!(is_admissible(&Event::<u8>::Applied(results(Some(0)))));
    assert!(!is_admissible(&Event::SunriseConfigLoaded(config(None), end)));
    let before = Timestamp::from_nanos(-1).unwrap();
    assert!(!is_admissible(&Event::SunriseConfigLoaded(config(Some(51.0)), before)));
}
