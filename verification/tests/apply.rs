use solar_screen_brightness::apply::{
    apply, calculate_timeout, has_expiries_after_epoch, ApplyResults, BrightnessDetails,
    MonitorResult,
};
use solar_screen_brightness::config::SsbConfig;
use solar_screen_brightness::monitors::MonitorSet;
use solar_screen_brightness::sun::Location;
use solar_screen_brightness::time::Timestamp;
use sunrise_sunset_calculator::SunriseSunsetParameters;

fn monitor(expiry: Option<i64>) -> MonitorResult {
    MonitorResult { brightness: Some(BrightnessDetails { expiry_time: expiry }) }
}

fn skipped() -> MonitorResult {
    MonitorResult { brightness: None }
}

fn config(location: Option<Location>) -> SsbConfig<Vec<u8>> {
    SsbConfig {
        brightness_day: 100,
        brightness_night: 60,
        transition_mins: 40,
        location,
        overrides: vec![1, 2, 3],
    }
}

#[test]
fn the_earliest_expiry_is_the_timeout() {
    let monitors = vec![monitor(Some(300)), skipped(), monitor(None), monitor(Some(200)), monitor(Some(250))];
    let timeout = calculate_timeout(&Some(ApplyResults { monitors }));
    assert_eq!(timeout, Some(Timestamp::from_epoch_secs(200)));
    assert_eq!(timeout.unwrap().nanos(), 200_000_000_000);
}

#[test]
fn nothing_expires_without_results() {
    assert_eq!(calculate_timeout(&None), None);
    assert_eq!(calculate_timeout(&Some(ApplyResults { monitors: vec![] })), None);
    let monitors = vec![skipped(), monitor(None)];
    assert_eq!(calculate_timeout(&Some(ApplyResults { monitors })), None);
}

#[test]
fn the_epoch_is_a_timeout() {
    let results = Some(ApplyResults { monitors: vec![monitor(Some(0)), monitor(Some(i64::MAX))] });
    assert_eq!(calculate_timeout(&results), Some(Timestamp::from_epoch_secs(0)));
}

#[test]
fn expiries_before_the_epoch_are_found() {
    let monitors = vec![monitor(Some(5)), monitor(Some(-1))];
    assert!(!has_expiries_after_epoch(&ApplyResults { monitors }));
    let monitors = vec![monitor(Some(5)), skipped(), monitor(Some(0))];
    assert!(has_expiries_after_epoch(&ApplyResults { monitors }));
    assert!(has_expiries_after_epoch(&ApplyResults { monitors: vec![] }));
}

#[test]
fn settings_are_handed_on() {
    let location = Location { coordinates: SunriseSunsetParameters::new(0, 51.4545, -2.5879) };
    let mut fullscreen = MonitorSet::new();
    fullscreen.insert("DISPLAY1".to_string());
    let request = apply(config(Some(location)), true, fullscreen).unwrap();
    assert_eq!(request.brightness_day, 100);
    assert_eq!(request.brightness_night, 60);
    assert_eq!(request.transition_mins, 40);
    assert_eq!(request.location.coordinates.latitude, 51.4545);
    assert_eq!(request.location.coordinates.longitude, -2.5879);
    assert_eq!(request.overrides, vec![1, 2, 3]);
    assert!(request.force_day_brightness);
    assert_eq!(request.fullscreen_overrides.unwrap().names(), vec!["DISPLAY1".to_string()]);
}

#[test]
fn nothing_is_applied_without_a_location() {
    assert!(apply(config(None), false, MonitorSet::new()).is_none());
}
