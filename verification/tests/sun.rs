use solar_screen_brightness::config::SsbConfig;
use solar_screen_brightness::sun::{
    choose_sunrise, compute_next_sunrise, is_sunrise_in_reach, settle_sunrise, Location,
    SunriseChoice, SunriseError,
};
use solar_screen_brightness::time::Timestamp;
use sunrise_sunset_calculator::spa::SpaError;
use sunrise_sunset_calculator::SunriseSunsetParameters;

// The 19th of November 2018 in Bristol: 05:30, noon, and the two sunrises that follow.
const EARLY: i64 = 1_542_605_400;
const MIDDAY: i64 = 1_542_628_800;
const RISE_19: i64 = 1_542_612_900;
const RISE_20: i64 = 1_542_699_360;

const BRISTOL: (f64, f64) = (51.4545, -2.5879);

fn config(place: Option<(f64, f64)>) -> SsbConfig<()> {
    SsbConfig {
        brightness_day: 100,
        brightness_night: 60,
        transition_mins: 40,
        location: place.map(|(latitude, longitude)| Location {
            coordinates: SunriseSunsetParameters::new(0, latitude, longitude),
        }),
        overrides: (),
    }
}

fn calculated(time: i64) -> i64 {
    SunriseSunsetParameters::new(time, BRISTOL.0, BRISTOL.1).calculate().unwrap().rise
}

fn end_of_pause(place: (f64, f64), now: i64) -> Result<Timestamp, SunriseError> {
    compute_next_sunrise(config(Some(place)), Timestamp::from_epoch_secs(now))
}

#[test]
fn a_sunrise_to_come_is_taken() {
    let end = end_of_pause(BRISTOL, EARLY).unwrap();
    assert_eq!(end, Timestamp::from_epoch_secs(calculated(EARLY)));
    assert!((end.epoch_secs() - RISE_19).abs() <= 60);
}

#[test]
fn a_sunrise_in_the_past_leads_to_the_next_day() {
    assert!(calculated(MIDDAY) <= MIDDAY);
    let end = end_of_pause(BRISTOL, MIDDAY).unwrap();
    assert_eq!(end, Timestamp::from_epoch_secs(calculated(MIDDAY + 86_400)));
    assert!((end.epoch_secs() - RISE_20).abs() <= 60);
}

#[test]
fn fractions_of_a_second_do_not_count() {
    let now = Timestamp::from_nanos(EARLY as i128 * 1_000_000_000 + 999_999_999).unwrap();
    let end = compute_next_sunrise(config(Some(BRISTOL)), now).unwrap();
    assert_eq!(end, Timestamp::from_epoch_secs(calculated(EARLY)));
}

#[test]
fn twelve_hours_without_a_location() {
    let now = Timestamp::from_nanos(5_000_000_007).unwrap();
    let end = compute_next_sunrise(config(None), now).unwrap();
    assert_eq!(end.nanos(), 43_205_000_000_007);
}

#[test]
fn impossible_places_are_reported() {
    let north = end_of_pause((91.0, 0.0), EARLY);
    assert!(matches!(north, Err(SunriseError::Calculation(SpaError::InvalidLatitude))));
    let east = end_of_pause((0.0, 181.0), EARLY);
    assert!(matches!(east, Err(SunriseError::Calculation(SpaError::InvalidLongitude))));
}

#[test]
fn times_beyond_the_calculator_are_reported() {
    let end = end_of_pause(BRISTOL, 127_206_115_200);
    assert!(matches!(end, Err(SunriseError::Calculation(SpaError::UnsupportedDate))));
    let params = SunriseSunsetParameters::new(127_206_115_200, 0.0, 0.0);
    assert!(params.calculate().is_err());
    let params = SunriseSunsetParameters::new(-125_281_036_801, 0.0, 0.0);
    assert!(params.calculate().is_err());
}

#[test]
fn polar_day_at_the_epoch_has_no_sunrise() {
    let end = end_of_pause((-80.0, 0.0), 0);
    assert!(matches!(end, Err(SunriseError::BeforeEpoch)));
}

#[test]
fn sunrises_are_chosen_by_the_clock() {
    assert_eq!(choose_sunrise(100, 101), SunriseChoice::At(101));
    assert_eq!(choose_sunrise(100, 100), SunriseChoice::AskAgain(86_500));
    assert_eq!(choose_sunrise(100, -7), SunriseChoice::AskAgain(86_500));
}

#[test]
fn answers_are_settled() {
    assert_eq!(settle_sunrise(Ok(7)).unwrap().nanos(), 7_000_000_000);
    assert_eq!(settle_sunrise(Ok(0)).unwrap().nanos(), 0);
    assert!(matches!(settle_sunrise(Ok(-1)), Err(SunriseError::BeforeEpoch)));
    let failed = settle_sunrise(Err(SpaError::UnsupportedDate));
    assert!(matches!(failed, Err(SunriseError::Calculation(SpaError::UnsupportedDate))));
}

#[test]
fn the_clock_limits_the_search() {
    let before = Timestamp::from_nanos(-1).unwrap();
    let end = Timestamp::from_nanos((1i128 << 63) * 1_000_000_000 - 1).unwrap();
    assert!(!is_sunrise_in_reach(&config(Some(BRISTOL)), &before));
    assert!(is_sunrise_in_reach(&config(Some(BRISTOL)), &end));
    assert!(is_sunrise_in_reach(&config(None), &before));
    assert!(!is_sunrise_in_reach(&config(None), &end));
}
