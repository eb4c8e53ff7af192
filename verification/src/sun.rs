//! Until when a pause lasts that ends at the next sunrise.
use crate::config::SsbConfig;
use crate::time::{representable, Timestamp};
use sunrise_sunset_calculator::spa::SpaError;
use sunrise_sunset_calculator::SunriseSunsetParameters;
use vstd::prelude::*;

verus! {

/// `SunriseSunsetParameters` of the sun calculator: a time and a place on Earth. Nothing here
/// looks into it.
#[verifier::external_type_specification]
#[verifier::external_body]
pub struct ExSunriseSunsetParameters(SunriseSunsetParameters);

/// `SpaError` of the sun calculator: why it could not tell the position of the sun.
#[verifier::external_type_specification]
#[verifier::external_body]
pub struct ExSpaError(SpaError);

/// A place on Earth.
#[derive(Clone, Copy, Debug)]
pub struct Location {
    /// The place in the terms of the sun calculator. Only its latitude and its longitude count.
    pub coordinates: SunriseSunsetParameters,
}

/// Seconds in a day.
pub const SECS_PER_DAY: i64 = 86_400;

/// Seconds until the next sunrise where nobody knows better.
pub const ASSUMED_SECS_TO_SUNRISE: u64 = 43_200;

/// The first Unix time that the sun calculator supports, about the year -2000.
pub const FIRST_SUPPORTED_TIME: i64 = -125_281_036_800;

/// The last Unix time that the sun calculator supports, about the year 6000.
pub const LAST_SUPPORTED_TIME: i64 = 127_206_115_199;

/// Why there is no next sunrise.
#[derive(Debug)]
pub enum SunriseError {
    /// The sun calculator failed.
    Calculation(SpaError),
    /// The sun last rose before the Unix epoch and does not rise again within a day.
    BeforeEpoch,
}

/// Whether the sun calculator may give that answer for a sunrise at that place around that Unix
/// time. It works with floating point functions whose last digits differ between machines, so
/// more than one answer may be possible.
pub uninterp spec fn may_rise(place: SunriseSunsetParameters, time: i64, rise: Result<i64, SpaError>) -> bool;

/// `SunriseSunsetParameters::new` and `SunriseSunsetParameters::calculate` of the sun calculator,
/// at the latitude and the longitude of `place`: the sunrise next to `time`, the last one while
/// the sun is up and the coming one while it is down. The answer is one that the calculator may
/// give for this place and time; if it is a time at all, both that time and the one asked for
/// are within the years that the calculator supports. How the answer follows from the place is
/// not said.
#[verifier::external_body]
fn calculate_rise(place: &SunriseSunsetParameters, time: i64) -> (rise: Result<i64, SpaError>)
    ensures
        may_rise(*place, time, rise),
        rise is Ok ==> FIRST_SUPPORTED_TIME <= time <= LAST_SUPPORTED_TIME,
        rise matches Ok(rise) ==> FIRST_SUPPORTED_TIME <= rise <= LAST_SUPPORTED_TIME,
{
    match SunriseSunsetParameters::new(time, place.latitude, place.longitude).calculate() {
        Ok(sun) => Ok(sun.rise),
        Err(error) => Err(error),
    }
}

/// What a calculated sunrise leads to.
#[derive(Clone, Copy, Debug, PartialEq, Eq, Structural)]
pub enum SunriseChoice {
    /// It is still to come, at this Unix time.
    At(i64),
    /// It has passed. Calculate again around this Unix time.
    AskAgain(i64),
}

/// Takes a sunrise that is still to come, and asks for that of the next day otherwise.
pub fn choose_sunrise(now: i64, rise: i64) -> (choice: SunriseChoice)
    requires
        now + SECS_PER_DAY <= i64::MAX,
    ensures
        rise > now ==> choice == SunriseChoice::At(rise),
        rise <= now ==> choice == SunriseChoice::AskAgain((now + 86_400) as i64),
{
    if rise <= now {
        SunriseChoice::AskAgain(now + SECS_PER_DAY)
    } else {
        SunriseChoice::At(rise)
    }
}

/// What an answer about the sunrise of the next day means for the end of the pause.
pub open spec fn settled(rise: Result<i64, SpaError>, end: Result<Timestamp, SunriseError>) -> bool {
    match rise {
        Ok(rise) => if rise >= 0 {
            end matches Ok(end) && end@ == rise * 1_000_000_000
        } else {
            end == Err::<Timestamp, SunriseError>(SunriseError::BeforeEpoch)
        },
        Err(error) => end == Err::<Timestamp, SunriseError>(SunriseError::Calculation(error)),
    }
}

/// Turns an answer of the calculator into the end of the pause.
pub fn settle_sunrise(rise: Result<i64, SpaError>) -> (end: Result<Timestamp, SunriseError>)
    ensures
        settled(rise, end),
{
    match rise {
        Ok(rise) => if rise >= 0 {
            Ok(Timestamp::from_epoch_secs(rise))
        } else {
            Err(SunriseError::BeforeEpoch)
        },
        Err(error) => Err(SunriseError::Calculation(error)),
    }
}

/// Whether `end` may be the next sunrise at a place as seen at the Unix time `now`: the sunrise
/// that the calculator gives, or where that has passed the one it gives a day later.
pub open spec fn may_end_at_sunrise(
    place: SunriseSunsetParameters,
    now: i64,
    end: Result<Timestamp, SunriseError>,
) -> bool {
    exists|rise: Result<i64, SpaError>|
        {
            &&& #[trigger] may_rise(place, now, rise)
            &&& if has_passed(rise, now) {
                exists|again: Result<i64, SpaError>|
                    {
                        &&& #[trigger] may_rise(place, (now + 86_400) as i64, again)
                        &&& settled(again, end)
                    }
            } else {
                settled(rise, end)
            }
        }
}

/// Whether a calculated sunrise is not after the Unix time `now`.
pub open spec fn has_passed(rise: Result<i64, SpaError>, now: i64) -> bool {
    rise matches Ok(time) && time <= now
}

/// Whether `end` may be the next sunrise for a user with these settings at that time, in
/// nanoseconds since the Unix epoch. Without a location it is taken to be in 12 hours.
pub open spec fn may_be_next_sunrise<O>(
    config: SsbConfig<O>,
    now: int,
    end: Result<Timestamp, SunriseError>,
) -> bool {
    match config.location {
        Some(location) => may_end_at_sunrise(
            location.coordinates,
            (now / 1_000_000_000) as i64,
            end,
        ),
        None => end matches Ok(end) && end@ == now + 43_200 * 1_000_000_000,
    }
}

/// Whether the next sunrise can be looked for at that time: with a location, if the clock does
/// not stand before the Unix epoch; without one, if 12 hours are left of the range of the clock.
pub open spec fn can_look_for_sunrise<O>(config: SsbConfig<O>, now: int) -> bool {
    match config.location {
        Some(_) => now >= 0,
        None => representable(now + 43_200 * 1_000_000_000),
    }
}

/// Tests whether the next sunrise can be looked for at that time.
pub fn is_sunrise_in_reach<O>(config: &SsbConfig<O>, now: &Timestamp) -> (within: bool)
    ensures
        within == can_look_for_sunrise(*config, now@),
{
    match config.location {
        Some(_) => now.nanos() >= 0,
        None => now.checked_add_secs(ASSUMED_SECS_TO_SUNRISE).is_some(),
    }
}

/// Calculates the next sunrise.
pub fn compute_next_sunrise<O>(config: SsbConfig<O>, now: Timestamp) -> (end: Result<
    Timestamp,
    SunriseError,
>)
    requires
        can_look_for_sunrise(config, now@),
    ensures
        may_be_next_sunrise(config, now@, end),
{
    match config.location {
        Some(location) => {
            let now: i64 = now.epoch_secs();
            let rise = calculate_rise(&location.coordinates, now);
            if let Ok(time) = rise {
                // If the calculated sunrise is in the past, calculate tomorrow's sunrise.
                if let SunriseChoice::AskAgain(tomorrow) = choose_sunrise(now, time) {
                    return settle_sunrise(calculate_rise(&location.coordinates, tomorrow));
                }
            }
            settle_sunrise(rise)
        },
        None => Ok(now.add_secs(ASSUMED_SECS_TO_SUNRISE)),
    }
}

/// An answer of the calculator that is a time from the Unix epoch on is the end of the pause, to
/// the second. An earlier one is refused as such, and a failure is handed on as it is.
pub proof fn answers_are_handed_on(
    rise: Result<i64, SpaError>,
    end: Result<Timestamp, SunriseError>,
)
    requires
        settled(rise, end),
    ensures
        end is Ok <==> (rise is Ok && rise->Ok_0 >= 0),
        end is Ok ==> end->Ok_0@ == rise->Ok_0 * 1_000_000_000,
        rise is Ok && rise->Ok_0 < 0 ==> end->Err_0 is BeforeEpoch,
        rise is Err ==> end->Err_0 is Calculation && end->Err_0->Calculation_0 == rise->Err_0,
{
}

/// With a location, a pause asked for at a time ends at a sunrise that the calculator gives for
/// that very second and that is still to come, or else, where one that it gives has passed, at
/// the one that it gives for the same time on the next day.
pub proof fn the_sunrise_asked_for_is_the_next_from_now<O>(
    config: SsbConfig<O>,
    now: int,
    secs: i64,
    tomorrow: i64,
    end: Timestamp,
)
    requires
        config.location is Some,
        secs == now / 1_000_000_000,
        tomorrow == secs + 24 * 60 * 60,
        may_be_next_sunrise(config, now, Ok::<Timestamp, SunriseError>(end)),
    ensures
        ({
            let place = config.location->0.coordinates;
            ||| exists|rise: i64|
                {
                    &&& #[trigger] may_rise(place, secs, Ok(rise))
                    &&& rise > secs
                    &&& end@ == rise * 1_000_000_000
                }
            ||| exists|passed: i64, rise: i64|
                {
                    &&& #[trigger] may_rise(place, secs, Ok(passed))
                    &&& passed <= secs
                    &&& #[trigger] may_rise(place, tomorrow, Ok(rise))
                    &&& end@ == rise * 1_000_000_000
                }
        }),
        end@ >= 0,
{
    let place = config.location->0.coordinates;
    let outcome = Ok::<Timestamp, SunriseError>(end);
    let rise = choose|rise: Result<i64, SpaError>|
        {
            &&& #[trigger] may_rise(place, secs, rise)
            &&& if has_passed(rise, secs) {
                exists|again: Result<i64, SpaError>|
                    {
                        &&& #[trigger] may_rise(place, (secs + 86_400) as i64, again)
                        &&& settled(again, outcome)
                    }
            } else {
                settled(rise, outcome)
            }
        };
    assert(may_rise(place, secs, Ok(rise->Ok_0)));
    if has_passed(rise, secs) {
        let again = choose|again: Result<i64, SpaError>|
            {
                &&& #[trigger] may_rise(place, (secs + 86_400) as i64, again)
                &&& settled(again, outcome)
            };
        assert(may_rise(place, tomorrow, Ok(again->Ok_0)));
    }
}

/// With a location, there is no next sunrise only because the calculator failed, at the second
/// asked for or, after a sunrise that has passed, a day later; or because the sunrise that counts
/// lies before the Unix epoch.
pub proof fn a_missing_sunrise_has_a_reason<O>(
    config: SsbConfig<O>,
    now: int,
    secs: i64,
    tomorrow: i64,
    error: SunriseError,
)
    requires
        config.location is Some,
        0 <= now,
        secs == now / 1_000_000_000,
        tomorrow == secs + 24 * 60 * 60,
        may_be_next_sunrise(config, now, Err::<Timestamp, SunriseError>(error)),
    ensures
        ({
            let place = config.location->0.coordinates;
            match error {
                SunriseError::Calculation(failure) => {
                    ||| may_rise(place, secs, Err(failure))
                    ||| (exists|passed: i64|
                        #[trigger] may_rise(place, secs, Ok(passed)) && passed <= secs)
                        && may_rise(place, tomorrow, Err(failure))
                },
                SunriseError::BeforeEpoch => exists|passed: i64, rise: i64|
                    {
                        &&& #[trigger] may_rise(place, secs, Ok(passed))
                        &&& passed <= secs
                        &&& #[trigger] may_rise(place, tomorrow, Ok(rise))
                        &&& rise < 0
                    },
            }
        }),
{
    let place = config.location->0.coordinates;
    let outcome = Err::<Timestamp, SunriseError>(error);
    let rise = choose|rise: Result<i64, SpaError>|
        {
            &&& #[trigger] may_rise(place, secs, rise)
            &&& if has_passed(rise, secs) {
                exists|again: Result<i64, SpaError>|
                    {
                        &&& #[trigger] may_rise(place, (secs + 86_400) as i64, again)
                        &&& settled(again, outcome)
                    }
            } else {
                settled(rise, outcome)
            }
        };
    if has_passed(rise, secs) {
        let again = choose|again: Result<i64, SpaError>|
            {
                &&& #[trigger] may_rise(place, (secs + 86_400) as i64, again)
                &&& settled(again, outcome)
            };
        assert(may_rise(place, secs, Ok(rise->Ok_0)));
        if again is Ok {
            assert(may_rise(place, tomorrow, Ok(again->Ok_0)));
        } else {
            assert(may_rise(place, tomorrow, Err(again->Err_0)));
        }
    } else if rise is Err {
        assert(may_rise(place, secs, Err(rise->Err_0)));
    }
}

/// Without a location the sun is taken to rise 12 hours after the time asked for, always.
pub proof fn without_a_location_the_sun_rises_in_twelve_hours<O>(
    config: SsbConfig<O>,
    now: int,
    end: Result<Timestamp, SunriseError>,
)
    requires
        config.location is None,
    ensures
        may_be_next_sunrise(config, now, end) <==> (end is Ok && end->Ok_0@ - now == 12 * 60 * 60
            * 1_000_000_000),
{
}

/// The next sunrise can always be looked for from the Unix epoch on, except without a location
/// within 12 hours of the end of the clock.
pub proof fn the_sunrise_can_be_looked_for<O>(config: SsbConfig<O>, now: int)
    ensures
        config.location is Some ==> (can_look_for_sunrise(config, now) <==> now >= 0),
        config.location is None ==> (can_look_for_sunrise(config, now) <==> i64::MIN <= (now + 12
            * 60 * 60 * 1_000_000_000) / 1_000_000_000 <= i64::MAX),
{
}

} // verus!
