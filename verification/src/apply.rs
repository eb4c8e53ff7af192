//! What is handed to the monitors, and when it has to be handed over again.
use crate::config::SsbConfig;
use crate::monitors::MonitorSet;
use crate::sun::Location;
use crate::time::{instant, Timestamp};
use vstd::prelude::*;

verus! {

/// The brightness that a monitor was given.
#[derive(Clone, Copy, Debug)]
pub struct BrightnessDetails {
    /// The Unix time at which another brightness is due, if one ever is.
    pub expiry_time: Option<i64>,
}

/// What became of one monitor.
#[derive(Clone, Copy, Debug)]
pub struct MonitorResult {
    /// The brightness it was given, unless it was left alone.
    pub brightness: Option<BrightnessDetails>,
}

/// What became of the monitors.
#[derive(Clone, Debug)]
pub struct ApplyResults {
    /// One entry for each monitor.
    pub monitors: Vec<MonitorResult>,
}

/// Everything the monitors need to be given their brightness.
#[derive(Debug)]
pub struct ApplyRequest<O> {
    pub brightness_day: u32,
    pub brightness_night: u32,
    pub transition_mins: u32,
    pub location: Location,
    pub overrides: O,
    /// Show the day brightness at any time of day.
    pub force_day_brightness: bool,
    /// The monitors that a window fills.
    pub fullscreen_overrides: Option<MonitorSet>,
}

/// When a monitor is due for another brightness.
pub open spec fn expiry_of(monitor: MonitorResult) -> Option<i64> {
    match monitor.brightness {
        Some(brightness) => brightness.expiry_time,
        None => None,
    }
}

/// Whether some monitor is due for another brightness at that Unix time.
pub open spec fn expires_at(monitors: Seq<MonitorResult>, time: i64) -> bool {
    exists|i: int| 0 <= i < monitors.len() && expiry_of(#[trigger] monitors[i]) == Some(time)
}

/// Whether that Unix time is the earliest at which a monitor is due for another brightness.
pub open spec fn earliest_expiry(monitors: Seq<MonitorResult>, time: i64) -> bool {
    &&& expires_at(monitors, time)
    &&& forall|other: i64| #[trigger] expires_at(monitors, other) ==> time <= other
}

/// Whether no monitor is due before the Unix epoch.
pub open spec fn expiries_after_epoch(results: Option<ApplyResults>) -> bool {
    results matches Some(results) ==> none_expires_before_epoch(results.monitors@)
}

/// Whether no monitor in the list is due before the Unix epoch.
pub open spec fn none_expires_before_epoch(monitors: Seq<MonitorResult>) -> bool {
    forall|time: i64| #[trigger] expires_at(monitors, time) ==> time >= 0
}

/// Whether no monitor is ever due for another brightness.
pub open spec fn none_expires(monitors: Seq<MonitorResult>) -> bool {
    forall|time: i64| !#[trigger] expires_at(monitors, time)
}

/// Whether `timeout` is when the brightness has to be applied again after `results`: at the
/// earliest expiry, or never where nothing expires.
pub open spec fn due_at(results: Option<ApplyResults>, timeout: Option<int>) -> bool {
    match (results, timeout) {
        (Some(results), Some(nanos)) => exists|time: i64|
            #[trigger] earliest_expiry(results.monitors@, time) && nanos == time * 1_000_000_000,
        (Some(results), None) => none_expires(results.monitors@),
        (None, Some(_)) => false,
        (None, None) => true,
    }
}

/// Looks for the earliest time at which a monitor is due for another brightness.
fn first_expiry(monitors: &Vec<MonitorResult>) -> (first: Option<i64>)
    ensures
        match first {
            Some(time) => earliest_expiry(monitors@, time),
            None => none_expires(monitors@),
        },
{
    let mut first: Option<i64> = None;
    let mut i: usize = 0;
    while i < monitors.len()
        invariant
            i <= monitors@.len(),
            match first {
                Some(time) => expires_at(monitors@, time),
                None => true,
            },
            forall|j: int|
                0 <= j < i ==> (expiry_of(#[trigger] monitors@[j]) matches Some(time) ==> (
                first matches Some(earliest) && earliest <= time)),
        decreases monitors@.len() - i,
    {
        if let Some(brightness) = &monitors[i].brightness {
            if let Some(time) = brightness.expiry_time {
                assert(expiry_of(monitors@[i as int]) == Some(time));
                first = match first {
                    Some(earliest) => if earliest <= time {
                        Some(earliest)
                    } else {
                        Some(time)
                    },
                    None => Some(time),
                };
            }
        }
        i += 1;
    }
    first
}

/// Whether no monitor is due before the Unix epoch, where no point in time can be named.
pub fn has_expiries_after_epoch(results: &ApplyResults) -> (after: bool)
    ensures
        after == expiries_after_epoch(Some(*results)),
{
    match first_expiry(&results.monitors) {
        Some(time) => {
            assert(expires_at(results.monitors@, time));
            time >= 0
        },
        None => true,
    }
}

/// The time at which the brightness should be applied again.
pub fn calculate_timeout(results: &Option<ApplyResults>) -> (timeout: Option<Timestamp>)
    requires
        expiries_after_epoch(*results),
    ensures
        due_at(*results, instant(timeout)),
{
    match results {
        Some(results) => match first_expiry(&results.monitors) {
            Some(time) => {
                assert(expires_at(results.monitors@, time));
                let timeout = Timestamp::from_epoch_secs(time);
                assert(earliest_expiry(results.monitors@, time) && timeout@ == time * 1_000_000_000);
                Some(timeout)
            },
            None => None,
        },
        None => None,
    }
}

/// Puts together what the monitors need, which is nothing as long as the user has not said
/// where they are.
pub fn apply<O>(
    config: SsbConfig<O>,
    force_day_brightness: bool,
    fullscreen_overrides: MonitorSet,
) -> (request: Option<ApplyRequest<O>>)
    ensures
        request is Some <==> config.location is Some,
        request matches Some(request) ==> request.asks_for(
            config,
            force_day_brightness,
            fullscreen_overrides@,
        ),
{
    match config.location {
        Some(location) => Some(
            ApplyRequest {
                brightness_day: config.brightness_day,
                brightness_night: config.brightness_night,
                transition_mins: config.transition_mins,
                location,
                overrides: config.overrides,
                force_day_brightness,
                fullscreen_overrides: Some(fullscreen_overrides),
            },
        ),
        None => None,
    }
}

impl<O> ApplyRequest<O> {
    /// Whether the request carries the settings in `config` unchanged, together with the two
    /// other arguments.
    pub open spec fn asks_for(
        self,
        config: SsbConfig<O>,
        force_day_brightness: bool,
        fullscreen: Set<Seq<char>>,
    ) -> bool {
        &&& self.brightness_day == config.brightness_day
        &&& self.brightness_night == config.brightness_night
        &&& self.transition_mins == config.transition_mins
        &&& Some(self.location) == config.location
        &&& self.overrides == config.overrides
        &&& self.force_day_brightness == force_day_brightness
        &&& self.fullscreen_overrides matches Some(set) && set@ == fullscreen
    }
}

/// Waiting until the timeout never misses an expiry: no monitor is due earlier.
pub proof fn timeout_misses_no_expiry(results: ApplyResults, timeout: Option<int>, time: i64)
    requires
        due_at(Some(results), timeout),
        expires_at(results.monitors@, time),
    ensures
        timeout matches Some(nanos) && nanos <= time * 1_000_000_000,
{
}

/// The time of the next application is determined by the results alone.
pub proof fn timeout_is_unique(results: Option<ApplyResults>, one: Option<int>, other: Option<int>)
    requires
        due_at(results, one),
        due_at(results, other),
    ensures
        one == other,
{
}

/// The timeout is attained and misses nothing: it is the expiry of some monitor, and no monitor
/// expires before it.
pub proof fn timeout_is_the_expiry_of_a_monitor(results: ApplyResults, nanos: int)
    requires
        due_at(Some(results), Some(nanos)),
    ensures
        exists|i: int|
            {
                &&& 0 <= i < results.monitors@.len()
                &&& (#[trigger] results.monitors@[i]).brightness matches Some(brightness)
                &&& brightness.expiry_time matches Some(time)
                &&& nanos == time * 1_000_000_000
            },
        forall|j: int|
            0 <= j < results.monitors@.len() ==> ((
            #[trigger] results.monitors@[j]).brightness matches Some(brightness) ==> (
            brightness.expiry_time matches Some(time) ==> nanos <= time * 1_000_000_000)),
{
    let first = choose|time: i64|
        #[trigger] earliest_expiry(results.monitors@, time) && nanos == time * 1_000_000_000;
    let i = choose|i: int|
        0 <= i < results.monitors@.len() && expiry_of(#[trigger] results.monitors@[i]) == Some(
            first,
        );
    assert(results.monitors@[i].brightness matches Some(brightness) && brightness.expiry_time
        == Some(first));
    assert forall|j: int| 0 <= j < results.monitors@.len() implies ((
    #[trigger] results.monitors@[j]).brightness matches Some(brightness) ==> (
    brightness.expiry_time matches Some(time) ==> nanos <= time * 1_000_000_000)) by {
        if let Some(time) = expiry_of(results.monitors@[j]) {
            assert(expires_at(results.monitors@, time));
        }
    }
}

/// There is no timeout exactly when no monitor was given a brightness that expires.
pub proof fn no_timeout_without_an_expiry(results: ApplyResults)
    ensures
        due_at(Some(results), None) <==> forall|i: int|
            0 <= i < results.monitors@.len() ==> ((
            #[trigger] results.monitors@[i]).brightness matches Some(brightness)
                ==> brightness.expiry_time is None),
{
    if due_at(Some(results), None) {
        assert forall|i: int| 0 <= i < results.monitors@.len() implies ((
        #[trigger] results.monitors@[i]).brightness matches Some(brightness)
            ==> brightness.expiry_time is None) by {
            if let Some(time) = expiry_of(results.monitors@[i]) {
                assert(expires_at(results.monitors@, time));
            }
        }
    }
}

/// Without results there is no timeout.
pub proof fn no_timeout_without_results(timeout: Option<int>)
    ensures
        due_at(None, timeout) <==> timeout is None,
{
}

/// A timeout is refused only where some monitor has an expiry before the Unix epoch.
pub proof fn only_expiries_before_the_epoch_are_refused(results: ApplyResults)
    ensures
        expiries_after_epoch(Some(results)) <==> forall|i: int|
            0 <= i < results.monitors@.len() ==> ((
            #[trigger] results.monitors@[i]).brightness matches Some(brightness) ==> (
            brightness.expiry_time matches Some(time) ==> time >= 0)),
        expiries_after_epoch(None),
{
    if expiries_after_epoch(Some(results)) {
        assert forall|i: int| 0 <= i < results.monitors@.len() implies ((
        #[trigger] results.monitors@[i]).brightness matches Some(brightness) ==> (
        brightness.expiry_time matches Some(time) ==> time >= 0)) by {
            if let Some(time) = expiry_of(results.monitors@[i]) {
                assert(expires_at(results.monitors@, time));
            }
        }
    }
}

/// A request carries each setting as it is, whether or not the day brightness is forced, and with
/// them the pause flag and the monitors that a window fills.
pub proof fn a_request_carries_each_setting<O>(
    request: ApplyRequest<O>,
    config: SsbConfig<O>,
    force_day_brightness: bool,
    fullscreen: Set<Seq<char>>,
)
    requires
        request.asks_for(config, force_day_brightness, fullscreen),
    ensures
        request.brightness_day == config.brightness_day,
        request.brightness_night == config.brightness_night,
        request.transition_mins == config.transition_mins,
        config.location == Some(request.location),
        request.overrides == config.overrides,
        request.force_day_brightness == force_day_brightness,
        request.fullscreen_overrides is Some,
        request.fullscreen_overrides->0@ == fullscreen,
{
}

} // verus!
