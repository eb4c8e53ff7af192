//! What holds of the controller and the watcher over any number of events.
use crate::apply::{
    no_timeout_without_an_expiry, only_expiries_before_the_epoch_are_refused,
    timeout_is_the_expiry_of_a_monitor, ApplyRequest, ApplyResults,
};
use crate::config::SsbConfig;
use crate::controller::{
    admissible, enabled_after, fullscreen_after, initial, pause_step, received, step, unexpired,
    Action, Controller, ControllerView, Event,
};
use crate::event_watcher::{
    fullscreen_change, window_action, WindowActionView, WindowData, WM_WTSSESSION_CHANGE,
    WTS_SESSION_LOCK, WTS_SESSION_UNLOCK,
};
use crate::message::{Message, MessageView};
use crate::sun::{
    has_passed, may_be_next_sunrise, may_end_at_sunrise, may_rise, settled,
    the_sunrise_asked_for_is_the_next_from_now, without_a_location_the_sun_rises_in_twelve_hours,
    SunriseError,
};
use crate::time::Timestamp;
use sunrise_sunset_calculator::spa::SpaError;
use sunrise_sunset_calculator::SunriseSunsetParameters;
use vstd::prelude::*;

verus! {

/// Whether `event` can be the outcome of carrying out `action`.
pub open spec fn answers<O>(action: Action<O>, event: Event<O>) -> bool {
    match action {
        Action::LoadConfig => event is ConfigLoaded,
        Action::Apply(_) => event is Applied,
        Action::Publish { timeout, .. } => event is Received || (timeout is Some
            && event is TimedOut),
        Action::Sleep => event is Received,
        Action::LoadSunriseConfig => event is SunriseConfigLoaded,
        Action::Repeat => event is Wake,
        Action::Stop | Action::Abort(_) => false,
    }
}

/// What a controller has been through: the state before each event and after the last, the
/// events, and the answers to them.
pub ghost struct History<O> {
    pub states: Seq<ControllerView>,
    pub events: Seq<Event<O>>,
    pub actions: Seq<Action<O>>,
}

impl<O> History<O> {
    /// Whether a controller that was started and served as it asks can have been through this.
    pub open spec fn valid(self) -> bool {
        &&& self.states.len() == self.events.len() + 1
        &&& self.actions.len() == self.events.len()
        &&& self.states[0] == initial()
        &&& self.events.len() > 0 ==> self.events[0] is Wake
        &&& forall|i: int|
            0 <= i < self.events.len() ==> #[trigger] self.steps_at(i)
        &&& forall|i: int| 1 <= i < self.events.len() ==> #[trigger] self.answered_at(i)
    }

    /// Whether the controller went on at the `i`-th event as it does.
    pub open spec fn steps_at(self, i: int) -> bool {
        step(self.states[i], self.events[i], self.states[i + 1], self.actions[i])
    }

    /// Whether the `i`-th event is the outcome of the action before it.
    pub open spec fn answered_at(self, i: int) -> bool {
        answers(self.actions[i - 1], self.events[i])
    }

    /// The history without its last event.
    pub open spec fn before_last(self) -> History<O> {
        History {
            states: self.states.drop_last(),
            events: self.events.drop_last(),
            actions: self.actions.drop_last(),
        }
    }
}

/// The messages among the events, in order.
pub open spec fn messages<O>(events: Seq<Event<O>>) -> Seq<MessageView>
    decreases events.len(),
{
    if events.len() == 0 {
        Seq::empty()
    } else {
        match events.last() {
            Event::Received(message, _) => messages(events.drop_last()).push(message@),
            _ => messages(events.drop_last()),
        }
    }
}

/// Whether the controller is enabled after these messages.
pub open spec fn enabled_after_all(enabled: bool, messages: Seq<MessageView>) -> bool
    decreases messages.len(),
{
    if messages.len() == 0 {
        enabled
    } else {
        enabled_after(enabled_after_all(enabled, messages.drop_last()), messages.last())
    }
}

/// The monitors that a window fills after these messages.
pub open spec fn fullscreen_after_all(
    fullscreen: Set<Seq<char>>,
    messages: Seq<MessageView>,
) -> Set<Seq<char>>
    decreases messages.len(),
{
    if messages.len() == 0 {
        fullscreen
    } else {
        fullscreen_after(fullscreen_after_all(fullscreen, messages.drop_last()), messages.last())
    }
}

/// Whether a message switches the controller on or off.
pub open spec fn is_switch(message: MessageView) -> bool {
    message is Enable || message is Disable
}

/// Whether a message is about a window that fills, or no longer fills, this monitor.
pub open spec fn is_about(message: MessageView, monitor: Seq<char>) -> bool {
    message == MessageView::FullscreenAdd(monitor) || message == MessageView::FullscreenRemove(
        monitor,
    )
}

/// The settings are only read, and the monitors are only touched, while the controller is
/// enabled.
pub proof fn only_an_enabled_controller_touches_monitors<O>(history: History<O>, i: int)
    requires
        history.valid(),
        0 <= i < history.actions.len(),
        history.actions[i] is LoadConfig || history.actions[i] is Apply,
    ensures
        history.states[i].enabled,
{
    assert(history.steps_at(i));
    if history.actions[i] is Apply {
        assert(history.answered_at(i));
        assert(history.steps_at(i - 1));
    }
}

/// The monitors are told to show the day brightness exactly while the controller is paused: if
/// the pause had not run out when the cycle started.
pub proof fn day_brightness_is_forced_exactly_while_paused<O>(history: History<O>, i: int)
    requires
        history.valid(),
        0 <= i < history.actions.len(),
        history.actions[i] is Apply,
    ensures
        i >= 1,
        history.events[i - 1] matches Event::Wake(now) && (
        history.actions[i]->Apply_0.force_day_brightness <==> (
        history.states[i - 1].paused_until matches Some(end) && now@ < end)),
{
    assert(history.steps_at(i));
    assert(history.answered_at(i));
    assert(history.steps_at(i - 1));
}

/// The monitors are always told which of them a window fills, and from the settings as they
/// were read last.
pub proof fn monitors_get_the_settings_just_read<O>(history: History<O>, i: int)
    requires
        history.valid(),
        0 <= i < history.actions.len(),
        history.actions[i] is Apply,
    ensures
        history.events[i] matches Event::ConfigLoaded(config)
            && history.actions[i]->Apply_0.asks_for(
            config,
            history.states[i].paused_until is Some,
            fullscreen_after_all(Set::empty(), messages(history.events.take(i))),
        ),
{
    assert(history.steps_at(i));
    let past = History {
        states: history.states.take(i + 1),
        events: history.events.take(i),
        actions: history.actions.take(i),
    };
    assert forall|j: int| 0 <= j < past.events.len() implies #[trigger] past.steps_at(j) by {
        assert(history.steps_at(j));
    }
    assert forall|j: int| 1 <= j < past.events.len() implies #[trigger] past.answered_at(j) by {
        assert(history.answered_at(j));
    }
    state_follows_from_messages(past);
}

/// What is published is what came of the last application, or nothing where there was none for
/// want of a location.
pub proof fn published_results_were_applied<O>(history: History<O>, i: int)
    requires
        history.valid(),
        0 <= i < history.actions.len(),
        history.actions[i] is Publish,
    ensures
        match history.actions[i]->Publish_results {
            Some(results) => i >= 1 && history.actions[i - 1] is Apply && history.events[i]
                == Event::<O>::Applied(results),
            None => history.events[i] matches Event::ConfigLoaded(config)
                && config.location is None && history.actions[i]->Publish_timeout is None,
        },
{
    assert(history.steps_at(i));
    if i >= 1 {
        assert(history.answered_at(i));
        assert(history.steps_at(i - 1));
    }
}

/// Nothing but a request to shut down stops the controller, and it always does.
pub proof fn only_shutdown_stops<O>(history: History<O>, i: int)
    requires
        history.valid(),
        0 <= i < history.actions.len(),
    ensures
        history.actions[i] is Stop <==> (history.events[i] matches Event::Received(message, _)
            && message@ is Shutdown),
        history.actions[i] is Stop ==> i + 1 == history.actions.len(),
{
    assert(history.steps_at(i));
    if i + 1 < history.actions.len() {
        assert(history.answered_at(i + 1));
    }
}

/// Whether the controller is enabled, and which monitors a window fills, follows from the
/// messages it has received and from nothing else.
pub proof fn state_follows_from_messages<O>(history: History<O>)
    requires
        history.valid(),
    ensures
        history.states.last().enabled == enabled_after_all(true, messages(history.events)),
        history.states.last().fullscreen == fullscreen_after_all(
            Set::empty(),
            messages(history.events),
        ),
    decreases history.events.len(),
{
    if history.events.len() > 0 {
        let past = history.before_last();
        assert forall|j: int| 0 <= j < past.events.len() implies #[trigger] past.steps_at(j) by {
            assert(history.steps_at(j));
        }
        assert forall|j: int| 1 <= j < past.events.len() implies #[trigger] past.answered_at(j) by {
            assert(history.answered_at(j));
        }
        state_follows_from_messages(past);
        let i = history.events.len() - 1;
        assert(history.steps_at(i));
        if let Event::Received(message, _) = history.events[i] {
            assert(messages(history.events).drop_last() == messages(past.events));
        }
    }
}

/// The last message that switches the controller on or off decides; without one it stays as it
/// was.
pub proof fn last_switch_decides(enabled: bool, messages: Seq<MessageView>)
    ensures
        (forall|i: int| 0 <= i < messages.len() ==> !is_switch(#[trigger] messages[i]))
            ==> enabled_after_all(enabled, messages) == enabled,
        forall|i: int|
            #![trigger messages[i]]
            0 <= i < messages.len() && is_switch(messages[i]) && (forall|j: int|
                i < j < messages.len() ==> !is_switch(#[trigger] messages[j]))
                ==> enabled_after_all(enabled, messages) == (messages[i] is Enable),
    decreases messages.len(),
{
    if messages.len() > 0 {
        let past = messages.drop_last();
        last_switch_decides(enabled, past);
        if !is_switch(messages.last()) {
            assert forall|i: int|
                #![trigger messages[i]]
                0 <= i < messages.len() && is_switch(messages[i]) && (forall|j: int|
                    i < j < messages.len() ==> !is_switch(#[trigger] messages[j])) implies enabled_after_all(
                enabled,
                messages,
            ) == (messages[i] is Enable) by {
                assert(past[i] == messages[i]);
                assert forall|j: int| i < j < past.len() implies !is_switch(#[trigger] past[j]) by {
                    assert(past[j] == messages[j]);
                }
            }
            if forall|i: int| 0 <= i < messages.len() ==> !is_switch(#[trigger] messages[i]) {
                assert forall|i: int| 0 <= i < past.len() implies !is_switch(#[trigger] past[i]) by {
                    assert(past[i] == messages[i]);
                }
            }
        } else {
            assert(messages[messages.len() - 1] == messages.last());
        }
    }
}

/// The last message about a monitor decides whether a window fills it; without one it stays as
/// it was.
pub proof fn last_word_on_a_monitor_decides(
    fullscreen: Set<Seq<char>>,
    messages: Seq<MessageView>,
    monitor: Seq<char>,
)
    ensures
        (forall|i: int| 0 <= i < messages.len() ==> !is_about(#[trigger] messages[i], monitor))
            ==> fullscreen_after_all(fullscreen, messages).contains(monitor)
            == fullscreen.contains(monitor),
        forall|i: int|
            #![trigger messages[i]]
            0 <= i < messages.len() && is_about(messages[i], monitor) && (forall|j: int|
                i < j < messages.len() ==> !is_about(#[trigger] messages[j], monitor))
                ==> fullscreen_after_all(fullscreen, messages).contains(monitor) == (
            messages[i] is FullscreenAdd),
    decreases messages.len(),
{
    if messages.len() > 0 {
        let past = messages.drop_last();
        last_word_on_a_monitor_decides(fullscreen, past, monitor);
        if !is_about(messages.last(), monitor) {
            assert forall|i: int|
                #![trigger messages[i]]
                0 <= i < messages.len() && is_about(messages[i], monitor) && (forall|j: int|
                    i < j < messages.len() ==> !is_about(
                        #[trigger] messages[j],
                        monitor,
                    )) implies fullscreen_after_all(fullscreen, messages).contains(monitor) == (
            messages[i] is FullscreenAdd) by {
                assert(past[i] == messages[i]);
                assert forall|j: int| i < j < past.len() implies !is_about(
                    #[trigger] past[j],
                    monitor,
                ) by {
                    assert(past[j] == messages[j]);
                }
            }
            if forall|i: int|
                0 <= i < messages.len() ==> !is_about(#[trigger] messages[i], monitor) {
                assert forall|i: int| 0 <= i < past.len() implies !is_about(
                    #[trigger] past[i],
                    monitor,
                ) by {
                    assert(past[i] == messages[i]);
                }
            }
        } else {
            assert(messages[messages.len() - 1] == messages.last());
        }
    }
}

/// A pause starts only when it was asked for: at a request that says how long, or when the next
/// sunrise has been found after one that does not.
pub proof fn pauses_start_on_request<O>(history: History<O>, i: int)
    requires
        history.valid(),
        0 <= i < history.events.len(),
        history.states[i].paused_until is None,
        history.states[i + 1].paused_until is Some,
    ensures
        match history.events[i] {
            Event::Received(message, now) => message@ matches MessageView::Pause(_, secs) && secs
                >= 0 && history.states[i + 1].paused_until == Some(now@ + secs * 1_000_000_000),
            Event::SunriseConfigLoaded(_, _) => {
                &&& i >= 1
                &&& history.events[i - 1] matches Event::Received(message, _)
                &&& message@ matches MessageView::Pause(_, secs)
                &&& secs < 0
            },
            _ => false,
        },
{
    assert(history.steps_at(i));
    if i >= 1 {
        assert(history.answered_at(i));
        assert(history.steps_at(i - 1));
    }
}

/// A pause ends only on request or when its time is up.
pub proof fn pauses_end_on_request_or_in_time<O>(history: History<O>, i: int)
    requires
        history.valid(),
        0 <= i < history.events.len(),
        history.states[i].paused_until is Some,
        history.states[i + 1].paused_until is None,
    ensures
        match history.events[i] {
            Event::Received(message, _) => message@ is Unpause,
            Event::Wake(now) => now@ >= history.states[i].paused_until->0,
            _ => false,
        },
{
    assert(history.steps_at(i));
}

/// A pause of so many seconds, if nothing else intervenes, is over at the first cycle that
/// starts so many seconds later, and not before.
pub proof fn a_pause_lasts_as_long_as_asked(
    state: ControllerView,
    source: Seq<char>,
    secs: int,
    asked: int,
    now: int,
)
    requires
        secs >= 0,
    ensures
        unexpired(
            received(state, MessageView::Pause(source, secs), asked).paused_until,
            now,
        ) is Some <==> now < asked + secs * 1_000_000_000,
{
}

/// Ending a pause leaves a controller that was not paused before as if it had never been.
pub proof fn unpausing_undoes_pausing(
    state: ControllerView,
    pauser: Seq<char>,
    unpauser: Seq<char>,
    secs: int,
    now: int,
    later: int,
)
    requires
        state.paused_until is None,
    ensures
        received(
            received(state, MessageView::Pause(pauser, secs), now),
            MessageView::Unpause(unpauser),
            later,
        ) == state,
{
}

/// A window that fills a monitor and stops doing so leaves the controller as it was.
pub proof fn leaving_fullscreen_undoes_entering(
    state: ControllerView,
    monitor: Seq<char>,
    now: int,
    later: int,
)
    requires
        !state.fullscreen.contains(monitor),
    ensures
        received(
            received(state, MessageView::FullscreenAdd(monitor), now),
            MessageView::FullscreenRemove(monitor),
            later,
        ) == state,
{
    assert(state.fullscreen.insert(monitor).remove(monitor) =~= state.fullscreen);
}

/// A request to refresh changes nothing, however often it comes.
pub proof fn refreshing_changes_nothing(state: ControllerView, source: Seq<char>, now: int)
    ensures
        received(state, MessageView::Refresh(source), now) == state,
{
}

/// Locking the session switches the controller off and unlocking it switches the controller on
/// again, and neither touches anything else.
pub proof fn unlocking_undoes_locking(data: WindowData, state: ControllerView, now: int, later: int)
    requires
        state.enabled,
    ensures
        window_action(data, WM_WTSSESSION_CHANGE, WTS_SESSION_LOCK as int) matches WindowActionView::Send(
            lock,
        ) && window_action(
            data,
            WM_WTSSESSION_CHANGE,
            WTS_SESSION_UNLOCK as int,
        ) matches WindowActionView::Send(unlock) && received(state, lock, now) == (
        ControllerView { enabled: false, ..state }) && received(
            received(state, lock, now),
            unlock,
            later,
        ) == state,
{
}

/// No window message ends or starts a pause, stops the controller, or says anything about the
/// monitors that a window fills.
pub proof fn window_messages_only_switch_or_refresh(
    data: WindowData,
    message: u32,
    wparam: int,
    state: ControllerView,
    now: int,
)
    ensures
        window_action(data, message, wparam) matches WindowActionView::Send(sent) ==> (
        is_switch(sent) || sent is Refresh) && received(state, sent, now) == (ControllerView {
            enabled: enabled_after(state.enabled, sent),
            ..state
        }),
{
}

/// Another foreground window: whether it fills its monitor, and the name of that monitor.
pub ghost struct ForegroundChange {
    pub fullscreen: bool,
    pub monitor: Seq<char>,
}

/// Whether the foreground window fills its monitor, as far as the watcher knows.
pub open spec fn watched(changes: Seq<ForegroundChange>) -> bool {
    changes.len() > 0 && changes.last().fullscreen
}

/// What the watcher tells the controller about these foreground windows, in order.
pub open spec fn reports(changes: Seq<ForegroundChange>) -> Seq<MessageView>
    decreases changes.len(),
{
    if changes.len() == 0 {
        Seq::empty()
    } else {
        let past = changes.drop_last();
        match fullscreen_change(
            watched(past),
            changes.last().fullscreen,
            changes.last().monitor,
        ) {
            Some(message) => reports(past).push(message),
            None => reports(past),
        }
    }
}

/// The watcher tells in turn that a window has begun to fill a monitor and that none does so any
/// more, beginning with the former.
pub proof fn reports_alternate(changes: Seq<ForegroundChange>)
    ensures
        forall|i: int|
            #![trigger reports(changes)[i]]
            0 <= i < reports(changes).len() ==> if i % 2 == 0 {
                reports(changes)[i] is FullscreenAdd
            } else {
                reports(changes)[i] is FullscreenRemove
            },
        reports(changes).len() % 2 == (if watched(changes) {
            1nat
        } else {
            0nat
        }),
    decreases changes.len(),
{
    if changes.len() > 0 {
        reports_alternate(changes.drop_last());
    }
}

/// With a single monitor the controller always knows whether a window fills it.
pub proof fn a_single_monitor_is_tracked(changes: Seq<ForegroundChange>, monitor: Seq<char>)
    requires
        forall|i: int| 0 <= i < changes.len() ==> (#[trigger] changes[i]).monitor == monitor,
    ensures
        fullscreen_after_all(Set::empty(), reports(changes)) == (if watched(changes) {
            set![monitor]
        } else {
            Set::<Seq<char>>::empty()
        }),
    decreases changes.len(),
{
    if changes.len() > 0 {
        let past = changes.drop_last();
        assert forall|i: int| 0 <= i < past.len() implies (#[trigger] past[i]).monitor == monitor by {
            assert(past[i] == changes[i]);
        }
        a_single_monitor_is_tracked(past, monitor);
        assert(changes[changes.len() - 1].monitor == monitor);
        if watched(past) != changes.last().fullscreen {
            assert(reports(changes).drop_last() == reports(past));
        }
        assert(fullscreen_after_all(Set::empty(), reports(changes)) =~= if watched(changes) {
            set![monitor]
        } else {
            Set::<Seq<char>>::empty()
        });
    }
}

/// A pause that ends at the next sunrise ends at a sunrise that the calculator gave: one still
/// to come when it was asked, or else one it gave for the same time on the next day.
pub proof fn the_pause_ends_at_a_calculated_sunrise(
    place: SunriseSunsetParameters,
    now: i64,
    end: Timestamp,
)
    requires
        may_end_at_sunrise(place, now, Ok::<Timestamp, SunriseError>(end)),
    ensures
        (exists|rise: i64|
            #[trigger] may_rise(place, now, Ok(rise)) && rise > now && end@ == rise * 1_000_000_000)
            || (exists|passed: i64, rise: i64|
            {
                &&& #[trigger] may_rise(place, now, Ok(passed))
                &&& passed <= now
                &&& #[trigger] may_rise(place, (now + 86_400) as i64, Ok(rise))
                &&& end@ == rise * 1_000_000_000
            }),
{
    let outcome = Ok::<Timestamp, SunriseError>(end);
    let rise = choose|rise: Result<i64, SpaError>|
        {
            &&& #[trigger] may_rise(place, now, rise)
            &&& if has_passed(rise, now) {
                exists|again: Result<i64, SpaError>|
                    {
                        &&& #[trigger] may_rise(place, (now + 86_400) as i64, again)
                        &&& settled(again, outcome)
                    }
            } else {
                settled(rise, outcome)
            }
        };
    if has_passed(rise, now) {
        let again = choose|again: Result<i64, SpaError>|
            {
                &&& #[trigger] may_rise(place, (now + 86_400) as i64, again)
                &&& settled(again, outcome)
            };
        assert(may_rise(place, now, Ok(rise->Ok_0)));
        assert(may_rise(place, (now + 86_400) as i64, Ok(again->Ok_0)));
    } else {
        assert(may_rise(place, now, Ok(rise->Ok_0)));
    }
}

/// A started controller is enabled, not paused, and knows of no window that fills a monitor.
pub proof fn a_controller_starts_enabled_and_unpaused()
    ensures
        initial().enabled,
        initial().paused_until is None,
        forall|monitor: Seq<char>| !(#[trigger] initial().fullscreen.contains(monitor)),
{
}

/// The state of a controller is what its fields say.
pub proof fn the_state_is_what_the_fields_say(controller: Controller)
    ensures
        controller@.enabled == controller.enabled,
        controller.paused_until is None <==> controller@.paused_until is None,
        controller.paused_until is Some ==> controller@.paused_until->0
            == controller.paused_until->0@,
        controller@.fullscreen == controller.fullscreen_overrides@,
{
}

/// At the start of a cycle an enabled controller always goes on to read the settings, paused or
/// not, and a disabled one always goes to sleep. A pause is over exactly if its end has come;
/// otherwise it stays as it is, and so does everything else.
pub proof fn every_cycle_of_an_enabled_controller_reads_the_settings<O>(
    pre: ControllerView,
    now: Timestamp,
    post: ControllerView,
    action: Action<O>,
)
    requires
        step(pre, Event::<O>::Wake(now), post, action),
    ensures
        pre.enabled <==> action is LoadConfig,
        !pre.enabled <==> action is Sleep,
        post.enabled == pre.enabled,
        post.fullscreen == pre.fullscreen,
        post.paused_until is Some <==> (pre.paused_until is Some && now@ < pre.paused_until->0),
        post.paused_until is Some ==> post.paused_until == pre.paused_until,
{
}

/// Settings with a location always lead to a request to the monitors that carries each of them as
/// it is, forces the day brightness exactly if the controller is paused, and names the monitors
/// that a window fills. Settings without one always lead to an empty result and a sleep without
/// end. The state stays as it is.
pub proof fn settings_are_always_applied<O>(
    pre: ControllerView,
    config: SsbConfig<O>,
    post: ControllerView,
    action: Action<O>,
)
    requires
        step(pre, Event::ConfigLoaded(config), post, action),
    ensures
        post == pre,
        config.location is Some <==> action is Apply,
        config.location is None <==> action is Publish,
        config.location is None ==> action->Publish_results is None && action->Publish_timeout is None,
        action matches Action::Apply(request) ==> {
            &&& request.brightness_day == config.brightness_day
            &&& request.brightness_night == config.brightness_night
            &&& request.transition_mins == config.transition_mins
            &&& request.location == config.location->0
            &&& request.overrides == config.overrides
            &&& request.force_day_brightness == (pre.paused_until is Some)
            &&& request.fullscreen_overrides is Some
            &&& request.fullscreen_overrides->0@ == pre.fullscreen
        },
{
}

/// In the course of events each request to the monitors carries the settings just read, field by
/// field, whether or not the day brightness is forced.
pub proof fn each_request_carries_the_settings_just_read<O>(
    history: History<O>,
    i: int,
    config: SsbConfig<O>,
    request: ApplyRequest<O>,
)
    requires
        history.valid(),
        0 <= i < history.actions.len(),
        history.events[i] == Event::ConfigLoaded(config),
        history.actions[i] == Action::Apply(request),
    ensures
        request.brightness_day == config.brightness_day,
        request.brightness_night == config.brightness_night,
        request.transition_mins == config.transition_mins,
        Some(request.location) == config.location,
        request.overrides == config.overrides,
{
    assert(history.steps_at(i));
}

/// Results are always published as they came, and the sleep that follows ends when the first
/// monitor is due: at the expiry of one of them, and of none earlier; or never if none expires.
/// The state stays as it is.
pub proof fn results_are_always_published_until_the_first_expiry<O>(
    pre: ControllerView,
    results: ApplyResults,
    post: ControllerView,
    action: Action<O>,
)
    requires
        step(pre, Event::<O>::Applied(results), post, action),
    ensures
        post == pre,
        action is Publish,
        action->Publish_results == Some(results),
        action->Publish_timeout is None <==> forall|i: int|
            0 <= i < results.monitors@.len() ==> ((
            #[trigger] results.monitors@[i]).brightness matches Some(brightness)
                ==> brightness.expiry_time is None),
        action->Publish_timeout matches Some(timeout) ==> {
            &&& exists|i: int|
                {
                    &&& 0 <= i < results.monitors@.len()
                    &&& (#[trigger] results.monitors@[i]).brightness matches Some(brightness)
                    &&& brightness.expiry_time matches Some(time)
                    &&& timeout@ == time * 1_000_000_000
                }
            &&& forall|j: int|
                0 <= j < results.monitors@.len() ==> ((
                #[trigger] results.monitors@[j]).brightness matches Some(brightness) ==> (
                brightness.expiry_time matches Some(time) ==> timeout@ <= time * 1_000_000_000))
        },
{
    no_timeout_without_an_expiry(results);
    if let Some(timeout) = action->Publish_timeout {
        timeout_is_the_expiry_of_a_monitor(results, timeout@);
    }
}

/// Running out of time always starts the next cycle and changes nothing.
pub proof fn running_out_of_time_starts_the_next_cycle<O>(
    pre: ControllerView,
    post: ControllerView,
    action: Action<O>,
)
    requires
        step(pre, Event::<O>::TimedOut, post, action),
    ensures
        post == pre,
        action is Repeat,
{
}

/// After a message the controller goes on as it asks: it stops at a shutdown, it looks for the
/// next sunrise at a pause without a length, and it starts the next cycle at any other.
pub proof fn every_message_is_answered<O>(
    pre: ControllerView,
    message: Message,
    now: Timestamp,
    post: ControllerView,
    action: Action<O>,
)
    requires
        step(pre, Event::<O>::Received(message, now), post, action),
    ensures
        match message {
            Message::Shutdown => action is Stop,
            Message::Pause(_, secs) => if secs < 0 {
                action is LoadSunriseConfig
            } else {
                action is Repeat
            },
            _ => action is Repeat,
        },
{
}

/// Each message changes what it is about, in every state, and nothing else.
pub proof fn every_message_has_its_effect_and_no_other<O>(
    pre: ControllerView,
    message: Message,
    now: Timestamp,
    post: ControllerView,
    action: Action<O>,
)
    requires
        step(pre, Event::<O>::Received(message, now), post, action),
    ensures
        message is Enable ==> post.enabled,
        message is Disable ==> !post.enabled,
        !(message is Enable) && !(message is Disable) ==> post.enabled == pre.enabled,
        message is Unpause ==> post.paused_until is None,
        message matches Message::Pause(_, secs) ==> secs >= 0 ==> post.paused_until == Some(
            now@ + secs * 1_000_000_000,
        ),
        message matches Message::Pause(_, secs) ==> secs < 0 ==> post.paused_until
            == pre.paused_until,
        !(message is Unpause) && !(message is Pause) ==> post.paused_until == pre.paused_until,
        message matches Message::FullscreenAdd(monitor) ==> forall|other: Seq<char>|
            #[trigger] post.fullscreen.contains(other) <==> (other == monitor@
                || pre.fullscreen.contains(other)),
        message matches Message::FullscreenRemove(monitor) ==> forall|other: Seq<char>|
            #[trigger] post.fullscreen.contains(other) <==> (other != monitor@
                && pre.fullscreen.contains(other)),
        !(message is FullscreenAdd) && !(message is FullscreenRemove) ==> post.fullscreen
            == pre.fullscreen,
{
}

/// A pause that is to end at the next sunrise ends, at a known place, at a sunrise that the
/// calculator gives for the second at which it was looked for and that is still to come, or else
/// at the one it gives a day later; and at an unknown place 12 hours later. It replaces any pause
/// before it, and changes nothing else. If there is no such sunrise nothing changes, and the
/// controller gives up.
pub proof fn a_pause_until_sunrise_ends_at_the_next_sunrise<O>(
    pre: ControllerView,
    config: SsbConfig<O>,
    now: Timestamp,
    secs: i64,
    tomorrow: i64,
    post: ControllerView,
    action: Action<O>,
)
    requires
        step(pre, Event::SunriseConfigLoaded(config, now), post, action),
        secs == now@ / 1_000_000_000,
        tomorrow == secs + 24 * 60 * 60,
    ensures
        post.enabled == pre.enabled,
        post.fullscreen == pre.fullscreen,
        action is Repeat || action is Abort,
        action is Abort ==> post == pre && config.location is Some,
        action is Repeat ==> post.paused_until is Some,
        action is Repeat && config.location is None ==> post.paused_until->0 == now@ + 12 * 60 * 60
            * 1_000_000_000,
        action is Repeat && config.location is Some ==> ({
            let place = config.location->0.coordinates;
            ||| exists|rise: i64|
                {
                    &&& #[trigger] may_rise(place, secs, Ok(rise))
                    &&& rise > secs
                    &&& post.paused_until->0 == rise * 1_000_000_000
                }
            ||| exists|passed: i64, rise: i64|
                {
                    &&& #[trigger] may_rise(place, secs, Ok(passed))
                    &&& passed <= secs
                    &&& #[trigger] may_rise(place, tomorrow, Ok(rise))
                    &&& post.paused_until->0 == rise * 1_000_000_000
                }
        }),
{
    let end = choose|end: Result<Timestamp, SunriseError>|
        {
            &&& #[trigger] may_be_next_sunrise(config, now@, end)
            &&& pause_step(pre, end, post, action)
        };
    if config.location is Some {
        if let Ok(time) = end {
            the_sunrise_asked_for_is_the_next_from_now(config, now@, secs, tomorrow, time);
        }
    } else {
        without_a_location_the_sun_rises_in_twelve_hours(config, now@, end);
    }
}

/// What is found out about the next sunrise decides alone: a time is where the pause ends, a
/// failure is handed on and changes nothing.
pub proof fn the_sunrise_found_ends_the_pause<O>(
    pre: ControllerView,
    end: Result<Timestamp, SunriseError>,
    post: ControllerView,
    action: Action<O>,
)
    requires
        pause_step(pre, end, post, action),
    ensures
        post.enabled == pre.enabled,
        post.fullscreen == pre.fullscreen,
        end is Ok ==> post.paused_until == Some(end->Ok_0@) && action is Repeat,
        end is Err ==> post.paused_until == pre.paused_until && action is Abort
            && action->Abort_0 == end->Err_0,
{
}

/// Every event is dealt with but those that lead to a point in time out of range: an expiry
/// before the Unix epoch, a pause beyond the end of the clock, a sunrise looked for before the
/// Unix epoch or, at an unknown place, within 12 hours of the end of the clock.
pub proof fn only_times_out_of_range_are_refused<O>(event: Event<O>)
    ensures
        admissible(event) <==> match event {
            Event::Applied(results) => forall|i: int|
                0 <= i < results.monitors@.len() ==> ((
                #[trigger] results.monitors@[i]).brightness matches Some(brightness) ==> (
                brightness.expiry_time matches Some(time) ==> time >= 0)),
            Event::Received(Message::Pause(_, secs), now) => secs < 0 || i64::MIN <= (now@ + secs
                * 1_000_000_000) / 1_000_000_000 <= i64::MAX,
            Event::SunriseConfigLoaded(config, now) => if config.location is Some {
                now@ >= 0
            } else {
                i64::MIN <= (now@ + 12 * 60 * 60 * 1_000_000_000) / 1_000_000_000 <= i64::MAX
            },
            _ => true,
        },
{
    if let Event::Applied(results) = event {
        only_expiries_before_the_epoch_are_refused(results);
    }
}

/// In the course of events a cycle of an enabled controller, paused or not, reads the settings,
/// applies them if there is a location, with the day brightness forced exactly if a pause is
/// under way, and publishes what came of it. A disabled controller sleeps.
pub proof fn every_enabled_cycle_applies_and_publishes<O>(
    history: History<O>,
    i: int,
    now: Timestamp,
)
    requires
        history.valid(),
        0 <= i < history.events.len(),
        history.events[i] == Event::<O>::Wake(now),
    ensures
        history.states[i].enabled <==> history.actions[i] is LoadConfig,
        !history.states[i].enabled <==> history.actions[i] is Sleep,
        history.states[i].enabled && i + 1 < history.events.len() ==> {
            &&& history.events[i + 1] matches Event::ConfigLoaded(config)
            &&& config.location is Some ==> history.actions[i + 1] is Apply
            &&& config.location is Some ==> (
            history.actions[i + 1]->Apply_0.force_day_brightness <==> (
            history.states[i].paused_until is Some && now@ < history.states[i].paused_until->0))
            &&& config.location is None ==> history.actions[i + 1] is Publish
            &&& config.location is Some && i + 2 < history.events.len() ==> {
                &&& history.events[i + 2] matches Event::Applied(results)
                &&& history.actions[i + 2] is Publish
                &&& history.actions[i + 2]->Publish_results == Some(results)
            }
        },
{
    assert(history.steps_at(i));
    if i + 1 < history.events.len() {
        assert(history.steps_at(i + 1));
        assert(history.answered_at(i + 1));
    }
    if i + 2 < history.events.len() {
        assert(history.steps_at(i + 2));
        assert(history.answered_at(i + 2));
    }
}

} // verus!
