//! The brightness controller: its state, and what it does about each event.
//!
//! The controller runs in cycles. A cycle starts with a look at the clock. An enabled controller
//! then applies the brightness and publishes the results; in any case it sleeps until a message
//! comes or the brightness is due again, deals with the message, and starts over.
//!
//! The work that takes a clock, a lock, a monitor or a channel is done by the caller. [`run`]
//! answers an [`Event`] with the [`Action`] to carry out next, and the outcome of the action is
//! the next event.
use crate::apply::{
    apply, calculate_timeout, due_at, expiries_after_epoch, has_expiries_after_epoch, ApplyRequest,
    ApplyResults,
};
use crate::config::SsbConfig;
use crate::message::{Message, MessageView};
use crate::monitors::MonitorSet;
use crate::sun::{
    can_look_for_sunrise, compute_next_sunrise, is_sunrise_in_reach, may_be_next_sunrise,
    SunriseError,
};
use crate::time::{instant, representable, Timestamp};
use vstd::prelude::*;

verus! {

/// The state of the brightness controller.
#[derive(Debug)]
pub struct Controller {
    /// Whether the controller looks after the screens.
    pub enabled: bool,
    /// When paused, the time until which the day brightness is shown.
    pub paused_until: Option<Timestamp>,
    /// The monitors that a window fills.
    pub fullscreen_overrides: MonitorSet,
}

/// The contents of a `Controller`, with times in nanoseconds since the Unix epoch.
#[verifier::ext_equal]
pub ghost struct ControllerView {
    pub enabled: bool,
    pub paused_until: Option<int>,
    pub fullscreen: Set<Seq<char>>,
}

impl View for Controller {
    type V = ControllerView;

    open spec fn view(&self) -> ControllerView {
        ControllerView {
            enabled: self.enabled,
            paused_until: instant(self.paused_until),
            fullscreen: self.fullscreen_overrides@,
        }
    }
}

/// The state in which a controller starts.
pub open spec fn initial() -> ControllerView {
    ControllerView { enabled: true, paused_until: None, fullscreen: Set::empty() }
}

/// What happened.
pub enum Event<O> {
    /// A cycle starts at this time.
    Wake(Timestamp),
    /// These are the settings, asked for by `LoadConfig`.
    ConfigLoaded(SsbConfig<O>),
    /// This came of applying the brightness, asked for by `Apply`.
    Applied(ApplyResults),
    /// The sleep ended with this message, received at this time.
    Received(Message, Timestamp),
    /// The sleep ended because its time was up.
    TimedOut,
    /// These are the settings, asked for by `LoadSunriseConfig`, and the time.
    SunriseConfigLoaded(SsbConfig<O>, Timestamp),
}

/// What is to be done next.
#[derive(Debug)]
pub enum Action<O> {
    /// Read the settings.
    LoadConfig,
    /// Hand this to the monitors.
    Apply(ApplyRequest<O>),
    /// Keep the results as the last ones, let everybody know, and sleep: until the timeout, or
    /// without end if there is none.
    Publish { results: Option<ApplyResults>, timeout: Option<Timestamp> },
    /// Sleep without end.
    Sleep,
    /// Read the settings and the clock, to find out when the sun rises next.
    LoadSunriseConfig,
    /// Start the next cycle.
    Repeat,
    /// Stop.
    Stop,
    /// Give up, as there is no telling when the sun rises next.
    Abort(SunriseError),
}

/// Whether the points in time that an event leads to are within range.
pub open spec fn admissible<O>(event: Event<O>) -> bool {
    match event {
        Event::Applied(results) => expiries_after_epoch(Some(results)),
        Event::Received(message, now) => message@ matches MessageView::Pause(_, secs) ==> secs >= 0
            ==> representable(now@ + secs * 1_000_000_000),
        Event::SunriseConfigLoaded(config, now) => can_look_for_sunrise(config, now@),
        _ => true,
    }
}

/// Whether the controller is enabled after a message.
pub open spec fn enabled_after(enabled: bool, message: MessageView) -> bool {
    match message {
        MessageView::Enable(_) => true,
        MessageView::Disable(_) => false,
        _ => enabled,
    }
}

/// The monitors that a window fills after a message.
pub open spec fn fullscreen_after(
    fullscreen: Set<Seq<char>>,
    message: MessageView,
) -> Set<Seq<char>> {
    match message {
        MessageView::FullscreenAdd(monitor) => fullscreen.insert(monitor),
        MessageView::FullscreenRemove(monitor) => fullscreen.remove(monitor),
        _ => fullscreen,
    }
}

/// The end of the pause after a message. One that is to end at the next sunrise starts only when
/// that is known.
pub open spec fn paused_after(paused: Option<int>, message: MessageView, now: int) -> Option<int> {
    match message {
        MessageView::Unpause(_) => None,
        MessageView::Pause(_, secs) => if secs >= 0 {
            Some(now + secs * 1_000_000_000)
        } else {
            paused
        },
        _ => paused,
    }
}

/// The state after a message.
pub open spec fn received(state: ControllerView, message: MessageView, now: int) -> ControllerView {
    ControllerView {
        enabled: enabled_after(state.enabled, message),
        paused_until: paused_after(state.paused_until, message, now),
        fullscreen: fullscreen_after(state.fullscreen, message),
    }
}

/// What is left of a pause at that time.
pub open spec fn unexpired(paused: Option<int>, now: int) -> Option<int> {
    match paused {
        Some(end) => if now >= end {
            None
        } else {
            Some(end)
        },
        None => None,
    }
}

/// Whether the controller may go from `pre` to `post` at an event, and answer with `action`.
pub open spec fn step<O>(
    pre: ControllerView,
    event: Event<O>,
    post: ControllerView,
    action: Action<O>,
) -> bool {
    match event {
        Event::Wake(now) => {
            &&& post == ControllerView {
                paused_until: unexpired(pre.paused_until, now@),
                ..pre
            }
            &&& if pre.enabled {
                action is LoadConfig
            } else {
                action is Sleep
            }
        },
        Event::ConfigLoaded(config) => {
            &&& post == pre
            &&& match config.location {
                Some(_) => action matches Action::Apply(request) && request.asks_for(
                    config,
                    pre.paused_until is Some,
                    pre.fullscreen,
                ),
                None => action == Action::<O>::Publish { results: None, timeout: None },
            }
        },
        Event::Applied(results) => {
            &&& post == pre
            &&& action matches Action::Publish { results: published, timeout } && published == Some(
                results,
            ) && due_at(published, instant(timeout))
        },
        Event::Received(message, now) => {
            &&& post == received(pre, message@, now@)
            &&& match message@ {
                MessageView::Shutdown => action is Stop,
                MessageView::Pause(_, secs) => if secs >= 0 {
                    action is Repeat
                } else {
                    action is LoadSunriseConfig
                },
                _ => action is Repeat,
            }
        },
        Event::TimedOut => {
            &&& post == pre
            &&& action is Repeat
        },
        Event::SunriseConfigLoaded(config, now) => exists|end: Result<Timestamp, SunriseError>|
            {
                &&& #[trigger] may_be_next_sunrise(config, now@, end)
                &&& pause_step(pre, end, post, action)
            },
    }
}

/// Whether the controller goes from `pre` to `post`, and answers with `action`, when the next
/// sunrise turns out to be `end`.
pub open spec fn pause_step<O>(
    pre: ControllerView,
    end: Result<Timestamp, SunriseError>,
    post: ControllerView,
    action: Action<O>,
) -> bool {
    match end {
        Ok(end) => {
            &&& post == ControllerView { paused_until: Some(end@), ..pre }
            &&& action is Repeat
        },
        Err(error) => {
            &&& post == pre
            &&& action == Action::<O>::Abort(error)
        },
    }
}

/// Tests whether the points in time that an event leads to are within range.
pub fn is_admissible<O>(event: &Event<O>) -> (within: bool)
    ensures
        within == admissible(*event),
{
    match event {
        Event::Applied(results) => has_expiries_after_epoch(results),
        Event::Received(Message::Pause(_, secs), now) => *secs < 0 || now.checked_add_secs(
            *secs as u64,
        ).is_some(),
        Event::SunriseConfigLoaded(config, now) => is_sunrise_in_reach(config, now),
        _ => true,
    }
}

impl Controller {
    /// A controller that is enabled and not paused, with no monitor filled by a window.
    pub fn new() -> (controller: Controller)
        ensures
            controller@ == initial(),
    {
        Controller { enabled: true, paused_until: None, fullscreen_overrides: MonitorSet::new() }
    }

    /// Ends a pause whose time is up, and finds out whether there is anything to apply.
    fn wake<O>(&mut self, now: Timestamp) -> (action: Action<O>)
        ensures
            step(old(self)@, Event::<O>::Wake(now), final(self)@, action),
    {
        if let Some(pause_time) = self.paused_until {
            if now.at_or_after(&pause_time) {
                self.paused_until = None;
            }
        }
        if self.enabled {
            Action::LoadConfig
        } else {
            Action::Sleep
        }
    }

    /// Puts together what the monitors need.
    fn config_loaded<O>(&self, config: SsbConfig<O>) -> (action: Action<O>)
        ensures
            step(self@, Event::ConfigLoaded(config), self@, action),
    {
        let is_paused: bool = self.paused_until.is_some();
        match apply(config, is_paused, self.fullscreen_overrides.duplicate()) {
            Some(request) => Action::Apply(request),
            None => Action::Publish { results: None, timeout: None },
        }
    }

    /// Deals with a message.
    fn receive<O>(&mut self, message: Message, now: Timestamp) -> (action: Action<O>)
        requires
            admissible(Event::<O>::Received(message, now)),
        ensures
            step(old(self)@, Event::<O>::Received(message, now), final(self)@, action),
    {
        match message {
            Message::Shutdown => {
                return Action::Stop;
            },
            Message::Refresh(_) => {},
            Message::Disable(_) => {
                self.enabled = false;
            },
            Message::Enable(_) => {
                self.enabled = true;
            },
            Message::Unpause(_) => {
                self.paused_until = None;
            },
            Message::Pause(_, time) => {
                if time < 0 {
                    return Action::LoadSunriseConfig;
                }
                self.paused_until = Some(now.add_secs(time as u64));
            },
            Message::FullscreenAdd(id) => {
                self.fullscreen_overrides.insert(id);
            },
            Message::FullscreenRemove(id) => {
                self.fullscreen_overrides.remove(&id);
            },
        }
        Action::Repeat
    }

    /// Starts a pause that ends at the sunrise found, if one was found.
    pub fn pause_until_sunrise<O>(&mut self, end: Result<Timestamp, SunriseError>) -> (action: Action<
        O,
    >)
        ensures
            pause_step(old(self)@, end, final(self)@, action),
    {
        match end {
            Ok(pause_time) => {
                self.paused_until = Some(pause_time);
                Action::Repeat
            },
            Err(error) => Action::Abort(error),
        }
    }
}

/// Takes note of an event and says what to do next.
pub fn run<O>(controller: &mut Controller, event: Event<O>) -> (action: Action<O>)
    requires
        admissible(event),
    ensures
        step(old(controller)@, event, final(controller)@, action),
{
    match event {
        Event::Wake(now) => controller.wake(now),
        Event::ConfigLoaded(config) => controller.config_loaded(config),
        Event::Applied(results) => {
            let results = Some(results);
            let timeout = calculate_timeout(&results);
            Action::Publish { results, timeout }
        },
        Event::Received(message, now) => controller.receive(message, now),
        Event::TimedOut => Action::Repeat,
        Event::SunriseConfigLoaded(config, now) => {
            let end = compute_next_sunrise(config, now);
            let action = controller.pause_until_sunrise(end);
            assert(pause_step(old(controller)@, end, controller@, action));
            action
        },
    }
}

} // verus!
