# Solar screen brightness

The decision logic of a service that follows the sun with the brightness of the screens, written
and verified in Verus.

- `src/` is the verified library. `controller` is the state machine of the brightness controller,
  `event_watcher` says what the window system's messages mean, `apply` and `sun` work out what is
  handed to the monitors and until when, and `laws` states what holds over any number of events.
- `app/` runs the library: it owns the threads, the clock, the channels and the window.
- `tests/` exercises the library on concrete values.

The library trusts the sunrise that the `sunrise-sunset-calculator` crate reports only as far as
the contract of `calculate_rise` in `src/sun.rs` says, and two functions of the standard library
as far as their specifications in `src/wide.rs` say.
