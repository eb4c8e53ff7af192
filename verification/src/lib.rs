//! Decision logic of a service that follows the sun with the brightness of the screens.
//!
//! The crate holds every decision the service makes; reading the clock, waiting for messages,
//! talking to the monitors and to the window system is left to the program around it. That
//! program reports what happened and carries out what it is told:
//!
//! - [`controller`]: the state of the brightness controller and its transition function `run`;
//! - [`event_watcher`]: what window messages and foreground window changes mean;
//! - [`apply`]: what is handed to the monitors, and when it has to be handed over again;
//! - [`sun`]: until when a pause lasts that ends at the next sunrise;
//! - [`laws`]: what holds of the controller and the watcher over any number of events;
//! - [`message`], [`config`], [`monitors`], [`time`], [`wide`]: the data they work on.
pub mod apply;
pub mod config;
pub mod controller;
pub mod event_watcher;
pub mod laws;
pub mod message;
pub mod monitors;
pub mod sun;
pub mod time;
pub mod wide;
