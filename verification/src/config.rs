//! The settings of the user, as far as decisions depend on them.
use crate::sun::Location;
use vstd::prelude::*;

verus! {

/// The settings of the user. `O` is what the monitors understand as settings of a single
/// monitor; nothing here looks into it.
#[derive(Clone, Debug)]
pub struct SsbConfig<O> {
    /// The brightness while the sun is up, in percent.
    pub brightness_day: u32,
    /// The brightness while the sun is down, in percent.
    pub brightness_night: u32,
    /// How many minutes the brightness takes from one to the other.
    pub transition_mins: u32,
    /// Where the user is, if they have said so.
    pub location: Option<Location>,
    /// What is to be done differently on single monitors.
    pub overrides: O,
}

} // verus!
