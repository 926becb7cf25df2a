//! What a distance reading means.

use vstd::prelude::*;
use crate::config::Distance;
use crate::state::Event;

verus! {

/// Decides what to report for the reading `value`, given whether the last
/// report left things inside the threshold.
///
/// A reading of at least `enter_threshold` while outside is an entry; a
/// reading below `exit_threshold` while inside is an exit; anything else is
/// just a distance. `in_threshold` follows entries and exits.
pub fn evaluate_value(value: u16, distance_config: &Distance, in_threshold: &mut bool) -> (event:
    Event)
    ensures
        event == (if value >= distance_config.enter_threshold && !*old(in_threshold) {
            Event::EnterDistanceThreshold(value)
        } else if value < distance_config.exit_threshold && *old(in_threshold) {
            Event::ExitDistanceThreshold(value)
        } else {
            Event::Distance(value)
        }),
        *final(in_threshold) == (match event {
            Event::EnterDistanceThreshold(_) => true,
            Event::ExitDistanceThreshold(_) => false,
            _ => *old(in_threshold),
        }),
{
    if value >= distance_config.enter_threshold && !*in_threshold {
        *in_threshold = true;
        Event::EnterDistanceThreshold(value)
    } else if value < distance_config.exit_threshold && *in_threshold {
        *in_threshold = false;
        Event::ExitDistanceThreshold(value)
    } else {
        Event::Distance(value)
    }
}

} // verus!
