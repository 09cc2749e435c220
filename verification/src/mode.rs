//! Display modes of the activity widget and the producer's mode decision.

use vstd::prelude::*;

verus! {

/// The four display modes an activity widget can be in.
#[derive(Clone, Copy, Debug, PartialEq, Eq, Structural)]
pub enum ActivityMode {
    Minimal,
    Compact,
    Expanded,
    Overlay,
}

/// The mode the "mode" property starts in when the activity is created.
pub fn initial_mode() -> (r: ActivityMode)
    ensures
        r is Minimal,
{
    ActivityMode::Minimal
}

/// The one decision the data producer makes: bring the card to expanded
/// mode. Returns the mode to set, or `None` when the card is already
/// expanded and no update should be sent.
pub fn producer_mode_update(prev: ActivityMode) -> (r: Option<ActivityMode>)
    ensures
        prev is Expanded ==> r is None,
        prev !is Expanded ==> r == Some(ActivityMode::Expanded),
{
    if matches!(prev, ActivityMode::Expanded) {
        None
    } else {
        Some(ActivityMode::Expanded)
    }
}

} // verus!
