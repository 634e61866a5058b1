use vstd::prelude::*;

use super::damage::Health;

verus! {

/// A character's vital statistics.
#[derive(Clone, Copy, Debug)]
pub struct Stats {
    pub health: Health,
}

impl Stats {
    pub open spec fn wf(self) -> bool {
        self.health.wf()
    }
}

/// Vital statistics as an observer sees them: health only once learned.
#[derive(Clone, Copy, Debug)]
pub struct StatsView {
    pub health: Option<Health>,
}

} // verus!
