//! Phase determination: which sale stage a launch is in at a given time.

use vstd::prelude::*;

use crate::state::{Launch, LaunchV};

verus! {

/// The active sale stage of a launch.
#[derive(Clone, Copy, Debug, PartialEq, Eq, Structural)]
pub enum Phase {
    Whitelist,
    Public,
    Closed,
}

/// The phase of a launch at time `now` (seconds since epoch).
///
/// Both windows are open intervals: equality with a start or end timestamp
/// is outside the window. When the whitelist and public windows overlap,
/// the whitelist window wins, because it is tested first.
pub open spec fn classify_spec(now: u64, l: LaunchV) -> Phase {
    if l.whitelist_started_at < now && now < l.whitelist_ended_at {
        Phase::Whitelist
    } else if l.public_started_at < now && now < l.public_ended_at {
        Phase::Public
    } else {
        Phase::Closed
    }
}

/// Classify the current phase of `launch` at time `now`.
pub fn classify(now: u64, launch: &Launch) -> (p: Phase)
    ensures
        p == classify_spec(now, launch@),
{
    if launch.whitelist_started_at < now && now < launch.whitelist_ended_at {
        Phase::Whitelist
    } else if launch.public_started_at < now && now < launch.public_ended_at {
        Phase::Public
    } else {
        Phase::Closed
    }
}

/// Phase exclusivity with whitelist priority: whenever `now` lies strictly
/// inside both configured windows, classification yields `Whitelist`,
/// never `Public`.
pub proof fn lemma_whitelist_priority(now: u64, l: LaunchV)
    requires
        l.whitelist_started_at < now < l.whitelist_ended_at,
        l.public_started_at < now < l.public_ended_at,
    ensures
        classify_spec(now, l) == Phase::Whitelist,
{
}

} // verus!
