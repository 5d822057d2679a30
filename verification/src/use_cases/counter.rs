//! A stand-in signal source that walks through the summaries as it counts.

use vstd::prelude::*;
use crate::domain::state_summary::StateSummary;

verus! {

/// The summary shown for a count: all well at zero, then pending, with a
/// failure behind it at odd counts.
pub open spec fn summary_for_count(count: u32) -> StateSummary {
    if count == 0 {
        StateSummary::Okay
    } else if count % 2 == 0 {
        StateSummary::OkPending
    } else {
        StateSummary::FailurePending
    }
}

pub fn state_for_count(count: u32) -> (state: StateSummary)
    ensures
        state == summary_for_count(count),
{
    if count == 0 {
        StateSummary::Okay
    } else if count % 2 == 0 {
        StateSummary::OkPending
    } else {
        StateSummary::FailurePending
    }
}

} // verus!
