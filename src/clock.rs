use vstd::prelude::*;

use chrono::Timelike;

use crate::schedule::TimeOfDay;

verus! {

/// Relies on chrono::Local::now for the current local time, and on
/// chrono::Timelike's hour (0 to 23), minute (0 to 59) and second (0 to 59,
/// also during a leap second) to read its time of day.
#[verifier::external_body]
pub(crate) fn local_time_of_day() -> (r: TimeOfDay)
    ensures
        r.wf(),
{
    let now = chrono::Local::now();
    TimeOfDay { hour: now.hour(), minute: now.minute(), second: now.second() }
}

} // verus!
