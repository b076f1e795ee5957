//! The day window: when a call opens a new day, and when it may go on with
//! the one that is open.

use crate::errors::HonoraryError;
use crate::model;
use crate::state::Progress;
use vstd::prelude::*;

verus! {

/// Whether a call at `now_ts` begins a new day.
pub fn is_new_day(progress: &Progress, now_ts: i64) -> (new_day: bool)
    ensures
        new_day == model::is_new_day(*progress, now_ts),
{
    progress.last_distribution_ts == 0 || now_ts as i128 - progress.last_distribution_ts as i128
        >= model::DAY_SECONDS as i128
}

/// Passes the day window at `now_ts` and gives the record to work with: a
/// fresh day where a new one begins, the record unchanged within an open day.
/// Within a day that was closed the call is refused.
pub fn day_window(progress: &Progress, now_ts: i64) -> (entered: Result<Progress, HonoraryError>)
    ensures
        match entered {
            Ok(current) => model::day_window(*progress, now_ts) == Some(current),
            Err(refusal) => refusal == HonoraryError::NotInActiveDay && model::day_window(
                *progress,
                now_ts,
            ) is None,
        },
{
    if is_new_day(progress, now_ts) {
        Ok(
            Progress {
                bump: progress.bump,
                last_distribution_ts: now_ts,
                current_day_cumulative: 0,
                carry_lamports: progress.carry_lamports,
                page_cursor: 0,
                in_day: true,
            },
        )
    } else if progress.in_day {
        Ok(*progress)
    } else {
        Err(HonoraryError::NotInActiveDay)
    }
}

} // verus!
