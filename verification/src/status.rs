//! Live progress of a full-catalog run, for status reporting.
//!
//! The orchestrator owns one state value and publishes it after each
//! wave; a reporting consumer reads it. All instants are nanoseconds
//! since the epoch and are handed in by the caller.

use vstd::prelude::*;

verus! {

/// The run's counters and instants. Zero instants mean "never".
pub struct GlobalSyncStatus {
    pub is_syncing_all: bool,
    pub current_progress: usize,
    pub total_packages: usize,
    pub total_processed: usize,
    pub total_inserted: usize,
    pub total_skipped: usize,
    pub total_failed: usize,
    pub start_time_nanos: u64,
    pub last_complete_time_nanos: u64,
}

/// A fully cleared status value.
pub open spec fn spec_status_cleared(s: GlobalSyncStatus) -> bool {
    &&& !s.is_syncing_all
    &&& s.current_progress == 0
    &&& s.total_packages == 0
    &&& s.total_processed == 0
    &&& s.total_inserted == 0
    &&& s.total_skipped == 0
    &&& s.total_failed == 0
    &&& s.start_time_nanos == 0
    &&& s.last_complete_time_nanos == 0
}

impl GlobalSyncStatus {
    /// A status value before any run.
    pub fn new() -> (r: GlobalSyncStatus)
        ensures
            spec_status_cleared(r),
    {
        GlobalSyncStatus {
            is_syncing_all: false,
            current_progress: 0,
            total_packages: 0,
            total_processed: 0,
            total_inserted: 0,
            total_skipped: 0,
            total_failed: 0,
            start_time_nanos: 0,
            last_complete_time_nanos: 0,
        }
    }

    /// Stamps the run's start.
    pub fn set_start_time(&mut self, now_nanos: u64)
        ensures
            *final(self) == (GlobalSyncStatus { start_time_nanos: now_nanos, ..*old(self) }),
    {
        self.start_time_nanos = now_nanos;
    }

    /// Stamps the run's completion.
    pub fn set_complete_time(&mut self, now_nanos: u64)
        ensures
            *final(self) == (GlobalSyncStatus {
                last_complete_time_nanos: now_nanos,
                ..*old(self)
            }),
    {
        self.last_complete_time_nanos = now_nanos;
    }
}

/// What status reporting shows: the counters, the elapsed and projected
/// run time, and the countdown to the next scheduled run, all in
/// nanoseconds.
pub struct SyncStatusInfo {
    pub is_syncing_all: bool,
    pub progress: (usize, usize),
    pub total_processed: usize,
    pub total_inserted: usize,
    pub total_skipped: usize,
    pub total_failed: usize,
    pub elapsed_time: Option<u64>,
    pub estimated_total_time: Option<u64>,
    pub next_sync_countdown: Option<u64>,
}

/// The elapsed run time at a given instant: none before any run; while a
/// run is on, or when one started but never finished, the time since its
/// start; after a finished run, its duration. A clock that moved
/// backwards reads as zero.
pub open spec fn spec_elapsed(s: GlobalSyncStatus, now_nanos: u64) -> Option<u64> {
    if s.start_time_nanos == 0 {
        None
    } else if s.is_syncing_all || s.last_complete_time_nanos == 0 {
        if now_nanos >= s.start_time_nanos {
            Some((now_nanos - s.start_time_nanos) as u64)
        } else {
            Some(0u64)
        }
    } else {
        if s.last_complete_time_nanos >= s.start_time_nanos {
            Some((s.last_complete_time_nanos - s.start_time_nanos) as u64)
        } else {
            Some(0u64)
        }
    }
}

/// The projected total run time: the elapsed time averaged over the items
/// done so far, times the item count, saturating; none before anything
/// was done.
pub open spec fn spec_estimated(s: GlobalSyncStatus, now_nanos: u64) -> Option<u64> {
    match spec_elapsed(s, now_nanos) {
        Some(elapsed) => if s.current_progress > 0 {
            if (elapsed as int / s.current_progress as int) * s.total_packages as int
                <= u64::MAX as int {
                Some(((elapsed as int / s.current_progress as int) * s.total_packages) as u64)
            } else {
                Some(u64::MAX)
            }
        } else {
            None
        },
        None => None,
    }
}

/// The countdown to the next scheduled run: only between runs, and only
/// once a run has completed; zero once the schedule has passed.
pub open spec fn spec_countdown(s: GlobalSyncStatus, now_nanos: u64, interval_secs: u64) -> Option<
    u64,
> {
    if !s.is_syncing_all && s.last_complete_time_nanos > 0 {
        let next_i = s.last_complete_time_nanos + interval_secs * 1000000000;
        let next = if next_i > u64::MAX as int {
            u64::MAX as int
        } else {
            next_i
        };
        if next >= now_nanos {
            Some((next - now_nanos) as u64)
        } else {
            Some(0u64)
        }
    } else {
        None
    }
}

/// Reads the status out for reporting, at the given instant and with the
/// configured interval between runs.
pub fn get_sync_status(s: &GlobalSyncStatus, now_nanos: u64, interval_secs: u64) -> (r:
    SyncStatusInfo)
    ensures
        r.is_syncing_all == s.is_syncing_all,
        r.progress == (s.current_progress, s.total_packages),
        r.total_processed == s.total_processed,
        r.total_inserted == s.total_inserted,
        r.total_skipped == s.total_skipped,
        r.total_failed == s.total_failed,
        r.elapsed_time == spec_elapsed(*s, now_nanos),
        r.estimated_total_time == spec_estimated(*s, now_nanos),
        r.next_sync_countdown == spec_countdown(*s, now_nanos, interval_secs),
{
    let elapsed: Option<u64> = if s.start_time_nanos == 0 {
        None
    } else if s.is_syncing_all || s.last_complete_time_nanos == 0 {
        Some(
            if now_nanos >= s.start_time_nanos {
                now_nanos - s.start_time_nanos
            } else {
                0
            },
        )
    } else {
        Some(
            if s.last_complete_time_nanos >= s.start_time_nanos {
                s.last_complete_time_nanos - s.start_time_nanos
            } else {
                0
            },
        )
    };
    let estimated: Option<u64> = match elapsed {
        Some(e) => if s.current_progress > 0 {
            let avg = e / (s.current_progress as u64);
            Some(
                match avg.checked_mul(s.total_packages as u64) {
                    Some(v) => v,
                    None => u64::MAX,
                },
            )
        } else {
            None
        },
        None => None,
    };
    let countdown: Option<u64> = if !s.is_syncing_all && s.last_complete_time_nanos > 0 {
        let gap = match interval_secs.checked_mul(1000000000) {
            Some(v) => v,
            None => u64::MAX,
        };
        let next = match s.last_complete_time_nanos.checked_add(gap) {
            Some(v) => v,
            None => u64::MAX,
        };
        if next >= now_nanos {
            Some(next - now_nanos)
        } else {
            Some(0)
        }
    } else {
        None
    };
    SyncStatusInfo {
        is_syncing_all: s.is_syncing_all,
        progress: (s.current_progress, s.total_packages),
        total_processed: s.total_processed,
        total_inserted: s.total_inserted,
        total_skipped: s.total_skipped,
        total_failed: s.total_failed,
        elapsed_time: elapsed,
        estimated_total_time: estimated,
        next_sync_countdown: countdown,
    }
}

/// Clears the status entirely.
pub fn reset_sync_status(s: &mut GlobalSyncStatus)
    ensures
        spec_status_cleared(*final(s)),
{
    s.is_syncing_all = false;
    s.current_progress = 0;
    s.total_packages = 0;
    s.total_processed = 0;
    s.total_inserted = 0;
    s.total_skipped = 0;
    s.total_failed = 0;
    s.start_time_nanos = 0;
    s.last_complete_time_nanos = 0;
}

/// Marks a run as started over the given item count: counters cleared,
/// the start stamped, the completion stamp left as it was.
pub fn start_sync_all(s: &mut GlobalSyncStatus, total_packages: usize, now_nanos: u64)
    ensures
        final(s).is_syncing_all,
        final(s).total_packages == total_packages,
        final(s).current_progress == 0,
        final(s).total_processed == 0,
        final(s).total_inserted == 0,
        final(s).total_skipped == 0,
        final(s).total_failed == 0,
        final(s).start_time_nanos == now_nanos,
        final(s).last_complete_time_nanos == old(s).last_complete_time_nanos,
{
    s.is_syncing_all = true;
    s.total_packages = total_packages;
    s.current_progress = 0;
    s.total_processed = 0;
    s.total_inserted = 0;
    s.total_skipped = 0;
    s.total_failed = 0;
    s.set_start_time(now_nanos);
}

/// Publishes the cumulative counters after a wave.
pub fn update_sync_progress(
    s: &mut GlobalSyncStatus,
    current: usize,
    processed: usize,
    inserted: usize,
    skipped: usize,
    failed: usize,
)
    ensures
        *final(s) == (GlobalSyncStatus {
            current_progress: current,
            total_processed: processed,
            total_inserted: inserted,
            total_skipped: skipped,
            total_failed: failed,
            ..*old(s)
        }),
{
    s.current_progress = current;
    s.total_processed = processed;
    s.total_inserted = inserted;
    s.total_skipped = skipped;
    s.total_failed = failed;
}

/// Marks the run as over and stamps its completion.
pub fn end_sync_all(s: &mut GlobalSyncStatus, now_nanos: u64)
    ensures
        !final(s).is_syncing_all,
        final(s).last_complete_time_nanos == now_nanos,
        *final(s) == (GlobalSyncStatus {
            is_syncing_all: false,
            last_complete_time_nanos: now_nanos,
            ..*old(s)
        }),
{
    s.is_syncing_all = false;
    s.set_complete_time(now_nanos);
}

} // verus!
