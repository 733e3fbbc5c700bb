use vstd::prelude::*;

verus! {

/// How often the refresh loop wakes up to look at its schedule, in milliseconds.
pub const TIMER_CHECK_INTERVAL_MS: u64 = 60 * 1000;

/// Delay from the start of the loop to the first fetch: 15 minutes.
pub const API_IP_CHECK_DELAY_MS: u64 = 15 * 60 * 1000;

/// Delay to the next fetch after a successful one: 24 hours.
pub const API_IP_CHECK_INTERVAL_MS: u64 = 24 * 60 * 60 * 1000;

/// Delay to the next fetch after a failed one: 15 minutes.
pub const API_IP_CHECK_ERROR_INTERVAL_MS: u64 = 15 * 60 * 1000;

/// The schedule of the API address refresh loop. Times are milliseconds on
/// a monotonic clock.
pub struct ApiAddressSchedule {
    next_check: u64,
}

/// Whether a wake-up at `now` fetches, given the scheduled time.
pub open spec fn fetch_due(next_check: u64, now: u64) -> bool {
    next_check < now
}

/// The time of the next fetch after one that ended at `now`.
pub open spec fn rescheduled(now: u64, succeeded: bool) -> int {
    if succeeded {
        now + API_IP_CHECK_INTERVAL_MS
    } else {
        now + API_IP_CHECK_ERROR_INTERVAL_MS
    }
}

impl ApiAddressSchedule {
    pub closed spec fn spec_next_check(&self) -> u64 {
        self.next_check
    }

    /// The schedule of a loop started at `start`: the first fetch waits for
    /// the initial delay.
    pub fn new(start: u64) -> (r: Self)
        requires
            start <= u64::MAX - API_IP_CHECK_DELAY_MS,
        ensures
            r.spec_next_check() == start + API_IP_CHECK_DELAY_MS,
    {
        ApiAddressSchedule { next_check: start + API_IP_CHECK_DELAY_MS }
    }

    /// Whether a wake-up at `now` has reached the scheduled time.
    pub fn should_fetch(&self, now: u64) -> (r: bool)
        ensures
            r == fetch_due(self.spec_next_check(), now),
    {
        self.next_check < now
    }

    /// Schedules the next fetch after one that ended at `now`. Whether the
    /// fetched addresses could be stored plays no part.
    pub fn fetch_finished(&mut self, now: u64, succeeded: bool)
        requires
            now <= u64::MAX - API_IP_CHECK_INTERVAL_MS,
        ensures
            final(self).spec_next_check() == rescheduled(now, succeeded),
    {
        if succeeded {
            self.next_check = now + API_IP_CHECK_INTERVAL_MS;
        } else {
            self.next_check = now + API_IP_CHECK_ERROR_INTERVAL_MS;
        }
    }

    /// The scheduled time of the next fetch.
    pub fn next_check(&self) -> (r: u64)
        ensures
            r == self.spec_next_check(),
    {
        self.next_check
    }
}

/// No fetch happens before the initial delay has passed since the start;
/// after a successful fetch the next one waits for the regular interval;
/// after a failed one a wake-up fetches exactly once the shorter error
/// interval has passed. `started` is the schedule `new(start)` gives, and
/// `after_success` / `after_failure` are what `fetch_finished(finished, _)`
/// leaves.
pub proof fn lemma_refresh_timing(
    started: ApiAddressSchedule,
    start: u64,
    after_success: ApiAddressSchedule,
    after_failure: ApiAddressSchedule,
    finished: u64,
    now: u64,
)
    requires
        start <= u64::MAX - API_IP_CHECK_DELAY_MS,
        finished <= u64::MAX - API_IP_CHECK_INTERVAL_MS,
        started.spec_next_check() == start + API_IP_CHECK_DELAY_MS,
        after_success.spec_next_check() == rescheduled(finished, true),
        after_failure.spec_next_check() == rescheduled(finished, false),
    ensures
        now <= start + API_IP_CHECK_DELAY_MS ==> !fetch_due(started.spec_next_check(), now),
        now <= finished + API_IP_CHECK_INTERVAL_MS ==> !fetch_due(
            after_success.spec_next_check(),
            now,
        ),
        fetch_due(after_failure.spec_next_check(), now) <==> now > finished
            + API_IP_CHECK_ERROR_INTERVAL_MS,
        API_IP_CHECK_ERROR_INTERVAL_MS < API_IP_CHECK_INTERVAL_MS,
{
}

} // verus!
