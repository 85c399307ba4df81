use vstd::prelude::*;

verus! {

/// One fixed-window budget: `count` units have been spent out of `limit`
/// since the window opened, and the window closes at `reset_at`
/// (milliseconds since the Unix epoch).
#[derive(Clone, Copy, Debug, PartialEq, Eq, Structural)]
pub struct QuotaWindow {
    pub count: u64,
    pub limit: u64,
    pub window_ms: u64,
    pub reset_at: u64,
}

/// What a quota check reports: whether the amount fits, how much of the
/// budget is left, and the whole seconds until the window resets.
#[derive(Clone, Copy, Debug, PartialEq, Eq, Structural)]
pub struct QuotaDecision {
    pub allowed: bool,
    pub remaining: u64,
    pub reset_in_secs: u64,
}

/// `a + b`, or `u64::MAX` where the sum does not fit.
pub open spec fn sat_add(a: u64, b: u64) -> u64 {
    if a + b > u64::MAX {
        u64::MAX
    } else {
        (a + b) as u64
    }
}

impl QuotaWindow {
    /// The count never runs past the limit.
    pub open spec fn wf(self) -> bool {
        self.count <= self.limit
    }

    /// The window ends more than a full window after `now`: the clock has
    /// been set back since the window opened.
    pub open spec fn stale(self, now: u64) -> bool {
        self.reset_at > now && self.reset_at - now > self.window_ms
    }

    /// The window as it stands at `now`: an expired (or stale) window starts
    /// afresh, closing one full window after `now`.
    pub open spec fn refreshed(self, now: u64) -> QuotaWindow {
        if now >= self.reset_at || self.stale(now) {
            QuotaWindow { count: 0, reset_at: sat_add(now, self.window_ms), ..self }
        } else {
            self
        }
    }

    /// Whether `amount` more units fit in the budget.
    pub open spec fn fits(self, amount: u64) -> bool {
        self.count + amount <= self.limit
    }

    pub open spec fn remaining_spec(self) -> u64 {
        if self.count >= self.limit {
            0
        } else {
            (self.limit - self.count) as u64
        }
    }

    pub open spec fn reset_in_spec(self, now: u64) -> u64 {
        if self.reset_at > now {
            ((self.reset_at - now) / 1000) as u64
        } else {
            0
        }
    }

    /// The window after a check-and-count of `amount` at `now`.
    pub open spec fn counted(self, now: u64, amount: u64) -> QuotaWindow {
        let w = self.refreshed(now);
        if w.fits(amount) {
            QuotaWindow { count: (w.count + amount) as u64, ..w }
        } else {
            w
        }
    }

    /// What a check-and-count of `amount` at `now` reports.
    pub open spec fn decision(self, now: u64, amount: u64) -> QuotaDecision {
        let w = self.refreshed(now);
        let after = self.counted(now, amount);
        QuotaDecision {
            allowed: w.fits(amount),
            remaining: after.remaining_spec(),
            reset_in_secs: after.reset_in_spec(now),
        }
    }

    pub open spec fn new_spec(limit: u64, window_ms: u64) -> QuotaWindow {
        QuotaWindow { count: 0, limit, window_ms, reset_at: 0 }
    }

    /// A window that has not opened yet: the first use opens it.
    pub fn new(limit: u64, window_ms: u64) -> (r: QuotaWindow)
        ensures
            r.wf(),
            r == QuotaWindow::new_spec(limit, window_ms),
    {
        QuotaWindow { count: 0, limit, window_ms, reset_at: 0 }
    }

    /// Starts a new window if the current one has expired at `now`.
    pub fn refresh(&mut self, now: u64)
        requires
            old(self).wf(),
        ensures
            final(self).wf(),
            *final(self) == old(self).refreshed(now),
    {
        if now >= self.reset_at || self.reset_at - now > self.window_ms {
            self.count = 0;
            self.reset_at = now.saturating_add(self.window_ms);
        }
    }

    /// The budget left, never below zero.
    pub fn remaining(&self) -> (r: u64)
        ensures
            r == self.remaining_spec(),
    {
        self.limit.saturating_sub(self.count)
    }

    /// Seen from `now`, a refreshed window resets within one window length.
    pub proof fn lemma_reset_within_window(self, now: u64)
        ensures
            self.refreshed(now).reset_in_spec(now) <= self.window_ms / 1000,
    {
        let w = self.refreshed(now);
        if w.reset_at > now {
            assert(w.reset_at - now <= self.window_ms);
            assert((w.reset_at - now) / 1000 <= self.window_ms / 1000) by (nonlinear_arith)
                requires
                    w.reset_at - now <= self.window_ms,
            ;
        }
    }

    /// Whole seconds until the window resets, seen from `now`.
    pub fn reset_in_secs(&self, now: u64) -> (r: u64)
        ensures
            r == self.reset_in_spec(now),
    {
        if self.reset_at > now {
            (self.reset_at - now) / 1000
        } else {
            0
        }
    }

    /// Refreshes the window and tells whether `amount` more units would
    /// fit, without spending them.
    pub fn would_allow(&mut self, now: u64, amount: u64) -> (r: bool)
        requires
            old(self).wf(),
        ensures
            final(self).wf(),
            *final(self) == old(self).refreshed(now),
            r == old(self).refreshed(now).fits(amount),
    {
        self.refresh(now);
        amount <= self.limit - self.count
    }

    /// Refreshes the window, then spends `amount` if it fits; a refused
    /// amount leaves the count as it was.
    pub fn check_and_count(&mut self, now: u64, amount: u64) -> (r: QuotaDecision)
        requires
            old(self).wf(),
        ensures
            final(self).wf(),
            *final(self) == old(self).counted(now, amount),
            r == old(self).decision(now, amount),
    {
        self.refresh(now);
        let allowed = amount <= self.limit - self.count;
        if allowed {
            self.count = self.count + amount;
        }
        QuotaDecision {
            allowed,
            remaining: self.remaining(),
            reset_in_secs: self.reset_in_secs(now),
        }
    }
}


/// The window after one-unit check-and-counts at each of `times`, in order.
pub open spec fn counted_each(w: QuotaWindow, times: Seq<u64>) -> QuotaWindow
    decreases times.len(),
{
    if times.len() == 0 {
        w
    } else {
        counted_each(w, times.drop_last()).counted(times.last(), 1)
    }
}

proof fn lemma_counted_each_before_expiry(w: QuotaWindow, times: Seq<u64>)
    requires
        w.wf(),
        w.count + times.len() <= w.limit,
        forall|i: int| 0 <= i < times.len() ==> times[i] < w.reset_at && w.reset_at - times[i] <= w.window_ms,
    ensures
        counted_each(w, times) == (QuotaWindow { count: (w.count + times.len()) as u64, ..w }),
        forall|i: int|
            0 <= i < times.len() ==> (#[trigger] counted_each(w, times.take(i))).decision(
                times[i],
                1,
            ).allowed,
    decreases times.len(),
{
    if times.len() > 0 {
        let front = times.drop_last();
        assert forall|i: int| 0 <= i < front.len() implies front[i] < w.reset_at && w.reset_at - front[i] <= w.window_ms by {
            assert(front[i] == times[i]);
        }
        lemma_counted_each_before_expiry(w, front);
        assert forall|i: int|
            0 <= i < times.len() implies (#[trigger] counted_each(w, times.take(i))).decision(
            times[i],
            1,
        ).allowed by {
            if i < front.len() {
                assert(times.take(i) =~= front.take(i));
                assert(front[i] == times[i]);
            } else {
                assert(times.take(i) =~= front);
            }
        }
    }
}

/// With a limit of N and an unspent window, N one-unit requests within the
/// window are all allowed; a further one within it is refused with nothing
/// remaining, and once the window has expired the next one is allowed,
/// leaves a fresh count of one and opens a window one length from then.
pub proof fn lemma_quota_exhausts_then_resets(
    w: QuotaWindow,
    times: Seq<u64>,
    before_expiry: u64,
    after_expiry: u64,
)
    requires
        w.wf(),
        w.count == 0,
        w.limit == times.len(),
        forall|i: int| 0 <= i < times.len() ==> times[i] < w.reset_at && w.reset_at - times[i] <= w.window_ms,
        before_expiry < w.reset_at,
        w.reset_at - before_expiry <= w.window_ms,
        after_expiry >= w.reset_at,
    ensures
        forall|i: int|
            0 <= i < times.len() ==> (#[trigger] counted_each(w, times.take(i))).decision(
                times[i],
                1,
            ).allowed,
        counted_each(w, times).count == w.limit,
        !counted_each(w, times).decision(before_expiry, 1).allowed,
        counted_each(w, times).decision(before_expiry, 1).remaining == 0,
        counted_each(w, times).counted(before_expiry, 1) == counted_each(w, times),
        counted_each(w, times).counted(after_expiry, 1).count <= 1,
        w.limit >= 1 ==> counted_each(w, times).decision(after_expiry, 1).allowed,
        w.limit >= 1 ==> counted_each(w, times).counted(after_expiry, 1).count == 1,
        counted_each(w, times).counted(after_expiry, 1).reset_at == sat_add(after_expiry, w.window_ms),
{
    lemma_counted_each_before_expiry(w, times);
}

} // verus!
