//! The circuit-breaker registry for watch mode: per-endpoint
//! consecutive-failure counts and cooldown deadlines, aligned by index with
//! the run's endpoint list. The watch loop consults it before each iteration
//! to exclude endpoints whose breaker is open, and feeds each run's summary
//! back into it afterwards. Time enters as a plain millisecond value, so the
//! whole state machine is decided here.

use vstd::prelude::*;

verus! {

/// Per-endpoint breaker record: consecutive-failure count, and the cooldown
/// deadline armed once the count reaches the threshold.
#[derive(Debug, Clone, Copy)]
pub struct BreakerEntry {
    pub fails: u32,
    pub open_until_ms: Option<u64>,
}

/// `now + cooldown`, saturating at the largest representable instant.
pub open spec fn deadline_spec(now_ms: u64, cooldown_ms: u64) -> u64 {
    if now_ms + cooldown_ms <= u64::MAX {
        (now_ms + cooldown_ms) as u64
    } else {
        u64::MAX
    }
}

/// One entry's state after a run: on a run with any failure the count rises
/// by one (saturating) and a count at or above the threshold (re)arms the
/// cooldown deadline; a fully clean run clears the entry.
pub open spec fn entry_after_run(
    e: BreakerEntry,
    any_down: bool,
    threshold: u32,
    cooldown_ms: u64,
    now_ms: u64,
) -> BreakerEntry {
    if any_down {
        let f = if e.fails < u32::MAX {
            (e.fails + 1) as u32
        } else {
            u32::MAX
        };
        BreakerEntry {
            fails: f,
            open_until_ms: if f >= threshold {
                Some(deadline_spec(now_ms, cooldown_ms))
            } else {
                e.open_until_ms
            },
        }
    } else {
        BreakerEntry { fails: 0, open_until_ms: None }
    }
}

/// The per-endpoint circuit breaker state for one watch loop.
#[derive(Debug, Clone)]
pub struct BreakerRegistry {
    pub entries: Vec<BreakerEntry>,
    pub threshold: u32,
    pub cooldown_ms: u64,
}

impl BreakerRegistry {
    /// A fresh registry for `n` endpoints: no failures recorded, nothing open.
    pub fn new(n: usize, threshold: u32, cooldown_ms: u64) -> (r: Self)
        ensures
            r.entries@.len() == n,
            forall|i: int|
                0 <= i < n ==> (#[trigger] r.entries@[i]).fails == 0 && r.entries@[i].open_until_ms
                    is None,
            r.threshold == threshold,
            r.cooldown_ms == cooldown_ms,
    {
        let mut entries: Vec<BreakerEntry> = Vec::new();
        let mut i: usize = 0;
        while i < n
            invariant
                i <= n,
                entries@.len() == i,
                forall|j: int|
                    0 <= j < i ==> (#[trigger] entries@[j]).fails == 0
                        && entries@[j].open_until_ms is None,
            decreases n - i,
        {
            entries.push(BreakerEntry { fails: 0, open_until_ms: None });
            i += 1;
        }
        BreakerRegistry { entries, threshold, cooldown_ms }
    }

    /// Whether endpoint `i` is excluded at `now_ms`: its failure count has
    /// reached the threshold and its cooldown deadline is still ahead. An
    /// expired deadline no longer excludes, which closes the breaker lazily.
    pub open spec fn is_open_spec(self, i: int, now_ms: u64) -> bool {
        &&& self.entries@[i].fails >= self.threshold
        &&& match self.entries@[i].open_until_ms {
            Some(d) => now_ms < d,
            None => false,
        }
    }

    /// Consults one endpoint's breaker state at `now_ms`.
    pub fn is_open(&self, i: usize, now_ms: u64) -> (r: bool)
        requires
            i < self.entries@.len(),
        ensures
            r == self.is_open_spec(i as int, now_ms),
    {
        let e = &self.entries[i];
        e.fails >= self.threshold && match e.open_until_ms {
            Some(d) => now_ms < d,
            None => false,
        }
    }

    /// The endpoint indices below `n` that the breaker admits at `now_ms`,
    /// in increasing order.
    pub open spec fn allowed_upto(self, n: int, now_ms: u64) -> Seq<usize>
        decreases n,
    {
        if n <= 0 {
            Seq::empty()
        } else if self.is_open_spec(n - 1, now_ms) {
            self.allowed_upto(n - 1, now_ms)
        } else {
            self.allowed_upto(n - 1, now_ms).push((n - 1) as usize)
        }
    }

    /// Consultation before an iteration: the indices of the endpoints to
    /// probe, excluding exactly those whose breaker is open at `now_ms`.
    pub fn allowed_indices(&self, now_ms: u64) -> (r: Vec<usize>)
        ensures
            r@ == self.allowed_upto(self.entries@.len() as int, now_ms),
            forall|j: int| 0 <= j < r@.len() ==> #[trigger] r@[j] < self.entries@.len(),
    {
        let mut r: Vec<usize> = Vec::new();
        let mut i: usize = 0;
        while i < self.entries.len()
            invariant
                i <= self.entries@.len(),
                r@ == self.allowed_upto(i as int, now_ms),
            decreases self.entries@.len() - i,
        {
            if !self.is_open(i, now_ms) {
                r.push(i);
            }
            i += 1;
        }
        proof {
            assert forall|j: int| 0 <= j < r@.len() implies #[trigger] r@[j]
                < self.entries@.len() by {
                self.lemma_allowed_in_range(self.entries@.len() as int, now_ms, j);
            }
        }
        r
    }

    /// The consultation contract: an endpoint below `n` is admitted if and
    /// only if its breaker is not open at `now_ms`.
    pub proof fn lemma_allowed_iff_not_open(self, n: int, now_ms: u64, i: usize)
        requires
            0 <= i < n,
            n <= usize::MAX as int + 1,
        ensures
            self.allowed_upto(n, now_ms).contains(i) <==> !self.is_open_spec(i as int, now_ms),
        decreases n,
    {
        let all = self.allowed_upto(n, now_ms);
        let pre = self.allowed_upto(n - 1, now_ms);
        if i < n - 1 {
            self.lemma_allowed_iff_not_open(n - 1, now_ms, i);
            if !self.is_open_spec(n - 1, now_ms) {
                assert(all == pre.push((n - 1) as usize));
                if pre.contains(i) {
                    let w = choose|w: int| 0 <= w < pre.len() && pre[w] == i;
                    assert(all[w] == i);
                }
                if all.contains(i) {
                    let w = choose|w: int| 0 <= w < all.len() && all[w] == i;
                    if w == pre.len() as int {
                        assert(all[w] == (n - 1) as usize);
                    }
                    assert(w < pre.len());
                    assert(pre[w] == i);
                }
            }
        } else {
            if !self.is_open_spec(n - 1, now_ms) {
                assert(all[all.len() - 1] == i);
            } else {
                if all.contains(i) {
                    let w = choose|w: int| 0 <= w < all.len() && all[w] == i;
                    self.lemma_allowed_in_range(n - 1, now_ms, w);
                }
            }
        }
    }

    /// Every index the breaker admits below `n` is itself below `n`.
    pub proof fn lemma_allowed_in_range(self, n: int, now_ms: u64, w: int)
        requires
            0 <= w < self.allowed_upto(n, now_ms).len(),
        ensures
            0 <= self.allowed_upto(n, now_ms)[w] < n,
        decreases n,
    {
        if n > 0 {
            let pre = self.allowed_upto(n - 1, now_ms);
            if w < pre.len() {
                self.lemma_allowed_in_range(n - 1, now_ms, w);
            }
        }
    }

    /// Breaker bookkeeping after a run, driven by the run's summary alone:
    /// when the run reported any down endpoint, every entry advances by
    /// `entry_after_run`; a run with zero downs clears every entry.
    pub fn record_run(&mut self, any_down: bool, now_ms: u64)
        ensures
            final(self).entries@.len() == old(self).entries@.len(),
            final(self).threshold == old(self).threshold,
            final(self).cooldown_ms == old(self).cooldown_ms,
            forall|i: int|
                0 <= i < old(self).entries@.len() ==> #[trigger] final(self).entries@[i]
                    == entry_after_run(
                    old(self).entries@[i],
                    any_down,
                    old(self).threshold,
                    old(self).cooldown_ms,
                    now_ms,
                ),
    {
        let n = self.entries.len();
        let mut i: usize = 0;
        while i < n
            invariant
                i <= n,
                n == self.entries@.len(),
                self.threshold == old(self).threshold,
                self.cooldown_ms == old(self).cooldown_ms,
                self.entries@.len() == old(self).entries@.len(),
                forall|j: int|
                    0 <= j < i ==> #[trigger] self.entries@[j] == entry_after_run(
                        old(self).entries@[j],
                        any_down,
                        old(self).threshold,
                        old(self).cooldown_ms,
                        now_ms,
                    ),
                forall|j: int| i <= j < n ==> #[trigger] self.entries@[j] == old(self).entries@[j],
            decreases n - i,
        {
            let e = self.entries[i];
            let updated = if any_down {
                let f = if e.fails < u32::MAX {
                    e.fails + 1
                } else {
                    u32::MAX
                };
                let open_until_ms = if f >= self.threshold {
                    let deadline = if self.cooldown_ms > u64::MAX - now_ms {
                        u64::MAX
                    } else {
                        now_ms + self.cooldown_ms
                    };
                    Some(deadline)
                } else {
                    e.open_until_ms
                };
                BreakerEntry { fails: f, open_until_ms }
            } else {
                BreakerEntry { fails: 0, open_until_ms: None }
            };
            self.entries[i] = updated;
            i += 1;
        }
    }
}

} // verus!
