//! The batch orchestrator's decision core.
//!
//! A large identifier set is driven through the fetcher in fixed-size
//! waves: the caller spawns one task per item of a wave, joins them all,
//! records the wave's outcomes here, and paces before the next wave.
//! Failures never abort a wave; they are counted. A full-catalog run
//! first merges, deduplicates and shuffles its package list, so an
//! interrupted run is not biased toward lexicographically early entries.

use vstd::prelude::*;

use crate::utils::{lemma_str_lt_connected, lemma_str_lt_trans, spec_str_lt, str_lt, str_eq};

verus! {

broadcast use vstd::seq_lib::group_to_multiset_ensures;

/// A linear congruential generator: the engine's only source of
/// randomness, used to shuffle the full-catalog list.
pub struct Random {
    pub state: u64,
}

/// One step of the generator.
pub open spec fn spec_lcg_next(s: u64) -> u64 {
    (((s as int) * 1664525 + 1013904223) % 0x10000000000000000) as u64
}

/// Relies on std's `SystemTime::now` and `UNIX_EPOCH`: the instant of the
/// call, as nanoseconds since the epoch, truncated; before the epoch it
/// reads as zero.
#[verifier::external_body]
pub fn unix_time_nanos() -> (r: u64) {
    match std::time::SystemTime::now().duration_since(std::time::UNIX_EPOCH) {
        Ok(d) => d.as_nanos() as u64,
        Err(_) => 0,
    }
}

impl Random {
    /// A generator seeded from the clock.
    pub fn new() -> (r: Random) {
        Random { state: unix_time_nanos() }
    }

    /// Draws the next value.
    pub fn next(&mut self) -> (r: u64)
        ensures
            final(self).state == spec_lcg_next(old(self).state),
            r == final(self).state,
    {
        proof {
            vstd::arithmetic::div_mod::lemma_add_mod_noop(
                (self.state as int) * 1664525,
                1013904223,
                0x10000000000000000,
            );
            assert(1013904223int % 0x10000000000000000 == 1013904223);
        }
        self.state = self.state.wrapping_mul(1664525u64).wrapping_add(1013904223u64);
        self.state
    }
}

/// Shuffles a package list in place with the given seed; the result holds
/// exactly the same entries, with multiplicity.
#[verifier::loop_isolation(false)]
pub fn shuffle_packages(v: &mut Vec<String>, seed: u64)
    ensures
        final(v)@.to_multiset() == old(v)@.to_multiset(),
{
    let n = v.len();
    let mut state: u64 = seed;
    let mut i: usize = 0;
    while i < n
        invariant
            i <= n,
            n == v@.len(),
            v@.to_multiset() == old(v)@.to_multiset(),
        decreases n - i,
    {
        state = state.wrapping_mul(6364136223846793005u64).wrapping_add(1442695040888963407u64);
        let offset = (state % ((n - i) as u64)) as usize;
        let j = i + offset;
        proof {
            assert(offset < n - i);
        }
        let ghost before = v@;
        let a = v[i].clone();
        let b = v[j].clone();
        v.set(i, b);
        v.set(j, a);
        proof {
            let mid = before.update(i as int, before[j as int]);
            assert(v@ =~= mid.update(j as int, before[i as int]));
            assert(mid.to_multiset() == before.to_multiset().insert(before[j as int]).remove(
                before[i as int],
            ));
            assert(v@.to_multiset() == mid.to_multiset().insert(before[i as int]).remove(
                mid[j as int],
            ));
            assert(before.to_multiset().contains(before[i as int]));
            assert(before.to_multiset().contains(before[j as int]));
            assert(v@.to_multiset() =~= before.to_multiset());
        }
        i = i + 1;
    }
}

/// True when the strings are in strictly increasing order: sorted, with
/// no duplicate.
pub open spec fn strictly_sorted_s(s: Seq<String>) -> bool {
    forall|i: int, j: int| 0 <= i < j < s.len() ==> spec_str_lt(#[trigger] s[i]@, #[trigger] s[j]@)
}

/// True when some string of the sequence has the given text.
pub open spec fn contains_s(s: Seq<String>, t: Seq<char>) -> bool {
    exists|i: int| 0 <= i < s.len() && s[i]@ == t
}

/// Merges the configured package list with the stored one, sorts the
/// union and drops duplicates: every package of either list appears
/// exactly once.
#[verifier::loop_isolation(false)]
pub fn merge_packages(configured: &Vec<String>, stored: &Vec<String>) -> (out: Vec<String>)
    ensures
        strictly_sorted_s(out@),
        forall|t: Seq<char>| #[trigger] contains_s(out@, t) == (contains_s(configured@, t)
            || contains_s(stored@, t)),
{
    let mut out: Vec<String> = Vec::new();
    let mut source: usize = 0;
    while source < 2
        invariant
            source <= 2,
            strictly_sorted_s(out@),
            forall|t: Seq<char>| #[trigger] contains_s(out@, t) == ((source >= 1 && contains_s(
                configured@,
                t,
            )) || (source >= 2 && contains_s(stored@, t))),
        decreases 2 - source,
    {
        let input = if source == 0 {
            configured
        } else {
            stored
        };
        let n = input.len();
        let mut i: usize = 0;
        while i < n
            invariant
                i <= n,
                n == input@.len(),
                strictly_sorted_s(out@),
                forall|t: Seq<char>| #[trigger] contains_s(out@, t) == ((source == 1
                    && contains_s(configured@, t)) || contains_s(
                    input@.subrange(0, i as int),
                    t,
                )),
            decreases n - i,
        {
            let x = input[i].clone();
            let m = out.len();
            let mut p: usize = 0;
            while p < m && str_lt(out[p].as_str(), x.as_str())
                invariant
                    p <= m,
                    m == out@.len(),
                    forall|k: int| 0 <= k < p ==> spec_str_lt(#[trigger] out@[k]@, x@),
                decreases m - p,
            {
                p = p + 1;
            }
            let ghost prev = out@;
            let ghost pre = input@.subrange(0, i as int);
            let ghost cur = input@.subrange(0, i + 1);
            proof {
                assert(cur.drop_last() =~= pre);
                assert(cur.last() == input@[i as int]);
                assert(x@ == input@[i as int]@);
                assert forall|t: Seq<char>| #[trigger] contains_s(cur, t) == (contains_s(pre, t)
                    || t == x@) by {
                    if contains_s(cur, t) {
                        let w = choose|w: int| 0 <= w < cur.len() && cur[w]@ == t;
                        if w < pre.len() {
                            assert(pre[w] == cur[w]);
                            assert(contains_s(pre, t));
                        }
                    }
                    if contains_s(pre, t) {
                        let w = choose|w: int| 0 <= w < pre.len() && pre[w]@ == t;
                        assert(cur[w] == pre[w]);
                        assert(contains_s(cur, t));
                    }
                    if t == x@ {
                        assert(cur[i as int]@ == t);
                        assert(contains_s(cur, t));
                    }
                }
            }
            let duplicate = if p < m {
                str_eq(out[p].as_str(), x.as_str())
            } else {
                false
            };
            if duplicate {
                proof {
                    assert(out@[p as int]@ == x@);
                    assert(contains_s(out@, x@));
                }
            } else {
                proof {
                    if p < m {
                        lemma_str_lt_connected(out@[p as int]@, x@);
                        assert(spec_str_lt(x@, out@[p as int]@));
                    }
                    assert forall|k: int| p <= k < m implies spec_str_lt(
                        x@,
                        #[trigger] prev[k]@,
                    ) by {
                        if k > p {
                            assert(spec_str_lt(prev[p as int]@, prev[k]@));
                            lemma_str_lt_trans(x@, prev[p as int]@, prev[k]@);
                        }
                    }
                    assert(!contains_s(prev, x@)) by {
                        if contains_s(prev, x@) {
                            let w = choose|w: int| 0 <= w < prev.len() && prev[w]@ == x@;
                            lemma_str_lt_connected(prev[w]@, x@);
                            if w < p {
                                assert(spec_str_lt(prev[w]@, x@));
                            } else {
                                assert(spec_str_lt(x@, prev[w]@));
                            }
                        }
                    }
                }
                out.insert(p, x);
                proof {
                    assert(out@ =~= prev.insert(p as int, out@[p as int]));
                    let xv = out@[p as int];
                    assert(xv@ == input@[i as int]@);
                    assert forall|a: int, b: int| 0 <= a < b < out@.len() implies spec_str_lt(
                        #[trigger] out@[a]@,
                        #[trigger] out@[b]@,
                    ) by {
                        assert(out@[a] == (if a < p {
                            prev[a]
                        } else if a == p {
                            xv
                        } else {
                            prev[a - 1]
                        }));
                        assert(out@[b] == (if b < p {
                            prev[b]
                        } else if b == p {
                            xv
                        } else {
                            prev[b - 1]
                        }));
                    }
                    assert forall|t: Seq<char>| #[trigger] contains_s(out@, t) == (contains_s(
                        prev,
                        t,
                    ) || t == xv@) by {
                        if contains_s(out@, t) {
                            let w = choose|w: int| 0 <= w < out@.len() && out@[w]@ == t;
                            if w < p {
                                assert(prev[w]@ == t);
                                assert(contains_s(prev, t));
                            } else if w > p {
                                assert(prev[w - 1]@ == t);
                                assert(contains_s(prev, t));
                            }
                        }
                        if contains_s(prev, t) {
                            let w = choose|w: int| 0 <= w < prev.len() && prev[w]@ == t;
                            if w < p {
                                assert(out@[w]@ == t);
                            } else {
                                assert(out@[w + 1]@ == t);
                            }
                            assert(contains_s(out@, t));
                        }
                        if t == xv@ {
                            assert(out@[p as int]@ == t);
                            assert(contains_s(out@, t));
                        }
                    }
                }
            }
            i = i + 1;
        }
        proof {
            assert(input@.subrange(0, n as int) =~= input@);
        }
        source = source + 1;
    }
    out
}

/// How many waves a batch of `n` items makes at this wave size: the
/// division rounded up.
pub fn wave_count(n: usize, wave_size: usize) -> (r: usize)
    requires
        wave_size > 0,
    ensures
        r == n as int / wave_size as int + (if n as int % wave_size as int == 0 {
            0int
        } else {
            1int
        }),
{
    if n % wave_size == 0 {
        n / wave_size
    } else {
        proof {
            vstd::arithmetic::div_mod::lemma_div_is_ordered_by_denominator(
                n as int,
                2,
                wave_size as int,
            );
        }
        n / wave_size + 1
    }
}

/// What one entity's synchronization came to: new rows were written, the
/// record was unchanged, or the fetch or a write failed.
#[derive(Debug, Clone, Copy, PartialEq, Eq, Structural)]
pub enum SyncOutcome {
    Inserted,
    Skipped,
    Failed,
}

/// How many of the outcomes are `Inserted`.
pub open spec fn count_inserted(s: Seq<SyncOutcome>) -> int
    decreases s,
{
    if s.len() == 0 {
        0
    } else {
        count_inserted(s.drop_last()) + (if s.last() is Inserted {
            1int
        } else {
            0int
        })
    }
}

/// How many of the outcomes are `Skipped`.
pub open spec fn count_skipped(s: Seq<SyncOutcome>) -> int
    decreases s,
{
    if s.len() == 0 {
        0
    } else {
        count_skipped(s.drop_last()) + (if s.last() is Skipped {
            1int
        } else {
            0int
        })
    }
}

/// How many of the outcomes are `Failed`.
pub open spec fn count_failed(s: Seq<SyncOutcome>) -> int
    decreases s,
{
    if s.len() == 0 {
        0
    } else {
        count_failed(s.drop_last()) + (if s.last() is Failed {
            1int
        } else {
            0int
        })
    }
}

proof fn lemma_counts_bounded(s: Seq<SyncOutcome>)
    ensures
        0 <= count_inserted(s) <= s.len(),
        0 <= count_skipped(s) <= s.len(),
        0 <= count_failed(s) <= s.len(),
    decreases s.len(),
{
    if s.len() > 0 {
        lemma_counts_bounded(s.drop_last());
    }
}

/// One wave's counters.
pub struct WaveTally {
    pub processed: usize,
    pub inserted: usize,
    pub skipped: usize,
    pub failed: usize,
}

/// Counts one wave's outcomes: every item is processed; each is inserted,
/// skipped or failed.
#[verifier::loop_isolation(false)]
pub fn tally_wave(outcomes: &Vec<SyncOutcome>) -> (r: WaveTally)
    ensures
        r.processed == outcomes@.len(),
        r.inserted == count_inserted(outcomes@),
        r.skipped == count_skipped(outcomes@),
        r.failed == count_failed(outcomes@),
{
    let n = outcomes.len();
    let mut inserted: usize = 0;
    let mut skipped: usize = 0;
    let mut failed: usize = 0;
    let mut i: usize = 0;
    while i < n
        invariant
            i <= n,
            inserted == count_inserted(outcomes@.subrange(0, i as int)),
            skipped == count_skipped(outcomes@.subrange(0, i as int)),
            failed == count_failed(outcomes@.subrange(0, i as int)),
        decreases n - i,
    {
        proof {
            assert(outcomes@.subrange(0, i + 1).drop_last() =~= outcomes@.subrange(0, i as int));
            assert(outcomes@.subrange(0, i + 1).last() == outcomes@[i as int]);
            lemma_counts_bounded(outcomes@.subrange(0, i as int));
        }
        match outcomes[i] {
            SyncOutcome::Inserted => {
                inserted = inserted + 1;
            },
            SyncOutcome::Skipped => {
                skipped = skipped + 1;
            },
            SyncOutcome::Failed => {
                failed = failed + 1;
            },
        }
        i = i + 1;
    }
    proof {
        assert(outcomes@.subrange(0, n as int) =~= outcomes@);
    }
    WaveTally { processed: n, inserted, skipped, failed }
}

/// The run's cumulative counters and instants: monotonic, updated after
/// each wave.
pub struct BatchProgress {
    pub processed: usize,
    pub inserted: usize,
    pub skipped: usize,
    pub failed: usize,
    pub started_at_nanos: u64,
    pub finished_at_nanos: u64,
}

impl BatchProgress {
    /// Fresh counters at the run's start.
    pub fn new(now_nanos: u64) -> (r: BatchProgress)
        ensures
            r.processed == 0,
            r.inserted == 0,
            r.skipped == 0,
            r.failed == 0,
            r.started_at_nanos == now_nanos,
            r.finished_at_nanos == 0,
    {
        BatchProgress {
            processed: 0,
            inserted: 0,
            skipped: 0,
            failed: 0,
            started_at_nanos: now_nanos,
            finished_at_nanos: 0,
        }
    }

    /// Folds one wave's counters in. Counters only grow.
    pub fn record_wave(&mut self, tally: &WaveTally)
        requires
            old(self).processed + tally.processed <= usize::MAX,
            old(self).inserted + tally.inserted <= usize::MAX,
            old(self).skipped + tally.skipped <= usize::MAX,
            old(self).failed + tally.failed <= usize::MAX,
        ensures
            final(self).processed == old(self).processed + tally.processed,
            final(self).inserted == old(self).inserted + tally.inserted,
            final(self).skipped == old(self).skipped + tally.skipped,
            final(self).failed == old(self).failed + tally.failed,
            final(self).started_at_nanos == old(self).started_at_nanos,
            final(self).finished_at_nanos == old(self).finished_at_nanos,
    {
        self.processed = self.processed + tally.processed;
        self.inserted = self.inserted + tally.inserted;
        self.skipped = self.skipped + tally.skipped;
        self.failed = self.failed + tally.failed;
    }

    /// Stamps the run's completion.
    pub fn finish(&mut self, now_nanos: u64)
        ensures
            *final(self) == (BatchProgress { finished_at_nanos: now_nanos, ..*old(self) }),
    {
        self.finished_at_nanos = now_nanos;
    }
}

/// The projected time left for a run: the elapsed time averaged over the
/// waves done so far, times the total wave count, less what has already
/// passed; saturating at the ends.
pub fn estimate_remaining_nanos(elapsed_nanos: u64, waves_done: u64, total_waves: u64) -> (r: u64)
    requires
        waves_done > 0,
    ensures
        ({
            let avg = elapsed_nanos as int / waves_done as int;
            let total = if avg * total_waves <= u64::MAX as int {
                avg * total_waves
            } else {
                u64::MAX as int
            };
            r == if total >= elapsed_nanos {
                total - elapsed_nanos
            } else {
                0int
            }
        }),
{
    let avg = elapsed_nanos / waves_done;
    let total = match avg.checked_mul(total_waves) {
        Some(v) => v,
        None => u64::MAX,
    };
    if total >= elapsed_nanos {
        total - elapsed_nanos
    } else {
        0
    }
}

} // verus!
