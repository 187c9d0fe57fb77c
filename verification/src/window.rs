use vstd::prelude::*;

use crate::ratio::Ratio;

verus! {

/// Sum, in nanoseconds, of a sequence of inter-record durations.
pub open spec fn sum_nanos(s: Seq<u64>) -> int
    decreases s.len(),
{
    if s.len() == 0 {
        0
    } else {
        sum_nanos(s.drop_last()) + s.last()
    }
}

/// The most recent `w` entries of a history — the whole history while it
/// is still shorter than `w`.
pub open spec fn window_tail(durs: Seq<u64>, w: int) -> Seq<u64> {
    if durs.len() <= w {
        durs
    } else {
        durs.subrange(durs.len() - w, durs.len() as int)
    }
}

/// The rolling mean of the last up-to-`w` durations: their exact sum in
/// nanoseconds over their count.
pub open spec fn rolling_avg_of(durs: Seq<u64>, w: int) -> Ratio {
    Ratio {
        num: sum_nanos(window_tail(durs, w)) as u128,
        den: window_tail(durs, w).len() as u128,
    }
}

proof fn lemma_sum_push(s: Seq<u64>, d: u64)
    ensures
        sum_nanos(s.push(d)) == sum_nanos(s) + d,
{
    assert(s.push(d).drop_last() =~= s);
    assert(s.push(d).last() == d);
}

proof fn lemma_sum_drop_first(s: Seq<u64>)
    requires
        s.len() >= 1,
    ensures
        sum_nanos(s) == s[0] + sum_nanos(s.drop_first()),
    decreases s.len(),
{
    if s.len() == 1 {
        assert(s.drop_first() =~= Seq::<u64>::empty());
        assert(s.drop_last() =~= Seq::<u64>::empty());
    } else {
        lemma_sum_drop_first(s.drop_last());
        assert(s.drop_last().drop_first() =~= s.drop_first().drop_last());
        assert(s.drop_first().last() == s.last());
    }
}

proof fn lemma_sum_bounds(s: Seq<u64>)
    ensures
        0 <= sum_nanos(s) <= s.len() * u64::MAX,
    decreases s.len(),
{
    if s.len() == 0 {
    } else {
        lemma_sum_bounds(s.drop_last());
        assert(s.len() * u64::MAX == (s.len() - 1) * u64::MAX + u64::MAX) by (nonlinear_arith);
    }
}

/// A fixed-capacity circular buffer of inter-record durations, together
/// with their running windowed sum. Slots are overwritten oldest first and
/// never reallocated. A capacity of zero means tracking is disabled.
pub struct RollingWindow {
    buf: Vec<u64>,
    sum: u128,
    n: usize,
    hist: Ghost<Seq<u64>>,
}

impl RollingWindow {
    /// The fixed capacity of the window; zero when tracking is disabled.
    pub closed spec fn cap(&self) -> int {
        self.buf@.len() as int
    }

    /// Every duration this window has been fed, oldest first.
    pub closed spec fn hist_spec(&self) -> Seq<u64> {
        self.hist@
    }

    /// The buffer holds the most recent durations at their index modulo
    /// the capacity, the unwritten slots still hold zero, and `sum` is the
    /// exact sum of the durations inside the window.
    pub closed spec fn wf(&self) -> bool {
        let w = self.buf@.len() as int;
        let len = self.hist@.len() as int;
        &&& self.n == len
        &&& (w > 0 ==> {
            &&& self.sum == sum_nanos(window_tail(self.hist@, w))
            &&& (forall|j: int| 0 <= j < len && len - w <= j ==> self.buf@[j % w] == self.hist@[j])
            &&& (forall|i: int| len <= i < w ==> self.buf@[i] == 0)
        })
    }

    /// The fixed capacity of the window; zero when tracking is disabled.
    pub fn capacity(&self) -> (c: usize)
        ensures
            c == self.cap(),
    {
        self.buf.len()
    }

    /// A window that records nothing.
    pub fn disabled() -> (r: RollingWindow)
        ensures
            r.wf(),
            r.cap() == 0,
            r.hist_spec() == Seq::<u64>::empty(),
    {
        RollingWindow { buf: Vec::new(), sum: 0, n: 0, hist: Ghost(Seq::empty()) }
    }

    /// A window of capacity `size`, with nothing recorded yet.
    pub fn new(size: usize) -> (r: RollingWindow)
        requires
            size >= 1,
        ensures
            r.wf(),
            r.cap() == size,
            r.hist_spec() == Seq::<u64>::empty(),
    {
        let mut buf: Vec<u64> = Vec::new();
        let mut i: usize = 0;
        while i < size
            invariant
                i <= size,
                buf@.len() == i,
                forall|j: int| 0 <= j < i ==> buf@[j] == 0,
            decreases size - i,
        {
            buf.push(0);
            i = i + 1;
        }
        RollingWindow { buf, sum: 0, n: 0, hist: Ghost(Seq::empty()) }
    }

    /// Feeds one duration into the window, overwriting the oldest slot,
    /// and returns the new rolling mean.
    pub fn record(&mut self, d: u64) -> (avg: Ratio)
        requires
            old(self).wf(),
            old(self).cap() >= 1,
            old(self).hist_spec().len() < usize::MAX,
        ensures
            final(self).wf(),
            final(self).cap() == old(self).cap(),
            final(self).hist_spec() == old(self).hist_spec().push(d),
            avg == rolling_avg_of(final(self).hist_spec(), final(self).cap()),
    {
        let ghost old_hist = self.hist@;
        let ghost new_hist = old_hist.push(d);
        let w = self.buf.len();
        let j = self.n;
        let idx = j % w;
        let evicted = self.buf[idx];
        proof {
            let wi = w as int;
            let ji = j as int;
            let old_tail = window_tail(old_hist, wi);
            let new_tail = window_tail(new_hist, wi);
            lemma_sum_bounds(old_tail);
            lemma_sum_bounds(new_tail);
            if ji < wi {
                // The slot for this duration has never been written: it
                // still holds zero, and the window simply grows by `d`.
                vstd::arithmetic::div_mod::lemma_small_mod(j as nat, w as nat);
                assert(evicted == 0);
                assert(new_tail =~= old_tail.push(d));
                lemma_sum_push(old_tail, d);
                vstd::arithmetic::mul::lemma_mul_upper_bound(
                    old_tail.len() as int,
                    usize::MAX as int,
                    u64::MAX as int,
                    u64::MAX as int,
                );
            } else {
                // The slot holds the duration that falls out of the window.
                vstd::arithmetic::div_mod::lemma_mod_sub_multiples_vanish(ji, wi);
                assert((ji - wi) % wi == ji % wi);
                assert(self.buf@[(ji - wi) % wi] == old_hist[ji - wi]);
                assert(evicted == old_hist[ji - wi]);
                assert(new_tail =~= old_tail.drop_first().push(d));
                lemma_sum_drop_first(old_tail);
                lemma_sum_push(old_tail.drop_first(), d);
                assert(old_tail[0] == old_hist[ji - wi]);
                lemma_sum_bounds(old_tail.drop_first());
                vstd::arithmetic::mul::lemma_mul_upper_bound(
                    old_tail.drop_first().len() as int,
                    usize::MAX as int,
                    u64::MAX as int,
                    u64::MAX as int,
                );
            }
            vstd::arithmetic::mul::lemma_mul_upper_bound(
                usize::MAX as int,
                u64::MAX as int,
                u64::MAX as int,
                u64::MAX as int,
            );
        }
        self.buf.set(idx, d);
        self.sum = self.sum - (evicted as u128) + (d as u128);
        self.n = j + 1;
        self.hist = Ghost(new_hist);
        proof {
            let wi = w as int;
            let ji = j as int;
            // Every slot of the new window still matches its duration: the
            // one just written matches `d`, and no older in-window index
            // shares its slot, since in-window indices are fewer than the
            // capacity apart.
            assert forall|jj: int|
                0 <= jj < new_hist.len() && new_hist.len() - wi <= jj implies self.buf@[jj % wi]
                == new_hist[jj] by {
                if jj == ji {
                } else {
                    vstd::arithmetic::div_mod::lemma_mod_equivalence(ji, jj, wi);
                    if jj % wi == ji % wi {
                        vstd::arithmetic::div_mod::lemma_small_mod((ji - jj) as nat, w as nat);
                        assert(false);
                    }
                }
            }
            if ji < wi {
                vstd::arithmetic::div_mod::lemma_small_mod(j as nat, w as nat);
            }
        }
        let m = if self.n < w {
            self.n
        } else {
            w
        };
        Ratio { num: self.sum, den: m as u128 }
    }
}

} // verus!
