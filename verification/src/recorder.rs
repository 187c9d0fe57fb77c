use vstd::prelude::*;

use crate::clock;
use crate::exp::exp_fold;
use crate::exp::ExpAverage;
use crate::ratio::Ratio;
use crate::record::ProgressRecord;
use crate::source::ProgressSource;
use crate::window::rolling_avg_of;
use crate::window::RollingWindow;

verus! {

/// The timestamp a first record measures its step against: zero, the
/// construction time.
pub open spec fn prev_or_zero(prev: Option<u64>) -> u64 {
    match prev {
        Some(p) => p,
        None => 0,
    }
}

/// A decorator that wraps a source, keeps O(1) bookkeeping per pull, and
/// materializes a [`ProgressRecord`] on every `k`-th pull (`k` fixed at
/// construction); pulls off the boundary yield `None` in place of a
/// record but still advance the running count. Termination is driven
/// entirely by the wrapped source.
pub struct OptionalProgressRecorderIter<I: ProgressSource> {
    iter: I,
    count: usize,
    generate_every_count: usize,
    previous_nanos: Option<u64>,
    rolling: RollingWindow,
    exp: Option<ExpAverage>,
    assumed_size: Option<usize>,
    fake_now: Option<u64>,
    origin: std::time::Instant,
    durations: Ghost<Seq<u64>>,
}

impl<I: ProgressSource> OptionalProgressRecorderIter<I> {
    /// The wrapped source, exactly as the pulls so far have left it.
    pub closed spec fn iter_spec(&self) -> I {
        self.iter
    }

    /// How many elements have been pulled through this decorator.
    pub closed spec fn count_spec(&self) -> usize {
        self.count
    }

    /// The sampling factor `k`: a record is materialized on every `k`-th
    /// pull.
    pub closed spec fn every_spec(&self) -> usize {
        self.generate_every_count
    }

    /// The timestamp (nanoseconds since construction) of the last
    /// materialized record; `None` until one is materialized.
    pub closed spec fn prev_spec(&self) -> Option<u64> {
        self.previous_nanos
    }

    /// The rolling-window capacity, or `None` while rolling-average
    /// tracking is disabled.
    pub closed spec fn window_spec(&self) -> Option<usize> {
        if self.rolling.cap() == 0 {
            None
        } else {
            Some(self.rolling.cap() as usize)
        }
    }

    /// The exponential smoothing factor, or `None` while exponential
    /// tracking is disabled.
    pub closed spec fn alpha_spec(&self) -> Option<Ratio> {
        match self.exp {
            Some(e) => Some(e.alpha_spec()),
            None => None,
        }
    }

    /// The current exponentially smoothed duration, if tracked and seen.
    pub closed spec fn exp_avg_spec(&self) -> Option<u64> {
        match self.exp {
            Some(e) => e.avg_spec(),
            None => None,
        }
    }

    /// The consumer-supplied total size, if any.
    pub closed spec fn assumed_size_spec(&self) -> Option<usize> {
        self.assumed_size
    }

    /// The injected timestamp the next pull will use in place of a real
    /// clock reading, if one is pending.
    pub closed spec fn fake_now_spec(&self) -> Option<u64> {
        self.fake_now
    }

    /// Every inter-record duration observed so far, oldest first: the
    /// differences between the timestamps of successive materialized
    /// records.
    pub closed spec fn durations_spec(&self) -> Seq<u64> {
        self.durations@
    }

    /// How many records have been materialized: one per `k` pulls.
    pub open spec fn emitted_spec(&self) -> int {
        self.count_spec() as int / self.every_spec() as int
    }

    /// The decorator's invariant: the sampling factor is positive, a
    /// record has been materialized iff a previous timestamp is held, the
    /// duration history has one entry per materialized record after the
    /// first, and both statistic trackers are well formed and fed exactly
    /// that history.
    pub closed spec fn wf(&self) -> bool {
        &&& self.generate_every_count >= 1
        &&& self.rolling.wf()
        &&& (self.rolling.cap() > 0 ==> self.rolling.hist_spec() == self.durations@)
        &&& (self.rolling.cap() == 0 ==> self.rolling.hist_spec() == Seq::<u64>::empty())
        &&& (match self.exp {
            Some(e) => e.wf() && e.hist_spec() == self.durations@,
            None => true,
        })
        &&& (self.previous_nanos is Some <==> self.emitted_spec() >= 1)
        &&& self.durations@.len() == if self.emitted_spec() == 0 {
            0int
        } else {
            self.emitted_spec() - 1
        }
    }

    /// Wraps `iter`, materializing a record on every
    /// `generate_every_count`-th pull.
    pub fn new(iter: I, generate_every_count: usize) -> (r: Self)
        requires
            generate_every_count >= 1,
        ensures
            r.wf(),
            r.iter_spec() == iter,
            r.count_spec() == 0,
            r.every_spec() == generate_every_count,
            r.prev_spec() is None,
            r.window_spec() is None,
            r.alpha_spec() is None,
            r.assumed_size_spec() is None,
            r.fake_now_spec() is None,
            r.durations_spec() == Seq::<u64>::empty(),
    {
        proof {
            vstd::arithmetic::div_mod::lemma_div_of0(generate_every_count as int);
        }
        OptionalProgressRecorderIter {
            iter,
            count: 0,
            generate_every_count,
            previous_nanos: None,
            rolling: RollingWindow::disabled(),
            exp: None,
            assumed_size: None,
            fake_now: None,
            origin: std::time::Instant::now(),
            durations: Ghost(Seq::empty()),
        }
    }

    /// Enables rolling-average tracking over a window of `size` entries,
    /// or disables it with `None`, replacing any earlier setting. Part of
    /// the builder surface: used before the first pull.
    pub fn with_rolling_average(self, size: Option<usize>) -> (r: Self)
        requires
            self.wf(),
            self.count_spec() == 0,
            (size matches Some(s) ==> s >= 1),
        ensures
            r.wf(),
            r.window_spec() == size,
            r.iter_spec() == self.iter_spec(),
            r.count_spec() == 0,
            r.every_spec() == self.every_spec(),
            r.prev_spec() is None,
            r.alpha_spec() == self.alpha_spec(),
            r.assumed_size_spec() == self.assumed_size_spec(),
            r.fake_now_spec() == self.fake_now_spec(),
            r.durations_spec() == Seq::<u64>::empty(),
    {
        proof {
            vstd::arithmetic::div_mod::lemma_div_of0(self.every_spec() as int);
            assert(self.durations_spec() =~= Seq::<u64>::empty());
        }
        let mut res = self;
        res.rolling = match size {
            Some(s) => RollingWindow::new(s),
            None => RollingWindow::disabled(),
        };
        res
    }

    /// Enables exponential-average tracking with the smoothing factor
    /// `rate` in `(0, 1]` (a small factor smooths heavily), or disables it
    /// with `None`, replacing any earlier setting. Part of the builder
    /// surface: used before the first pull.
    pub fn with_exp_average(self, rate: Option<Ratio>) -> (r: Self)
        requires
            self.wf(),
            self.count_spec() == 0,
            (rate matches Some(a) ==> 1 <= a.num <= a.den <= u64::MAX),
        ensures
            r.wf(),
            r.alpha_spec() == rate,
            r.exp_avg_spec() is None,
            r.iter_spec() == self.iter_spec(),
            r.count_spec() == 0,
            r.every_spec() == self.every_spec(),
            r.prev_spec() is None,
            r.window_spec() == self.window_spec(),
            r.assumed_size_spec() == self.assumed_size_spec(),
            r.fake_now_spec() == self.fake_now_spec(),
            r.durations_spec() == Seq::<u64>::empty(),
    {
        proof {
            vstd::arithmetic::div_mod::lemma_div_of0(self.every_spec() as int);
            assert(self.durations_spec() =~= Seq::<u64>::empty());
        }
        let mut res = self;
        res.exp = match rate {
            Some(a) => Some(ExpAverage::new(a)),
            None => None,
        };
        res
    }

    /// Sets the assumed total size used when the source reports no exact
    /// bound, or clears it with `None`, replacing any earlier setting.
    pub fn assume_size(self, size: Option<usize>) -> (r: Self)
        requires
            self.wf(),
        ensures
            r.wf(),
            r.assumed_size_spec() == size,
            r.iter_spec() == self.iter_spec(),
            r.count_spec() == self.count_spec(),
            r.every_spec() == self.every_spec(),
            r.prev_spec() == self.prev_spec(),
            r.window_spec() == self.window_spec(),
            r.alpha_spec() == self.alpha_spec(),
            r.exp_avg_spec() == self.exp_avg_spec(),
            r.fake_now_spec() == self.fake_now_spec(),
            r.durations_spec() == self.durations_spec(),
    {
        let mut res = self;
        res.assumed_size = size;
        res
    }

    /// Injects the timestamp (nanoseconds since construction) that the
    /// next pull will use in place of a real clock reading; that pull
    /// consumes it. `None` clears a pending injection.
    pub fn set_fake_now(&mut self, fake: Option<u64>)
        requires
            old(self).wf(),
        ensures
            final(self).wf(),
            final(self).fake_now_spec() == fake,
            final(self).iter_spec() == old(self).iter_spec(),
            final(self).count_spec() == old(self).count_spec(),
            final(self).every_spec() == old(self).every_spec(),
            final(self).prev_spec() == old(self).prev_spec(),
            final(self).window_spec() == old(self).window_spec(),
            final(self).alpha_spec() == old(self).alpha_spec(),
            final(self).exp_avg_spec() == old(self).exp_avg_spec(),
            final(self).assumed_size_spec() == old(self).assumed_size_spec(),
            final(self).durations_spec() == old(self).durations_spec(),
    {
        self.fake_now = fake;
    }

    /// A reference to the wrapped source.
    pub fn inner(&self) -> (r: &I)
        ensures
            r == self.iter_spec(),
    {
        &self.iter
    }

    /// Returns ownership of the wrapped source, positioned exactly where
    /// the decorator left it, discarding all decorator state.
    pub fn into_inner(self) -> (r: I)
        ensures
            r == self.iter_spec(),
    {
        self.iter
    }

    /// The wrapped source's remaining-size hint, passed through unchanged.
    pub fn size_hint(&self) -> (r: (usize, Option<usize>))
        ensures
            r == self.iter_spec().hint_spec(),
            r.0 <= self.iter_spec().remaining().len(),
            (r.1 matches Some(upper) ==> self.iter_spec().remaining().len() <= upper),
    {
        self.iter.size_hint()
    }

    /// What holds of a materialized record `rec` and the decorator state
    /// `post` after it, in terms of the state `self` before the pull
    /// (`fake` being the injected timestamp that was pending, if any).
    /// The record's elapsed time is its timestamp `now`: never before the
    /// previous record's, and equal to the injected timestamp — clamped to
    /// keep time monotone — when one was pending. The record carries the
    /// pull count, the source's post-pull size hint unchanged, the assumed
    /// size, no fraction override, and the previous timestamp; when a
    /// previous record exists, the inter-record duration `now - p` extends
    /// the history, the rolling average (if tracked) is the exact mean of
    /// the last window of that history, and the exponential average (if
    /// tracked) is the exact fold of the smoothing step over it.
    pub open spec fn emits(self, post: Self, fake: Option<u64>, rec: ProgressRecord) -> bool {
        let now = rec@.elapsed_nanos;
        let prev0 = prev_or_zero(self.prev_spec());
        &&& rec.wf()
        &&& now >= prev0
        &&& (fake matches Some(t) ==> now == if t >= prev0 {
            t
        } else {
            prev0
        })
        &&& rec@.num == self.count_spec() + 1
        &&& rec@.size_hint == post.iter_spec().hint_spec()
        &&& rec@.size_hint.0 <= post.iter_spec().remaining().len()
        &&& (rec@.size_hint.1 matches Some(upper) ==> post.iter_spec().remaining().len()
            <= upper)
        &&& rec@.assumed_size == self.assumed_size_spec()
        &&& rec@.assumed_fraction is None
        &&& rec@.previous_nanos == self.prev_spec()
        &&& post.prev_spec() == Some(now)
        &&& (match self.prev_spec() {
            None => {
                &&& post.durations_spec() == self.durations_spec()
                &&& rec@.rolling_avg is None
                &&& rec@.exp_avg_nanos is None
            },
            Some(p) => {
                let durs = self.durations_spec().push((now - p) as u64);
                &&& post.durations_spec() == durs
                &&& rec@.rolling_avg == (match self.window_spec() {
                    Some(w) => Some(rolling_avg_of(durs, w as int)),
                    None => None,
                })
                &&& rec@.exp_avg_nanos == (match self.alpha_spec() {
                    Some(a) => exp_fold(durs, a),
                    None => None,
                })
            },
        })
    }

    /// Advances the running count and, on a sampling boundary, reads the
    /// clock (or consumes the injected timestamp handed in), updates the
    /// statistic trackers and materializes the record.
    fn generate_record(&mut self, fake_now: Option<u64>) -> (r: Option<ProgressRecord>)
        requires
            old(self).wf(),
            old(self).count_spec() < usize::MAX,
        ensures
            final(self).wf(),
            final(self).iter_spec() == old(self).iter_spec(),
            final(self).count_spec() == old(self).count_spec() + 1,
            final(self).every_spec() == old(self).every_spec(),
            final(self).window_spec() == old(self).window_spec(),
            final(self).alpha_spec() == old(self).alpha_spec(),
            final(self).assumed_size_spec() == old(self).assumed_size_spec(),
            final(self).fake_now_spec() == old(self).fake_now_spec(),
            (r is Some <==> (old(self).count_spec() + 1) % (old(self).every_spec() as int)
                == 0),
            (r is None ==> final(self).prev_spec() == old(self).prev_spec()
                && final(self).durations_spec() == old(self).durations_spec()
                && final(self).exp_avg_spec() == old(self).exp_avg_spec()),
            (r matches Some(rec) ==> old(self).emits(*final(self), fake_now, rec)),
    {
        let k = self.generate_every_count;
        self.count = self.count + 1;
        if self.count % k != 0 {
            proof {
                let c = self.count as int;
                let ki = k as int;
                vstd::arithmetic::div_mod::lemma_fundamental_div_mod(c, ki);
                vstd::arithmetic::mul::lemma_mul_is_commutative(ki, c / ki);
                vstd::arithmetic::div_mod::lemma_fundamental_div_mod_converse(
                    c - 1,
                    ki,
                    c / ki,
                    c % ki - 1,
                );
            }
            return None;
        }
        proof {
            let c = self.count as int;
            let ki = k as int;
            vstd::arithmetic::div_mod::lemma_fundamental_div_mod(c, ki);
            vstd::arithmetic::mul::lemma_mul_is_commutative(ki, c / ki);
            assert((c / ki - 1) * ki == (c / ki) * ki - ki) by (nonlinear_arith);
            vstd::arithmetic::div_mod::lemma_fundamental_div_mod_converse(
                c - 1,
                ki,
                c / ki - 1,
                ki - 1,
            );
            vstd::arithmetic::div_mod::lemma_div_pos_is_pos(c, ki);
        }
        let now_raw: u64 = match fake_now {
            Some(t) => t,
            None => clock::now_nanos(&self.origin),
        };
        let prev_floor: u64 = match self.previous_nanos {
            Some(p) => p,
            None => 0,
        };
        let now: u64 = if now_raw < prev_floor {
            prev_floor
        } else {
            now_raw
        };
        let mut rolling_out: Option<Ratio> = None;
        let mut exp_out: Option<u64> = None;
        if let Some(p) = self.previous_nanos {
            let d: u64 = now - p;
            self.durations = Ghost(self.durations@.push(d));
            let cap = self.rolling.capacity();
            if cap > 0 {
                proof {
                    vstd::arithmetic::div_mod::lemma_div_nonincreasing(
                        old(self).count_spec() as int,
                        k as int,
                    );
                }
                let avg = self.rolling.record(d);
                rolling_out = Some(avg);
            }
            if let Some(mut e) = self.exp {
                let a = e.record(d);
                self.exp = Some(e);
                exp_out = Some(a);
            }
        }
        let hint = self.iter.size_hint();
        let rec = ProgressRecord::make(
            self.count,
            now,
            hint,
            self.assumed_size,
            self.previous_nanos,
            rolling_out,
            exp_out,
        );
        self.previous_nanos = Some(now);
        Some(rec)
    }

    /// Pulls the next element from the wrapped source. Exhaustion of the
    /// source exhausts the decorator, and nothing changes. Otherwise the
    /// element comes back beside the record for this pull — materialized
    /// on every `k`-th pull, `None` in between. A pending injected
    /// timestamp is consumed by the pull either way.
    pub fn next(&mut self) -> (r: Option<(Option<ProgressRecord>, I::Elem)>)
        requires
            old(self).wf(),
            old(self).count_spec() < usize::MAX,
        ensures
            final(self).wf(),
            final(self).fake_now_spec() is None,
            final(self).every_spec() == old(self).every_spec(),
            final(self).window_spec() == old(self).window_spec(),
            final(self).alpha_spec() == old(self).alpha_spec(),
            final(self).assumed_size_spec() == old(self).assumed_size_spec(),
            (old(self).iter_spec().remaining().len() == 0 ==> {
                &&& r is None
                &&& final(self).iter_spec().remaining() == old(self).iter_spec().remaining()
                &&& final(self).count_spec() == old(self).count_spec()
                &&& final(self).prev_spec() == old(self).prev_spec()
                &&& final(self).durations_spec() == old(self).durations_spec()
                &&& final(self).exp_avg_spec() == old(self).exp_avg_spec()
            }),
            (old(self).iter_spec().remaining().len() > 0 ==> {
                &&& r matches Some(pair)
                &&& pair.1 == old(self).iter_spec().remaining()[0]
                &&& final(self).iter_spec().remaining()
                    == old(self).iter_spec().remaining().drop_first()
                &&& final(self).count_spec() == old(self).count_spec() + 1
                &&& (pair.0 is Some <==> (old(self).count_spec() + 1)
                    % (old(self).every_spec() as int) == 0)
                &&& (pair.0 is None ==> final(self).prev_spec() == old(self).prev_spec()
                    && final(self).durations_spec() == old(self).durations_spec()
                    && final(self).exp_avg_spec() == old(self).exp_avg_spec())
                &&& (pair.0 matches Some(rec) ==> old(self).emits(
                    *final(self),
                    old(self).fake_now_spec(),
                    rec,
                ))
            }),
    {
        let fake = self.fake_now;
        self.fake_now = None;
        match self.iter.next() {
            None => None,
            Some(x) => {
                let rec_opt = self.generate_record(fake);
                Some((rec_opt, x))
            },
        }
    }

    /// Counts the remaining elements by handing the call through to the
    /// wrapped source, consuming the decorator.
    pub fn count(self) -> (r: usize)
        requires
            self.iter_spec().remaining().len() <= usize::MAX,
        ensures
            r == self.iter_spec().remaining().len(),
    {
        self.iter.count()
    }
}

/// Wraps a source and keeps the state for progress records, materializing
/// one on every pull: the sampled decorator with a sampling factor of one.
pub struct ProgressRecorderIter<I: ProgressSource>(OptionalProgressRecorderIter<I>);

impl<I: ProgressSource> ProgressRecorderIter<I> {
    /// The underlying sampled decorator; its sampling factor is one.
    pub closed spec fn inner_spec(&self) -> OptionalProgressRecorderIter<I> {
        self.0
    }

    /// The underlying decorator is well formed and materializes a record
    /// on every pull.
    pub open spec fn wf(&self) -> bool {
        &&& self.inner_spec().wf()
        &&& self.inner_spec().every_spec() == 1
    }

    /// Wraps `iter`, materializing a record on every pull.
    pub fn new(iter: I) -> (r: Self)
        ensures
            r.wf(),
            r.inner_spec().iter_spec() == iter,
            r.inner_spec().count_spec() == 0,
            r.inner_spec().prev_spec() is None,
            r.inner_spec().window_spec() is None,
            r.inner_spec().alpha_spec() is None,
            r.inner_spec().assumed_size_spec() is None,
            r.inner_spec().fake_now_spec() is None,
            r.inner_spec().durations_spec() == Seq::<u64>::empty(),
    {
        ProgressRecorderIter(OptionalProgressRecorderIter::new(iter, 1))
    }

    /// Injects the timestamp the next pull will use in place of a real
    /// clock reading; that pull consumes it. `None` clears it.
    pub fn set_fake_now(&mut self, fake: Option<u64>)
        requires
            old(self).wf(),
        ensures
            final(self).wf(),
            final(self).inner_spec().fake_now_spec() == fake,
            final(self).inner_spec().iter_spec() == old(self).inner_spec().iter_spec(),
            final(self).inner_spec().count_spec() == old(self).inner_spec().count_spec(),
            final(self).inner_spec().prev_spec() == old(self).inner_spec().prev_spec(),
            final(self).inner_spec().window_spec() == old(self).inner_spec().window_spec(),
            final(self).inner_spec().alpha_spec() == old(self).inner_spec().alpha_spec(),
            final(self).inner_spec().exp_avg_spec() == old(self).inner_spec().exp_avg_spec(),
            final(self).inner_spec().assumed_size_spec() == old(self).inner_spec().assumed_size_spec(),
            final(self).inner_spec().durations_spec() == old(self).inner_spec().durations_spec(),
    {
        self.0.set_fake_now(fake);
    }

    /// Pulls the next element from the wrapped source. Exhaustion of the
    /// source exhausts the decorator, and nothing changes. Otherwise the
    /// element comes back beside the record for this pull, and a pending
    /// injected timestamp is consumed.
    pub fn next(&mut self) -> (r: Option<(ProgressRecord, I::Elem)>)
        requires
            old(self).wf(),
            old(self).inner_spec().count_spec() < usize::MAX,
        ensures
            final(self).wf(),
            final(self).inner_spec().every_spec() == old(self).inner_spec().every_spec(),
            final(self).inner_spec().window_spec() == old(self).inner_spec().window_spec(),
            final(self).inner_spec().alpha_spec() == old(self).inner_spec().alpha_spec(),
            final(self).inner_spec().assumed_size_spec() == old(self).inner_spec().assumed_size_spec(),
            (old(self).inner_spec().iter_spec().remaining().len() == 0 ==> {
                &&& r is None
                &&& final(self).inner_spec().iter_spec().remaining()
                    == old(self).inner_spec().iter_spec().remaining()
                &&& final(self).inner_spec().count_spec() == old(self).inner_spec().count_spec()
                &&& final(self).inner_spec().prev_spec() == old(self).inner_spec().prev_spec()
                &&& final(self).inner_spec().durations_spec() == old(self).inner_spec().durations_spec()
                &&& final(self).inner_spec().exp_avg_spec() == old(self).inner_spec().exp_avg_spec()
                &&& final(self).inner_spec().fake_now_spec() == old(self).inner_spec().fake_now_spec()
            }),
            (old(self).inner_spec().iter_spec().remaining().len() > 0 ==> {
                &&& r matches Some(pair)
                &&& pair.1 == old(self).inner_spec().iter_spec().remaining()[0]
                &&& final(self).inner_spec().iter_spec().remaining()
                    == old(self).inner_spec().iter_spec().remaining().drop_first()
                &&& final(self).inner_spec().count_spec()
                    == old(self).inner_spec().count_spec() + 1
                &&& final(self).inner_spec().fake_now_spec() is None
                &&& old(self).inner_spec().emits(
                    final(self).inner_spec(),
                    old(self).inner_spec().fake_now_spec(),
                    pair.0,
                )
            }),
    {
        match self.0.iter.next() {
            None => None,
            Some(x) => {
                let fake = self.0.fake_now;
                self.0.fake_now = None;
                let rec_opt = self.0.generate_record(fake);
                proof {
                    vstd::arithmetic::div_mod::lemma_mod_bound(
                        old(self).inner_spec().count_spec() + 1,
                        1int,
                    );
                }
                let rec = rec_opt.unwrap();
                Some((rec, x))
            },
        }
    }

    /// The wrapped source's remaining-size hint, passed through unchanged.
    pub fn size_hint(&self) -> (r: (usize, Option<usize>))
        ensures
            r == self.inner_spec().iter_spec().hint_spec(),
            r.0 <= self.inner_spec().iter_spec().remaining().len(),
            (r.1 matches Some(upper) ==> self.inner_spec().iter_spec().remaining().len()
                <= upper),
    {
        self.0.size_hint()
    }

    /// Counts the remaining elements by handing the call through to the
    /// wrapped source, consuming the decorator.
    pub fn count(self) -> (r: usize)
        requires
            self.inner_spec().iter_spec().remaining().len() <= usize::MAX,
        ensures
            r == self.inner_spec().iter_spec().remaining().len(),
    {
        self.0.count()
    }
}

/// Lets any source be wrapped by a bare `progress()` call.
pub trait ProgressableIter: ProgressSource {
    /// Wraps this source in a decorator that yields each element beside a
    /// fresh progress record.
    fn progress(self) -> (r: ProgressRecorderIter<Self>)
        ensures
            r.wf(),
            r.inner_spec().iter_spec() == self,
            r.inner_spec().count_spec() == 0,
            r.inner_spec().prev_spec() is None,
            r.inner_spec().window_spec() is None,
            r.inner_spec().alpha_spec() is None,
            r.inner_spec().assumed_size_spec() is None,
            r.inner_spec().fake_now_spec() is None,
            r.inner_spec().durations_spec() == Seq::<u64>::empty(),
    ;
}

impl<I: ProgressSource> ProgressableIter for I {
    fn progress(self) -> (r: ProgressRecorderIter<I>) {
        ProgressRecorderIter::new(self)
    }
}

/// Lets any source be wrapped by a bare `optional_progress(k)` call.
pub trait OptionalProgressableIter: ProgressSource {
    /// Wraps this source in a decorator that yields each element beside an
    /// optional progress record, materialized on every `k`-th pull.
    fn optional_progress(self, generate_every_count: usize) -> (r: OptionalProgressRecorderIter<
        Self,
    >)
        requires
            generate_every_count >= 1,
        ensures
            r.wf(),
            r.iter_spec() == self,
            r.count_spec() == 0,
            r.every_spec() == generate_every_count,
            r.prev_spec() is None,
            r.window_spec() is None,
            r.alpha_spec() is None,
            r.assumed_size_spec() is None,
            r.fake_now_spec() is None,
            r.durations_spec() == Seq::<u64>::empty(),
    ;
}

impl<I: ProgressSource> OptionalProgressableIter for I {
    fn optional_progress(self, generate_every_count: usize) -> (r: OptionalProgressRecorderIter<
        I,
    >) {
        OptionalProgressRecorderIter::new(self, generate_every_count)
    }
}

/// How many of the pull counts `1 ..= n` land on a sampling boundary for
/// the factor `k` — that is, how many records the sampled decorator
/// materializes over `n` pulls, since a record is materialized at a pull
/// iff the count is a multiple of `k`.
pub open spec fn emitted_by(n: int, k: int) -> int
    decreases n,
{
    if n <= 0 {
        0
    } else {
        emitted_by(n - 1, k) + if n % k == 0 {
            1int
        } else {
            0int
        }
    }
}

/// Law: over `n` pulls, the sampled decorator with factor `k` materializes
/// exactly `floor(n / k)` records, and so yields `n - floor(n / k)` pulls
/// with no record.
pub proof fn lemma_sampled_emission_count(n: int, k: int)
    requires
        0 <= n,
        1 <= k,
    ensures
        emitted_by(n, k) == n / k,
    decreases n,
{
    if n == 0 {
        vstd::arithmetic::div_mod::lemma_div_of0(k);
    } else {
        lemma_sampled_emission_count(n - 1, k);
        vstd::arithmetic::div_mod::lemma_fundamental_div_mod(n, k);
        vstd::arithmetic::mul::lemma_mul_is_commutative(k, n / k);
        if n % k == 0 {
            assert((n / k - 1) * k == (n / k) * k - k) by (nonlinear_arith);
            vstd::arithmetic::div_mod::lemma_fundamental_div_mod_converse(
                n - 1,
                k,
                n / k - 1,
                k - 1,
            );
        } else {
            vstd::arithmetic::div_mod::lemma_fundamental_div_mod_converse(
                n - 1,
                k,
                n / k,
                n % k - 1,
            );
        }
    }
}

} // verus!
