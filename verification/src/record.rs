use vstd::prelude::*;

use crate::ratio::Ratio;

verus! {

/// The mathematical model of a [`ProgressRecord`]: every field of the
/// snapshot as a plain value. All times are nanoseconds counted from the
/// construction of the decorator that produced the record.
pub struct RecordView {
    /// Elements yielded through this step (the first record has 1).
    pub num: usize,
    /// Nanoseconds from the decorator's construction to this step.
    pub elapsed_nanos: u64,
    /// The wrapped source's remaining-size hint, captured after the pull.
    pub size_hint: (usize, Option<usize>),
    /// A consumer-supplied total size, used when the hint is not exact.
    pub assumed_size: Option<usize>,
    /// A consumer-supplied fraction that overrides any computed fraction.
    pub assumed_fraction: Option<Ratio>,
    /// Nanoseconds from construction to the previous record; `None` for
    /// the first record.
    pub previous_nanos: Option<u64>,
    /// Mean of the inter-record durations in the rolling window, as exact
    /// nanoseconds: the summed durations over their count.
    pub rolling_avg: Option<Ratio>,
    /// Exponentially smoothed inter-record duration, in nanoseconds.
    pub exp_avg_nanos: Option<u64>,
}

/// One snapshot of a decorator's progress, produced alongside each element.
/// All queries are pure reads over the snapshot.
#[derive(Debug)]
pub struct ProgressRecord {
    num: usize,
    elapsed_nanos: u64,
    size_hint: (usize, Option<usize>),
    assumed_size: Option<usize>,
    assumed_fraction: Option<Ratio>,
    previous_nanos: Option<u64>,
    rolling_avg: Option<Ratio>,
    exp_avg_nanos: Option<u64>,
}

impl View for ProgressRecord {
    type V = RecordView;

    closed spec fn view(&self) -> RecordView {
        RecordView {
            num: self.num,
            elapsed_nanos: self.elapsed_nanos,
            size_hint: self.size_hint,
            assumed_size: self.assumed_size,
            assumed_fraction: self.assumed_fraction,
            previous_nanos: self.previous_nanos,
            rolling_avg: self.rolling_avg,
            exp_avg_nanos: self.exp_avg_nanos,
        }
    }
}

/// The count-based trigger rule: fire on the first record and then on every
/// `n`-th record after it.
pub open spec fn items_trigger_spec(num: usize, n: usize) -> bool {
    (num - 1) % (n as int) == 0
}

/// Elapsed time divided by the period `n` (given in seconds), truncated
/// toward zero: the number of whole `n`-second boundaries passed by `t`.
pub open spec fn sec_quotient(t: u64, n: Ratio) -> int {
    (t * n.den) / (n.num * 1_000_000_000)
}

/// For a positive divisor `d`, whether a product `e * d` stays within `m`
/// can be decided by comparing `e` with the quotient `m / d`.
proof fn lemma_mul_le_iff_div(e: int, d: int, m: int)
    requires
        0 <= e,
        1 <= d,
        0 <= m,
    ensures
        (e * d <= m) <==> (e <= m / d),
{
    if e * d <= m {
        vstd::arithmetic::div_mod::lemma_div_is_ordered(e * d, m, d);
        vstd::arithmetic::div_mod::lemma_div_multiples_vanish(e, d);
        vstd::arithmetic::mul::lemma_mul_is_commutative(d, e);
    }
    if e <= m / d {
        vstd::arithmetic::mul::lemma_mul_inequality(e, m / d, d);
        vstd::arithmetic::div_mod::lemma_fundamental_div_mod(m, d);
        vstd::arithmetic::mul::lemma_mul_is_commutative(m / d, d);
    }
}

/// The product of two values no larger than `u64::MAX` fits in a `u128`.
proof fn lemma_mul_u64_fits(a: u128, b: u128)
    requires
        a <= u64::MAX,
        b <= u64::MAX,
    ensures
        a * b <= u128::MAX,
{
    assert(a * b <= u128::MAX) by (nonlinear_arith)
        requires
            a <= u64::MAX,
            b <= u64::MAX,
    ;
}

impl ProgressRecord {
    /// Bounds that every record produced by a decorator satisfies; they keep
    /// the derived rational arithmetic inside `u128`.
    pub open spec fn wf(&self) -> bool {
        &&& self@.num >= 1
        &&& (self@.previous_nanos matches Some(p) ==> p <= self@.elapsed_nanos)
        &&& (self@.assumed_fraction matches Some(f) ==> f.num <= u64::MAX && f.den <= u64::MAX)
        &&& (self@.rolling_avg matches Some(r) ==> r.den <= usize::MAX)
    }

    /// Builds a fresh snapshot; only decorators do this, and a fresh
    /// snapshot never carries a fraction override.
    pub(crate) fn make(
        num: usize,
        elapsed_nanos: u64,
        size_hint: (usize, Option<usize>),
        assumed_size: Option<usize>,
        previous_nanos: Option<u64>,
        rolling_avg: Option<Ratio>,
        exp_avg_nanos: Option<u64>,
    ) -> (r: ProgressRecord)
        ensures
            r@ == (RecordView {
                num,
                elapsed_nanos,
                size_hint,
                assumed_size,
                assumed_fraction: None,
                previous_nanos,
                rolling_avg,
                exp_avg_nanos,
            }),
    {
        ProgressRecord {
            num,
            elapsed_nanos,
            size_hint,
            assumed_size,
            assumed_fraction: None,
            previous_nanos,
            rolling_avg,
            exp_avg_nanos,
        }
    }

    /// Nanoseconds since the decorator was constructed.
    pub fn duration_since_start(&self) -> (r: u64)
        ensures
            r == self@.elapsed_nanos,
    {
        self.elapsed_nanos
    }

    /// Number of items yielded so far; 1 on the first record.
    pub fn num_done(&self) -> (r: usize)
        ensures
            r == self@.num,
    {
        self.num
    }

    /// The timestamp (nanoseconds since construction) of the previous
    /// record; `None` if this is the first record.
    pub fn previous_record_tm(&self) -> (r: Option<u64>)
        ensures
            r == self@.previous_nanos,
    {
        self.previous_nanos
    }

    /// The timestamp at which iteration started. Timestamps are counted
    /// from the decorator's construction, so this is always zero.
    pub fn started_iterating(&self) -> (r: u64)
        ensures
            r == 0,
    {
        0
    }

    /// Items per second from the start: `num / elapsed`, as the exact
    /// rational `num * 10^9 / elapsed_nanos`. A denominator of zero (no
    /// time elapsed yet) stands for positive infinity.
    pub open spec fn rate_spec(&self) -> Ratio {
        Ratio {
            num: (self@.num * 1_000_000_000) as u128,
            den: self@.elapsed_nanos as u128,
        }
    }

    /// Items per second, measured from the start.
    pub fn rate(&self) -> (r: Ratio)
        ensures
            r == self.rate_spec(),
    {
        Ratio { num: (self.num as u128) * 1_000_000_000, den: self.elapsed_nanos as u128 }
    }

    /// How far through the sequence this record is, as a fraction.
    /// The consumer's explicit override wins; otherwise an exact size hint
    /// (`lower == upper`) gives `num / (lower + num)`; otherwise an assumed
    /// size `t` gives `num / t`; otherwise the fraction is unknown.
    pub open spec fn fraction_spec(&self) -> Option<Ratio> {
        if self@.assumed_fraction is Some {
            self@.assumed_fraction
        } else if self@.size_hint.1 == Some(self@.size_hint.0) {
            Some(Ratio {
                num: self@.num as u128,
                den: (self@.size_hint.0 + self@.num) as u128,
            })
        } else {
            match self@.assumed_size {
                Some(t) => Some(Ratio { num: self@.num as u128, den: t as u128 }),
                None => None,
            }
        }
    }

    /// The fraction of the sequence done, if it can be known.
    pub fn fraction(&self) -> (r: Option<Ratio>)
        ensures
            r == self.fraction_spec(),
    {
        if let Some(f) = self.assumed_fraction {
            return Some(f);
        }
        let exact = match self.size_hint.1 {
            Some(upper) => upper == self.size_hint.0,
            None => false,
        };
        if exact {
            Some(Ratio {
                num: self.num as u128,
                den: self.size_hint.0 as u128 + self.num as u128,
            })
        } else {
            match self.assumed_size {
                Some(t) => Some(Ratio { num: self.num as u128, den: t as u128 }),
                None => None,
            }
        }
    }

    /// Overrides the computed fraction on this snapshot only; records the
    /// decorator produces later are unaffected.
    pub fn assume_fraction(&mut self, f: Ratio)
        requires
            old(self).wf(),
            f.num <= u64::MAX,
            f.den <= u64::MAX,
        ensures
            final(self).wf(),
            final(self)@ == (RecordView { assumed_fraction: Some(f), ..old(self)@ }),
    {
        self.assumed_fraction = Some(f);
    }

    /// The fraction scaled by 100.
    pub open spec fn percent_spec(&self) -> Option<Ratio> {
        match self.fraction_spec() {
            Some(f) => Some(Ratio { num: (100 * f.num) as u128, den: f.den }),
            None => None,
        }
    }

    /// Percentage progress through the sequence, if it can be known.
    pub fn percent(&self) -> (r: Option<Ratio>)
        requires
            self.wf(),
        ensures
            r == self.percent_spec(),
    {
        match self.fraction() {
            Some(f) => Some(Ratio { num: 100 * f.num, den: f.den }),
            None => None,
        }
    }

    /// The time-based trigger rule. With no previous record, fire iff more
    /// than `n` seconds have already passed; otherwise divide both this
    /// record's and the previous record's elapsed seconds by `n`, truncate,
    /// and fire iff the quotients differ — exactly once per boundary
    /// crossed.
    pub open spec fn should_sec_spec(&self, n: Ratio) -> bool {
        match self@.previous_nanos {
            None => self@.elapsed_nanos * n.den > n.num * 1_000_000_000,
            Some(p) => sec_quotient(self@.elapsed_nanos, n) > sec_quotient(p, n),
        }
    }

    /// If an action should run every `n` seconds (`n` an exact rational
    /// number of seconds), should it run at this record?
    pub fn should_do_every_n_sec(&self, n: Ratio) -> (r: bool)
        requires
            1 <= n.num <= u64::MAX,
            1 <= n.den <= u64::MAX,
        ensures
            r == self.should_sec_spec(n),
    {
        let period: u128 = n.num * 1_000_000_000;
        proof {
            lemma_mul_u64_fits(self.elapsed_nanos as u128, n.den);
        }
        let cur: u128 = (self.elapsed_nanos as u128) * n.den;
        match self.previous_nanos {
            None => cur > period,
            Some(p) => {
                proof {
                    lemma_mul_u64_fits(p as u128, n.den);
                }
                let prev: u128 = (p as u128) * n.den;
                cur / period > prev / period
            },
        }
    }

    /// If an action should run every `n` items, should it run at this
    /// record? Fires on the first record and every `n`-th record after it.
    pub fn should_do_every_n_items(&self, n: usize) -> (r: bool)
        requires
            self.wf(),
            n >= 1,
        ensures
            r == items_trigger_spec(self@.num, n),
    {
        (self.num - 1) % n == 0
    }

    /// Runs `f` on this record, but only when the time-based trigger rule
    /// says an action due every `n` seconds should run now.
    pub fn do_every_n_sec<F: Fn(&Self)>(&self, n: Ratio, f: F)
        requires
            1 <= n.num <= u64::MAX,
            1 <= n.den <= u64::MAX,
            call_requires(f, (self,)),
    {
        if self.should_do_every_n_sec(n) {
            f(self);
        }
    }

    /// Runs `f` on this record, but only on the first record and every
    /// `n`-th record after it.
    pub fn do_every_n_items<F: Fn(&Self)>(&self, n: usize, f: F)
        requires
            self.wf(),
            n >= 1,
            call_requires(f, (self,)),
    {
        if self.should_do_every_n_items(n) {
            f(self);
        }
    }

    /// The rolling mean inter-record duration, in exact nanoseconds (the
    /// summed durations over their count), if the rolling window is being
    /// recorded and at least one inter-record duration has been seen.
    pub fn rolling_average_duration(&self) -> (r: Option<Ratio>)
        ensures
            r == self@.rolling_avg,
    {
        self.rolling_avg
    }

    /// Items per second implied by the rolling mean duration: the inverse
    /// of [`Self::rolling_average_duration`], as items per second.
    pub open spec fn rolling_rate_spec(&self) -> Option<Ratio> {
        match self@.rolling_avg {
            Some(avg) => Some(Ratio { num: (avg.den * 1_000_000_000) as u128, den: avg.num }),
            None => None,
        }
    }

    /// Rolling-average items per second, if recorded.
    pub fn rolling_average_rate(&self) -> (r: Option<Ratio>)
        requires
            self.wf(),
        ensures
            r == self.rolling_rate_spec(),
    {
        match self.rolling_avg {
            Some(avg) => Some(Ratio { num: avg.den * 1_000_000_000, den: avg.num }),
            None => None,
        }
    }

    /// The remaining time implied by linear extrapolation, in exact
    /// nanoseconds: `elapsed / fraction - elapsed`, that is
    /// `elapsed * (den - num) / num` for a fraction `num / den`. Absent when
    /// the fraction is unknown, zero, past completion, or so large that the
    /// exact product leaves `u128`.
    pub open spec fn eta_spec(&self) -> Option<Ratio> {
        match self.fraction_spec() {
            None => None,
            Some(f) => if f.num == 0 || f.num > f.den {
                None
            } else if self@.elapsed_nanos * (f.den - f.num) > u128::MAX {
                None
            } else {
                Some(Ratio {
                    num: (self@.elapsed_nanos * (f.den - f.num)) as u128,
                    den: f.num,
                })
            },
        }
    }

    /// Estimated time remaining before the sequence is finished.
    pub fn eta(&self) -> (r: Option<Ratio>)
        ensures
            r == self.eta_spec(),
    {
        match self.fraction() {
            None => None,
            Some(f) => {
                if f.num == 0 || f.num > f.den {
                    None
                } else {
                    let d: u128 = f.den - f.num;
                    let e: u128 = self.elapsed_nanos as u128;
                    proof {
                        if d > 0 {
                            lemma_mul_le_iff_div(e as int, d as int, u128::MAX as int);
                        }
                    }
                    if d > 0 && e > u128::MAX / d {
                        None
                    } else {
                        Some(Ratio { num: e * d, den: f.num })
                    }
                }
            },
        }
    }

    /// The total running time implied by linear extrapolation, in exact
    /// nanoseconds: `elapsed / fraction`, that is `elapsed * den / num` for
    /// a fraction `num / den`. Absent when the fraction is unknown, zero,
    /// or so large that the exact product leaves `u128`.
    pub open spec fn estimated_total_spec(&self) -> Option<Ratio> {
        match self.fraction_spec() {
            None => None,
            Some(f) => if f.num == 0 {
                None
            } else if self@.elapsed_nanos * f.den > u128::MAX {
                None
            } else {
                Some(Ratio { num: (self@.elapsed_nanos * f.den) as u128, den: f.num })
            },
        }
    }

    /// Estimated total running time of the whole sequence: elapsed time
    /// plus the estimated time remaining.
    pub fn estimated_total_time(&self) -> (r: Option<Ratio>)
        ensures
            r == self.estimated_total_spec(),
    {
        match self.fraction() {
            None => None,
            Some(f) => {
                if f.num == 0 {
                    None
                } else {
                    let e: u128 = self.elapsed_nanos as u128;
                    proof {
                        if f.den > 0 {
                            lemma_mul_le_iff_div(e as int, f.den as int, u128::MAX as int);
                        }
                    }
                    if f.den > 0 && e > u128::MAX / f.den {
                        None
                    } else {
                        Some(Ratio { num: e * f.den, den: f.num })
                    }
                }
            },
        }
    }

    /// The exponentially smoothed inter-record duration in nanoseconds, if
    /// it is being recorded and at least one inter-record duration has been
    /// seen.
    pub fn exp_average_duration(&self) -> (r: Option<u64>)
        ensures
            r == self@.exp_avg_nanos,
    {
        self.exp_avg_nanos
    }

    /// Items per second implied by the smoothed duration: its inverse.
    pub open spec fn exp_rate_spec(&self) -> Option<Ratio> {
        match self@.exp_avg_nanos {
            Some(avg) => Some(Ratio { num: 1_000_000_000, den: avg as u128 }),
            None => None,
        }
    }

    /// Exponential-average items per second, if recorded.
    pub fn exp_average_rate(&self) -> (r: Option<Ratio>)
        ensures
            r == self.exp_rate_spec(),
    {
        match self.exp_avg_nanos {
            Some(avg) => Some(Ratio { num: 1_000_000_000, den: avg as u128 }),
            None => None,
        }
    }
}

/// Law: after `n` items of a sequence whose exact remaining size is
/// `s - n` (so the whole sequence has `s` items), the fraction is exactly
/// `n / s` and the percentage exactly `100 n / s`, with no override set.
pub proof fn lemma_fraction_of_exact_size(rec: ProgressRecord, n: usize, s: usize)
    requires
        rec.wf(),
        rec@.assumed_fraction is None,
        rec@.num == n,
        n <= s,
        rec@.size_hint == (((s - n) as usize, Some((s - n) as usize))),
    ensures
        rec.fraction_spec() == Some(Ratio { num: n as u128, den: s as u128 }),
        rec.percent_spec() == Some(Ratio { num: (100 * n) as u128, den: s as u128 }),
{
}

/// Law: a fraction override set on a snapshot wins over everything the
/// snapshot could compute: the fraction is returned verbatim and the
/// percentage is its scaling. Records the decorator materializes later
/// carry no override, so the override is local to the one snapshot.
pub proof fn lemma_assumed_fraction_wins(rec: ProgressRecord, f: Ratio)
    requires
        rec@.assumed_fraction == Some(f),
    ensures
        rec.fraction_spec() == Some(f),
        rec.percent_spec() == Some(Ratio { num: (100 * f.num) as u128, den: f.den }),
{
}

/// Law: with no exact size hint, no assumed size and no override, the
/// fraction and the percentage are unknown, however many items were pulled.
pub proof fn lemma_fraction_unknown(rec: ProgressRecord)
    requires
        rec@.assumed_fraction is None,
        rec@.assumed_size is None,
        match rec@.size_hint.1 {
            Some(upper) => upper != rec@.size_hint.0,
            None => true,
        },
    ensures
        rec.fraction_spec() is None,
        rec.percent_spec() is None,
{
}

/// Law: for every period `n >= 1` the count-based trigger fires on the
/// first record, and it fires at a count iff it fires again exactly `n`
/// records later — so it holds exactly at counts `1, 1 + n, 1 + 2n, ...`.
pub proof fn lemma_items_trigger_period(m: usize, n: usize)
    requires
        1 <= m,
        1 <= n,
    ensures
        items_trigger_spec(1, n),
        m + n <= usize::MAX ==> (items_trigger_spec(m, n) <==> items_trigger_spec(
            (m + n) as usize,
            n,
        )),
{
    vstd::arithmetic::div_mod::lemma_small_mod(0, n as nat);
    vstd::arithmetic::div_mod::lemma_mod_add_multiples_vanish((m - 1) as int, n as int);
}

} // verus!
