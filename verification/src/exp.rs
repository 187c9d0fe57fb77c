use vstd::prelude::*;

use crate::ratio::Ratio;

verus! {

/// One step of exponential smoothing: `d * alpha + prev * (1 - alpha)`
/// for the rational smoothing factor `alpha = num / den` in `(0, 1]`,
/// computed in whole nanoseconds with the division truncated.
pub open spec fn exp_step(prev: u64, d: u64, alpha: Ratio) -> int {
    (d * alpha.num + prev * (alpha.den - alpha.num)) / (alpha.den as int)
}

/// The smoothed duration after a whole history of inter-record durations:
/// the first duration seeds the average, and every later duration folds in
/// by [`exp_step`].
pub open spec fn exp_fold(durs: Seq<u64>, alpha: Ratio) -> Option<u64>
    decreases durs.len(),
{
    if durs.len() == 0 {
        None
    } else {
        match exp_fold(durs.drop_last(), alpha) {
            None => Some(durs.last()),
            Some(prev) => Some(exp_step(prev, durs.last(), alpha) as u64),
        }
    }
}

/// Exponential-average state: a smoothing factor in `(0, 1]` and the
/// smoothed inter-record duration over the durations fed in so far.
#[derive(Clone, Copy)]
pub struct ExpAverage {
    alpha: Ratio,
    avg: Option<u64>,
    hist: Ghost<Seq<u64>>,
}

impl ExpAverage {
    /// The smoothing factor.
    pub closed spec fn alpha_spec(&self) -> Ratio {
        self.alpha
    }

    /// The current smoothed duration; `None` until a duration is fed in.
    pub closed spec fn avg_spec(&self) -> Option<u64> {
        self.avg
    }

    /// Every duration this average has been fed, oldest first.
    pub closed spec fn hist_spec(&self) -> Seq<u64> {
        self.hist@
    }

    /// The smoothing factor lies in `(0, 1]` with both parts bounded by
    /// `u64::MAX`, and the average is exactly the fold of the history.
    pub closed spec fn wf(&self) -> bool {
        &&& 1 <= self.alpha.num <= self.alpha.den <= u64::MAX
        &&& self.avg == exp_fold(self.hist@, self.alpha)
    }

    /// Fresh state for the smoothing factor `alpha = num / den`.
    pub fn new(alpha: Ratio) -> (r: ExpAverage)
        requires
            1 <= alpha.num <= alpha.den <= u64::MAX,
        ensures
            r.wf(),
            r.alpha_spec() == alpha,
            r.avg_spec() is None,
            r.hist_spec() == Seq::<u64>::empty(),
    {
        ExpAverage { alpha, avg: None, hist: Ghost(Seq::empty()) }
    }

    /// Folds one duration into the average and returns the new value.
    pub fn record(&mut self, d: u64) -> (avg: u64)
        requires
            old(self).wf(),
        ensures
            final(self).wf(),
            final(self).alpha_spec() == old(self).alpha_spec(),
            final(self).hist_spec() == old(self).hist_spec().push(d),
            final(self).avg_spec() == Some(avg),
            avg == exp_fold(final(self).hist_spec(), old(self).alpha_spec())->0,
    {
        let ghost old_hist = self.hist@;
        let new_avg: u64 = match self.avg {
            None => d,
            Some(prev) => {
                let num: u128 = self.alpha.num;
                let den: u128 = self.alpha.den;
                proof {
                    let maxi = u64::MAX as int;
                    vstd::arithmetic::mul::lemma_mul_inequality(d as int, maxi, num as int);
                    vstd::arithmetic::mul::lemma_mul_inequality(
                        prev as int,
                        maxi,
                        den as int - num as int,
                    );
                    vstd::arithmetic::mul::lemma_mul_is_distributive_add(
                        maxi,
                        num as int,
                        den as int - num as int,
                    );
                    vstd::arithmetic::mul::lemma_mul_inequality(den as int, maxi, maxi);
                    vstd::arithmetic::mul::lemma_mul_is_commutative(den as int, maxi);
                }
                let top: u128 = (d as u128) * num + (prev as u128) * (den - num);
                proof {
                    vstd::arithmetic::div_mod::lemma_multiply_divide_le(
                        top as int,
                        den as int,
                        u64::MAX as int,
                    );
                }
                (top / den) as u64
            },
        };
        self.avg = Some(new_avg);
        self.hist = Ghost(old_hist.push(d));
        proof {
            assert(self.hist@.drop_last() =~= old_hist);
            assert(self.hist@.last() == d);
        }
        new_avg
    }
}

} // verus!
