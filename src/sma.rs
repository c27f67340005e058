use vstd::prelude::*;
use std::collections::VecDeque;
use crate::error::IndicatorError;

verus! {

/// The sum of a sequence of values.
pub open spec fn seq_sum(s: Seq<u64>) -> int
    decreases s.len(),
{
    if s.len() == 0 {
        0
    } else {
        seq_sum(s.drop_last()) + s.last()
    }
}

/// The window after `v` arrives: `v` is appended, and the oldest value leaves
/// once the window already holds `period` values.
pub open spec fn slide(window: Seq<u64>, period: nat, v: u64) -> Seq<u64> {
    if window.len() < period {
        window.push(v)
    } else {
        window.push(v).drop_first()
    }
}

/// The arithmetic mean of the window, rounded down to a whole tick.
pub open spec fn mean(window: Seq<u64>) -> int {
    if window.len() == 0 {
        0
    } else {
        seq_sum(window) / (window.len() as int)
    }
}

pub proof fn lemma_sum_drop_first(s: Seq<u64>)
    requires
        s.len() > 0,
    ensures
        seq_sum(s.drop_first()) == seq_sum(s) - s[0],
    decreases s.len(),
{
    if s.len() > 1 {
        lemma_sum_drop_first(s.drop_last());
        assert(s.drop_last().drop_first() =~= s.drop_first().drop_last());
    } else {
        assert(s.drop_first() =~= Seq::<u64>::empty());
        assert(s.drop_last() =~= Seq::<u64>::empty());
    }
}

pub proof fn lemma_sum_bounds(s: Seq<u64>)
    ensures
        0 <= seq_sum(s) <= s.len() * (u64::MAX as int),
    decreases s.len(),
{
    if s.len() > 0 {
        lemma_sum_bounds(s.drop_last());
    }
}

/// A simple moving average over the last `period` values.
#[derive(Debug)]
pub struct SimpleMovingAverage {
    period: usize,
    window: VecDeque<u64>,
    sum: u128,
}

impl View for SimpleMovingAverage {
    type V = Seq<u64>;

    /// The values in the window, oldest first.
    closed spec fn view(&self) -> Seq<u64> {
        self.window@
    }
}

impl SimpleMovingAverage {
    pub closed spec fn period(&self) -> nat {
        self.period as nat
    }

    pub closed spec fn wf(&self) -> bool {
        &&& self.period >= 1
        &&& self.window@.len() <= self.period
        &&& self.sum == seq_sum(self.window@)
    }

    pub fn new(period: usize) -> (r: Result<SimpleMovingAverage, IndicatorError>)
        ensures
            period == 0 <==> r is Err,
            r is Err ==> r == Err::<SimpleMovingAverage, IndicatorError>(IndicatorError::InvalidParameter),
            r matches Ok(s) ==> s.wf() && s.period() == period && s@ == Seq::<u64>::empty(),
    {
        if period == 0 {
            return Err(IndicatorError::InvalidParameter);
        }
        Ok(SimpleMovingAverage { period, window: VecDeque::new(), sum: 0 })
    }

    /// Takes in `v` and returns the mean of the values now in the window.
    pub fn next(&mut self, v: u64) -> (r: u64)
        requires
            old(self).wf(),
        ensures
            final(self).wf(),
            final(self).period() == old(self).period(),
            final(self)@ == slide(old(self)@, old(self).period(), v),
            r == mean(final(self)@),
    {
        let ghost w = self.window@;
        proof {
            lemma_sum_bounds(w);
            assert(w.push(v).drop_last() =~= w);
        }
        self.window.push_back(v);
        self.sum = self.sum + v as u128;
        if self.window.len() > self.period {
            let old_front = self.window.pop_front();
            let ghost p = w.push(v);
            proof {
                assert(seq_sum(p) == seq_sum(w) + v);
                lemma_sum_drop_first(p);
                lemma_sum_bounds(p.drop_first());
                assert(self.window@ =~= p.drop_first());
            }
            match old_front {
                Some(x) => {
                    self.sum = self.sum - x as u128;
                },
                None => {},
            }
        }
        proof {
            lemma_sum_bounds(self.window@);
        }
        let n: u128 = self.window.len() as u128;
        let r: u128 = self.sum / n;
        proof {
            let s = seq_sum(self.window@);
            assert(s / (n as int) <= u64::MAX) by (nonlinear_arith)
                requires
                    0 <= s <= n * (u64::MAX as int),
                    n >= 1,
            ;
        }
        r as u64
    }

    /// Empties the window.
    pub fn reset(&mut self)
        requires
            old(self).wf(),
        ensures
            final(self).wf(),
            final(self).period() == old(self).period(),
            final(self)@ == Seq::<u64>::empty(),
    {
        self.window.clear();
        self.sum = 0;
    }
}

} // verus!
