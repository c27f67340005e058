use vstd::prelude::*;
use crate::bar::Bar;
use crate::sma::{slide, mean, seq_sum};
use crate::supertrend::{
    SupertrendModel, Trend, step, candidates, initial_model,
};

verus! {

/// The window after `values` arrive one by one.
pub open spec fn fill(window: Seq<u64>, period: nat, values: Seq<u64>) -> Seq<u64>
    decreases values.len(),
{
    if values.len() == 0 {
        window
    } else {
        slide(fill(window, period, values.drop_last()), period, values.last())
    }
}

/// The state after the first `n` bars of `bars`.
pub open spec fn state_after(m: SupertrendModel, bars: Seq<Bar>, n: nat) -> SupertrendModel
    decreases n,
{
    if n == 0 {
        m
    } else {
        step(state_after(m, bars, (n - 1) as nat), bars[n - 1]).0
    }
}

/// What the indicator reports for `bars[i]`.
pub open spec fn output_at(m: SupertrendModel, bars: Seq<Bar>, i: nat) -> (int, int, int) {
    step(state_after(m, bars, i), bars[i as int]).1
}

/// Until the window is full, the moving average is the mean of every value
/// seen so far, not a sum divided by the period.
pub proof fn lemma_partial_window(period: nat, values: Seq<u64>)
    requires
        values.len() <= period,
    ensures
        fill(Seq::empty(), period, values) == values,
        mean(fill(Seq::empty(), period, values)) == if values.len() == 0 {
            0
        } else {
            seq_sum(values) / (values.len() as int)
        },
    decreases values.len(),
{
    if values.len() > 0 {
        lemma_partial_window(period, values.drop_last());
        assert(values.drop_last().push(values.last()) =~= values);
    }
}

/// On the first bar the trend is up and the bands are the candidate bands.
pub proof fn lemma_first_bar(period: nat, multiplier: int, bar: Bar)
    ensures
        step(initial_model(period, multiplier), bar).1 == (
            candidates(initial_model(period, multiplier), bar).0,
            candidates(initial_model(period, multiplier), bar).1,
            1int,
        ),
{
}

/// The up band never moves down on a step whose previous close stayed above
/// the previous up band.
pub proof fn lemma_ratchet_step(m: SupertrendModel, bars: Seq<Bar>, i: nat)
    requires
        i + 1 < bars.len(),
        bars[i as int].close > output_at(m, bars, i).0,
    ensures
        output_at(m, bars, i + 1).0 >= output_at(m, bars, i).0,
{
    assert(state_after(m, bars, i + 1) == step(state_after(m, bars, i), bars[i as int]).0);
}

/// Over a run of bars each closing above the up band it produced, the up band
/// is non-decreasing.
pub proof fn lemma_ratchet_monotone(m: SupertrendModel, bars: Seq<Bar>, i: nat, j: nat)
    requires
        i <= j < bars.len(),
        forall|k: nat| i <= k < j ==> #[trigger] bars[k as int].close > output_at(m, bars, k).0,
    ensures
        output_at(m, bars, j).0 >= output_at(m, bars, i).0,
    decreases j - i,
{
    if i < j {
        let k = (j - 1) as nat;
        lemma_ratchet_monotone(m, bars, i, k);
        assert(bars[k as int].close > output_at(m, bars, k).0);
        lemma_ratchet_step(m, bars, k);
    }
}

/// A down trend turns up exactly when the close rises above the previous down
/// band; an up trend turns down exactly when the close falls below the
/// previous up band. The trend changes on no other step.
pub proof fn lemma_flip_hysteresis(m: SupertrendModel, bar: Bar)
    requires
        m.last is Some,
    ensures
        ({
            let l = m.last.unwrap();
            let t = step(m, bar).0.last.unwrap().trend;
            &&& l.trend == Trend::Down ==> (t == Trend::Up <==> bar.close > l.down)
            &&& l.trend == Trend::Up ==> (t == Trend::Down <==> bar.close < l.up)
            &&& t.sign() == step(m, bar).1.2
        }),
{
}

/// Two indicators in the same state report the same values for every bar
/// sequence; in particular a reset indicator replays as a fresh one with the
/// same period and multiplier.
pub proof fn lemma_replay(a: SupertrendModel, b: SupertrendModel, bars: Seq<Bar>, i: nat)
    requires
        a.period == b.period,
        a.multiplier == b.multiplier,
        a.tr_close == b.tr_close,
        a.window == b.window,
        a.last == b.last,
        i < bars.len(),
    ensures
        output_at(a, bars, i) == output_at(b, bars, i),
        state_after(a, bars, i) == state_after(b, bars, i),
    decreases i,
{
    if i > 0 {
        lemma_replay(a, b, bars, (i - 1) as nat);
    }
}

} // verus!
