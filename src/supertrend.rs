use vstd::prelude::*;
use crate::bar::Bar;
use crate::error::IndicatorError;
use crate::sma::{SimpleMovingAverage, slide, mean};
use crate::true_range::{TrueRange, true_range_of, max_int};

verus! {

/// A multiplier of `MULTIPLIER_SCALE` widens the bands by one volatility.
pub const MULTIPLIER_SCALE: u64 = 1000;

/// The period used by `Supertrend::default`.
pub const DEFAULT_PERIOD: usize = 10;

/// The multiplier used by `Supertrend::default`, in thousandths.
pub const DEFAULT_MULTIPLIER: i64 = 3000;

/// The direction of the trend.
#[derive(Clone, Copy, Debug, PartialEq, Eq, Structural)]
pub enum Trend {
    Up,
    Down,
}

impl Trend {
    pub open spec fn sign(self) -> int {
        match self {
            Trend::Up => 1,
            Trend::Down => -1,
        }
    }
}

pub open spec fn min_int(a: int, b: int) -> int {
    if a <= b { a } else { b }
}

/// What the indicator remembers of the bar before: its close, the two bands
/// and the trend that it produced.
pub struct Last {
    pub close: int,
    pub up: int,
    pub down: int,
    pub trend: Trend,
}

/// The state of the indicator, as values.
pub struct SupertrendModel {
    pub period: nat,
    pub multiplier: int,
    /// The close that the true range compares against.
    pub tr_close: Option<i64>,
    /// The true ranges in the smoothing window, oldest first.
    pub window: Seq<u64>,
    /// `None` before the first bar.
    pub last: Option<Last>,
}

/// The state before any bar.
pub open spec fn initial_model(period: nat, multiplier: int) -> SupertrendModel {
    SupertrendModel { period, multiplier, tr_close: None, window: Seq::empty(), last: None }
}

/// The midpoint of the bar, rounded down.
pub open spec fn mid_of(bar: Bar) -> int {
    (bar.high + bar.low) / 2
}

/// How far each candidate band lies from the midpoint, rounded down.
pub open spec fn band_offset(multiplier: int, volatility: int) -> int {
    (multiplier * volatility) / (MULTIPLIER_SCALE as int)
}

/// The up band keeps its last level while the last close stayed above it.
pub open spec fn ratchet_up(last: Option<Last>, candidate: int) -> int {
    match last {
        None => candidate,
        Some(l) => if l.close > l.up { max_int(candidate, l.up) } else { candidate },
    }
}

/// The down band keeps its last level while the last close stayed below it.
pub open spec fn ratchet_down(last: Option<Last>, candidate: int) -> int {
    match last {
        None => candidate,
        Some(l) => if l.close < l.down { min_int(candidate, l.down) } else { candidate },
    }
}

/// The trend flips only when the close crosses the band opposite to it.
pub open spec fn next_trend(last: Option<Last>, close: int) -> Trend {
    match last {
        None => Trend::Up,
        Some(l) => if l.trend == Trend::Down && close > l.down {
            Trend::Up
        } else if l.trend == Trend::Up && close < l.up {
            Trend::Down
        } else {
            l.trend
        },
    }
}

/// The volatility after `bar`: the mean true range over the window.
pub open spec fn volatility_after(m: SupertrendModel, bar: Bar) -> int {
    mean(slide(m.window, m.period, true_range_of(m.tr_close, bar) as u64))
}

/// The two candidate bands for `bar`, before the ratchet.
pub open spec fn candidates(m: SupertrendModel, bar: Bar) -> (int, int) {
    let off = band_offset(m.multiplier, volatility_after(m, bar));
    (mid_of(bar) - off, mid_of(bar) + off)
}

/// One step of the indicator: the next state, and the up band, the down band
/// and the trend's sign that it reports.
pub open spec fn step(m: SupertrendModel, bar: Bar) -> (SupertrendModel, (int, int, int)) {
    let (cand_up, cand_down) = candidates(m, bar);
    let up = ratchet_up(m.last, cand_up);
    let down = ratchet_down(m.last, cand_down);
    let trend = next_trend(m.last, bar.close as int);
    let next = SupertrendModel {
        period: m.period,
        multiplier: m.multiplier,
        tr_close: Some(bar.close),
        window: slide(m.window, m.period, true_range_of(m.tr_close, bar) as u64),
        last: Some(Last { close: bar.close as int, up, down, trend }),
    };
    (next, (up, down, trend.sign()))
}

#[derive(Clone, Copy, Debug)]
struct Previous {
    close: i64,
    up: i128,
    down: i128,
    trend: Trend,
}

/// The Supertrend indicator.
#[derive(Debug)]
pub struct Supertrend {
    multiplier: u64,
    previous: Option<Previous>,
    tr: TrueRange,
    tr_sma: SimpleMovingAverage,
}

impl View for Supertrend {
    type V = SupertrendModel;

    closed spec fn view(&self) -> SupertrendModel {
        SupertrendModel {
            period: self.tr_sma.period(),
            multiplier: self.multiplier as int,
            tr_close: self.tr@,
            window: self.tr_sma@,
            last: match self.previous {
                None => None,
                Some(p) => Some(
                    Last { close: p.close as int, up: p.up as int, down: p.down as int, trend: p.trend },
                ),
            },
        }
    }
}

impl Supertrend {
    pub closed spec fn wf(&self) -> bool {
        &&& self.tr_sma.wf()
        &&& 1 <= self.multiplier <= i64::MAX
    }

    /// Builds the indicator; `multiplier` is in thousandths.
    pub fn new(period: usize, multiplier: i64) -> (r: Result<Supertrend, IndicatorError>)
        ensures
            r is Ok <==> (period >= 1 && multiplier > 0),
            r is Err ==> r == Err::<Supertrend, IndicatorError>(IndicatorError::InvalidParameter),
            r matches Ok(s) ==> s.wf() && s@ == initial_model(period as nat, multiplier as int),
    {
        if multiplier <= 0 {
            return Err(IndicatorError::InvalidParameter);
        }
        let tr_sma = match SimpleMovingAverage::new(period) {
            Ok(s) => s,
            Err(e) => {
                return Err(e);
            },
        };
        let r = Supertrend { multiplier: multiplier as u64, previous: None, tr: TrueRange::new(), tr_sma };
        assert(r@.window =~= Seq::<u64>::empty());
        Ok(r)
    }

    /// The label the indicator goes by.
    pub fn name(&self) -> (r: &'static str)
        ensures
            r@ == "Supertrend"@,
    {
        "Supertrend"
    }

    /// Takes in the next bar and returns the up band, the down band and the
    /// trend (`1` up, `-1` down).
    pub fn next(&mut self, bar: &Bar) -> (r: (i128, i128, i64))
        requires
            old(self).wf(),
            bar.valid(),
        ensures
            final(self).wf(),
            final(self)@ == step(old(self)@, *bar).0,
            (r.0 as int, r.1 as int, r.2 as int) == step(old(self)@, *bar).1,
            old(self)@.last is None ==> r.2 == 1 && (r.0 as int, r.1 as int) == candidates(
                old(self)@,
                *bar,
            ),
    {
        let ghost m = self@;
        let mid: i128 = (bar.high as i128 + bar.low as i128).checked_div_euclid(2).unwrap();
        let tr: u64 = self.tr.next(bar);
        let vol: u64 = self.tr_sma.next(tr);
        proof {
            let v = vol as int;
            let k = self.multiplier as int;
            assert(v * k <= (u64::MAX as int) * (i64::MAX as int)) by (nonlinear_arith)
                requires
                    0 <= v <= u64::MAX,
                    0 <= k <= i64::MAX,
            ;
        }
        let prod: u128 = vol as u128 * self.multiplier as u128;
        let off: i128 = (prod / MULTIPLIER_SCALE as u128) as i128;
        let cand_up: i128 = mid - off;
        let cand_down: i128 = mid + off;
        let (up, down, trend) = match self.previous {
            None => (cand_up, cand_down, Trend::Up),
            Some(p) => {
                let up: i128 = if p.close as i128 > p.up {
                    if cand_up > p.up { cand_up } else { p.up }
                } else {
                    cand_up
                };
                let down: i128 = if (p.close as i128) < p.down {
                    if p.down < cand_down { p.down } else { cand_down }
                } else {
                    cand_down
                };
                let trend = if p.trend == Trend::Down && bar.close as i128 > p.down {
                    Trend::Up
                } else if p.trend == Trend::Up && (bar.close as i128) < p.up {
                    Trend::Down
                } else {
                    p.trend
                };
                (up, down, trend)
            },
        };
        self.previous = Some(Previous { close: bar.close, up, down, trend });
        proof {
            assert(mid as int == mid_of(*bar));
            assert(tr as int == true_range_of(m.tr_close, *bar));
            assert(vol as int == volatility_after(m, *bar));
            assert(off as int == band_offset(m.multiplier, volatility_after(m, *bar)));
            assert(self@.window == slide(m.window, m.period, true_range_of(m.tr_close, *bar) as u64));
        }
        let sign: i64 = match trend {
            Trend::Up => 1,
            Trend::Down => -1,
        };
        (up, down, sign)
    }

    /// Returns to the state before any bar, keeping period and multiplier.
    pub fn reset(&mut self)
        requires
            old(self).wf(),
        ensures
            final(self).wf(),
            final(self)@ == initial_model(old(self)@.period, old(self)@.multiplier),
    {
        self.previous = None;
        self.tr.reset();
        self.tr_sma.reset();
    }
}

impl Default for Supertrend {
    fn default() -> (r: Supertrend)
        ensures
            r.wf(),
            r@ == initial_model(DEFAULT_PERIOD as nat, DEFAULT_MULTIPLIER as int),
    {
        Supertrend::new(DEFAULT_PERIOD, DEFAULT_MULTIPLIER).unwrap()
    }
}

} // verus!
