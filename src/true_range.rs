use vstd::prelude::*;
use crate::bar::Bar;

verus! {

pub open spec fn abs_diff(a: int, b: int) -> int {
    if a >= b { a - b } else { b - a }
}

pub open spec fn max_int(a: int, b: int) -> int {
    if a >= b { a } else { b }
}

/// The true range of `bar`, given the close of the bar before it, if any.
pub open spec fn true_range_of(previous_close: Option<i64>, bar: Bar) -> int {
    match previous_close {
        None => bar.high - bar.low,
        Some(c) => max_int(
            bar.high - bar.low,
            max_int(abs_diff(bar.high as int, c as int), abs_diff(bar.low as int, c as int)),
        ),
    }
}

/// Turns bars into true-range values; remembers the last close.
#[derive(Clone, Copy, Debug)]
pub struct TrueRange {
    previous_close: Option<i64>,
}

impl View for TrueRange {
    type V = Option<i64>;

    closed spec fn view(&self) -> Option<i64> {
        self.previous_close
    }
}

fn abs_diff_exec(a: i64, b: i64) -> (r: u64)
    ensures
        r == abs_diff(a as int, b as int),
{
    let d: i128 = a as i128 - b as i128;
    if d >= 0 { d as u64 } else { (-d) as u64 }
}

impl TrueRange {
    pub fn new() -> (r: TrueRange)
        ensures
            r@ is None,
    {
        TrueRange { previous_close: None }
    }

    pub fn next(&mut self, bar: &Bar) -> (r: u64)
        requires
            bar.valid(),
        ensures
            r == true_range_of(old(self)@, *bar),
            final(self)@ == Some(bar.close),
    {
        let spread: u64 = (bar.high as i128 - bar.low as i128) as u64;
        let r: u64 = match self.previous_close {
            None => spread,
            Some(c) => {
                let a: u64 = abs_diff_exec(bar.high, c);
                let b: u64 = abs_diff_exec(bar.low, c);
                let m: u64 = if a >= b { a } else { b };
                if spread >= m { spread } else { m }
            },
        };
        self.previous_close = Some(bar.close);
        r
    }

    /// Forgets the last close, so the next bar is treated as the first.
    pub fn reset(&mut self)
        ensures
            final(self)@ is None,
    {
        self.previous_close = None;
    }
}

} // verus!
