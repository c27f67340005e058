use vstd::prelude::*;

verus! {

/// One price bar: its high, low and closing price, in ticks.
#[derive(Clone, Copy, Debug, PartialEq, Eq, Structural)]
pub struct Bar {
    pub high: i64,
    pub low: i64,
    pub close: i64,
}

impl Bar {
    pub fn new(high: i64, low: i64, close: i64) -> (r: Bar)
        ensures
            r == (Bar { high, low, close }),
    {
        Bar { high, low, close }
    }

    /// A bar is valid when its high is not below its low.
    pub open spec fn valid(self) -> bool {
        self.high >= self.low
    }
}

} // verus!
