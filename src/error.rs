use vstd::prelude::*;

verus! {

/// Why an indicator could not be built.
#[derive(Clone, Copy, Debug, PartialEq, Eq, Structural)]
pub enum IndicatorError {
    /// A period of zero, or a multiplier that is not positive.
    InvalidParameter,
}

} // verus!
