use vstd::prelude::*;

verus! {

/// An exact nonnegative rational value, held as a numerator and a
/// denominator. A denominator of zero stands for positive infinity;
/// that is the value of a rate measured over an elapsed time of zero.
#[derive(Clone, Copy, Debug, PartialEq, Eq, Structural)]
pub struct Ratio {
    pub num: u128,
    pub den: u128,
}

impl Ratio {
    /// True when the value stands for positive infinity.
    pub open spec fn spec_is_infinite(&self) -> bool {
        self.den == 0
    }

    /// True when the value stands for positive infinity.
    #[verifier::when_used_as_spec(spec_is_infinite)]
    pub fn is_infinite(&self) -> (r: bool)
        ensures
            r == self.spec_is_infinite(),
    {
        self.den == 0
    }
}

} // verus!
