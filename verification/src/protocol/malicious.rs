//! State of the validator that checks a malicious computation.
use crate::ff::Field;
use vstd::prelude::*;

verus! {

/// The two sums, `u` and `w`, that the security validator accumulates over a computation
/// and compares at its end.
#[derive(Clone, Copy, Debug)]
pub struct SecurityValidatorAccumulator<F: Field> {
    pub u: F,
    pub w: F,
}

impl<F: Field> SecurityValidatorAccumulator<F> {
    /// An accumulator that holds nothing yet: both sums are zero.
    pub fn new() -> (r: Self)
        ensures
            r.u.spec_value() == 0,
            r.w.spec_value() == 0,
    {
        SecurityValidatorAccumulator { u: F::zero(), w: F::zero() }
    }
}

} // verus!
