//! Secret shares.
use crate::ff::Field;
use vstd::prelude::*;

verus! {

/// A helper's part of a replicated secret sharing: the two of the three additive shares that
/// it holds, its left and its right one.
#[derive(Clone, Copy, Debug)]
pub struct Replicated<F: Field> {
    pub left: F,
    pub right: F,
}

impl<F: Field> Replicated<F> {
    pub fn new(left: F, right: F) -> (r: Self)
        ensures
            r.left == left,
            r.right == right,
    {
        Replicated { left, right }
    }
}

} // verus!
