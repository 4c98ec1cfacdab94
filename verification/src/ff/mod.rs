//! Finite fields.
pub mod decimal;
pub mod modular;
pub mod prime_field;

use vstd::prelude::*;

verus! {

/// A prime field whose elements are kept reduced.
pub trait Field: Copy {
    /// The field's prime.
    spec fn spec_prime() -> nat;

    /// The element's value, in `[0, prime)`.
    spec fn spec_value(&self) -> nat;

    fn prime() -> (r: u128)
        ensures
            r == Self::spec_prime(),
    ;

    /// The element's value, which is always reduced.
    fn value(&self) -> (r: u128)
        ensures
            r == self.spec_value(),
            r < Self::spec_prime(),
    ;

    /// The additive identity.
    fn zero() -> (r: Self)
        ensures
            r.spec_value() == 0,
    ;

    /// The multiplicative identity.
    fn one() -> (r: Self)
        ensures
            r.spec_value() == 1,
    ;
}

} // verus!
