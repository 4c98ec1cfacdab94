//! Arithmetic modulo a positive integer, stated over mathematical integers.
use vstd::arithmetic::div_mod::{
    lemma_add_mod_noop, lemma_mod_bound, lemma_mod_twice, lemma_mul_mod_noop_left,
    lemma_mul_mod_noop_right, lemma_small_mod, lemma_sub_mod_noop,
};
use vstd::arithmetic::mul::{lemma_mul_is_associative, lemma_mul_is_distributive_add};
use vstd::prelude::*;

verus! {

/// `(a + b) mod p`.
pub open spec fn add_mod(a: nat, b: nat, p: nat) -> nat {
    (a + b) % p
}

/// `(a - b) mod p`, taken as the representative in `[0, p)`.
pub open spec fn sub_mod(a: nat, b: nat, p: nat) -> nat {
    ((a - b) % (p as int)) as nat
}

/// `-a mod p`, taken as the representative in `[0, p)`.
pub open spec fn neg_mod(a: nat, p: nat) -> nat {
    ((-a) % (p as int)) as nat
}

/// `(a * b) mod p`.
pub open spec fn mul_mod(a: nat, b: nat, p: nat) -> nat {
    (a * b) % p
}

proof fn lemma_add_congruent(x: int, y: int, z: int, m: int)
    requires
        m > 0,
        x % m == y % m,
    ensures
        (x + z) % m == (y + z) % m,
{
    lemma_add_mod_noop(x, z, m);
    lemma_add_mod_noop(y, z, m);
}

proof fn lemma_mul_congruent(x: int, y: int, z: int, m: int)
    requires
        m > 0,
        x % m == y % m,
    ensures
        (x * z) % m == (y * z) % m,
{
    lemma_mul_mod_noop_left(x, z, m);
    lemma_mul_mod_noop_left(y, z, m);
}

/// Every operation lands in the canonical range `[0, p)`.
pub proof fn law_results_are_canonical(a: nat, b: nat, p: nat)
    requires
        p > 0,
    ensures
        add_mod(a, b, p) < p,
        sub_mod(a, b, p) < p,
        neg_mod(a, p) < p,
        mul_mod(a, b, p) < p,
{
    lemma_mod_bound(a - b, p as int);
    lemma_mod_bound(-a, p as int);
}

/// Addition is commutative and associative, and zero is its identity on canonical values.
pub proof fn law_add_commutative_monoid(a: nat, b: nat, c: nat, p: nat)
    requires
        p > 0,
        a < p,
    ensures
        add_mod(a, b, p) == add_mod(b, a, p),
        add_mod(add_mod(a, b, p), c, p) == add_mod(a, add_mod(b, c, p), p),
        add_mod(a, 0, p) == a,
{
    let (ai, bi, ci, pi) = (a as int, b as int, c as int, p as int);
    lemma_mod_twice(ai + bi, pi);
    lemma_add_congruent((ai + bi) % pi, ai + bi, ci, pi);
    lemma_mod_twice(bi + ci, pi);
    lemma_add_congruent((bi + ci) % pi, bi + ci, ai, pi);
    assert(ai + (bi + ci) % pi == (bi + ci) % pi + ai);
    assert(ai + bi + ci == bi + ci + ai);
    lemma_small_mod(a, p);
}

/// Multiplication is commutative and associative, one is its identity and zero annihilates,
/// on canonical values.
pub proof fn law_mul_commutative_monoid(a: nat, b: nat, c: nat, p: nat)
    requires
        p > 1,
        a < p,
    ensures
        mul_mod(a, b, p) == mul_mod(b, a, p),
        mul_mod(mul_mod(a, b, p), c, p) == mul_mod(a, mul_mod(b, c, p), p),
        mul_mod(a, 1, p) == a,
        mul_mod(a, 0, p) == 0,
{
    let (ai, bi, ci, pi) = (a as int, b as int, c as int, p as int);
    assert(a * b == b * a) by (nonlinear_arith);
    lemma_mod_twice(ai * bi, pi);
    lemma_mul_congruent((ai * bi) % pi, ai * bi, ci, pi);
    lemma_mod_twice(bi * ci, pi);
    lemma_mul_congruent((bi * ci) % pi, bi * ci, ai, pi);
    assert(ai * ((bi * ci) % pi) == ((bi * ci) % pi) * ai) by (nonlinear_arith);
    lemma_mul_is_associative(ai, bi, ci);
    assert((ai * bi) * ci == (bi * ci) * ai) by (nonlinear_arith);
    lemma_small_mod(a, p);
    lemma_small_mod(0, p);
}

/// Multiplication distributes over addition.
pub proof fn law_mul_distributes_over_add(a: nat, b: nat, c: nat, p: nat)
    requires
        p > 0,
    ensures
        mul_mod(a, add_mod(b, c, p), p) == add_mod(mul_mod(a, b, p), mul_mod(a, c, p), p),
{
    let (ai, bi, ci, pi) = (a as int, b as int, c as int, p as int);
    lemma_mul_mod_noop_right(ai, bi + ci, pi);
    lemma_mul_is_distributive_add(ai, bi, ci);
    lemma_add_mod_noop(ai * bi, ai * ci, pi);
}

/// Negation gives the additive inverse, and subtraction is addition of the negation.
pub proof fn law_negation_is_additive_inverse(a: nat, b: nat, p: nat)
    requires
        p > 0,
    ensures
        add_mod(a, neg_mod(a, p), p) == 0,
        sub_mod(a, b, p) == add_mod(a, neg_mod(b, p), p),
{
    let (ai, bi, pi) = (a as int, b as int, p as int);
    lemma_mod_bound(-ai, pi);
    lemma_mod_bound(-bi, pi);
    lemma_mod_twice(-ai, pi);
    lemma_add_congruent((-ai) % pi, -ai, ai, pi);
    assert(ai + (-ai) % pi == (-ai) % pi + ai);
    assert(-ai + ai == 0);
    lemma_small_mod(0, p);
    lemma_mod_twice(-bi, pi);
    lemma_add_congruent((-bi) % pi, -bi, ai, pi);
    assert(ai + (-bi) % pi == (-bi) % pi + ai);
    assert(-bi + ai == ai - bi);
}

/// Subtraction undoes addition and addition undoes subtraction, on canonical values.
pub proof fn law_sub_undoes_add(a: nat, b: nat, p: nat)
    requires
        p > 0,
        a < p,
    ensures
        sub_mod(add_mod(a, b, p), b, p) == a,
        add_mod(sub_mod(a, b, p), b, p) == a,
{
    let (ai, bi, pi) = (a as int, b as int, p as int);
    lemma_mod_bound(ai - bi, pi);
    lemma_mod_twice(ai + bi, pi);
    lemma_add_congruent((ai + bi) % pi, ai + bi, -bi, pi);
    assert(ai + bi + -bi == ai);
    assert((ai + bi) % pi + -bi == (ai + bi) % pi - bi);
    lemma_small_mod(a, p);
    lemma_mod_twice(ai - bi, pi);
    lemma_add_congruent((ai - bi) % pi, ai - bi, bi, pi);
    assert(ai - bi + bi == ai);
}

/// Reduction leaves a canonical value unchanged: turning an element into its value and the
/// value back into an element gives the element again.
pub proof fn law_reduction_fixes_canonical_values(a: nat, p: nat)
    requires
        a < p,
    ensures
        a % p == a,
{
    lemma_small_mod(a, p);
}

/// Reducing `p` gives zero, and `0 - 1` is `p - 1`.
pub proof fn law_modulus_wraps(p: nat)
    requires
        p > 1,
    ensures
        p % p == 0,
        sub_mod(0, 1, p) == (p - 1) as nat,
{
    assert(p % p == 0) by (nonlinear_arith) requires p > 0;
    assert((-1int) % (p as int) == p - 1) by (nonlinear_arith) requires p > 1;
}

} // verus!
