//! Prime fields of small order. Each element is kept reduced, and every operation is
//! arithmetic modulo the field's prime (see `crate::ff::modular`).
use crate::ff::modular::{
    add_mod, law_modulus_wraps, law_negation_is_additive_inverse, law_results_are_canonical,
    mul_mod, neg_mod, sub_mod,
};
use crate::ff::decimal::{append_decimal, decimal};
use crate::ff::Field;
use vstd::arithmetic::div_mod::{lemma_mod_add_multiples_vanish, lemma_mod_bound};
use vstd::arithmetic::mul::lemma_mul_upper_bound;
use vstd::prelude::*;
use vstd::std_specs::convert::FromSpecImpl;
use vstd::string::StringExecFns;
use vstd::std_specs::ops::{
    AddSpecImpl, BitAndSpecImpl, BitOrSpecImpl, BitXorSpecImpl, MulSpecImpl, NegSpecImpl, NotSpecImpl,
    SubSpecImpl,
};

verus! {

/// The binary field, whose two elements are 0 and 1.
///
/// The value is always kept reduced: it lies in `[0, PRIME)`.
#[derive(Clone, Copy, Debug, PartialEq, Eq, Structural)]
pub struct Fp2(u8);

impl Fp2 {
    pub const PRIME: u8 = 2;

    #[verifier::type_invariant]
    spec fn reduced(self) -> bool {
        self.0 < 2
    }

    /// The element as text: its value, `_mod` and the prime, as in `3_mod31`.
    pub fn describe(&self) -> (r: String)
        ensures
            r@ == decimal(self@) + "_mod"@ + decimal(2),
    {
        let mut s = String::new();
        append_decimal(&mut s, self.0 as u32);
        s.append("_mod");
        append_decimal(&mut s, 2);
        s
    }

    /// Two elements are equal exactly when their values are.
    pub proof fn lemma_view_injective(a: Self, b: Self)
        ensures
            (a@ == b@) <==> (a == b),
    {
    }

    /// The field's prime is the modulus of its arithmetic: it is `PRIME`, every operation
    /// reduces by it, a value converted into the field is reduced by it, and the prime itself
    /// converts to zero.
    pub proof fn law_prime_is_modulus(a: Self, b: Self, v: u128)
        ensures
            Self::spec_prime() == Self::PRIME as nat,
            vstd::std_specs::ops::AddSpec::add_spec(a, b)@ == (a@ + b@) % Self::spec_prime(),
            vstd::std_specs::ops::SubSpec::sub_spec(a, b)@ == add_mod(a@, neg_mod(b@, Self::spec_prime()), Self::spec_prime()),
            vstd::std_specs::ops::MulSpec::mul_spec(a, b)@ == (a@ * b@) % Self::spec_prime(),
            vstd::std_specs::ops::NegSpec::neg_spec(a)@ == neg_mod(a@, Self::spec_prime()),
            <Self as vstd::std_specs::convert::FromSpec<u128>>::from_spec(v)@ == (v as nat) % Self::spec_prime(),
            <Self as vstd::std_specs::convert::FromSpec<u128>>::from_spec(Self::spec_prime() as u128)@ == 0,
    {
        law_results_are_canonical(a@, b@, 2);
        law_negation_is_additive_inverse(a@, b@, 2);
        law_modulus_wraps(2);
        lemma_mod_bound(v as int, 2);
    }
}

impl Field for Fp2 {
    open spec fn spec_prime() -> nat {
        2
    }

    open spec fn spec_value(&self) -> nat {
        self@
    }

    fn prime() -> (r: u128) {
        2
    }

    fn value(&self) -> (r: u128) {
        proof {
            use_type_invariant(self);
        }
        self.0 as u128
    }

    fn zero() -> (r: Self) {
        Fp2(0)
    }

    fn one() -> (r: Self) {
        Fp2(1)
    }
}

impl View for Fp2 {
    type V = nat;

    closed spec fn view(&self) -> nat {
        self.0 as nat
    }
}

impl core::ops::Add for Fp2 {
    type Output = Self;

    fn add(self, rhs: Self) -> (r: Self)
        ensures
            r@ == add_mod(self@, rhs@, 2),
    {
        proof {
            use_type_invariant(self);
            use_type_invariant(rhs);
        }
        let s: u64 = (self.0 as u64 + rhs.0 as u64) % 2;
        Fp2(s as u8)
    }
}

impl AddSpecImpl for Fp2 {
    open spec fn obeys_add_spec() -> bool {
        true
    }

    open spec fn add_req(self, rhs: Self) -> bool {
        true
    }

    closed spec fn add_spec(self, rhs: Self) -> Self {
        Fp2(add_mod(self@, rhs@, 2) as u8)
    }
}

impl core::ops::AddAssign for Fp2 {
    fn add_assign(&mut self, rhs: Self)
        ensures
            final(self)@ == add_mod(old(self)@, rhs@, 2),
    {
        *self = *self + rhs;
    }
}

impl core::ops::Neg for Fp2 {
    type Output = Self;

    fn neg(self) -> (r: Self)
        ensures
            r@ == neg_mod(self@, 2),
    {
        proof {
            use_type_invariant(self);
            lemma_mod_add_multiples_vanish(-(self.0 as int), 2);
        }
        Fp2((2 - self.0) % 2)
    }
}

impl NegSpecImpl for Fp2 {
    open spec fn obeys_neg_spec() -> bool {
        true
    }

    open spec fn neg_req(self) -> bool {
        true
    }

    closed spec fn neg_spec(self) -> Self {
        Fp2(neg_mod(self@, 2) as u8)
    }
}

impl core::ops::Sub for Fp2 {
    type Output = Self;

    fn sub(self, rhs: Self) -> (r: Self)
        ensures
            r@ == sub_mod(self@, rhs@, 2),
    {
        proof {
            use_type_invariant(self);
            use_type_invariant(rhs);
            lemma_mod_add_multiples_vanish(self.0 as int - rhs.0 as int, 2);
        }
        let s: u64 = (2 + self.0 as u64 - rhs.0 as u64) % 2;
        Fp2(s as u8)
    }
}

impl SubSpecImpl for Fp2 {
    open spec fn obeys_sub_spec() -> bool {
        true
    }

    open spec fn sub_req(self, rhs: Self) -> bool {
        true
    }

    closed spec fn sub_spec(self, rhs: Self) -> Self {
        Fp2(sub_mod(self@, rhs@, 2) as u8)
    }
}

impl core::ops::SubAssign for Fp2 {
    fn sub_assign(&mut self, rhs: Self)
        ensures
            final(self)@ == sub_mod(old(self)@, rhs@, 2),
    {
        *self = *self - rhs;
    }
}

impl core::ops::Mul for Fp2 {
    type Output = Self;

    fn mul(self, rhs: Self) -> (r: Self)
        ensures
            r@ == mul_mod(self@, rhs@, 2),
    {
        proof {
            use_type_invariant(self);
            use_type_invariant(rhs);
            lemma_mul_upper_bound(self.0 as int, 2, rhs.0 as int, 2);
        }
        let s: u64 = (self.0 as u64 * rhs.0 as u64) % 2;
        Fp2(s as u8)
    }
}

impl MulSpecImpl for Fp2 {
    open spec fn obeys_mul_spec() -> bool {
        true
    }

    open spec fn mul_req(self, rhs: Self) -> bool {
        true
    }

    closed spec fn mul_spec(self, rhs: Self) -> Self {
        Fp2(mul_mod(self@, rhs@, 2) as u8)
    }
}

impl core::ops::MulAssign for Fp2 {
    fn mul_assign(&mut self, rhs: Self)
        ensures
            final(self)@ == mul_mod(old(self)@, rhs@, 2),
    {
        *self = *self * rhs;
    }
}

/// Reduces any unsigned value modulo the prime. For the small fields this is how a random
/// `u128` is turned into a field element; the bias it introduces is negligible there.
impl From<u128> for Fp2 {
    fn from(v: u128) -> (r: Self)
        ensures
            r@ == v % 2,
    {
        Fp2((v % 2) as u8)
    }
}

impl FromSpecImpl<u128> for Fp2 {
    open spec fn obeys_from_spec() -> bool {
        true
    }

    closed spec fn from_spec(v: u128) -> Self {
        Fp2((v % 2) as u8)
    }
}

impl From<u64> for Fp2 {
    fn from(v: u64) -> (r: Self)
        ensures
            r@ == (v as nat) % 2,
    {
        Fp2::from(v as u128)
    }
}

impl FromSpecImpl<u64> for Fp2 {
    open spec fn obeys_from_spec() -> bool {
        true
    }

    closed spec fn from_spec(v: u64) -> Self {
        Fp2(((v as nat) % 2) as u8)
    }
}

impl From<u32> for Fp2 {
    fn from(v: u32) -> (r: Self)
        ensures
            r@ == (v as nat) % 2,
    {
        Fp2::from(v as u128)
    }
}

impl FromSpecImpl<u32> for Fp2 {
    open spec fn obeys_from_spec() -> bool {
        true
    }

    closed spec fn from_spec(v: u32) -> Self {
        Fp2(((v as nat) % 2) as u8)
    }
}

impl From<u16> for Fp2 {
    fn from(v: u16) -> (r: Self)
        ensures
            r@ == (v as nat) % 2,
    {
        Fp2::from(v as u128)
    }
}

impl FromSpecImpl<u16> for Fp2 {
    open spec fn obeys_from_spec() -> bool {
        true
    }

    closed spec fn from_spec(v: u16) -> Self {
        Fp2(((v as nat) % 2) as u8)
    }
}

impl From<u8> for Fp2 {
    fn from(v: u8) -> (r: Self)
        ensures
            r@ == (v as nat) % 2,
    {
        Fp2::from(v as u128)
    }
}

impl FromSpecImpl<u8> for Fp2 {
    open spec fn obeys_from_spec() -> bool {
        true
    }

    closed spec fn from_spec(v: u8) -> Self {
        Fp2(((v as nat) % 2) as u8)
    }
}

impl From<char> for Fp2 {
    fn from(v: char) -> (r: Self)
        ensures
            r@ == ((v as u32) as nat) % 2,
    {
        Fp2::from(v as u32)
    }
}

impl FromSpecImpl<char> for Fp2 {
    open spec fn obeys_from_spec() -> bool {
        true
    }

    closed spec fn from_spec(v: char) -> Self {
        Fp2((((v as u32) as nat) % 2) as u8)
    }
}

/// `false` and `true` are taken as 0 and 1 before the reduction.
impl From<bool> for Fp2 {
    fn from(v: bool) -> (r: Self)
        ensures
            r@ == (if v { 1nat } else { 0nat }) % 2,
    {
        Fp2::from(if v { 1u128 } else { 0u128 })
    }
}

impl FromSpecImpl<bool> for Fp2 {
    open spec fn obeys_from_spec() -> bool {
        true
    }

    closed spec fn from_spec(v: bool) -> Self {
        Fp2(((if v { 1nat } else { 0nat }) % 2) as u8)
    }
}

/// The element's value, in `[0, PRIME)`.
impl From<Fp2> for u8 {
    fn from(v: Fp2) -> (r: u8)
        ensures
            r == v@,
            r < 2,
    {
        proof {
            use_type_invariant(v);
        }
        v.0
    }
}

impl FromSpecImpl<Fp2> for u8 {
    open spec fn obeys_from_spec() -> bool {
        true
    }

    closed spec fn from_spec(v: Fp2) -> u8 {
        v.0
    }
}

/// The prime field of 31 elements.
///
/// The value is always kept reduced: it lies in `[0, PRIME)`.
#[derive(Clone, Copy, Debug, PartialEq, Eq, Structural)]
pub struct Fp31(u8);

impl Fp31 {
    pub const PRIME: u8 = 31;

    #[verifier::type_invariant]
    spec fn reduced(self) -> bool {
        self.0 < 31
    }

    /// The element as text: its value, `_mod` and the prime, as in `3_mod31`.
    pub fn describe(&self) -> (r: String)
        ensures
            r@ == decimal(self@) + "_mod"@ + decimal(31),
    {
        let mut s = String::new();
        append_decimal(&mut s, self.0 as u32);
        s.append("_mod");
        append_decimal(&mut s, 31);
        s
    }

    /// Two elements are equal exactly when their values are.
    pub proof fn lemma_view_injective(a: Self, b: Self)
        ensures
            (a@ == b@) <==> (a == b),
    {
    }

    /// The field's prime is the modulus of its arithmetic: it is `PRIME`, every operation
    /// reduces by it, a value converted into the field is reduced by it, and the prime itself
    /// converts to zero.
    pub proof fn law_prime_is_modulus(a: Self, b: Self, v: u128)
        ensures
            Self::spec_prime() == Self::PRIME as nat,
            vstd::std_specs::ops::AddSpec::add_spec(a, b)@ == (a@ + b@) % Self::spec_prime(),
            vstd::std_specs::ops::SubSpec::sub_spec(a, b)@ == add_mod(a@, neg_mod(b@, Self::spec_prime()), Self::spec_prime()),
            vstd::std_specs::ops::MulSpec::mul_spec(a, b)@ == (a@ * b@) % Self::spec_prime(),
            vstd::std_specs::ops::NegSpec::neg_spec(a)@ == neg_mod(a@, Self::spec_prime()),
            <Self as vstd::std_specs::convert::FromSpec<u128>>::from_spec(v)@ == (v as nat) % Self::spec_prime(),
            <Self as vstd::std_specs::convert::FromSpec<u128>>::from_spec(Self::spec_prime() as u128)@ == 0,
    {
        law_results_are_canonical(a@, b@, 31);
        law_negation_is_additive_inverse(a@, b@, 31);
        law_modulus_wraps(31);
        lemma_mod_bound(v as int, 31);
    }
}

impl Field for Fp31 {
    open spec fn spec_prime() -> nat {
        31
    }

    open spec fn spec_value(&self) -> nat {
        self@
    }

    fn prime() -> (r: u128) {
        31
    }

    fn value(&self) -> (r: u128) {
        proof {
            use_type_invariant(self);
        }
        self.0 as u128
    }

    fn zero() -> (r: Self) {
        Fp31(0)
    }

    fn one() -> (r: Self) {
        Fp31(1)
    }
}

impl View for Fp31 {
    type V = nat;

    closed spec fn view(&self) -> nat {
        self.0 as nat
    }
}

impl core::ops::Add for Fp31 {
    type Output = Self;

    fn add(self, rhs: Self) -> (r: Self)
        ensures
            r@ == add_mod(self@, rhs@, 31),
    {
        proof {
            use_type_invariant(self);
            use_type_invariant(rhs);
        }
        let s: u64 = (self.0 as u64 + rhs.0 as u64) % 31;
        Fp31(s as u8)
    }
}

impl AddSpecImpl for Fp31 {
    open spec fn obeys_add_spec() -> bool {
        true
    }

    open spec fn add_req(self, rhs: Self) -> bool {
        true
    }

    closed spec fn add_spec(self, rhs: Self) -> Self {
        Fp31(add_mod(self@, rhs@, 31) as u8)
    }
}

impl core::ops::AddAssign for Fp31 {
    fn add_assign(&mut self, rhs: Self)
        ensures
            final(self)@ == add_mod(old(self)@, rhs@, 31),
    {
        *self = *self + rhs;
    }
}

impl core::ops::Neg for Fp31 {
    type Output = Self;

    fn neg(self) -> (r: Self)
        ensures
            r@ == neg_mod(self@, 31),
    {
        proof {
            use_type_invariant(self);
            lemma_mod_add_multiples_vanish(-(self.0 as int), 31);
        }
        Fp31((31 - self.0) % 31)
    }
}

impl NegSpecImpl for Fp31 {
    open spec fn obeys_neg_spec() -> bool {
        true
    }

    open spec fn neg_req(self) -> bool {
        true
    }

    closed spec fn neg_spec(self) -> Self {
        Fp31(neg_mod(self@, 31) as u8)
    }
}

impl core::ops::Sub for Fp31 {
    type Output = Self;

    fn sub(self, rhs: Self) -> (r: Self)
        ensures
            r@ == sub_mod(self@, rhs@, 31),
    {
        proof {
            use_type_invariant(self);
            use_type_invariant(rhs);
            lemma_mod_add_multiples_vanish(self.0 as int - rhs.0 as int, 31);
        }
        let s: u64 = (31 + self.0 as u64 - rhs.0 as u64) % 31;
        Fp31(s as u8)
    }
}

impl SubSpecImpl for Fp31 {
    open spec fn obeys_sub_spec() -> bool {
        true
    }

    open spec fn sub_req(self, rhs: Self) -> bool {
        true
    }

    closed spec fn sub_spec(self, rhs: Self) -> Self {
        Fp31(sub_mod(self@, rhs@, 31) as u8)
    }
}

impl core::ops::SubAssign for Fp31 {
    fn sub_assign(&mut self, rhs: Self)
        ensures
            final(self)@ == sub_mod(old(self)@, rhs@, 31),
    {
        *self = *self - rhs;
    }
}

impl core::ops::Mul for Fp31 {
    type Output = Self;

    fn mul(self, rhs: Self) -> (r: Self)
        ensures
            r@ == mul_mod(self@, rhs@, 31),
    {
        proof {
            use_type_invariant(self);
            use_type_invariant(rhs);
            lemma_mul_upper_bound(self.0 as int, 31, rhs.0 as int, 31);
        }
        let s: u64 = (self.0 as u64 * rhs.0 as u64) % 31;
        Fp31(s as u8)
    }
}

impl MulSpecImpl for Fp31 {
    open spec fn obeys_mul_spec() -> bool {
        true
    }

    open spec fn mul_req(self, rhs: Self) -> bool {
        true
    }

    closed spec fn mul_spec(self, rhs: Self) -> Self {
        Fp31(mul_mod(self@, rhs@, 31) as u8)
    }
}

impl core::ops::MulAssign for Fp31 {
    fn mul_assign(&mut self, rhs: Self)
        ensures
            final(self)@ == mul_mod(old(self)@, rhs@, 31),
    {
        *self = *self * rhs;
    }
}

/// Reduces any unsigned value modulo the prime. For the small fields this is how a random
/// `u128` is turned into a field element; the bias it introduces is negligible there.
impl From<u128> for Fp31 {
    fn from(v: u128) -> (r: Self)
        ensures
            r@ == v % 31,
    {
        Fp31((v % 31) as u8)
    }
}

impl FromSpecImpl<u128> for Fp31 {
    open spec fn obeys_from_spec() -> bool {
        true
    }

    closed spec fn from_spec(v: u128) -> Self {
        Fp31((v % 31) as u8)
    }
}

impl From<u64> for Fp31 {
    fn from(v: u64) -> (r: Self)
        ensures
            r@ == (v as nat) % 31,
    {
        Fp31::from(v as u128)
    }
}

impl FromSpecImpl<u64> for Fp31 {
    open spec fn obeys_from_spec() -> bool {
        true
    }

    closed spec fn from_spec(v: u64) -> Self {
        Fp31(((v as nat) % 31) as u8)
    }
}

impl From<u32> for Fp31 {
    fn from(v: u32) -> (r: Self)
        ensures
            r@ == (v as nat) % 31,
    {
        Fp31::from(v as u128)
    }
}

impl FromSpecImpl<u32> for Fp31 {
    open spec fn obeys_from_spec() -> bool {
        true
    }

    closed spec fn from_spec(v: u32) -> Self {
        Fp31(((v as nat) % 31) as u8)
    }
}

impl From<u16> for Fp31 {
    fn from(v: u16) -> (r: Self)
        ensures
            r@ == (v as nat) % 31,
    {
        Fp31::from(v as u128)
    }
}

impl FromSpecImpl<u16> for Fp31 {
    open spec fn obeys_from_spec() -> bool {
        true
    }

    closed spec fn from_spec(v: u16) -> Self {
        Fp31(((v as nat) % 31) as u8)
    }
}

impl From<u8> for Fp31 {
    fn from(v: u8) -> (r: Self)
        ensures
            r@ == (v as nat) % 31,
    {
        Fp31::from(v as u128)
    }
}

impl FromSpecImpl<u8> for Fp31 {
    open spec fn obeys_from_spec() -> bool {
        true
    }

    closed spec fn from_spec(v: u8) -> Self {
        Fp31(((v as nat) % 31) as u8)
    }
}

impl From<char> for Fp31 {
    fn from(v: char) -> (r: Self)
        ensures
            r@ == ((v as u32) as nat) % 31,
    {
        Fp31::from(v as u32)
    }
}

impl FromSpecImpl<char> for Fp31 {
    open spec fn obeys_from_spec() -> bool {
        true
    }

    closed spec fn from_spec(v: char) -> Self {
        Fp31((((v as u32) as nat) % 31) as u8)
    }
}

/// `false` and `true` are taken as 0 and 1 before the reduction.
impl From<bool> for Fp31 {
    fn from(v: bool) -> (r: Self)
        ensures
            r@ == (if v { 1nat } else { 0nat }) % 31,
    {
        Fp31::from(if v { 1u128 } else { 0u128 })
    }
}

impl FromSpecImpl<bool> for Fp31 {
    open spec fn obeys_from_spec() -> bool {
        true
    }

    closed spec fn from_spec(v: bool) -> Self {
        Fp31(((if v { 1nat } else { 0nat }) % 31) as u8)
    }
}

/// The element's value, in `[0, PRIME)`.
impl From<Fp31> for u8 {
    fn from(v: Fp31) -> (r: u8)
        ensures
            r == v@,
            r < 31,
    {
        proof {
            use_type_invariant(v);
        }
        v.0
    }
}

impl FromSpecImpl<Fp31> for u8 {
    open spec fn obeys_from_spec() -> bool {
        true
    }

    closed spec fn from_spec(v: Fp31) -> u8 {
        v.0
    }
}

/// The prime field whose modulus is the largest prime below 2^32, namely 2^32 - 5.
///
/// The value is always kept reduced: it lies in `[0, PRIME)`.
#[derive(Clone, Copy, Debug, PartialEq, Eq, Structural)]
pub struct Fp32BitPrime(u32);

impl Fp32BitPrime {
    pub const PRIME: u32 = 4_294_967_291;

    #[verifier::type_invariant]
    spec fn reduced(self) -> bool {
        self.0 < 4_294_967_291
    }

    /// The element as text: its value, `_mod` and the prime, as in `3_mod31`.
    pub fn describe(&self) -> (r: String)
        ensures
            r@ == decimal(self@) + "_mod"@ + decimal(4_294_967_291),
    {
        let mut s = String::new();
        append_decimal(&mut s, self.0 as u32);
        s.append("_mod");
        append_decimal(&mut s, 4_294_967_291);
        s
    }

    /// Two elements are equal exactly when their values are.
    pub proof fn lemma_view_injective(a: Self, b: Self)
        ensures
            (a@ == b@) <==> (a == b),
    {
    }

    /// The field's prime is the modulus of its arithmetic: it is `PRIME`, every operation
    /// reduces by it, a value converted into the field is reduced by it, and the prime itself
    /// converts to zero.
    pub proof fn law_prime_is_modulus(a: Self, b: Self, v: u128)
        ensures
            Self::spec_prime() == Self::PRIME as nat,
            vstd::std_specs::ops::AddSpec::add_spec(a, b)@ == (a@ + b@) % Self::spec_prime(),
            vstd::std_specs::ops::SubSpec::sub_spec(a, b)@ == add_mod(a@, neg_mod(b@, Self::spec_prime()), Self::spec_prime()),
            vstd::std_specs::ops::MulSpec::mul_spec(a, b)@ == (a@ * b@) % Self::spec_prime(),
            vstd::std_specs::ops::NegSpec::neg_spec(a)@ == neg_mod(a@, Self::spec_prime()),
            <Self as vstd::std_specs::convert::FromSpec<u128>>::from_spec(v)@ == (v as nat) % Self::spec_prime(),
            <Self as vstd::std_specs::convert::FromSpec<u128>>::from_spec(Self::spec_prime() as u128)@ == 0,
    {
        law_results_are_canonical(a@, b@, 4_294_967_291);
        law_negation_is_additive_inverse(a@, b@, 4_294_967_291);
        law_modulus_wraps(4_294_967_291);
        lemma_mod_bound(v as int, 4_294_967_291);
    }
}

impl Field for Fp32BitPrime {
    open spec fn spec_prime() -> nat {
        4_294_967_291
    }

    open spec fn spec_value(&self) -> nat {
        self@
    }

    fn prime() -> (r: u128) {
        4_294_967_291
    }

    fn value(&self) -> (r: u128) {
        proof {
            use_type_invariant(self);
        }
        self.0 as u128
    }

    fn zero() -> (r: Self) {
        Fp32BitPrime(0)
    }

    fn one() -> (r: Self) {
        Fp32BitPrime(1)
    }
}

impl View for Fp32BitPrime {
    type V = nat;

    closed spec fn view(&self) -> nat {
        self.0 as nat
    }
}

impl core::ops::Add for Fp32BitPrime {
    type Output = Self;

    fn add(self, rhs: Self) -> (r: Self)
        ensures
            r@ == add_mod(self@, rhs@, 4_294_967_291),
    {
        proof {
            use_type_invariant(self);
            use_type_invariant(rhs);
        }
        let s: u64 = (self.0 as u64 + rhs.0 as u64) % 4_294_967_291;
        Fp32BitPrime(s as u32)
    }
}

impl AddSpecImpl for Fp32BitPrime {
    open spec fn obeys_add_spec() -> bool {
        true
    }

    open spec fn add_req(self, rhs: Self) -> bool {
        true
    }

    closed spec fn add_spec(self, rhs: Self) -> Self {
        Fp32BitPrime(add_mod(self@, rhs@, 4_294_967_291) as u32)
    }
}

impl core::ops::AddAssign for Fp32BitPrime {
    fn add_assign(&mut self, rhs: Self)
        ensures
            final(self)@ == add_mod(old(self)@, rhs@, 4_294_967_291),
    {
        *self = *self + rhs;
    }
}

impl core::ops::Neg for Fp32BitPrime {
    type Output = Self;

    fn neg(self) -> (r: Self)
        ensures
            r@ == neg_mod(self@, 4_294_967_291),
    {
        proof {
            use_type_invariant(self);
            lemma_mod_add_multiples_vanish(-(self.0 as int), 4_294_967_291);
        }
        Fp32BitPrime((4_294_967_291 - self.0) % 4_294_967_291)
    }
}

impl NegSpecImpl for Fp32BitPrime {
    open spec fn obeys_neg_spec() -> bool {
        true
    }

    open spec fn neg_req(self) -> bool {
        true
    }

    closed spec fn neg_spec(self) -> Self {
        Fp32BitPrime(neg_mod(self@, 4_294_967_291) as u32)
    }
}

impl core::ops::Sub for Fp32BitPrime {
    type Output = Self;

    fn sub(self, rhs: Self) -> (r: Self)
        ensures
            r@ == sub_mod(self@, rhs@, 4_294_967_291),
    {
        proof {
            use_type_invariant(self);
            use_type_invariant(rhs);
            lemma_mod_add_multiples_vanish(self.0 as int - rhs.0 as int, 4_294_967_291);
        }
        let s: u64 = (4_294_967_291 + self.0 as u64 - rhs.0 as u64) % 4_294_967_291;
        Fp32BitPrime(s as u32)
    }
}

impl SubSpecImpl for Fp32BitPrime {
    open spec fn obeys_sub_spec() -> bool {
        true
    }

    open spec fn sub_req(self, rhs: Self) -> bool {
        true
    }

    closed spec fn sub_spec(self, rhs: Self) -> Self {
        Fp32BitPrime(sub_mod(self@, rhs@, 4_294_967_291) as u32)
    }
}

impl core::ops::SubAssign for Fp32BitPrime {
    fn sub_assign(&mut self, rhs: Self)
        ensures
            final(self)@ == sub_mod(old(self)@, rhs@, 4_294_967_291),
    {
        *self = *self - rhs;
    }
}

impl core::ops::Mul for Fp32BitPrime {
    type Output = Self;

    fn mul(self, rhs: Self) -> (r: Self)
        ensures
            r@ == mul_mod(self@, rhs@, 4_294_967_291),
    {
        proof {
            use_type_invariant(self);
            use_type_invariant(rhs);
            lemma_mul_upper_bound(self.0 as int, 4_294_967_291, rhs.0 as int, 4_294_967_291);
        }
        let s: u64 = (self.0 as u64 * rhs.0 as u64) % 4_294_967_291;
        Fp32BitPrime(s as u32)
    }
}

impl MulSpecImpl for Fp32BitPrime {
    open spec fn obeys_mul_spec() -> bool {
        true
    }

    open spec fn mul_req(self, rhs: Self) -> bool {
        true
    }

    closed spec fn mul_spec(self, rhs: Self) -> Self {
        Fp32BitPrime(mul_mod(self@, rhs@, 4_294_967_291) as u32)
    }
}

impl core::ops::MulAssign for Fp32BitPrime {
    fn mul_assign(&mut self, rhs: Self)
        ensures
            final(self)@ == mul_mod(old(self)@, rhs@, 4_294_967_291),
    {
        *self = *self * rhs;
    }
}

/// Reduces any unsigned value modulo the prime. For the small fields this is how a random
/// `u128` is turned into a field element; the bias it introduces is negligible there.
impl From<u128> for Fp32BitPrime {
    fn from(v: u128) -> (r: Self)
        ensures
            r@ == v % 4_294_967_291,
    {
        Fp32BitPrime((v % 4_294_967_291) as u32)
    }
}

impl FromSpecImpl<u128> for Fp32BitPrime {
    open spec fn obeys_from_spec() -> bool {
        true
    }

    closed spec fn from_spec(v: u128) -> Self {
        Fp32BitPrime((v % 4_294_967_291) as u32)
    }
}

impl From<u64> for Fp32BitPrime {
    fn from(v: u64) -> (r: Self)
        ensures
            r@ == (v as nat) % 4_294_967_291,
    {
        Fp32BitPrime::from(v as u128)
    }
}

impl FromSpecImpl<u64> for Fp32BitPrime {
    open spec fn obeys_from_spec() -> bool {
        true
    }

    closed spec fn from_spec(v: u64) -> Self {
        Fp32BitPrime(((v as nat) % 4_294_967_291) as u32)
    }
}

impl From<u32> for Fp32BitPrime {
    fn from(v: u32) -> (r: Self)
        ensures
            r@ == (v as nat) % 4_294_967_291,
    {
        Fp32BitPrime::from(v as u128)
    }
}

impl FromSpecImpl<u32> for Fp32BitPrime {
    open spec fn obeys_from_spec() -> bool {
        true
    }

    closed spec fn from_spec(v: u32) -> Self {
        Fp32BitPrime(((v as nat) % 4_294_967_291) as u32)
    }
}

impl From<u16> for Fp32BitPrime {
    fn from(v: u16) -> (r: Self)
        ensures
            r@ == (v as nat) % 4_294_967_291,
    {
        Fp32BitPrime::from(v as u128)
    }
}

impl FromSpecImpl<u16> for Fp32BitPrime {
    open spec fn obeys_from_spec() -> bool {
        true
    }

    closed spec fn from_spec(v: u16) -> Self {
        Fp32BitPrime(((v as nat) % 4_294_967_291) as u32)
    }
}

impl From<u8> for Fp32BitPrime {
    fn from(v: u8) -> (r: Self)
        ensures
            r@ == (v as nat) % 4_294_967_291,
    {
        Fp32BitPrime::from(v as u128)
    }
}

impl FromSpecImpl<u8> for Fp32BitPrime {
    open spec fn obeys_from_spec() -> bool {
        true
    }

    closed spec fn from_spec(v: u8) -> Self {
        Fp32BitPrime(((v as nat) % 4_294_967_291) as u32)
    }
}

impl From<char> for Fp32BitPrime {
    fn from(v: char) -> (r: Self)
        ensures
            r@ == ((v as u32) as nat) % 4_294_967_291,
    {
        Fp32BitPrime::from(v as u32)
    }
}

impl FromSpecImpl<char> for Fp32BitPrime {
    open spec fn obeys_from_spec() -> bool {
        true
    }

    closed spec fn from_spec(v: char) -> Self {
        Fp32BitPrime((((v as u32) as nat) % 4_294_967_291) as u32)
    }
}

/// `false` and `true` are taken as 0 and 1 before the reduction.
impl From<bool> for Fp32BitPrime {
    fn from(v: bool) -> (r: Self)
        ensures
            r@ == (if v { 1nat } else { 0nat }) % 4_294_967_291,
    {
        Fp32BitPrime::from(if v { 1u128 } else { 0u128 })
    }
}

impl FromSpecImpl<bool> for Fp32BitPrime {
    open spec fn obeys_from_spec() -> bool {
        true
    }

    closed spec fn from_spec(v: bool) -> Self {
        Fp32BitPrime(((if v { 1nat } else { 0nat }) % 4_294_967_291) as u32)
    }
}

/// The element's value, in `[0, PRIME)`.
impl From<Fp32BitPrime> for u32 {
    fn from(v: Fp32BitPrime) -> (r: u32)
        ensures
            r == v@,
            r < 4_294_967_291,
    {
        proof {
            use_type_invariant(v);
        }
        v.0
    }
}

impl FromSpecImpl<Fp32BitPrime> for u32 {
    open spec fn obeys_from_spec() -> bool {
        true
    }

    closed spec fn from_spec(v: Fp32BitPrime) -> u32 {
        v.0
    }
}

/// Logical "and" of two bits.
pub open spec fn and_bit(a: nat, b: nat) -> nat {
    if a == 1 && b == 1 { 1 } else { 0 }
}

/// Logical "or" of two bits.
pub open spec fn or_bit(a: nat, b: nat) -> nat {
    if a == 1 || b == 1 { 1 } else { 0 }
}

/// Logical "exclusive or" of two bits.
pub open spec fn xor_bit(a: nat, b: nat) -> nat {
    if a != b { 1 } else { 0 }
}

/// Logical negation of a bit.
pub open spec fn not_bit(a: nat) -> nat {
    if a == 0 { 1 } else { 0 }
}

impl core::ops::BitAnd for Fp2 {
    type Output = Self;

    fn bitand(self, rhs: Self) -> (r: Self)
        ensures
            r@ == and_bit(self@, rhs@),
    {
        proof {
            use_type_invariant(self);
            use_type_invariant(rhs);
        }
        let (a, b) = (self.0, rhs.0);
        assert(a & b < 2 && (a & b == 1 <==> (a == 1 && b == 1))) by (bit_vector)
            requires
                a < 2,
                b < 2,
        ;
        Fp2(a & b)
    }
}

impl BitAndSpecImpl for Fp2 {
    open spec fn obeys_bitand_spec() -> bool {
        true
    }

    open spec fn bitand_req(self, rhs: Self) -> bool {
        true
    }

    closed spec fn bitand_spec(self, rhs: Self) -> Self {
        Fp2(and_bit(self@, rhs@) as u8)
    }
}

impl core::ops::BitAndAssign for Fp2 {
    fn bitand_assign(&mut self, rhs: Self)
        ensures
            final(self)@ == and_bit(old(self)@, rhs@),
    {
        *self = *self & rhs;
    }
}

impl core::ops::BitOr for Fp2 {
    type Output = Self;

    fn bitor(self, rhs: Self) -> (r: Self)
        ensures
            r@ == or_bit(self@, rhs@),
    {
        proof {
            use_type_invariant(self);
            use_type_invariant(rhs);
        }
        let (a, b) = (self.0, rhs.0);
        assert(a | b < 2 && (a | b == 1 <==> (a == 1 || b == 1))) by (bit_vector)
            requires
                a < 2,
                b < 2,
        ;
        Fp2(a | b)
    }
}

impl BitOrSpecImpl for Fp2 {
    open spec fn obeys_bitor_spec() -> bool {
        true
    }

    open spec fn bitor_req(self, rhs: Self) -> bool {
        true
    }

    closed spec fn bitor_spec(self, rhs: Self) -> Self {
        Fp2(or_bit(self@, rhs@) as u8)
    }
}

impl core::ops::BitOrAssign for Fp2 {
    fn bitor_assign(&mut self, rhs: Self)
        ensures
            final(self)@ == or_bit(old(self)@, rhs@),
    {
        *self = *self | rhs;
    }
}

impl core::ops::BitXor for Fp2 {
    type Output = Self;

    fn bitxor(self, rhs: Self) -> (r: Self)
        ensures
            r@ == xor_bit(self@, rhs@),
    {
        proof {
            use_type_invariant(self);
            use_type_invariant(rhs);
        }
        let (a, b) = (self.0, rhs.0);
        assert(a ^ b < 2 && (a ^ b == 1 <==> a != b)) by (bit_vector)
            requires
                a < 2,
                b < 2,
        ;
        Fp2(a ^ b)
    }
}

impl BitXorSpecImpl for Fp2 {
    open spec fn obeys_bitxor_spec() -> bool {
        true
    }

    open spec fn bitxor_req(self, rhs: Self) -> bool {
        true
    }

    closed spec fn bitxor_spec(self, rhs: Self) -> Self {
        Fp2(xor_bit(self@, rhs@) as u8)
    }
}

impl core::ops::BitXorAssign for Fp2 {
    fn bitxor_assign(&mut self, rhs: Self)
        ensures
            final(self)@ == xor_bit(old(self)@, rhs@),
    {
        *self = *self ^ rhs;
    }
}

impl core::ops::Not for Fp2 {
    type Output = Self;

    /// The value is a `u8`, whose complement is 255 or 254; masking with 1 keeps only the bit.
    fn not(self) -> (r: Self)
        ensures
            r@ == not_bit(self@),
    {
        proof {
            use_type_invariant(self);
        }
        let a = self.0;
        assert(!a & 1 < 2 && (!a & 1 == 1 <==> a == 0)) by (bit_vector)
            requires
                a < 2,
        ;
        Fp2(!a & 1)
    }
}

impl NotSpecImpl for Fp2 {
    open spec fn obeys_not_spec() -> bool {
        true
    }

    open spec fn not_req(self) -> bool {
        true
    }

    closed spec fn not_spec(self) -> Self {
        Fp2(not_bit(self@) as u8)
    }
}

/// In the binary field the bitwise operations are field operations: "exclusive or" is
/// addition, "and" is multiplication, and negation adds one.
pub proof fn law_fp2_bits_are_field_ops(a: nat, b: nat)
    requires
        a < 2,
        b < 2,
    ensures
        xor_bit(a, b) == add_mod(a, b, 2),
        and_bit(a, b) == mul_mod(a, b, 2),
        not_bit(a) == add_mod(a, 1, 2),
        or_bit(a, b) == add_mod(add_mod(a, b, 2), mul_mod(a, b, 2), 2),
{
    assert(a == 0 || a == 1);
    assert(b == 0 || b == 1);
}

} // verus!
