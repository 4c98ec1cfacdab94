use raw_ipa::ff::prime_field::{Fp2, Fp31, Fp32BitPrime};
use raw_ipa::ff::Field;
use std::fmt::Debug;
use std::ops::{Add, Mul, Neg, Sub};

#[allow(clippy::eq_op)]
fn zero_test<F>(prime: u128)
where
    F: Field + PartialEq + Debug + Add<Output = F> + Sub<Output = F> + Mul<Output = F> + From<u128>,
{
    assert_eq!(F::zero(), F::from(prime), "from takes a modulus",);
    assert_eq!(F::zero(), F::zero() + F::zero());
    assert_eq!(F::zero(), F::zero() - F::zero());
    assert_eq!(F::from(prime - 1), F::zero() - F::one());
    assert_eq!(F::zero(), F::zero() * F::one());
}

#[test]
fn fp2() {
    let x = Fp2::from(false);
    let y = Fp2::from(true);

    assert_eq!(Fp2::from(1_u8), x + y);
    assert_eq!(Fp2::from(0_u8), x * y);
    assert_eq!(Fp2::from(1_u8), x - y);

    let mut x = Fp2::from(1_u8);
    x += Fp2::from(1_u8);
    assert_eq!(Fp2::from(0_u8), x);
}

#[test]
fn fp2_binary_op() {
    let zero = Fp2::zero();
    let one = Fp2::one();

    assert_eq!(one, one & one);
    assert_eq!(zero, zero & one);
    assert_eq!(zero, one & zero);
    assert_eq!(zero, zero & zero);
    assert_eq!(zero, Fp2::from(31_u128) & Fp2::from(32_u128));
    assert_eq!(one, Fp2::from(31_u128) & Fp2::from(63_u128));

    assert_eq!(zero, zero | zero);
    assert_eq!(one, one | one);
    assert_eq!(one, zero | one);
    assert_eq!(one, one | zero);
    assert_eq!(one, Fp2::from(31_u128) | Fp2::from(32_u128));
    assert_eq!(zero, Fp2::from(32_u128) | Fp2::from(64_u128));

    assert_eq!(zero, zero ^ zero);
    assert_eq!(one, zero ^ one);
    assert_eq!(one, one ^ zero);
    assert_eq!(zero, one ^ one);
    assert_eq!(one, Fp2::from(31_u128) ^ Fp2::from(32_u128));
    assert_eq!(zero, Fp2::from(32_u128) ^ Fp2::from(64_u128));

    assert_eq!(one, !zero);
    assert_eq!(zero, !one);
    assert_eq!(one, !Fp2::from(32_u128));
    assert_eq!(zero, !Fp2::from(31_u128));
}

#[test]
fn fp31() {
    let x = Fp31::from(24_u8);
    let y = Fp31::from(23_u8);

    assert_eq!(Fp31::from(16_u8), x + y);
    assert_eq!(Fp31::from(25_u8), x * y);
    assert_eq!(Fp31::from(1_u8), x - y);

    let mut x = Fp31::from(1_u8);
    x += Fp31::from(2_u8);
    assert_eq!(Fp31::from(3_u8), x);
}

#[test]
fn zero_fp2() {
    zero_test::<Fp2>(u128::from(Fp2::PRIME));
}

#[test]
fn zero_fp31() {
    zero_test::<Fp31>(u128::from(Fp31::PRIME));
}

#[test]
fn zero_fp32_bit_prime() {
    zero_test::<Fp32BitPrime>(u128::from(Fp32BitPrime::PRIME));
}

#[test]
fn thirty_two_bit_prime() {
    let x = Fp32BitPrime::from(4_294_967_290_u32); // PRIME - 1
    let y = Fp32BitPrime::from(4_294_967_289_u32); // PRIME - 2

    assert_eq!(x - y, Fp32BitPrime::one());
    assert_eq!(y - x, Fp32BitPrime::from(Fp32BitPrime::PRIME - 1));
    assert_eq!(y + x, Fp32BitPrime::from(Fp32BitPrime::PRIME - 3));

    assert_eq!(x * y, Fp32BitPrime::from(2_u32),);

    let x = Fp32BitPrime::from(3_192_725_551_u32);
    let y = Fp32BitPrime::from(1_471_265_983_u32);

    assert_eq!(x - y, Fp32BitPrime::from(1_721_459_568_u32));
    assert_eq!(y - x, Fp32BitPrime::from(2_573_507_723_u32));
    assert_eq!(x + y, Fp32BitPrime::from(369_024_243_u32));

    assert_eq!(x * y, Fp32BitPrime::from(513_684_208_u32),);
}

#[test]
fn thirty_two_bit_additive_wrapping() {
    let x = Fp32BitPrime::from(u32::MAX - 20);
    let y = Fp32BitPrime::from(20_u32);
    assert_eq!(x + y, Fp32BitPrime::from(4_u32));

    let x = Fp32BitPrime::from(u32::MAX - 20);
    let y = Fp32BitPrime::from(21_u32);
    assert_eq!(x + y, Fp32BitPrime::from(5_u32));

    let x = Fp32BitPrime::from(u32::MAX - 20);
    let y = Fp32BitPrime::from(22_u32);
    assert_eq!(x + y, Fp32BitPrime::from(6_u32));

    let x = Fp32BitPrime::from(4_294_967_290_u32); // PRIME - 1
    let y = Fp32BitPrime::from(4_294_967_290_u32); // PRIME - 1
    assert_eq!(x + y, Fp32BitPrime::from(4_294_967_289_u32));
}

#[test]
fn negation_is_additive_inverse() {
    let x = Fp31::from(7_u8);
    assert_eq!(-x, Fp31::from(24_u8));
    assert_eq!(x + (-x), Fp31::zero());
    assert_eq!(-Fp31::zero(), Fp31::zero());
    let y = Fp32BitPrime::from(5_u32);
    assert_eq!(-y, Fp32BitPrime::from(Fp32BitPrime::PRIME - 5));
    assert_eq!(Fp2::from(true), -Fp2::from(true));
}

#[test]
fn subtraction_undoes_addition() {
    let x = Fp31::from(30_u8);
    let y = Fp31::from(17_u8);
    assert_eq!((x + y) - y, x);
    assert_eq!((x - y) + y, x);
    assert_eq!(x - y, x + (-y));
}

#[test]
fn operations_are_commutative_associative_distributive() {
    let (a, b, c) = (Fp31::from(12_u8), Fp31::from(29_u8), Fp31::from(5_u8));
    assert_eq!(a + b, b + a);
    assert_eq!(a * b, b * a);
    assert_eq!((a + b) + c, a + (b + c));
    assert_eq!((a * b) * c, a * (b * c));
    assert_eq!(a * (b + c), a * b + a * c);
    assert_eq!(a * Fp31::one(), a);
    assert_eq!(a + Fp31::zero(), a);
    assert_eq!(a * Fp31::zero(), Fp31::zero());
}

#[test]
fn from_reduces_modulo_the_prime() {
    assert_eq!(u8::from(Fp31::from(31_u128)), 0);
    assert_eq!(u8::from(Fp31::from(100_u64)), 7);
    assert_eq!(u8::from(Fp31::from(u16::MAX)), (u16::MAX % 31) as u8);
    assert_eq!(u8::from(Fp31::from(true)), 1);
    assert_eq!(u8::from(Fp2::from(255_u8)), 1);
    assert_eq!(u32::from(Fp32BitPrime::from(u64::MAX)), (u64::MAX % 4_294_967_291) as u32);
    assert_eq!(u32::from(Fp32BitPrime::from(u32::MAX)), 4);
    assert_eq!(u128::from(Fp32BitPrime::prime()), 4_294_967_291);
}

#[test]
fn value_round_trips_through_the_integer() {
    let x = Fp31::from(19_u8);
    assert_eq!(Fp31::from(u8::from(x)), x);
    let y = Fp32BitPrime::from(123_456_789_u32);
    assert_eq!(Fp32BitPrime::from(u32::from(y)), y);
}

#[test]
fn assigning_operators() {
    let mut x = Fp31::from(10_u8);
    x -= Fp31::from(11_u8);
    assert_eq!(x, Fp31::from(30_u8));
    x *= Fp31::from(2_u8);
    assert_eq!(x, Fp31::from(29_u8));
    let mut b = Fp2::one();
    b &= Fp2::zero();
    assert_eq!(b, Fp2::zero());
    b |= Fp2::one();
    assert_eq!(b, Fp2::one());
    b ^= Fp2::one();
    assert_eq!(b, Fp2::zero());
}

#[test]
fn binary_field_bits_are_field_operations() {
    for a in [Fp2::zero(), Fp2::one()] {
        for b in [Fp2::zero(), Fp2::one()] {
            assert_eq!(a ^ b, a + b);
            assert_eq!(a & b, a * b);
        }
        assert_eq!(!a, a + Fp2::one());
    }
}

#[test]
fn text_form_names_value_and_prime() {
    assert_eq!(Fp31::from(3_u8).describe(), "3_mod31");
    assert_eq!(Fp31::from(30_u8).describe(), "30_mod31");
    assert_eq!(Fp2::one().describe(), "1_mod2");
    assert_eq!(Fp32BitPrime::from(4_294_967_290_u32).describe(), "4294967290_mod4294967291");
}

#[test]
fn characters_convert_by_code_point() {
    assert_eq!(u8::from(Fp31::from('a')), 97 % 31);
    assert_eq!(u8::from(Fp2::from('a')), 1);
    assert_eq!(u32::from(Fp32BitPrime::from('\u{10FFFF}')), 0x10FFFF);
}
