//! The boundary to the `curv` elliptic-curve library.
//!
//! Scalars, points of the two BLS12-381 groups and pairing values are values
//! of `curv`; the verifier does not look inside them. Each has a
//! mathematical reading, declared here as an uninterpreted function:
//!
//! * a scalar is read as the residue it holds, [`scalar_value`];
//! * a point of G1 or G2 is read as its exponent with respect to the group's
//!   generator, [`g1_exponent`] and [`g2_exponent`] — both groups are cyclic
//!   of order [`modulus`](crate::field::modulus), so adding points adds
//!   exponents and scaling a point multiplies its exponent;
//! * a pairing value is read as its exponent with respect to the pairing of
//!   the two generators, [`pair_exponent`];
//! * the text that `curv` prints for a point of G1 is [`g1_text`].
//!
//! The functions below are the only places where `curv` is called. Their
//! contracts are taken on trust: the verifier believes them without reading
//! the bodies. Each says, in terms of these readings, what the called
//! operation computes. They speak of points of the prime-order groups, which
//! are the only points that these operations produce.
use crate::field::canonical;
use crate::field::is_inverse;
use crate::field::modulus;
use curv_kzen::arithmetic::traits::Converter;
use curv_kzen::arithmetic::traits::Samplable;
use curv_kzen::BigInt;
use curv_kzen::elliptic::curves::bls12_381::g1::FE as FE1;
use curv_kzen::elliptic::curves::bls12_381::g1::GE as GE1;
use curv_kzen::elliptic::curves::bls12_381::g2::FE as FE2;
use curv_kzen::elliptic::curves::bls12_381::g2::GE as GE2;
use curv_kzen::elliptic::curves::bls12_381::Pair;
use curv_kzen::elliptic::curves::traits::ECPoint;
use curv_kzen::elliptic::curves::traits::ECScalar;
use vstd::prelude::*;

verus! {

/// `curv`'s scalar of the BLS12-381 scalar field, as used with G2.
#[verifier::external_type_specification]
#[verifier::external_body]
pub struct ExScalar(curv_kzen::elliptic::curves::bls12_381::g2::FieldScalar);

/// `curv`'s point of the group G1.
#[verifier::external_type_specification]
#[verifier::external_body]
pub struct ExG1Point(curv_kzen::elliptic::curves::bls12_381::g1::G1Point);

/// `curv`'s point of the group G2.
#[verifier::external_type_specification]
#[verifier::external_body]
pub struct ExG2Point(curv_kzen::elliptic::curves::bls12_381::g2::G2Point);

/// `curv`'s value of the pairing, an element of the target group.
#[verifier::external_type_specification]
#[verifier::external_body]
pub struct ExPair(curv_kzen::elliptic::curves::bls12_381::Pair);

/// The residue that a scalar holds: what `ECScalar::to_big_int` returns.
pub uninterp spec fn scalar_value(x: FE2) -> int;

/// The exponent `e` for which a point of G1 is `e` times the generator.
pub uninterp spec fn g1_exponent(p: GE1) -> int;

/// The exponent `e` for which a point of G2 is `e` times the generator.
pub uninterp spec fn g2_exponent(p: GE2) -> int;

/// The exponent `e` for which a pairing value is the `e`-th power of the
/// pairing of the two generators.
pub uninterp spec fn pair_exponent(p: Pair) -> int;

/// The exponent of the point of G1 that a message hashes to.
pub uninterp spec fn hash_exponent(message: Seq<u8>) -> int;

/// The text that `curv` prints for a point of G1: what its `Debug` writes.
pub uninterp spec fn g1_text(p: GE1) -> Seq<char>;

/// The digit of the value `d`, below sixteen, in base sixteen.
pub open spec fn hex_digit(d: int) -> char {
    seq!['0', '1', '2', '3', '4', '5', '6', '7', '8', '9', 'a', 'b', 'c', 'd', 'e', 'f'][d]
}

/// The digits of a number in base sixteen, highest first, in lower case
/// and without leading zeros; zero is the one digit `0`.
pub open spec fn hex_digits(n: int) -> Seq<char>
    decreases n,
{
    if n < 16 {
        seq![hex_digit(n)]
    } else {
        hex_digits(n / 16).push(hex_digit(n % 16))
    }
}

/// `ECScalar::from` on a 64-bit number: the scalar holds that number, which
/// is below the modulus and so is not reduced.
#[verifier::external_body]
pub(crate) fn scalar_from_u64(n: u64) -> (r: FE2)
    ensures
        scalar_value(r) == n,
{
    ECScalar::from(&BigInt::from(n))
}

/// `ECScalar::new_random`: some scalar, drawn uniformly; all that is known
/// of it is that it holds a reduced residue.
#[verifier::external_body]
pub(crate) fn scalar_random() -> (r: FE2)
    ensures
        canonical(scalar_value(r)),
{
    ECScalar::new_random()
}

/// `BigInt::sample_below` on the residue of `upper`, made a scalar again:
/// some scalar drawn uniformly from those below `upper`. The sampler panics
/// on a bound that is not positive, hence the precondition.
#[verifier::external_body]
pub(crate) fn scalar_random_below(upper: &FE2) -> (r: FE2)
    requires
        0 < scalar_value(*upper) < modulus(),
    ensures
        0 <= scalar_value(r) < scalar_value(*upper),
{
    let bound: BigInt = ECScalar::to_big_int(upper);
    ECScalar::from(&BigInt::sample_below(&bound))
}

/// `+` on scalars: the sum modulo the group order.
#[verifier::external_body]
pub(crate) fn scalar_add(a: &FE2, b: &FE2) -> (r: FE2)
    ensures
        scalar_value(r) == (scalar_value(*a) + scalar_value(*b)) % modulus(),
{
    *a + *b
}

/// `ECScalar::sub`: the difference modulo the group order.
#[verifier::external_body]
pub(crate) fn scalar_sub(a: &FE2, b: &FE2) -> (r: FE2)
    ensures
        scalar_value(r) == (scalar_value(*a) - scalar_value(*b)) % modulus(),
{
    a.sub(&b.get_element())
}

/// `*` on scalars: the product modulo the group order.
#[verifier::external_body]
pub(crate) fn scalar_mul(a: &FE2, b: &FE2) -> (r: FE2)
    ensures
        scalar_value(r) == (scalar_value(*a) * scalar_value(*b)) % modulus(),
{
    *a * *b
}

/// `ECScalar::invert`: the multiplicative inverse. It panics on zero, which
/// has none, hence the precondition.
#[verifier::external_body]
pub(crate) fn scalar_invert(a: &FE2) -> (r: FE2)
    requires
        scalar_value(*a) % modulus() != 0,
    ensures
        is_inverse(scalar_value(*a), scalar_value(r)),
{
    a.invert()
}

/// `ECScalar::to_big_int` and `Converter::to_str_radix` with radix
/// sixteen: the digits of the scalar's residue in base sixteen.
#[verifier::external_body]
pub(crate) fn scalar_hex(x: &FE2) -> (r: String)
    ensures
        r@ == hex_digits(scalar_value(*x)),
{
    ECScalar::to_big_int(x).to_str_radix(16)
}

/// `Debug` of a point of G1: the text that `curv` prints for the point, a
/// function of the point alone.
#[verifier::external_body]
pub(crate) fn g1_debug(p: &GE1) -> (r: String)
    ensures
        r@ == g1_text(*p),
{
    format!("{:?}", p)
}

/// `ECPoint::generator` of G1: the point of exponent one.
#[verifier::external_body]
pub(crate) fn g1_generator() -> (r: GE1)
    ensures
        g1_exponent(r) == 1,
{
    GE1::generator()
}

/// `+` on points of G1: exponents add modulo the group order.
#[verifier::external_body]
pub(crate) fn g1_add(a: &GE1, b: &GE1) -> (r: GE1)
    ensures
        g1_exponent(r) == (g1_exponent(*a) + g1_exponent(*b)) % modulus(),
{
    *a + *b
}

/// `ECPoint::sub_point` on G1: exponents subtract modulo the group order.
#[verifier::external_body]
pub(crate) fn g1_sub(a: &GE1, b: &GE1) -> (r: GE1)
    ensures
        g1_exponent(r) == (g1_exponent(*a) - g1_exponent(*b)) % modulus(),
{
    a.sub_point(&b.get_element())
}

/// `*` of a point of G1 by a scalar: the exponent is multiplied by the
/// scalar's residue modulo the group order. The scalar is first carried
/// over to G1's scalar type through `to_big_int` and `ECScalar::from`,
/// which keeps its residue.
#[verifier::external_body]
pub(crate) fn g1_scale(p: &GE1, k: &FE2) -> (r: GE1)
    ensures
        g1_exponent(r) == (g1_exponent(*p) * scalar_value(*k)) % modulus(),
{
    let k1: FE1 = ECScalar::from(&ECScalar::to_big_int(k));
    *p * k1
}

/// `GE1::hash_to_curve`: the point of G1 that the message hashes to, a
/// function of the message alone.
#[verifier::external_body]
pub(crate) fn g1_hash(message: &[u8]) -> (r: GE1)
    ensures
        g1_exponent(r) == hash_exponent(message@),
{
    GE1::hash_to_curve(message)
}

/// `ECPoint::generator` of G2: the point of exponent one.
#[verifier::external_body]
pub(crate) fn g2_generator() -> (r: GE2)
    ensures
        g2_exponent(r) == 1,
{
    GE2::generator()
}

/// `+` on points of G2: exponents add modulo the group order.
#[verifier::external_body]
pub(crate) fn g2_add(a: &GE2, b: &GE2) -> (r: GE2)
    ensures
        g2_exponent(r) == (g2_exponent(*a) + g2_exponent(*b)) % modulus(),
{
    *a + *b
}

/// `ECPoint::sub_point` on G2: exponents subtract modulo the group order.
#[verifier::external_body]
pub(crate) fn g2_sub(a: &GE2, b: &GE2) -> (r: GE2)
    ensures
        g2_exponent(r) == (g2_exponent(*a) - g2_exponent(*b)) % modulus(),
{
    a.sub_point(&b.get_element())
}

/// `*` of a point of G2 by a scalar: the exponent is multiplied by the
/// scalar's residue modulo the group order.
#[verifier::external_body]
pub(crate) fn g2_scale(p: &GE2, k: &FE2) -> (r: GE2)
    ensures
        g2_exponent(r) == (g2_exponent(*p) * scalar_value(*k)) % modulus(),
{
    *p * *k
}

/// `Pair::compute_pairing`: the pairing is bilinear, so its exponent is the
/// product of the two points' exponents modulo the group order.
#[verifier::external_body]
pub(crate) fn compute_pairing(p: &GE1, q: &GE2) -> (r: Pair)
    ensures
        pair_exponent(r) == (g1_exponent(*p) * g2_exponent(*q)) % modulus(),
{
    Pair::compute_pairing(p, q)
}

/// `==` on pairing values: two values are equal exactly when their
/// exponents are.
#[verifier::external_body]
pub(crate) fn pair_eq(a: &Pair, b: &Pair) -> (r: bool)
    ensures
        r == (pair_exponent(*a) == pair_exponent(*b)),
{
    *a == *b
}

} // verus!
