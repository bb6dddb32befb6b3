//! Arithmetic of the scalar field, on mathematical integers.
//!
//! Every scalar of the curve is a residue modulo the group order
//! [`modulus`]. The functions here are the field operations on `int`,
//! reduced into `0 .. modulus()`, and the ring laws that the rest of the
//! crate reasons with. The modulus is prime, which [`crate::order`]
//! proves; here that shows as [`lemma_nonzero_invertible`]: every residue
//! but zero has an inverse.
use crate::order::lemma_order_inverses;
use crate::primality::inverse_of;
use vstd::arithmetic::div_mod::lemma_add_mod_noop;
use vstd::arithmetic::div_mod::lemma_mod_twice;
use vstd::arithmetic::div_mod::lemma_mul_mod_noop_general;
use vstd::arithmetic::div_mod::lemma_small_mod;
use vstd::arithmetic::div_mod::lemma_sub_mod_noop;
use vstd::arithmetic::mul::lemma_mul_is_associative;
use vstd::arithmetic::mul::lemma_mul_is_commutative;
use vstd::arithmetic::mul::lemma_mul_is_distributive_add;
use vstd::arithmetic::mul::lemma_mul_is_distributive_sub;
use vstd::prelude::*;

verus! {

/// The order of the BLS12-381 groups, which is the size of the scalar field.
pub open spec fn modulus() -> int {
    0x73eda753299d7d483339d80809a1d80553bda402fffe5bfeffffffff00000001int
}

/// `a` is a reduced residue.
pub open spec fn canonical(a: int) -> bool {
    0 <= a < modulus()
}

/// Sum in the field.
pub open spec fn fadd(a: int, b: int) -> int {
    (a + b) % modulus()
}

/// Difference in the field.
pub open spec fn fsub(a: int, b: int) -> int {
    (a - b) % modulus()
}

/// Product in the field.
pub open spec fn fmul(a: int, b: int) -> int {
    (a * b) % modulus()
}

/// `r` is the reduced multiplicative inverse of `a`.
pub open spec fn is_inverse(a: int, r: int) -> bool {
    canonical(r) && (a * r) % modulus() == 1
}

/// `a` has a multiplicative inverse.
pub open spec fn invertible(a: int) -> bool {
    exists|r: int| is_inverse(a, r)
}

/// The reduced multiplicative inverse of `a`, where it has one.
pub open spec fn finv(a: int) -> int {
    choose|r: int| is_inverse(a, r)
}

/// `x` raised to the power `k` in the field.
pub open spec fn fpow(x: int, k: nat) -> int
    decreases k,
{
    if k == 0 {
        1
    } else {
        fmul(fpow(x, (k - 1) as nat), x)
    }
}

/// The modulus exceeds every 64-bit number, so distinct machine integers
/// are distinct scalars.
pub proof fn lemma_modulus_large()
    ensures
        modulus() > 0xffff_ffff_ffff_ffff,
{
}

/// Every result of a field operation is reduced.
pub proof fn lemma_reduced(a: int, b: int)
    ensures
        canonical(fadd(a, b)),
        canonical(fsub(a, b)),
        canonical(fmul(a, b)),
        canonical(a % modulus()),
{
}

/// A reduced residue is its own remainder.
pub proof fn lemma_canonical_fixed(a: int)
    requires
        canonical(a),
    ensures
        a % modulus() == a,
{
    lemma_small_mod(a as nat, modulus() as nat);
}

/// Field operations see their arguments only through their residues.
pub proof fn lemma_reduce_args(a: int, b: int)
    ensures
        fadd(a % modulus(), b) == fadd(a, b),
        fadd(a, b % modulus()) == fadd(a, b),
        fsub(a % modulus(), b) == fsub(a, b),
        fsub(a, b % modulus()) == fsub(a, b),
        fmul(a % modulus(), b) == fmul(a, b),
        fmul(a, b % modulus()) == fmul(a, b),
{
    let m = modulus();
    lemma_mul_mod_noop_general(a, b, m);
    lemma_add_mod_noop(a, b, m);
    lemma_add_mod_noop(a % m, b, m);
    lemma_add_mod_noop(a, b % m, m);
    lemma_sub_mod_noop(a, b, m);
    lemma_sub_mod_noop(a % m, b, m);
    lemma_sub_mod_noop(a, b % m, m);
    lemma_mod_twice(a, m);
    lemma_mod_twice(b, m);
}

/// Residues that agree give results that agree.
pub proof fn lemma_congruent_args(a: int, a2: int, b: int, b2: int)
    requires
        a % modulus() == a2 % modulus(),
        b % modulus() == b2 % modulus(),
    ensures
        fadd(a, b) == fadd(a2, b2),
        fsub(a, b) == fsub(a2, b2),
        fmul(a, b) == fmul(a2, b2),
{
    lemma_reduce_args(a, b);
    lemma_reduce_args(a % modulus(), b);
    lemma_reduce_args(a2, b2);
    lemma_reduce_args(a2 % modulus(), b2);
}

/// Addition and multiplication are commutative.
pub proof fn lemma_commutative(a: int, b: int)
    ensures
        fadd(a, b) == fadd(b, a),
        fmul(a, b) == fmul(b, a),
{
    lemma_mul_is_commutative(a, b);
}

/// Addition is associative.
pub proof fn lemma_fadd_associative(a: int, b: int, c: int)
    ensures
        fadd(fadd(a, b), c) == fadd(a, fadd(b, c)),
{
    lemma_reduce_args(a + b, c);
    lemma_reduce_args(a, b + c);
}

/// Multiplication is associative.
pub proof fn lemma_fmul_associative(a: int, b: int, c: int)
    ensures
        fmul(fmul(a, b), c) == fmul(a, fmul(b, c)),
{
    lemma_reduce_args(a * b, c);
    lemma_reduce_args(a, b * c);
    lemma_mul_is_associative(a, b, c);
}

/// Multiplication distributes over addition and subtraction.
pub proof fn lemma_distributive(a: int, b: int, c: int)
    ensures
        fmul(a, fadd(b, c)) == fadd(fmul(a, b), fmul(a, c)),
        fmul(a, fsub(b, c)) == fsub(fmul(a, b), fmul(a, c)),
{
    lemma_reduce_args(a, b + c);
    lemma_reduce_args(a, b - c);
    lemma_mul_is_distributive_add(a, b, c);
    lemma_mul_is_distributive_sub(a, b, c);
    lemma_reduce_args(a * b, a * c);
    lemma_reduce_args(a * b % modulus(), a * c);
}

/// Zero and one are neutral, and zero absorbs.
pub proof fn lemma_neutral(a: int)
    ensures
        fadd(a, 0) == a % modulus(),
        fadd(0, a) == a % modulus(),
        fsub(a, 0) == a % modulus(),
        fsub(a, a) == 0,
        fmul(a, 1) == a % modulus(),
        fmul(1, a) == a % modulus(),
        fmul(a, 0) == 0,
        fmul(0, a) == 0,
{
    assert(a * 1 == a);
    assert(1 * a == a);
    assert(a * 0 == 0);
    assert(0 * a == 0);
}

/// Adding back what was subtracted restores the residue.
pub proof fn lemma_sub_then_add(a: int, b: int)
    ensures
        fadd(fsub(a, b), b) == a % modulus(),
        fsub(fadd(a, b), b) == a % modulus(),
{
    lemma_reduce_args(a - b, b);
    lemma_reduce_args(a + b, b);
}

/// An inverse, where there is one, is unique, and `finv` is it.
pub proof fn lemma_inverse_unique(a: int, r: int)
    requires
        is_inverse(a, r),
    ensures
        invertible(a),
        finv(a) == r,
        fmul(a, r) == 1,
        fmul(r, a) == 1,
{
    let s = finv(a);
    assert(is_inverse(a, s));
    lemma_commutative(a, r);
    lemma_commutative(a, s);
    // s = s * (a * r) = (s * a) * r = r
    lemma_fmul_associative(s, a, r);
    lemma_neutral(s);
    lemma_neutral(r);
    lemma_canonical_fixed(s);
    lemma_canonical_fixed(r);
}

/// Multiplying by a divisor and then by its inverse restores the residue.
pub proof fn lemma_inverse_cancels(a: int, d: int)
    requires
        invertible(d),
    ensures
        fmul(fmul(a, d), finv(d)) == a % modulus(),
        fmul(fmul(a, finv(d)), d) == a % modulus(),
        fmul(d, finv(d)) == 1,
        fmul(finv(d), d) == 1,
        canonical(finv(d)),
{
    let r = finv(d);
    assert(is_inverse(d, r));
    lemma_commutative(d, r);
    lemma_fmul_associative(a, d, r);
    lemma_fmul_associative(a, r, d);
    lemma_neutral(a);
}

/// A common invertible factor can be cancelled.
pub proof fn lemma_cancel_factor(d: int, a: int, b: int)
    requires
        invertible(d),
        fmul(d, a) == fmul(d, b),
    ensures
        a % modulus() == b % modulus(),
{
    lemma_commutative(d, a);
    lemma_commutative(d, b);
    lemma_inverse_cancels(a, d);
    lemma_inverse_cancels(b, d);
}

/// Every residue but zero has an inverse: the field is a field.
pub proof fn lemma_nonzero_invertible(a: int)
    requires
        a % modulus() != 0,
    ensures
        invertible(a),
{
    let m = modulus();
    let reduced = a % m;
    lemma_order_inverses(reduced);
    let r = choose|r: int| inverse_of(reduced, r, m);
    lemma_mul_mod_noop_general(a, r, m);
    assert(is_inverse(a, r));
}

} // verus!
