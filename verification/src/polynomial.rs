//! Polynomials over the scalar field, by their coefficients.
//!
//! A polynomial is the sequence of its coefficients, lowest first: the
//! sequence `[a_0, a_1, .., a_{t-1}]` is `a_0 + a_1 x + .. + a_{t-1} x^{t-1}`.
use crate::curve::scalar_add;
use crate::curve::scalar_from_u64;
use crate::curve::scalar_mul;
use crate::curve::scalar_random;
use crate::curve::scalar_value;
use crate::field::canonical;
use crate::field::fadd;
use crate::field::fmul;
use crate::field::fpow;
use crate::field::lemma_canonical_fixed;
use crate::field::lemma_commutative;
use crate::field::lemma_distributive;
use crate::field::lemma_modulus_large;
use crate::field::lemma_neutral;
use crate::field::lemma_reduce_args;
use crate::field::lemma_reduced;
use crate::field::modulus;
use curv_kzen::elliptic::curves::bls12_381::g2::FE as FE2;
use vstd::prelude::*;

verus! {

/// The value of the polynomial `p` at `x`, in the field.
pub open spec fn poly_eval(p: Seq<int>, x: int) -> int
    decreases p.len(),
{
    if p.len() == 0 {
        0
    } else {
        fadd(poly_eval(p.drop_last(), x), fmul(p.last(), fpow(x, (p.len() - 1) as nat)))
    }
}

/// The values of the polynomial `p` at each of the nodes `xs`.
pub open spec fn evaluations(p: Seq<int>, xs: Seq<int>) -> Seq<int> {
    Seq::new(xs.len(), |j: int| poly_eval(p, xs[j]))
}

/// The value of a polynomial is a reduced residue.
pub proof fn lemma_poly_eval_reduced(p: Seq<int>, x: int)
    ensures
        canonical(poly_eval(p, x)),
{
    lemma_modulus_large();
}

/// A polynomial of one coefficient is constant.
pub proof fn lemma_poly_eval_constant(p: Seq<int>, x: int)
    requires
        p.len() == 1,
    ensures
        poly_eval(p, x) == p[0] % modulus(),
{
    assert(p.drop_last() =~= Seq::<int>::empty());
    assert(poly_eval(p.drop_last(), x) == 0);
    assert(fpow(x, 0) == 1);
    lemma_neutral(p[0]);
    lemma_neutral(fmul(p[0], 1));
    lemma_reduced(p[0], 1);
    lemma_canonical_fixed(fmul(p[0], 1));
}

/// The coefficientwise sum of two polynomials of the same length.
pub open spec fn poly_sum(p: Seq<int>, g: Seq<int>) -> Seq<int> {
    Seq::new(p.len(), |k: int| fadd(p[k], g[k]))
}

/// The value of a sum of polynomials is the sum of their values.
pub proof fn lemma_poly_sum_eval(p: Seq<int>, g: Seq<int>, x: int)
    requires
        p.len() == g.len(),
    ensures
        poly_eval(poly_sum(p, g), x) == fadd(poly_eval(p, x), poly_eval(g, x)),
    decreases p.len(),
{
    let s = poly_sum(p, g);
    if p.len() == 0 {
        lemma_neutral(0);
    } else {
        let w = fpow(x, (p.len() - 1) as nat);
        let a = poly_eval(p.drop_last(), x);
        let b = poly_eval(g.drop_last(), x);
        assert(s.drop_last() =~= poly_sum(p.drop_last(), g.drop_last()));
        lemma_poly_sum_eval(p.drop_last(), g.drop_last(), x);
        // (p_k + g_k) * w == p_k * w + g_k * w
        lemma_commutative(fadd(p.last(), g.last()), w);
        lemma_distributive(w, p.last(), g.last());
        lemma_commutative(w, p.last());
        lemma_commutative(w, g.last());
        let u = fmul(p.last(), w);
        let v = fmul(g.last(), w);
        // (a + b) + (u + v) == (a + u) + (b + v)
        lemma_reduce_args(a + b, u + v);
        lemma_reduce_args(a + b, (u + v) % modulus());
        lemma_reduce_args(a + u, b + v);
        lemma_reduce_args(a + u, (b + v) % modulus());
    }
}

/// The polynomial whose coefficients are all zero has the value zero
/// everywhere.
pub proof fn lemma_poly_eval_zero(p: Seq<int>, x: int)
    requires
        forall|k: int| 0 <= k < p.len() ==> p[k] == 0,
    ensures
        poly_eval(p, x) == 0,
    decreases p.len(),
{
    if p.len() > 0 {
        lemma_poly_eval_zero(p.drop_last(), x);
        lemma_neutral(fpow(x, (p.len() - 1) as nat));
        lemma_neutral(0);
    }
}

/// The residues of a list of scalars.
pub open spec fn residues(coeffs: Seq<FE2>) -> Seq<int> {
    Seq::new(coeffs.len(), |k: int| scalar_value(coeffs[k]))
}

/// Draws a polynomial of `t` coefficients: the given constant term, and
/// every higher coefficient a fresh random scalar.
pub fn sample_polynomial(constant: FE2, t: usize) -> (coeffs: Vec<FE2>)
    requires
        t >= 1,
    ensures
        coeffs.len() == t,
        coeffs[0] == constant,
        forall|k: int| 1 <= k < t ==> canonical(scalar_value(#[trigger] coeffs[k])),
{
    let mut coeffs: Vec<FE2> = Vec::new();
    coeffs.push(constant);
    let mut k: usize = 1;
    while k < t
        invariant
            1 <= k <= t,
            coeffs.len() == k,
            coeffs[0] == constant,
            forall|i: int| 1 <= i < k ==> canonical(scalar_value(#[trigger] coeffs[i])),
        decreases t - k,
    {
        let c = scalar_random();
        coeffs.push(c);
        k += 1;
    }
    coeffs
}

/// Evaluates a polynomial, given by its coefficients, at a scalar.
pub fn evaluate(coeffs: &Vec<FE2>, x: &FE2) -> (r: FE2)
    ensures
        scalar_value(r) == poly_eval(residues(coeffs@), scalar_value(*x)),
{
    let ghost p = residues(coeffs@);
    let ghost at = scalar_value(*x);
    let mut acc = scalar_from_u64(0);
    let mut power = scalar_from_u64(1);
    let mut k: usize = 0;
    assert(p.take(0) =~= Seq::<int>::empty());
    while k < coeffs.len()
        invariant
            k <= coeffs.len(),
            p == residues(coeffs@),
            at == scalar_value(*x),
            scalar_value(acc) == poly_eval(p.take(k as int), at),
            scalar_value(power) == fpow(at, k as nat),
        decreases coeffs.len() - k,
    {
        let term = scalar_mul(&coeffs[k], &power);
        acc = scalar_add(&acc, &term);
        power = scalar_mul(&power, x);
        proof {
            assert(p.take(k + 1).drop_last() =~= p.take(k as int));
            assert(p.take(k + 1).last() == p[k as int]);
        }
        k += 1;
    }
    proof {
        assert(p.take(coeffs.len() as int) =~= p);
    }
    acc
}

} // verus!
