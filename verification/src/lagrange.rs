//! Lagrange interpolation at zero, over scalars and over group elements.
//!
//! A sample is a pair of an index and a value. The index is read as a
//! scalar, the node; the value is anything that can be added and scaled by
//! a scalar ([`Combinable`]). For nodes `x_0 .. x_{n-1}` the coefficient of
//! sample `j` is the product, over the other samples `i`, of
//! `x_i / (x_i - x_j)`, and the interpolated value is the sum of the
//! samples' values, each scaled by its coefficient.
use crate::curve::g1_add;
use crate::curve::g1_exponent;
use crate::curve::g1_generator;
use crate::curve::g1_scale;
use crate::curve::g1_sub;
use crate::curve::g2_add;
use crate::curve::g2_exponent;
use crate::curve::g2_generator;
use crate::curve::g2_scale;
use crate::curve::g2_sub;
use crate::curve::scalar_add;
use crate::curve::scalar_from_u64;
use crate::curve::scalar_invert;
use crate::curve::scalar_mul;
use crate::curve::scalar_sub;
use crate::curve::scalar_value;
use crate::field::fadd;
use crate::field::finv;
use crate::field::fmul;
use crate::field::fsub;
use crate::field::is_inverse;
use crate::field::lemma_canonical_fixed;
use crate::field::lemma_commutative;
use crate::field::lemma_fmul_associative;
use crate::field::lemma_inverse_unique;
use crate::field::lemma_modulus_large;
use crate::field::lemma_neutral;
use crate::field::lemma_reduce_args;
use crate::field::lemma_reduced;
use crate::field::modulus;
use crate::interpolation::fits;
use crate::interpolation::lemma_congruent_values;
use crate::interpolation::lemma_recovers_constant_term;
use crate::polynomial::evaluations;
use crate::polynomial::lemma_poly_eval_constant;
use crate::polynomial::lemma_poly_eval_reduced;
use crate::polynomial::poly_eval;
use curv_kzen::elliptic::curves::bls12_381::g1::GE as GE1;
use curv_kzen::elliptic::curves::bls12_381::g2::FE as FE2;
use curv_kzen::elliptic::curves::bls12_381::g2::GE as GE2;
use vstd::prelude::*;

verus! {

/// A value that can be added to another and scaled by a scalar.
///
/// `value` is the value's reading as a residue: the scalar's residue, or the
/// point's exponent. The operations act on it as the field operations do.
pub trait Combinable: Sized + Copy {
    /// The residue that stands for this value.
    spec fn value(&self) -> int;

    /// The neutral value of addition.
    fn zero() -> (r: Self)
        ensures
            r.value() == 0,
    ;

    /// The sum of two values.
    fn plus(&self, other: &Self) -> (r: Self)
        ensures
            r.value() == fadd(self.value(), other.value()),
    ;

    /// This value scaled by `k`.
    fn scale(&self, k: &FE2) -> (r: Self)
        ensures
            r.value() == fmul(self.value(), scalar_value(*k)),
    ;
}

impl Combinable for FE2 {
    open spec fn value(&self) -> int {
        scalar_value(*self)
    }

    fn zero() -> (r: Self) {
        scalar_from_u64(0)
    }

    fn plus(&self, other: &Self) -> (r: Self) {
        scalar_add(self, other)
    }

    fn scale(&self, k: &FE2) -> (r: Self) {
        scalar_mul(self, k)
    }
}

impl Combinable for GE1 {
    open spec fn value(&self) -> int {
        g1_exponent(*self)
    }

    fn zero() -> (r: Self) {
        let g = g1_generator();
        proof {
            lemma_neutral(1);
        }
        g1_sub(&g, &g)
    }

    fn plus(&self, other: &Self) -> (r: Self) {
        g1_add(self, other)
    }

    fn scale(&self, k: &FE2) -> (r: Self) {
        g1_scale(self, k)
    }
}

impl Combinable for GE2 {
    open spec fn value(&self) -> int {
        g2_exponent(*self)
    }

    fn zero() -> (r: Self) {
        let g = g2_generator();
        proof {
            lemma_neutral(1);
        }
        g2_sub(&g, &g)
    }

    fn plus(&self, other: &Self) -> (r: Self) {
        g2_add(self, other)
    }

    fn scale(&self, k: &FE2) -> (r: Self) {
        g2_scale(self, k)
    }
}

/// The product of the residues in `s`, in the field; one for no residues.
pub open spec fn fprod(s: Seq<int>) -> int
    decreases s.len(),
{
    if s.len() == 0 {
        1
    } else {
        fmul(fprod(s.drop_last()), s.last())
    }
}

/// The sum of the residues in `s`, in the field; zero for no residues.
pub open spec fn fsum(s: Seq<int>) -> int
    decreases s.len(),
{
    if s.len() == 0 {
        0
    } else {
        fadd(fsum(s.drop_last()), s.last())
    }
}

/// The factors of the coefficient of sample `j`: for every other sample `i`
/// the quotient `x_i / (x_i - x_j)`, and one in the place of `j` itself.
pub open spec fn basis_terms(xs: Seq<int>, j: int) -> Seq<int> {
    Seq::new(
        xs.len(),
        |i: int|
            if i == j {
                1
            } else {
                fmul(xs[i], finv(fsub(xs[i], xs[j])))
            },
    )
}

/// The Lagrange coefficient at zero of sample `j` among the nodes `xs`.
pub open spec fn lagrange_coeff(xs: Seq<int>, j: int) -> int {
    fprod(basis_terms(xs, j))
}

/// The values `vs`, each multiplied by the coefficient of its node.
pub open spec fn weighted(xs: Seq<int>, vs: Seq<int>) -> Seq<int> {
    Seq::new(xs.len(), |j: int| fmul(lagrange_coeff(xs, j), vs[j]))
}

/// The value at zero of the interpolation through the nodes `xs` with the
/// values `vs`.
pub open spec fn interpolate(xs: Seq<int>, vs: Seq<int>) -> int {
    fsum(weighted(xs, vs))
}

/// No node occurs twice.
pub open spec fn distinct(xs: Seq<int>) -> bool {
    forall|a: int, b: int| 0 <= a < b < xs.len() ==> xs[a] != xs[b]
}

/// No two nodes are the same scalar: the difference of any two of them is
/// not zero in the field.
pub open spec fn distinct_scalars(xs: Seq<int>) -> bool {
    forall|a: int, b: int|
        0 <= a < xs.len() && 0 <= b < xs.len() && a != b ==> #[trigger] fsub(xs[a], xs[b]) != 0
}

/// Every value is `c`.
pub open spec fn all_equal(vs: Seq<int>, c: int) -> bool {
    forall|j: int| 0 <= j < vs.len() ==> vs[j] == c
}

/// The nodes of a list of samples: their indices, as integers.
pub open spec fn nodes<T>(points: Seq<(usize, T)>) -> Seq<int> {
    Seq::new(points.len(), |i: int| points[i].0 as int)
}

/// The values of a list of samples, as residues.
pub open spec fn values<T: Combinable>(points: Seq<(usize, T)>) -> Seq<int> {
    Seq::new(points.len(), |i: int| points[i].1.value())
}

/// Two different 64-bit numbers differ as scalars too.
pub proof fn lemma_distinct_nodes_differ(x: int, y: int)
    requires
        0 <= x <= u64::MAX,
        0 <= y <= u64::MAX,
        x != y,
    ensures
        fsub(x, y) != 0,
{
    lemma_modulus_large();
    let d = x - y;
    if d > 0 {
        lemma_canonical_fixed(d);
    } else {
        vstd::arithmetic::div_mod::lemma_mod_add_multiples_vanish(d, modulus());
        lemma_canonical_fixed(d + modulus());
    }
}

/// Different 64-bit numbers are different scalars.
pub proof fn lemma_distinct_scalars(xs: Seq<int>)
    requires
        distinct(xs),
        forall|i: int| 0 <= i < xs.len() ==> 0 <= #[trigger] xs[i] <= u64::MAX,
    ensures
        distinct_scalars(xs),
{
    assert forall|a: int, b: int|
        0 <= a < xs.len() && 0 <= b < xs.len() && a != b implies #[trigger] fsub(xs[a], xs[b])
        != 0 by {
        if a < b {
            assert(xs[a] != xs[b]);
        } else {
            assert(xs[b] != xs[a]);
        }
        lemma_distinct_nodes_differ(xs[a], xs[b]);
    }
}

/// A product grows by one factor at a time.
pub proof fn lemma_fprod_step(s: Seq<int>, i: int)
    requires
        0 <= i < s.len(),
    ensures
        fprod(s.take(i + 1)) == fmul(fprod(s.take(i)), s[i]),
{
    assert(s.take(i + 1).drop_last() =~= s.take(i));
}

/// A sum grows by one term at a time.
pub proof fn lemma_fsum_step(s: Seq<int>, i: int)
    requires
        0 <= i < s.len(),
    ensures
        fsum(s.take(i + 1)) == fadd(fsum(s.take(i)), s[i]),
{
    assert(s.take(i + 1).drop_last() =~= s.take(i));
}

/// A factor of one leaves a product as it is.
proof fn lemma_fprod_skip(s: Seq<int>, i: int)
    requires
        0 <= i < s.len(),
        s[i] == 1,
    ensures
        fprod(s.take(i + 1)) == fprod(s.take(i)),
{
    lemma_fprod_step(s, i);
    lemma_neutral(fprod(s.take(i)));
    lemma_modulus_large();
    if i == 0 {
        assert(s.take(0) =~= Seq::<int>::empty());
        lemma_canonical_fixed(1);
    } else {
        lemma_fprod_step(s, i - 1);
        lemma_reduced(fprod(s.take(i - 1)), s[i - 1]);
        lemma_canonical_fixed(fprod(s.take(i)));
    }
}

/// One more factor of a coefficient: the product so far, times the node,
/// times the inverse of the node's difference from node `j`.
proof fn lemma_coeff_step(xs: Seq<int>, j: int, i: int, before: int, inv: int)
    requires
        0 <= i < xs.len(),
        0 <= j < xs.len(),
        i != j,
        before == fprod(basis_terms(xs, j).take(i)),
        is_inverse(fsub(xs[i], xs[j]), inv),
    ensures
        fmul(fmul(before, xs[i]), inv) == fprod(basis_terms(xs, j).take(i + 1)),
{
    lemma_fprod_step(basis_terms(xs, j), i);
    lemma_inverse_unique(fsub(xs[i], xs[j]), inv);
    lemma_fmul_associative(before, xs[i], inv);
}

/// Computes the Lagrange coefficient at zero of sample `j`.
///
/// The samples' indices must differ from one another: the coefficient
/// divides by their differences.
pub fn lagrange_coeff_f0<T: Combinable>(points: &Vec<(usize, T)>, j: usize) -> (r: FE2)
    requires
        j < points.len(),
        distinct(nodes(points@)),
    ensures
        scalar_value(r) == lagrange_coeff(nodes(points@), j as int),
{
    let ghost xs = nodes(points@);
    let ghost terms = basis_terms(xs, j as int);
    let xj = scalar_from_u64(points[j].0 as u64);
    let mut prod = scalar_from_u64(1);
    let mut i: usize = 0;
    assert(terms.take(0) =~= Seq::<int>::empty());
    while i < points.len()
        invariant
            i <= points.len(),
            j < points.len(),
            xs == nodes(points@),
            terms == basis_terms(xs, j as int),
            distinct(xs),
            scalar_value(xj) == xs[j as int],
            scalar_value(prod) == fprod(terms.take(i as int)),
        decreases points.len() - i,
    {
        if i != j {
            let xi = scalar_from_u64(points[i].0 as u64);
            let diff = scalar_sub(&xi, &xj);
            proof {
                assert(xs[i as int] != xs[j as int]) by {
                    if i < j {
                        assert(xs[i as int] != xs[j as int]);
                    } else {
                        assert(xs[j as int] != xs[i as int]);
                    }
                }
                lemma_distinct_nodes_differ(xs[i as int], xs[j as int]);
                lemma_reduced(xs[i as int], xs[j as int]);
                lemma_canonical_fixed(scalar_value(diff));
            }
            let inv = scalar_invert(&diff);
            let ghost before = scalar_value(prod);
            prod = scalar_mul(&scalar_mul(&prod, &xi), &inv);
            proof {
                lemma_coeff_step(xs, j as int, i as int, before, scalar_value(inv));
                lemma_reduce_args(before * xs[i as int], scalar_value(inv));
            }
        } else {
            proof {
                lemma_fprod_skip(terms, i as int);
            }
        }
        i += 1;
    }
    proof {
        assert(terms.take(points.len() as int) =~= terms);
    }
    prod
}

/// Interpolates the samples at zero: the sum of the samples' values, each
/// scaled by its Lagrange coefficient.
///
/// The samples' indices must differ from one another. The result is the
/// interpolated value; in particular, where the values are those of some
/// polynomial with no more coefficients than there are samples, it is that
/// polynomial's constant term.
pub fn lagrange_interpolate_f0<T: Combinable>(points: &Vec<(usize, T)>) -> (r: T)
    requires
        distinct(nodes(points@)),
    ensures
        r.value() == interpolate(nodes(points@), values(points@)),
        forall|p: Seq<int>| #[trigger]
            fits(p, nodes(points@), values(points@)) ==> r.value() == p[0] % modulus(),
        forall|c: int|
            points.len() >= 1 && #[trigger] all_equal(values(points@), c) ==> r.value() == c
                % modulus(),
{
    let ghost xs = nodes(points@);
    let ghost vs = values(points@);
    let ghost terms = weighted(xs, vs);
    let mut summation = T::zero();
    let mut j: usize = 0;
    assert(terms.take(0) =~= Seq::<int>::empty());
    while j < points.len()
        invariant
            j <= points.len(),
            xs == nodes(points@),
            vs == values(points@),
            terms == weighted(xs, vs),
            distinct(xs),
            summation.value() == fsum(terms.take(j as int)),
        decreases points.len() - j,
    {
        let lambda = lagrange_coeff_f0(points, j);
        let term = points[j].1.scale(&lambda);
        summation = summation.plus(&term);
        proof {
            lemma_fsum_step(terms, j as int);
            lemma_commutative(vs[j as int], scalar_value(lambda));
        }
        j += 1;
    }
    proof {
        assert(terms.take(points.len() as int) =~= terms);
        lemma_distinct_scalars(xs);
        assert forall|p: Seq<int>| #[trigger] fits(p, xs, vs) implies summation.value() == p[0]
            % modulus() by {
            let es = evaluations(p, xs);
            assert forall|k: int| 0 <= k < xs.len() implies #[trigger] vs[k] % modulus() == es[k]
                % modulus() by {
                lemma_poly_eval_reduced(p, xs[k]);
                lemma_canonical_fixed(es[k]);
            }
            lemma_recovers_constant_term(xs, p);
            lemma_congruent_values(xs, vs, es);
        }
        assert forall|c: int| points.len() >= 1 && #[trigger] all_equal(vs, c) implies summation.value()
            == c % modulus() by {
            let p = seq![c];
            assert forall|k: int| 0 <= k < xs.len() implies #[trigger] vs[k] % modulus() == poly_eval(
                p,
                xs[k],
            ) by {
                lemma_poly_eval_constant(p, xs[k]);
            }
            assert(fits(p, xs, vs));
        }
    }
    summation
}

} // verus!
