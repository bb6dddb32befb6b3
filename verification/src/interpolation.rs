//! Why interpolation at zero recovers the constant term.
//!
//! The lemmas here are about the functions of [`crate::lagrange`] alone.
//! They hold for nodes that are different scalars: the difference of any
//! two of them is then not zero, and so has an inverse in the field.
use crate::field::canonical;
use crate::field::fadd;
use crate::field::finv;
use crate::field::fmul;
use crate::field::fpow;
use crate::field::fsub;
use crate::field::lemma_cancel_factor;
use crate::field::lemma_canonical_fixed;
use crate::field::lemma_commutative;
use crate::field::lemma_congruent_args;
use crate::field::lemma_distributive;
use crate::field::lemma_fadd_associative;
use crate::field::lemma_fmul_associative;
use crate::field::lemma_inverse_cancels;
use crate::field::lemma_modulus_large;
use crate::field::lemma_neutral;
use crate::field::lemma_nonzero_invertible;
use crate::field::lemma_reduce_args;
use crate::field::lemma_reduced;
use crate::field::lemma_sub_then_add;
use crate::field::modulus;
use crate::lagrange::basis_terms;
use crate::lagrange::distinct_scalars;
use crate::lagrange::fprod;
use crate::lagrange::fsum;
use crate::lagrange::interpolate;
use crate::lagrange::lagrange_coeff;
use crate::lagrange::weighted;
use crate::polynomial::evaluations;
use crate::polynomial::lemma_poly_eval_constant;
use crate::polynomial::poly_eval;
use vstd::prelude::*;

verus! {

/// The values `vs` at the nodes `xs` are those of the polynomial `p`, which
/// has at least one coefficient and no more coefficients than there are
/// nodes.
pub open spec fn fits(p: Seq<int>, xs: Seq<int>, vs: Seq<int>) -> bool {
    &&& 1 <= p.len() <= xs.len()
    &&& vs.len() == xs.len()
    &&& forall|j: int| 0 <= j < xs.len() ==> #[trigger] vs[j] % modulus() == poly_eval(p, xs[j])
}

/// `n` times the value `c`.
pub open spec fn constant(n: nat, c: int) -> Seq<int> {
    Seq::new(n, |j: int| c)
}

/// The `k`-th powers of the nodes.
pub open spec fn powers(xs: Seq<int>, k: nat) -> Seq<int> {
    Seq::new(xs.len(), |j: int| fpow(xs[j], k))
}

/// The Lagrange coefficients of all the nodes.
pub open spec fn coefficients(xs: Seq<int>) -> Seq<int> {
    Seq::new(xs.len(), |j: int| lagrange_coeff(xs, j))
}

/// The place in a sequence of the element that stands at `k` once the
/// element at `a` is removed.
pub open spec fn skip(a: int, k: int) -> int {
    if k < a {
        k
    } else {
        k + 1
    }
}

/// A sum is reduced.
pub proof fn lemma_fsum_reduced(s: Seq<int>)
    ensures
        canonical(fsum(s)),
{
    lemma_modulus_large();
}

/// Any one term can be taken out of a sum.
pub proof fn lemma_fsum_remove(s: Seq<int>, a: int)
    requires
        0 <= a < s.len(),
    ensures
        fsum(s) == fadd(s[a], fsum(s.remove(a))),
    decreases s.len(),
{
    let rest = s.remove(a);
    if a == s.len() - 1 {
        assert(rest =~= s.drop_last());
        lemma_commutative(fsum(rest), s.last());
    } else {
        let front = s.drop_last();
        lemma_fsum_remove(front, a);
        assert(rest.drop_last() =~= front.remove(a));
        assert(rest.last() == s.last());
        lemma_fadd_associative(s[a], fsum(front.remove(a)), s.last());
    }
}

/// Any one factor can be taken out of a product.
pub proof fn lemma_fprod_remove(s: Seq<int>, a: int)
    requires
        0 <= a < s.len(),
    ensures
        fprod(s) == fmul(s[a], fprod(s.remove(a))),
    decreases s.len(),
{
    let rest = s.remove(a);
    if a == s.len() - 1 {
        assert(rest =~= s.drop_last());
        lemma_commutative(fprod(rest), s.last());
    } else {
        let front = s.drop_last();
        lemma_fprod_remove(front, a);
        assert(rest.drop_last() =~= front.remove(a));
        assert(rest.last() == s.last());
        lemma_fmul_associative(s[a], fprod(front.remove(a)), s.last());
    }
}

/// Sums of termwise congruent sequences are equal.
pub proof fn lemma_fsum_congruent(s: Seq<int>, t: Seq<int>)
    requires
        s.len() == t.len(),
        forall|j: int| 0 <= j < s.len() ==> s[j] % modulus() == t[j] % modulus(),
    ensures
        fsum(s) == fsum(t),
    decreases s.len(),
{
    if s.len() > 0 {
        lemma_fsum_congruent(s.drop_last(), t.drop_last());
        lemma_congruent_args(fsum(s.drop_last()), fsum(t.drop_last()), s.last(), t.last());
    }
}

/// A common factor can be taken out of a sum.
pub proof fn lemma_fsum_scaled(c: int, s: Seq<int>, t: Seq<int>)
    requires
        s.len() == t.len(),
        forall|j: int| 0 <= j < s.len() ==> t[j] == fmul(c, s[j]),
    ensures
        fsum(t) == fmul(c, fsum(s)),
    decreases s.len(),
{
    if s.len() == 0 {
        lemma_neutral(c);
    } else {
        lemma_fsum_scaled(c, s.drop_last(), t.drop_last());
        lemma_distributive(c, fsum(s.drop_last()), s.last());
    }
}

/// The sum of termwise sums is the sum of the sums.
pub proof fn lemma_fsum_added(s: Seq<int>, t: Seq<int>, u: Seq<int>)
    requires
        s.len() == t.len(),
        s.len() == u.len(),
        forall|j: int| 0 <= j < s.len() ==> u[j] == fadd(s[j], t[j]),
    ensures
        fsum(u) == fadd(fsum(s), fsum(t)),
    decreases s.len(),
{
    if s.len() == 0 {
        lemma_neutral(0);
    } else {
        let a = fsum(s.drop_last());
        let b = fsum(t.drop_last());
        lemma_fsum_added(s.drop_last(), t.drop_last(), u.drop_last());
        // (a + b) + (x + y) == (a + x) + (b + y)
        lemma_reduce_args(a + b, s.last() + t.last());
        lemma_reduce_args(a + b, (s.last() + t.last()) % modulus());
        lemma_reduce_args(a + s.last(), b + t.last());
        lemma_reduce_args(a + s.last(), (b + t.last()) % modulus());
    }
}

/// Interpolation sees the values only through their residues.
pub proof fn lemma_congruent_values(xs: Seq<int>, us: Seq<int>, vs: Seq<int>)
    requires
        us.len() == xs.len(),
        vs.len() == xs.len(),
        forall|j: int| 0 <= j < xs.len() ==> #[trigger] us[j] % modulus() == vs[j] % modulus(),
    ensures
        interpolate(xs, us) == interpolate(xs, vs),
{
    let s = weighted(xs, us);
    let t = weighted(xs, vs);
    assert forall|j: int| 0 <= j < s.len() implies s[j] % modulus() == t[j] % modulus() by {
        assert(us[j] % modulus() == vs[j] % modulus());
        lemma_congruent_args(lagrange_coeff(xs, j), lagrange_coeff(xs, j), us[j], vs[j]);
    }
    lemma_fsum_congruent(s, t);
}

/// Interpolation is homogeneous: scaling every value scales the result.
pub proof fn lemma_interpolate_scaled(xs: Seq<int>, c: int, vs: Seq<int>, ws: Seq<int>)
    requires
        vs.len() == xs.len(),
        ws.len() == xs.len(),
        forall|j: int| 0 <= j < xs.len() ==> #[trigger] ws[j] == fmul(c, vs[j]),
    ensures
        interpolate(xs, ws) == fmul(c, interpolate(xs, vs)),
{
    let s = weighted(xs, vs);
    let t = weighted(xs, ws);
    assert forall|j: int| 0 <= j < s.len() implies t[j] == fmul(c, s[j]) by {
        let l = lagrange_coeff(xs, j);
        assert(ws[j] == fmul(c, vs[j]));
        // l * (c * v) == c * (l * v)
        lemma_fmul_associative(l, c, vs[j]);
        lemma_commutative(l, c);
        lemma_fmul_associative(c, l, vs[j]);
    }
    lemma_fsum_scaled(c, s, t);
}

/// Interpolation is additive: adding two lists of values adds the results.
pub proof fn lemma_interpolate_added(xs: Seq<int>, us: Seq<int>, vs: Seq<int>, ws: Seq<int>)
    requires
        us.len() == xs.len(),
        vs.len() == xs.len(),
        ws.len() == xs.len(),
        forall|j: int| 0 <= j < xs.len() ==> #[trigger] ws[j] == fadd(us[j], vs[j]),
    ensures
        interpolate(xs, ws) == fadd(interpolate(xs, us), interpolate(xs, vs)),
{
    let s = weighted(xs, us);
    let t = weighted(xs, vs);
    let u = weighted(xs, ws);
    assert forall|j: int| 0 <= j < s.len() implies u[j] == fadd(s[j], t[j]) by {
        assert(ws[j] == fadd(us[j], vs[j]));
        lemma_distributive(lagrange_coeff(xs, j), us[j], vs[j]);
    }
    lemma_fsum_added(s, t, u);
}

/// Nodes stay different scalars when one of them is removed.
pub proof fn lemma_distinct_remove(xs: Seq<int>, a: int)
    requires
        distinct_scalars(xs),
        0 <= a < xs.len(),
    ensures
        distinct_scalars(xs.remove(a)),
{
    let ys = xs.remove(a);
    assert forall|i: int, k: int|
        0 <= i < ys.len() && 0 <= k < ys.len() && i != k implies #[trigger] fsub(ys[i], ys[k])
        != 0 by {
        assert(ys[i] == xs[skip(a, i)]);
        assert(ys[k] == xs[skip(a, k)]);
        assert(fsub(xs[skip(a, i)], xs[skip(a, k)]) != 0);
    }
}

/// How a coefficient changes when another node is removed: the coefficient
/// of a node among all nodes, times that node's distance from node `a`, is
/// `x_a` times its coefficient among the nodes without `a`.
pub proof fn lemma_coeff_without_node(xs: Seq<int>, a: int, k: int)
    requires
        distinct_scalars(xs),
        0 <= a < xs.len(),
        0 <= k < xs.len() - 1,
    ensures
        fmul(lagrange_coeff(xs, skip(a, k)), fsub(xs[a], xs[skip(a, k)])) == fmul(
            xs[a],
            lagrange_coeff(xs.remove(a), k),
        ),
{
    let j = skip(a, k);
    let ys = xs.remove(a);
    let terms = basis_terms(xs, j);
    let d = fsub(xs[a], xs[j]);
    let rest = lagrange_coeff(ys, k);
    assert(terms.remove(a) =~= basis_terms(ys, k)) by {
        assert forall|i: int| 0 <= i < ys.len() implies terms.remove(a)[i] == basis_terms(ys, k)[i] by {
            assert(terms.remove(a)[i] == terms[skip(a, i)]);
            assert(ys[i] == xs[skip(a, i)]);
            assert(ys[k] == xs[j]);
        }
    }
    lemma_fprod_remove(terms, a);
    assert(terms[a] == fmul(xs[a], finv(d)));
    lemma_reduced(xs[a], xs[j]);
    lemma_canonical_fixed(d);
    lemma_nonzero_invertible(d);
    // ((x_a * inv) * rest) * d == x_a * rest
    let inv = finv(d);
    lemma_fmul_associative(xs[a], inv, rest);
    lemma_commutative(inv, rest);
    lemma_fmul_associative(xs[a], rest, inv);
    assert(fmul(fmul(xs[a], inv), rest) == fmul(fmul(xs[a], rest), inv));
    lemma_inverse_cancels(fmul(xs[a], rest), d);
    lemma_reduced(xs[a], rest);
    lemma_canonical_fixed(fmul(xs[a], rest));
}

/// Removing a node: where every value carries its node's distance from
/// node `a` as a factor, the interpolation is `x_a` times the interpolation
/// of the remaining factors through the remaining nodes.
pub proof fn lemma_drop_node(xs: Seq<int>, a: int, gs: Seq<int>, ws: Seq<int>)
    requires
        distinct_scalars(xs),
        0 <= a < xs.len(),
        gs.len() == xs.len(),
        ws.len() == xs.len(),
        forall|j: int| 0 <= j < xs.len() ==> #[trigger] ws[j] == fmul(fsub(xs[a], xs[j]), gs[j]),
    ensures
        interpolate(xs, ws) == fmul(xs[a], interpolate(xs.remove(a), gs.remove(a))),
{
    let ys = xs.remove(a);
    let hs = gs.remove(a);
    let full = weighted(xs, ws);
    let part = weighted(ys, hs);
    lemma_fsum_remove(full, a);
    assert(full[a] == 0) by {
        assert(ws[a] == fmul(fsub(xs[a], xs[a]), gs[a]));
        lemma_neutral(xs[a]);
        lemma_neutral(gs[a]);
        lemma_neutral(lagrange_coeff(xs, a));
    }
    assert forall|k: int| 0 <= k < part.len() implies full.remove(a)[k] == fmul(xs[a], part[k]) by {
        let j = skip(a, k);
        let l = lagrange_coeff(xs, j);
        let d = fsub(xs[a], xs[j]);
        assert(full.remove(a)[k] == full[j]);
        assert(hs[k] == gs[j]);
        assert(ws[j] == fmul(d, gs[j]));
        lemma_coeff_without_node(xs, a, k);
        // l * (d * g) == (l * d) * g == (x_a * l') * g == x_a * (l' * g)
        lemma_fmul_associative(l, d, gs[j]);
        lemma_fmul_associative(xs[a], lagrange_coeff(ys, k), gs[j]);
    }
    lemma_fsum_scaled(xs[a], part, full.remove(a));
    lemma_neutral(fsum(full.remove(a)));
    lemma_commutative(0, fsum(full.remove(a)));
    lemma_fsum_reduced(full.remove(a));
    lemma_canonical_fixed(fsum(full.remove(a)));
}

/// The interpolation of a constant is that constant: through at least one
/// node, all values being one, the result is one.
pub proof fn lemma_interpolate_ones(xs: Seq<int>)
    requires
        distinct_scalars(xs),
        xs.len() >= 1,
    ensures
        interpolate(xs, constant(xs.len(), 1)) == 1,
    decreases xs.len(),
{
    let n = xs.len();
    let ones = constant(n, 1);
    lemma_modulus_large();
    if n == 1 {
        let terms = basis_terms(xs, 0);
        assert(terms.drop_last() =~= Seq::<int>::empty());
        assert(fprod(terms.drop_last()) == 1);
        assert(fprod(terms) == fmul(1, 1));
        lemma_neutral(1);
        lemma_canonical_fixed(1);
        let w = weighted(xs, ones);
        assert(w.drop_last() =~= Seq::<int>::empty());
        assert(fsum(w.drop_last()) == 0);
        assert(w.last() == fmul(1, 1));
        assert(fsum(w) == fadd(0, 1));
    } else {
        let a = n - 1;
        let b = n - 2;
        let fewer = constant((n - 1) as nat, 1);
        assert(ones.remove(a) =~= fewer);
        assert(ones.remove(b) =~= fewer);
        lemma_distinct_remove(xs, a);
        lemma_distinct_remove(xs, b);
        lemma_interpolate_ones(xs.remove(a));
        lemma_interpolate_ones(xs.remove(b));
        let wa = Seq::new(n, |j: int| fmul(fsub(xs[a], xs[j]), 1));
        let wb = Seq::new(n, |j: int| fmul(fsub(xs[b], xs[j]), 1));
        lemma_drop_node(xs, a, ones, wa);
        lemma_drop_node(xs, b, ones, wb);
        let d = fsub(xs[b], xs[a]);
        let ds = Seq::new(n, |j: int| fmul(d, 1));
        lemma_interpolate_scaled(xs, d, ones, ds);
        assert forall|j: int| 0 <= j < n implies #[trigger] wb[j] == fadd(ds[j], wa[j]) by {
            lemma_neutral(d);
            lemma_neutral(fsub(xs[a], xs[j]));
            lemma_neutral(fsub(xs[b], xs[j]));
            lemma_reduce_args(xs[b] - xs[a], xs[a] - xs[j]);
            lemma_reduce_args(xs[b] - xs[a], (xs[a] - xs[j]) % modulus());
            lemma_canonical_fixed(d);
            lemma_canonical_fixed(fsub(xs[a], xs[j]));
            lemma_canonical_fixed(fsub(xs[b], xs[j]));
        }
        lemma_interpolate_added(xs, ds, wa, wb);
        let s = interpolate(xs, ones);
        // x_b == d * s + x_a, hence d * s == d, hence s == 1
        assert(fmul(xs[b], 1) == fadd(fmul(d, s), fmul(xs[a], 1)));
        lemma_sub_then_add(fmul(d, s), fmul(xs[a], 1));
        lemma_neutral(xs[a]);
        lemma_neutral(xs[b]);
        lemma_reduce_args(xs[b], xs[a]);
        lemma_reduce_args(xs[b] % modulus(), xs[a]);
        lemma_canonical_fixed(fmul(d, s));
        assert(fmul(d, s) == d);
        lemma_neutral(d);
        lemma_canonical_fixed(d);
        lemma_nonzero_invertible(d);
        lemma_cancel_factor(d, s, 1);
        lemma_fsum_reduced(weighted(xs, ones));
        lemma_canonical_fixed(s);
        lemma_canonical_fixed(1);
    }
}

/// The Lagrange coefficients of nodes that are different scalars sum to
/// one.
pub proof fn lemma_coefficients_sum_to_one(xs: Seq<int>)
    requires
        distinct_scalars(xs),
        xs.len() >= 1,
    ensures
        fsum(coefficients(xs)) == 1,
{
    lemma_interpolate_ones(xs);
    let w = weighted(xs, constant(xs.len(), 1));
    let c = coefficients(xs);
    assert forall|j: int| 0 <= j < w.len() implies w[j] % modulus() == c[j] % modulus() by {
        lemma_neutral(lagrange_coeff(xs, j));
        lemma_reduced(lagrange_coeff(xs, j), 1);
        lemma_canonical_fixed(w[j]);
    }
    lemma_fsum_congruent(w, c);
}

/// The interpolation of a power of the nodes vanishes, for every power from
/// the first up to the number of nodes less one.
pub proof fn lemma_powers_vanish(xs: Seq<int>, k: nat)
    requires
        distinct_scalars(xs),
        1 <= k < xs.len(),
    ensures
        interpolate(xs, powers(xs, k)) == 0,
    decreases k,
{
    let n = xs.len();
    let a = n - 1;
    let ys = xs.remove(a);
    let low = powers(xs, (k - 1) as nat);
    let high = powers(xs, k);
    let ws = Seq::new(n, |j: int| fmul(fsub(xs[a], xs[j]), low[j]));
    let sc = Seq::new(n, |j: int| fmul(xs[a], low[j]));
    lemma_modulus_large();
    lemma_distinct_remove(xs, a);
    assert(low.remove(a) =~= powers(ys, (k - 1) as nat));
    lemma_drop_node(xs, a, low, ws);
    lemma_interpolate_scaled(xs, xs[a], low, sc);
    assert forall|j: int| 0 <= j < n implies #[trigger] sc[j] == fadd(high[j], ws[j]) by {
        // l * x_j + (x_a - x_j) * l == l * x_a
        let l = low[j];
        assert(high[j] == fmul(l, xs[j]));
        lemma_commutative(fsub(xs[a], xs[j]), l);
        lemma_distributive(l, xs[j], fsub(xs[a], xs[j]));
        lemma_reduce_args(xs[j], xs[a] - xs[j]);
        lemma_reduce_args(l, xs[a]);
        lemma_commutative(l, xs[a]);
    }
    lemma_interpolate_added(xs, high, ws, sc);
    let target = interpolate(xs, high);
    lemma_fsum_reduced(weighted(xs, high));
    lemma_canonical_fixed(target);
    if k == 1 {
        assert(low =~= constant(n, 1));
        assert(powers(ys, 0) =~= constant((n - 1) as nat, 1));
        lemma_interpolate_ones(xs);
        lemma_interpolate_ones(ys);
        // x_a == target + x_a
        lemma_sub_then_add(target, fmul(xs[a], 1));
        lemma_neutral(fmul(xs[a], 1));
    } else {
        lemma_powers_vanish(xs, (k - 1) as nat);
        lemma_powers_vanish(ys, (k - 1) as nat);
        lemma_neutral(xs[a]);
        lemma_neutral(target);
    }
}

/// Interpolation at zero recovers the constant term: through nodes that
/// are different scalars, the values of a polynomial with no more coefficients than there
/// are nodes interpolate to the polynomial's constant term.
pub proof fn lemma_recovers_constant_term(xs: Seq<int>, p: Seq<int>)
    requires
        distinct_scalars(xs),
        1 <= p.len() <= xs.len(),
    ensures
        interpolate(xs, evaluations(p, xs)) == p[0] % modulus(),
    decreases p.len(),
{
    let n = xs.len();
    let all = evaluations(p, xs);
    let ones = constant(n, 1);
    lemma_modulus_large();
    if p.len() == 1 {
        assert(p.drop_last() =~= Seq::<int>::empty());
        assert forall|j: int| 0 <= j < n implies #[trigger] all[j] == fmul(p[0], ones[j]) by {
            lemma_poly_eval_constant(p, xs[j]);
            lemma_neutral(p[0]);
        }
        lemma_interpolate_scaled(xs, p[0], ones, all);
        lemma_interpolate_ones(xs);
        lemma_neutral(p[0]);
    } else {
        let top = (p.len() - 1) as nat;
        let front = p.drop_last();
        let lower = evaluations(front, xs);
        let pw = powers(xs, top);
        let last = Seq::new(n, |j: int| fmul(p.last(), pw[j]));
        lemma_recovers_constant_term(xs, front);
        lemma_powers_vanish(xs, top);
        lemma_interpolate_scaled(xs, p.last(), pw, last);
        assert forall|j: int| 0 <= j < n implies #[trigger] all[j] == fadd(lower[j], last[j]) by {
        }
        lemma_interpolate_added(xs, lower, last, all);
        lemma_neutral(p.last());
        lemma_neutral(p[0] % modulus());
        lemma_reduced(p[0], 1);
        lemma_canonical_fixed(p[0] % modulus());
    }
}

/// Any two sets of nodes, each of different scalars and with at least as
/// many nodes as the polynomial has coefficients, interpolate the polynomial's values to
/// the same result: its constant term.
pub proof fn lemma_quorums_agree(p: Seq<int>, first: Seq<int>, second: Seq<int>)
    requires
        distinct_scalars(first),
        distinct_scalars(second),
        1 <= p.len() <= first.len(),
        p.len() <= second.len(),
    ensures
        interpolate(first, evaluations(p, first)) == interpolate(second, evaluations(p, second)),
        interpolate(first, evaluations(p, first)) == p[0] % modulus(),
{
    lemma_recovers_constant_term(first, p);
    lemma_recovers_constant_term(second, p);
}

} // verus!
