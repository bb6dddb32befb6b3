//! Primality by witness, and what it gives: inverses.
//!
//! A number `n` is shown to be prime by a witness `g` whose powers return
//! to one first at the exponent `n - 1`: the `n - 1`-th power of `g` is one
//! modulo `n`, and for every prime `p` that divides `n - 1` the
//! `(n - 1) / p`-th power is not. The powers of such a `g` are then `n - 1`
//! different residues, none of them zero, so they are all the residues but
//! zero, and each of them has an inverse, another power of `g`.
use vstd::arithmetic::div_mod::lemma_fundamental_div_mod;
use vstd::arithmetic::div_mod::lemma_mod_multiples_basic;
use vstd::arithmetic::div_mod::lemma_mul_mod_noop_general;
use vstd::arithmetic::div_mod::lemma_small_mod;
use vstd::prelude::*;
use vstd::relations::injective_on;
use vstd::set_lib::lemma_int_range;
use vstd::set_lib::lemma_map_size;
use vstd::set_lib::lemma_subset_equality;
use vstd::set_lib::set_int_range;

verus! {

/// `p` is prime: at least two, with no divisor between one and itself.
pub open spec fn is_prime(p: int) -> bool {
    p >= 2 && forall|d: int| 2 <= d < p ==> #[trigger] (p % d) != 0
}

/// The power `g^e` modulo `n`.
#[verifier::opaque]
pub open spec fn mpow(g: int, e: nat, n: int) -> int
    decreases e,
{
    if e == 0 {
        1int % n
    } else {
        (mpow(g, (e - 1) as nat, n) * g) % n
    }
}

/// `r` is the inverse of `a` modulo `n`, reduced.
pub open spec fn inverse_of(a: int, r: int, n: int) -> bool {
    0 <= r < n && (a * r) % n == 1
}

/// `a` has an inverse modulo `n`.
pub open spec fn has_inverse(a: int, n: int) -> bool {
    exists|r: int| inverse_of(a, r, n)
}

/// The product of the numbers in `f`.
pub open spec fn product(f: Seq<int>) -> int
    decreases f.len(),
{
    if f.len() == 0 {
        1
    } else {
        product(f.drop_last()) * f.last()
    }
}

/// `g` is a witness for `n`, with respect to the factors `f`: every factor
/// is a prime, and the power of `g` that leaves the factor out of `n - 1`
/// is not one.
pub open spec fn witnessed_by(n: int, g: int, f: Seq<int>) -> bool {
    forall|i: int|
        0 <= i < f.len() ==> is_prime(#[trigger] f[i]) && mpow(g, ((n - 1) / f[i]) as nat, n) != 1
}

/// `g` is a witness for `n`: the factors `f` multiply to `n - 1`, the
/// `n - 1`-th power of `g` is one, and `g` is a witness with respect to
/// the factors.
pub open spec fn witness(n: int, g: int, f: Seq<int>) -> bool {
    &&& n >= 3
    &&& product(f) == n - 1
    &&& mpow(g, (n - 1) as nat, n) == 1
    &&& witnessed_by(n, g, f)
}

/// A multiple of `d` leaves no remainder, and what leaves no remainder is a
/// multiple.
pub proof fn lemma_multiple(d: int, k: int)
    requires
        d > 0,
    ensures
        (d * k) % d == 0,
        (k * d) % d == 0,
{
    lemma_mod_multiples_basic(k, d);
    assert(d * k == k * d) by (nonlinear_arith);
}

/// What leaves no remainder on division by `d` is `d` times the quotient.
pub proof fn lemma_quotient(a: int, d: int)
    requires
        d > 0,
        a % d == 0,
    ensures
        a == d * (a / d),
{
    lemma_fundamental_div_mod(a, d);
}

/// Divisibility is transitive.
pub proof fn lemma_divides_transitive(p: int, d: int, t: int)
    requires
        p > 0,
        d > 0,
        d % p == 0,
        t % d == 0,
    ensures
        t % p == 0,
{
    lemma_quotient(d, p);
    lemma_quotient(t, d);
    let k = (d / p) * (t / d);
    assert(t == p * k) by (nonlinear_arith)
        requires
            d == p * (d / p),
            t == d * (t / d),
            k == (d / p) * (t / d),
    ;
    lemma_multiple(p, k);
}

/// A positive divisor of a positive number does not exceed it.
pub proof fn lemma_divisor_bound(a: int, d: int)
    requires
        a > 0,
        d > 0,
        a % d == 0,
    ensures
        d <= a,
{
    if d > a {
        lemma_small_mod(a as nat, d as nat);
    }
}

/// Every number from two on has a prime divisor.
pub proof fn lemma_prime_divisor(t: int) -> (p: int)
    requires
        t >= 2,
    ensures
        is_prime(p),
        t % p == 0,
    decreases t,
{
    if is_prime(t) {
        lemma_multiple(t, 1);
        t
    } else {
        let d = choose|d: int| 2 <= d < t && #[trigger] (t % d) == 0;
        let p = lemma_prime_divisor(d);
        lemma_divides_transitive(p, d, t);
        p
    }
}

/// Bézout: two numbers, not both zero, have a common divisor that is a
/// combination of them.
pub proof fn lemma_bezout(a: int, b: int) -> (r: (int, int, int))
    requires
        a >= 0,
        b >= 0,
        a + b > 0,
    ensures
        r.0 >= 1,
        a % r.0 == 0,
        b % r.0 == 0,
        r.0 == r.1 * a + r.2 * b,
    decreases b,
{
    if b == 0 {
        lemma_multiple(a, 1);
        lemma_multiple(a, 0);
        (a, 1, 0)
    } else {
        let m = a % b;
        let k = a / b;
        lemma_fundamental_div_mod(a, b);
        let (d, x, y) = lemma_bezout(b, m);
        lemma_quotient(b, d);
        lemma_quotient(m, d);
        let s = (b / d) * k + m / d;
        assert(a == d * s) by (nonlinear_arith)
            requires
                a == b * k + m,
                b == d * (b / d),
                m == d * (m / d),
                s == (b / d) * k + m / d,
        ;
        lemma_multiple(d, s);
        let z = x - y * k;
        assert(d == y * a + z * b) by (nonlinear_arith)
            requires
                d == x * b + y * m,
                a == b * k + m,
                z == x - y * k,
        ;
        (d, y, z)
    }
}

/// Euclid: a prime that divides a product divides one of the two.
pub proof fn lemma_euclid(p: int, a: int, b: int)
    requires
        is_prime(p),
        a >= 0,
        b >= 0,
        (a * b) % p == 0,
    ensures
        a % p == 0 || b % p == 0,
{
    if a % p != 0 {
        let (d, x, y) = lemma_bezout(a, p);
        lemma_divisor_bound(p, d);
        if d == p {
            assert(false);
        }
        if d >= 2 {
            assert(p % d != 0);
        }
        assert(d == 1);
        lemma_quotient(a * b, p);
        let m = (a * b) / p;
        let k = x * m + y * b;
        assert(b == p * k) by (nonlinear_arith)
            requires
                1 == x * a + y * p,
                a * b == p * m,
                k == x * m + y * b,
        ;
        lemma_multiple(p, k);
    }
}

/// A product of primes is positive.
pub proof fn lemma_product_positive(f: Seq<int>)
    requires
        forall|j: int| 0 <= j < f.len() ==> is_prime(#[trigger] f[j]),
    ensures
        product(f) >= 1,
    decreases f.len(),
{
    if f.len() > 0 {
        lemma_product_positive(f.drop_last());
        assert(product(f.drop_last()) * f.last() >= 1) by (nonlinear_arith)
            requires
                product(f.drop_last()) >= 1,
                f.last() >= 2,
        ;
    }
}

/// A prime that divides a product of primes is one of them.
pub proof fn lemma_prime_in_product(p: int, f: Seq<int>) -> (i: int)
    requires
        is_prime(p),
        forall|j: int| 0 <= j < f.len() ==> is_prime(#[trigger] f[j]),
        product(f) % p == 0,
    ensures
        0 <= i < f.len(),
        f[i] == p,
    decreases f.len(),
{
    if f.len() == 0 {
        lemma_small_mod(1, p as nat);
        0
    } else {
        let front = f.drop_last();
        lemma_product_positive(front);
        lemma_euclid(p, product(front), f.last());
        if f.last() % p == 0 {
            lemma_divisor_bound(f.last(), p);
            if p < f.last() {
                assert(f.last() % p != 0);
            }
            f.len() - 1
        } else {
            lemma_prime_in_product(p, front)
        }
    }
}

/// A power is a reduced residue.
pub proof fn lemma_mpow_reduced(g: int, e: nat, n: int)
    requires
        n >= 2,
    ensures
        0 <= mpow(g, e, n) < n,
{
    reveal(mpow);
}

/// Products modulo `n` can be taken in any grouping.
pub proof fn lemma_mod_product(a: int, b: int, c: int, n: int)
    requires
        n >= 2,
    ensures
        (((a * b) % n) * c) % n == (a * ((b * c) % n)) % n,
        (((a * b) % n) * c) % n == (a * b * c) % n,
{
    lemma_mul_mod_noop_general(a * b, c, n);
    lemma_mul_mod_noop_general(a, b * c, n);
    assert((a * b) * c == a * (b * c)) by (nonlinear_arith);
}

/// The power of a sum of exponents is the product of the powers.
pub proof fn lemma_mpow_add(g: int, a: nat, b: nat, n: int)
    requires
        n >= 2,
    ensures
        mpow(g, a + b, n) == (mpow(g, a, n) * mpow(g, b, n)) % n,
    decreases b,
{
    reveal(mpow);
    lemma_mpow_reduced(g, a, n);
    if b == 0 {
        lemma_small_mod(1, n as nat);
        lemma_small_mod(mpow(g, a, n) as nat, n as nat);
        assert(mpow(g, a, n) * 1 == mpow(g, a, n));
    } else {
        let c = (b - 1) as nat;
        lemma_mpow_add(g, a, c, n);
        assert((a + b - 1) as nat == a + c);
        lemma_mod_product(mpow(g, a, n), mpow(g, c, n), g, n);
    }
}

/// Every power of one is one.
pub proof fn lemma_mpow_of_one(e: nat, n: int)
    requires
        n >= 2,
    ensures
        mpow(1, e, n) == 1,
    decreases e,
{
    reveal(mpow);
    lemma_small_mod(1, n as nat);
    if e > 0 {
        lemma_mpow_of_one((e - 1) as nat, n);
    }
}

/// The power of a power is the power of the product of the exponents.
pub proof fn lemma_mpow_mul(g: int, a: nat, b: nat, n: int)
    requires
        n >= 2,
    ensures
        mpow(mpow(g, a, n), b, n) == mpow(g, a * b, n),
    decreases b,
{
    reveal(mpow);
    if b == 0 {
        assert(a * 0 == 0);
    } else {
        let c = (b - 1) as nat;
        lemma_mpow_mul(g, a, c, n);
        lemma_mpow_add(g, a * c, a, n);
        assert(a * c + a == a * b) by (nonlinear_arith)
            requires
                c == b - 1,
        ;
    }
}

/// Doubling the exponent squares the power.
pub proof fn lemma_mpow_double(g: int, n: int, e: nat, v: int, w: int) -> (d: nat)
    requires
        n >= 2,
        mpow(g, e, n) == v,
        (v * v) % n == w,
    ensures
        d == 2 * e,
        mpow(g, d, n) == w,
{
    lemma_mpow_add(g, e, e, n);
    2 * e
}

/// Doubling the exponent and adding one squares the power and multiplies
/// it by the base.
pub proof fn lemma_mpow_double_next(g: int, n: int, e: nat, v: int, s: int, w: int) -> (d: nat)
    requires
        n >= 2,
        mpow(g, e, n) == v,
        (v * v) % n == s,
        (s * g) % n == w,
    ensures
        d == 2 * e + 1,
        mpow(g, d, n) == w,
{
    reveal(mpow);
    lemma_mpow_add(g, e, e, n);
    2 * e + 1
}

/// The first power is the base, reduced.
pub proof fn lemma_mpow_first(g: int, n: int)
    requires
        n >= 2,
        0 <= g < n,
    ensures
        mpow(g, 1, n) == g,
{
    reveal(mpow);
    lemma_small_mod(1, n as nat);
    lemma_small_mod(g as nat, n as nat);
    assert(mpow(g, 0, n) == 1);
    assert(1 * g == g);
}

/// One more factor for a witness: the factors with `x` appended multiply to
/// the old product times `x`, and `g` is still a witness with respect to
/// them when `x` is prime and the power that leaves `x` out is not one.
pub proof fn lemma_witness_push(n: int, g: int, f: Seq<int>, x: int)
    requires
        witnessed_by(n, g, f),
        is_prime(x),
        mpow(g, ((n - 1) / x) as nat, n) != 1,
    ensures
        witnessed_by(n, g, f.push(x)),
        product(f.push(x)) == product(f) * x,
{
    let h = f.push(x);
    assert(h.drop_last() =~= f);
    assert forall|i: int| 0 <= i < h.len() implies is_prime(#[trigger] h[i]) && mpow(
        g,
        ((n - 1) / h[i]) as nat,
        n,
    ) != 1 by {
        if i < f.len() {
            assert(h[i] == f[i]);
        }
    }
}

/// No power of a witness with a positive exponent below `n - 1` is one.
pub proof fn lemma_witness_order(n: int, g: int, f: Seq<int>, k: nat)
    requires
        witness(n, g, f),
        0 < k < n - 1,
    ensures
        mpow(g, k, n) != 1,
    decreases k,
{
    let e = (n - 1) as nat;
    if mpow(g, k, n) == 1 {
        let t = (e / k) as nat;
        let r = (e % k) as nat;
        lemma_fundamental_div_mod(e as int, k as int);
        assert(e == k * t + r);
        lemma_mpow_add(g, k * t, r, n);
        lemma_mpow_mul(g, k, t, n);
        lemma_mpow_of_one(t, n);
        lemma_mpow_reduced(g, r, n);
        lemma_small_mod(mpow(g, r, n) as nat, n as nat);
        assert(1 * mpow(g, r, n) == mpow(g, r, n));
        assert(mpow(g, r, n) == 1);
        if r > 0 {
            lemma_witness_order(n, g, f, r);
        } else {
            assert(t >= 2) by (nonlinear_arith)
                requires
                    e == k * t,
                    0 < k < e,
            ;
            let p = lemma_prime_divisor(t as int);
            lemma_quotient(t as int, p);
            let s = (t / (p as nat)) as nat;
            assert(s >= 0 && t == p * s);
            let rest = k * s;
            assert(e == p * rest) by (nonlinear_arith)
                requires
                    e == k * t,
                    t == p * s,
                    rest == k * s,
            ;
            lemma_multiple(p, rest as int);
            let i = lemma_prime_in_product(p, f);
            assert(e as int / p == rest) by {
                vstd::arithmetic::div_mod::lemma_div_multiples_vanish(rest as int, p);
                assert(p * rest == rest * p) by (nonlinear_arith);
            }
            lemma_mpow_mul(g, k, s, n);
            lemma_mpow_of_one(s, n);
            assert(mpow(g, ((n - 1) / f[i]) as nat, n) == 1);
        }
    }
}

/// The powers of a witness with exponents below `n - 1` differ from one
/// another.
pub proof fn lemma_witness_powers_differ(n: int, g: int, f: Seq<int>, i: nat, j: nat)
    requires
        witness(n, g, f),
        i < j < n - 1,
    ensures
        mpow(g, i, n) != mpow(g, j, n),
{
    let e = (n - 1) as nat;
    if mpow(g, i, n) == mpow(g, j, n) {
        let up = (e - j) as nat;
        lemma_mpow_add(g, i, up, n);
        lemma_mpow_add(g, j, up, n);
        assert(j + up == e);
        lemma_witness_order(n, g, f, i + up);
    }
}

/// Every power of a witness has an inverse, and is not zero.
pub proof fn lemma_witness_power_inverse(n: int, g: int, f: Seq<int>, k: nat)
    requires
        witness(n, g, f),
        k <= n - 1,
    ensures
        inverse_of(mpow(g, k, n), mpow(g, (n - 1 - k) as nat, n), n),
        mpow(g, k, n) != 0,
{
    let up = (n - 1 - k) as nat;
    lemma_mpow_add(g, k, up, n);
    assert(k + up == (n - 1) as nat);
    lemma_mpow_reduced(g, up, n);
    if mpow(g, k, n) == 0 {
        assert(0 * mpow(g, up, n) == 0);
        lemma_small_mod(0, n as nat);
    }
}

/// With a witness every residue but zero is a power of it, and so has an
/// inverse.
pub proof fn lemma_witness_inverses(n: int, g: int, f: Seq<int>, a: int)
    requires
        witness(n, g, f),
        0 < a < n,
    ensures
        has_inverse(a, n),
{
    let e = n - 1;
    let exponents = set_int_range(0, e);
    let residues = set_int_range(1, n);
    let power = |k: int| mpow(g, k as nat, n);
    let powers = exponents.map(power);
    lemma_int_range(0, e);
    lemma_int_range(1, n);
    assert(injective_on(power, exponents)) by {
        assert forall|x: int, y: int|
            exponents.contains(x) && exponents.contains(y) && #[trigger] power(x) == #[trigger] power(
                y,
            ) implies x == y by {
            if x < y {
                lemma_witness_powers_differ(n, g, f, x as nat, y as nat);
            } else if y < x {
                lemma_witness_powers_differ(n, g, f, y as nat, x as nat);
            }
        }
    }
    lemma_map_size(exponents, powers, power);
    assert(powers.subset_of(residues)) by {
        assert forall|v: int| powers.contains(v) implies residues.contains(v) by {
            let k = choose|k: int| exponents.contains(k) && power(k) == v;
            lemma_witness_power_inverse(n, g, f, k as nat);
            lemma_mpow_reduced(g, k as nat, n);
        }
    }
    lemma_subset_equality(powers, residues);
    assert(residues.contains(a));
    assert(powers.contains(a));
    let k = choose|k: int| exponents.contains(k) && power(k) == a;
    lemma_witness_power_inverse(n, g, f, k as nat);
    assert(inverse_of(a, mpow(g, (n - 1 - k) as nat, n), n));
}

/// A number with a witness is prime.
pub proof fn lemma_witness_prime(n: int, g: int, f: Seq<int>)
    requires
        witness(n, g, f),
    ensures
        is_prime(n),
{
    assert forall|d: int| 2 <= d < n implies #[trigger] (n % d) != 0 by {
        if n % d == 0 {
            lemma_witness_inverses(n, g, f, d);
            let r = choose|r: int| inverse_of(d, r, n);
            // d * r == 1 + n * m, and d divides n: so d divides one
            lemma_fundamental_div_mod(d * r, n);
            lemma_quotient(n, d);
            let m = (d * r) / n;
            let k = r - (n / d) * m;
            assert(1 == d * k) by (nonlinear_arith)
                requires
                    d * r == n * m + 1,
                    n == d * (n / d),
                    k == r - (n / d) * m,
            ;
            lemma_multiple(d, k);
            lemma_small_mod(1, d as nat);
        }
    }
}

/// A number below the square of `bound` that no number from two up to
/// `bound` divides is prime.
pub proof fn lemma_prime_by_trial(p: int, bound: int)
    requires
        p >= 2,
        bound >= 2,
        bound * bound > p,
        forall|d: int| 2 <= d < bound ==> #[trigger] (p % d) != 0,
    ensures
        is_prime(p),
{
    assert forall|d: int| 2 <= d < p implies #[trigger] (p % d) != 0 by {
        if p % d == 0 {
            lemma_quotient(p, d);
            let c = p / d;
            assert(2 <= c < p && c * d == p) by (nonlinear_arith)
                requires
                    p == d * c,
                    2 <= d < p,
            ;
            lemma_multiple(c, d);
            assert(p % c == 0);
            if d >= bound && c >= bound {
                assert(d * c >= bound * bound) by (nonlinear_arith)
                    requires
                        d >= bound,
                        c >= bound,
                        bound >= 2,
                ;
            }
        }
    }
}

} // verus!
