//! The committee's keys: one key pair per party, shared from one secret.
//!
//! A committee of `n` parties with threshold `t` holds a secret as the
//! constant term of a polynomial of `t` coefficients. Party `i`, for `i`
//! from 1 to `n`, holds the polynomial's value at `i` as its private scalar.
//! Any `t` parties or more can interpolate the polynomial at zero: over
//! their public points this gives the collective public key, the generator
//! times the secret, without any private scalar being shown.
//!
//! The polynomial itself is kept only as a ghost: it is what the contracts
//! speak of, and no compiled code holds it.
use crate::bls::accepts;
use crate::bls::KeyPairG2;
use crate::bls::lemma_sign_then_verify;
use crate::bls::signature_exponent;
use crate::curve::g2_exponent;
use crate::curve::hash_exponent;
use crate::curve::scalar_from_u64;
use crate::curve::scalar_random;
use crate::curve::scalar_value;
use crate::field::canonical;
use crate::field::lemma_canonical_fixed;
use crate::field::lemma_reduce_args;
use crate::field::modulus;
use crate::interpolation::fits;
use crate::interpolation::lemma_interpolate_scaled;
use crate::interpolation::lemma_recovers_constant_term;
use crate::lagrange::distinct;
use crate::lagrange::distinct_scalars;
use crate::lagrange::interpolate;
use crate::lagrange::lagrange_interpolate_f0;
use crate::lagrange::nodes;
use crate::lagrange::values;
use crate::polynomial::evaluate;
use crate::polynomial::evaluations;
use crate::polynomial::lemma_poly_eval_reduced;
use crate::polynomial::lemma_poly_sum_eval;
use crate::polynomial::poly_eval;
use crate::polynomial::poly_sum;
use crate::polynomial::residues;
use crate::polynomial::sample_polynomial;
use curv_kzen::elliptic::curves::bls12_381::g2::FE as FE2;
use curv_kzen::elliptic::curves::bls12_381::g2::GE as GE2;
use vstd::prelude::*;

verus! {

/// Why an operation on the committee's keys was refused.
#[derive(Clone, Copy, Debug, PartialEq, Eq, Structural)]
pub enum ThresholdError {
    /// The threshold is zero or exceeds the committee's size.
    Configuration,
    /// An index names no party of the committee, or occurs twice.
    Index,
    /// Fewer parties than the threshold.
    Threshold,
}

/// No index occurs twice.
pub open spec fn no_repeats(indices: Seq<usize>) -> bool {
    forall|a: int, b: int| 0 <= a < b < indices.len() ==> indices[a] != indices[b]
}

/// The signatures that the parties at the nodes `xs` make on a message,
/// each with its share of the polynomial `p`, by their exponents.
pub open spec fn partial_signatures(p: Seq<int>, xs: Seq<int>, message: Seq<u8>) -> Seq<int> {
    Seq::new(xs.len(), |j: int| signature_exponent(message, poly_eval(p, xs[j])))
}

/// The signatures of a quorum combine into the committee's signature:
/// interpolated at zero, the signatures that the parties make with their
/// shares give the signature under the secret, which the collective public
/// key accepts.
pub proof fn lemma_partial_signatures_combine(p: Seq<int>, xs: Seq<int>, message: Seq<u8>)
    requires
        distinct_scalars(xs),
        1 <= p.len() <= xs.len(),
    ensures
        interpolate(xs, partial_signatures(p, xs, message)) == signature_exponent(message, p[0]),
        accepts(
            interpolate(xs, partial_signatures(p, xs, message)),
            message,
            p[0] % modulus(),
        ),
{
    let h = hash_exponent(message);
    let shares = evaluations(p, xs);
    let signed = partial_signatures(p, xs, message);
    lemma_interpolate_scaled(xs, h, shares, signed);
    lemma_recovers_constant_term(xs, p);
    lemma_reduce_args(h, p[0]);
    lemma_sign_then_verify(message, p[0]);
}

/// The key pairs of a committee.
pub struct ThresholdKeyPairs {
    keys: Vec<KeyPairG2>,
    t: usize,
    poly: Ghost<Seq<int>>,
}

impl ThresholdKeyPairs {
    /// The number of parties.
    pub closed spec fn spec_size(&self) -> usize {
        self.keys.len()
    }

    /// The number of parties that reconstruction needs.
    pub closed spec fn spec_threshold(&self) -> usize {
        self.t
    }

    /// The coefficients of the polynomial that the private scalars lie on.
    pub closed spec fn polynomial(&self) -> Seq<int> {
        self.poly@
    }

    /// The key pair of party `index`, counted from one.
    pub closed spec fn key(&self, index: int) -> KeyPairG2 {
        self.keys[index - 1]
    }

    /// The secret: the polynomial's constant term.
    pub open spec fn secret(&self) -> int {
        self.polynomial()[0]
    }

    /// The share of party `index`: the polynomial's value at the index.
    pub open spec fn share(&self, index: int) -> int {
        poly_eval(self.polynomial(), index)
    }

    /// Every index names a party.
    pub open spec fn members(&self, indices: Seq<usize>) -> bool {
        forall|k: int| 0 <= k < indices.len() ==> 1 <= #[trigger] indices[k] <= self.spec_size()
    }

    /// What is wrong with a quorum, if anything: an index that names no
    /// party or occurs twice; else too few parties.
    pub open spec fn quorum_fault(&self, quorum: Seq<usize>) -> Option<ThresholdError> {
        if !self.members(quorum) || !no_repeats(quorum) {
            Some(ThresholdError::Index)
        } else if quorum.len() < self.spec_threshold() {
            Some(ThresholdError::Threshold)
        } else {
            None
        }
    }

    /// The committee is well formed: the threshold is at least one and at
    /// most the number of parties, the polynomial has as many coefficients
    /// as the threshold, and every party's private scalar is its share, with
    /// the public point to match.
    pub open spec fn wf(&self) -> bool {
        &&& 1 <= self.spec_threshold() <= self.spec_size()
        &&& self.polynomial().len() == self.spec_threshold()
        &&& forall|k: int|
            0 <= k < self.polynomial().len() ==> canonical(#[trigger] self.polynomial()[k])
        &&& forall|i: int|
            1 <= i <= self.spec_size() ==> {
                &&& (#[trigger] self.key(i)).private_value() == self.share(i)
                &&& self.key(i).public_exponent() == self.share(i)
            }
    }

    /// Founds a committee of `n` parties with threshold `t`: draws a secret
    /// and a polynomial of `t` coefficients above it, and gives each party
    /// the polynomial's value at its index.
    ///
    /// Fails with `Configuration` exactly when `t` is zero or exceeds `n`.
    pub fn new(n: usize, t: usize) -> (r: Result<Self, ThresholdError>)
        ensures
            match r {
                Ok(committee) => {
                    &&& 1 <= t <= n
                    &&& committee.wf()
                    &&& committee.spec_size() == n
                    &&& committee.spec_threshold() == t
                },
                Err(e) => (t == 0 || t > n) && e == ThresholdError::Configuration,
            },
    {
        if t == 0 || t > n {
            return Err(ThresholdError::Configuration);
        }
        let secret = scalar_random();
        let coeffs = sample_polynomial(secret, t);
        let ghost poly = residues(coeffs@);
        let mut keys: Vec<KeyPairG2> = Vec::new();
        let mut i: usize = 0;
        while i < n
            invariant
                i <= n,
                keys.len() == i,
                poly == residues(coeffs@),
                forall|k: int|
                    0 <= k < i ==> {
                        &&& (#[trigger] keys[k]).private_value() == poly_eval(poly, k + 1)
                        &&& keys[k].public_exponent() == poly_eval(poly, k + 1)
                    },
            decreases n - i,
        {
            let at = scalar_from_u64((i + 1) as u64);
            let share = evaluate(&coeffs, &at);
            let pair = KeyPairG2::from_secret(share);
            proof {
                lemma_poly_eval_reduced(poly, i + 1);
                lemma_canonical_fixed(poly_eval(poly, i + 1));
            }
            keys.push(pair);
            i += 1;
        }
        let committee = ThresholdKeyPairs { keys, t, poly: Ghost(poly) };
        proof {
            assert forall|k: int| 0 <= k < poly.len() implies canonical(#[trigger] poly[k]) by {
                assert(poly[k] == scalar_value(coeffs[k]));
            }
        }
        Ok(committee)
    }

    /// The number of parties.
    #[verifier::when_used_as_spec(spec_size)]
    pub fn size(&self) -> (r: usize)
        ensures
            r == self.spec_size(),
    {
        self.keys.len()
    }

    /// The number of parties that reconstruction needs.
    #[verifier::when_used_as_spec(spec_threshold)]
    pub fn threshold(&self) -> (r: usize)
        ensures
            r == self.spec_threshold(),
    {
        self.t
    }

    /// The key pairs of the parties at the given indices, in the order of
    /// the indices. The indices need not be a quorum, and may repeat.
    ///
    /// Fails with `Index` exactly when an index names no party.
    pub fn get_quorum_keys(&self, indices: &Vec<usize>) -> (r: Result<
        Vec<KeyPairG2>,
        ThresholdError,
    >)
        ensures
            match r {
                Ok(pairs) => {
                    &&& self.members(indices@)
                    &&& pairs.len() == indices.len()
                    &&& forall|k: int|
                        0 <= k < indices.len() ==> #[trigger] pairs[k] == self.key(
                            indices[k] as int,
                        )
                },
                Err(e) => !self.members(indices@) && e == ThresholdError::Index,
            },
    {
        let mut pairs: Vec<KeyPairG2> = Vec::new();
        let mut k: usize = 0;
        while k < indices.len()
            invariant
                k <= indices.len(),
                pairs.len() == k,
                forall|m: int| 0 <= m < k ==> 1 <= #[trigger] indices[m] <= self.spec_size(),
                forall|m: int| 0 <= m < k ==> #[trigger] pairs[m] == self.key(indices[m] as int),
            decreases indices.len() - k,
        {
            let index = indices[k];
            if index == 0 || index > self.keys.len() {
                return Err(ThresholdError::Index);
            }
            pairs.push(self.keys[index - 1]);
            k += 1;
        }
        Ok(pairs)
    }

    /// Checks a quorum: every index names a party, none occurs twice, and
    /// there are as many as the threshold asks.
    pub fn check_quorum(&self, quorum: &Vec<usize>) -> (r: Result<(), ThresholdError>)
        ensures
            match r {
                Ok(_) => self.quorum_fault(quorum@) is None,
                Err(e) => self.quorum_fault(quorum@) == Some(e),
            },
    {
        let mut k: usize = 0;
        while k < quorum.len()
            invariant
                k <= quorum.len(),
                forall|m: int| 0 <= m < k ==> 1 <= #[trigger] quorum[m] <= self.spec_size(),
                forall|a: int, b: int| 0 <= a < b < k ==> quorum[a] != quorum[b],
            decreases quorum.len() - k,
        {
            let index = quorum[k];
            if index == 0 || index > self.keys.len() {
                return Err(ThresholdError::Index);
            }
            let mut m: usize = 0;
            while m < k
                invariant
                    m <= k,
                    k < quorum.len(),
                    index == quorum[k as int],
                    forall|a: int| 0 <= a < m ==> quorum[a] != index,
                decreases k - m,
            {
                if quorum[m] == index {
                    return Err(ThresholdError::Index);
                }
                m += 1;
            }
            k += 1;
        }
        if quorum.len() < self.t {
            return Err(ThresholdError::Threshold);
        }
        Ok(())
    }

    /// The collective public key, reconstructed from the public points of a
    /// quorum: the generator times the secret, whichever quorum is asked.
    ///
    /// Fails with `Index` exactly when an index names no party or occurs
    /// twice; else with `Threshold` exactly when the quorum has fewer
    /// parties than the threshold.
    pub fn collective_public(&self, quorum: &Vec<usize>) -> (r: Result<GE2, ThresholdError>)
        requires
            self.wf(),
        ensures
            match r {
                Ok(point) => {
                    &&& self.quorum_fault(quorum@) is None
                    &&& g2_exponent(point) == self.secret()
                },
                Err(e) => self.quorum_fault(quorum@) == Some(e),
            },
    {
        match self.check_quorum(quorum) {
            Err(e) => Err(e),
            Ok(_) => {
                let mut samples: Vec<(usize, GE2)> = Vec::new();
                let mut k: usize = 0;
                while k < quorum.len()
                    invariant
                        k <= quorum.len(),
                        self.members(quorum@),
                        samples.len() == k,
                        forall|m: int|
                            0 <= m < k ==> {
                                &&& (#[trigger] samples[m]).0 == quorum[m]
                                &&& samples[m].1 == self.key(quorum[m] as int).public()
                            },
                    decreases quorum.len() - k,
                {
                    let index = quorum[k];
                    samples.push((index, self.keys[index - 1].pub_key()));
                    k += 1;
                }
                let point = lagrange_interpolate_f0(&samples);
                proof {
                    self.lemma_quorum_fits(quorum@, nodes(samples@), values(samples@));
                }
                Ok(point)
            },
        }
    }

    /// The secret, reconstructed from the private scalars of a quorum. It
    /// is what the committee exists to keep apart: of use only where one
    /// party may see every share, as in a trial of the scheme.
    ///
    /// Fails as `collective_public` does.
    pub fn collective_private(&self, quorum: &Vec<usize>) -> (r: Result<FE2, ThresholdError>)
        requires
            self.wf(),
        ensures
            match r {
                Ok(scalar) => {
                    &&& self.quorum_fault(quorum@) is None
                    &&& scalar_value(scalar) == self.secret()
                },
                Err(e) => self.quorum_fault(quorum@) == Some(e),
            },
    {
        match self.check_quorum(quorum) {
            Err(e) => Err(e),
            Ok(_) => {
                let mut samples: Vec<(usize, FE2)> = Vec::new();
                let mut k: usize = 0;
                while k < quorum.len()
                    invariant
                        k <= quorum.len(),
                        self.members(quorum@),
                        samples.len() == k,
                        forall|m: int|
                            0 <= m < k ==> {
                                &&& (#[trigger] samples[m]).0 == quorum[m]
                                &&& samples[m].1 == self.key(quorum[m] as int).private()
                            },
                    decreases quorum.len() - k,
                {
                    let index = quorum[k];
                    samples.push((index, self.keys[index - 1].priv_key()));
                    k += 1;
                }
                let scalar = lagrange_interpolate_f0(&samples);
                proof {
                    self.lemma_quorum_fits(quorum@, nodes(samples@), values(samples@));
                }
                Ok(scalar)
            },
        }
    }

    /// The shares of a quorum are values of the committee's polynomial, at
    /// nodes that differ from one another.
    proof fn lemma_quorum_fits(&self, quorum: Seq<usize>, xs: Seq<int>, vs: Seq<int>)
        requires
            self.wf(),
            self.quorum_fault(quorum) is None,
            xs.len() == quorum.len(),
            vs.len() == quorum.len(),
            forall|m: int| 0 <= m < quorum.len() ==> #[trigger] xs[m] == quorum[m],
            forall|m: int| 0 <= m < quorum.len() ==> #[trigger] vs[m] == self.share(quorum[m] as int),
        ensures
            distinct(xs),
            fits(self.polynomial(), xs, vs),
            canonical(self.secret()),
            self.secret() % modulus() == self.secret(),
    {
        let p = self.polynomial();
        assert forall|j: int| 0 <= j < xs.len() implies #[trigger] vs[j] % modulus() == poly_eval(
            p,
            xs[j],
        ) by {
            assert(vs[j] == self.share(quorum[j] as int));
            assert(xs[j] == quorum[j]);
            lemma_poly_eval_reduced(p, xs[j]);
            lemma_canonical_fixed(poly_eval(p, xs[j]));
        }
        assert(canonical(p[0]));
        lemma_canonical_fixed(p[0]);
    }

    /// Moves every party's key pair by that party's update: the private
    /// scalar grows by the update, the public point by the generator times
    /// the update. With updates that are the values of a polynomial whose
    /// constant term is zero, the committee stays well formed and keeps its
    /// secret. Either every party is moved or, before the last line, none.
    pub(crate) fn apply_updates(&mut self, updates: &Vec<FE2>, Ghost(blinding): Ghost<Seq<int>>)
        requires
            old(self).wf(),
            updates.len() == old(self).spec_size(),
            blinding.len() == old(self).spec_threshold(),
            blinding[0] == 0,
            forall|i: int|
                1 <= i <= updates.len() ==> scalar_value(#[trigger] updates[i - 1]) == poly_eval(
                    blinding,
                    i,
                ),
        ensures
            final(self).wf(),
            final(self).spec_size() == old(self).spec_size(),
            final(self).spec_threshold() == old(self).spec_threshold(),
            final(self).polynomial() == poly_sum(old(self).polynomial(), blinding),
            final(self).secret() == old(self).secret(),
    {
        let ghost before = self.poly@;
        let ghost after = poly_sum(before, blinding);
        let n = self.keys.len();
        let mut moved: Vec<KeyPairG2> = Vec::new();
        let mut i: usize = 0;
        while i < n
            invariant
                i <= n,
                n == self.keys.len(),
                n == updates.len(),
                self.wf(),
                before == self.poly@,
                after == poly_sum(before, blinding),
                blinding.len() == before.len(),
                moved.len() == i,
                forall|m: int|
                    1 <= m <= updates.len() ==> scalar_value(#[trigger] updates[m - 1])
                        == poly_eval(blinding, m),
                forall|k: int|
                    0 <= k < i ==> {
                        &&& (#[trigger] moved[k]).private_value() == poly_eval(after, k + 1)
                        &&& moved[k].public_exponent() == poly_eval(after, k + 1)
                    },
            decreases n - i,
        {
            let step = KeyPairG2::from_secret(updates[i]);
            let pair = self.keys[i].combine(step);
            proof {
                let at = i + 1;
                assert(self.keys[i as int] == self.key(at));
                assert(scalar_value(updates[at - 1]) == poly_eval(blinding, at));
                lemma_poly_sum_eval(before, blinding, at);
                lemma_poly_eval_reduced(blinding, at);
                lemma_canonical_fixed(poly_eval(blinding, at));
            }
            moved.push(pair);
            i += 1;
        }
        proof {
            assert(canonical(before[0]));
            lemma_canonical_fixed(before[0]);
            crate::field::lemma_neutral(before[0]);
        }
        self.keys = moved;
        self.poly = Ghost(after);
    }
}

} // verus!
