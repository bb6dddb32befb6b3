//! Proactive refresh of a committee's shares.
//!
//! In a round every party draws a blinding polynomial whose constant term
//! is zero and hands every party, itself included, the polynomial's value
//! at that party's index. Every party adds up what it was handed and moves
//! its key pair by the sum. The sums are the values of one polynomial, the
//! sum of the blinding polynomials, whose constant term is zero too: so the
//! shares change and the secret does not.
use crate::curve::scalar_add;
use crate::curve::scalar_from_u64;
use crate::curve::scalar_value;
use crate::field::canonical;
use crate::field::fadd;
use crate::field::lemma_canonical_fixed;
use crate::field::lemma_commutative;
use crate::field::lemma_neutral;
use crate::field::lemma_sub_then_add;
use crate::polynomial::evaluate;
use crate::polynomial::lemma_poly_eval_reduced;
use crate::polynomial::lemma_poly_eval_zero;
use crate::polynomial::lemma_poly_sum_eval;
use crate::polynomial::poly_eval;
use crate::polynomial::poly_sum;
use crate::polynomial::residues;
use crate::polynomial::sample_polynomial;
use crate::threshold::ThresholdError;
use crate::threshold::ThresholdKeyPairs;
use curv_kzen::elliptic::curves::bls12_381::g2::FE as FE2;
use vstd::prelude::*;

verus! {

/// The polynomial `after` is `before` moved by `blinding`, a polynomial of
/// the same length whose constant term is zero.
pub open spec fn moved_by(before: Seq<int>, blinding: Seq<int>, after: Seq<int>) -> bool {
    &&& blinding.len() == before.len()
    &&& blinding[0] == 0
    &&& after == poly_sum(before, blinding)
}

/// The polynomial `after` is what a round of refresh makes of `before`:
/// `before` moved by some polynomial whose constant term is zero.
pub open spec fn refreshed(before: Seq<int>, after: Seq<int>) -> bool {
    exists|blinding: Seq<int>| moved_by(before, blinding, after)
}

/// Each polynomial of the sequence but the first is what a round makes of
/// the one before it: the polynomials of a committee over a run of rounds.
pub open spec fn rounds(history: Seq<Seq<int>>) -> bool {
    forall|k: int|
        0 <= k < history.len() - 1 ==> refreshed(#[trigger] history[k], history[k + 1])
}

/// However many rounds are run, the secret stays what it was, and with it
/// the collective public key, which is the generator times the secret.
pub proof fn lemma_rounds_keep_secret(history: Seq<Seq<int>>)
    requires
        history.len() >= 1,
        history[0].len() >= 1,
        canonical(history[0][0]),
        rounds(history),
    ensures
        history.last().len() == history[0].len(),
        history.last()[0] == history[0][0],
    decreases history.len(),
{
    if history.len() > 1 {
        let front = history.drop_last();
        assert(rounds(front)) by {
            assert forall|k: int| 0 <= k < front.len() - 1 implies refreshed(
                #[trigger] front[k],
                front[k + 1],
            ) by {
                assert(refreshed(history[k], history[k + 1]));
            }
        }
        lemma_rounds_keep_secret(front);
        let before = history[history.len() - 2];
        let after = history.last();
        assert(refreshed(before, after));
        let blinding = choose|blinding: Seq<int>| moved_by(before, blinding, after);
        assert(before == front.last());
        lemma_neutral(before[0]);
        lemma_canonical_fixed(before[0]);
    }
}

/// A round moves the share of party `index` by the value of the blinding
/// polynomial at the index: the share changes exactly when that value is
/// not zero.
pub proof fn lemma_round_moves_share(
    before: Seq<int>,
    blinding: Seq<int>,
    after: Seq<int>,
    index: int,
)
    requires
        moved_by(before, blinding, after),
    ensures
        poly_eval(after, index) == fadd(poly_eval(before, index), poly_eval(blinding, index)),
        poly_eval(after, index) != poly_eval(before, index) <==> poly_eval(blinding, index) != 0,
{
    let old_share = poly_eval(before, index);
    let moved = poly_eval(blinding, index);
    lemma_poly_sum_eval(before, blinding, index);
    lemma_poly_eval_reduced(before, index);
    lemma_poly_eval_reduced(blinding, index);
    lemma_canonical_fixed(old_share);
    lemma_canonical_fixed(moved);
    lemma_neutral(old_share);
    if fadd(old_share, moved) == old_share {
        lemma_sub_then_add(moved, old_share);
        lemma_commutative(moved, old_share);
        lemma_neutral(old_share);
    }
}

/// A committee whose shares can be refreshed.
pub struct ProactiveRefresh {
    committee: ThresholdKeyPairs,
}

impl ProactiveRefresh {
    /// The committee's keys.
    pub closed spec fn keys(&self) -> ThresholdKeyPairs {
        self.committee
    }

    /// The committee's keys are well formed.
    pub open spec fn wf(&self) -> bool {
        self.keys().wf()
    }

    /// Founds a committee of `n` parties with threshold `t`.
    ///
    /// Fails with `Configuration` exactly when `t` is zero or exceeds `n`.
    pub fn new(n: usize, t: usize) -> (r: Result<Self, ThresholdError>)
        ensures
            match r {
                Ok(refresh) => {
                    &&& 1 <= t <= n
                    &&& refresh.wf()
                    &&& refresh.keys().spec_size() == n
                    &&& refresh.keys().spec_threshold() == t
                },
                Err(e) => (t == 0 || t > n) && e == ThresholdError::Configuration,
            },
    {
        match ThresholdKeyPairs::new(n, t) {
            Ok(committee) => Ok(ProactiveRefresh { committee }),
            Err(e) => Err(e),
        }
    }

    /// The committee's keys, to read.
    pub fn threshold_keys(&self) -> (r: &ThresholdKeyPairs)
        ensures
            *r == self.keys(),
    {
        &self.committee
    }

    /// Runs one round of refresh over the whole committee.
    ///
    /// The committee stays well formed, so every party's public point still
    /// matches its private scalar; its size, its threshold and its secret
    /// are what they were, and with the secret the collective public key.
    /// The polynomial moves by the sum of the blinding polynomials, whose
    /// constant term is zero. The updates of all parties are computed
    /// before the first key pair is touched.
    pub fn refresh_round(&mut self)
        requires
            old(self).wf(),
        ensures
            final(self).wf(),
            final(self).keys().spec_size() == old(self).keys().spec_size(),
            final(self).keys().spec_threshold() == old(self).keys().spec_threshold(),
            final(self).keys().secret() == old(self).keys().secret(),
            refreshed(old(self).keys().polynomial(), final(self).keys().polynomial()),
            forall|i: int|
                1 <= i <= final(self).keys().spec_size() ==> final(self).keys().key(
                    i,
                ).is_consistent(),
    {
        let n = self.committee.size();
        let t = self.committee.threshold();
        let zero = scalar_from_u64(0);
        let ghost mut total: Seq<int> = Seq::new(t as nat, |k: int| 0);
        let mut updates: Vec<FE2> = Vec::new();
        let mut k: usize = 0;
        while k < n
            invariant
                k <= n,
                updates.len() == k,
                scalar_value(zero) == 0,
                forall|m: int| 0 <= m < k ==> scalar_value(#[trigger] updates[m]) == 0,
            decreases n - k,
        {
            updates.push(zero);
            k += 1;
        }
        proof {
            assert forall|m: int| 1 <= m <= n implies scalar_value(#[trigger] updates[m - 1])
                == poly_eval(total, m) by {
                lemma_poly_eval_zero(total, m);
            }
        }
        let mut i: usize = 0;
        while i < n
            invariant
                i <= n,
                1 <= t,
                updates.len() == n,
                scalar_value(zero) == 0,
                total.len() == t,
                total[0] == 0,
                forall|m: int|
                    1 <= m <= n ==> scalar_value(#[trigger] updates[m - 1]) == poly_eval(total, m),
            decreases n - i,
        {
            let blinding = sample_polynomial(zero, t);
            let ghost drawn = residues(blinding@);
            let ghost grown = poly_sum(total, drawn);
            let mut k: usize = 0;
            while k < n
                invariant
                    k <= n,
                    updates.len() == n,
                    drawn == residues(blinding@),
                    drawn.len() == total.len(),
                    grown == poly_sum(total, drawn),
                    forall|m: int|
                        1 <= m <= k ==> scalar_value(#[trigger] updates[m - 1]) == poly_eval(
                            grown,
                            m,
                        ),
                    forall|m: int|
                        k < m <= n ==> scalar_value(#[trigger] updates[m - 1]) == poly_eval(
                            total,
                            m,
                        ),
                decreases n - k,
            {
                let at = scalar_from_u64((k + 1) as u64);
                let handed = evaluate(&blinding, &at);
                let sum = scalar_add(&updates[k], &handed);
                proof {
                    assert(scalar_value(updates[(k + 1) - 1]) == poly_eval(total, k + 1));
                    lemma_poly_sum_eval(total, drawn, k + 1);
                }
                updates.set(k, sum);
                k += 1;
            }
            proof {
                assert(drawn[0] == scalar_value(blinding[0]));
                lemma_neutral(0);
                total = grown;
            }
            i += 1;
        }
        let ghost before = self.committee.polynomial();
        self.committee.apply_updates(&updates, Ghost(total));
        proof {
            let after = self.committee;
            assert(moved_by(before, total, after.polynomial()));
            assert forall|i: int| 1 <= i <= after.spec_size() implies (#[trigger] after.key(
                i,
            )).is_consistent() by {
                lemma_poly_eval_reduced(after.polynomial(), i);
                lemma_canonical_fixed(after.share(i));
            }
        }
    }
}

} // verus!
