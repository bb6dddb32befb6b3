//! The primes that divide the order of the groups less one, and the primes
//! that their own proofs need.
//!
//! The small ones are prime by trial division. Each of the others has a
//! witness, and its lemma computes the powers of the witness that
//! [`crate::primality::witness`] asks for, by squaring and multiplying:
//! every `let` gives the next power, and the lemma called beside it checks
//! it.
use crate::primality::is_prime;
use crate::primality::lemma_mpow_double;
use crate::primality::lemma_mpow_double_next;
use crate::primality::lemma_mpow_first;
use crate::primality::lemma_mpow_mul;
use crate::primality::lemma_prime_by_trial;
use crate::primality::lemma_witness_prime;
use crate::primality::lemma_witness_push;
use crate::primality::mpow;
use vstd::prelude::*;

verus! {

/// 2 is prime.
pub proof fn lemma_prime_2()
    ensures
        is_prime(2),
{
    lemma_prime_by_trial(2, 2);
}

/// 3 is prime.
pub proof fn lemma_prime_3()
    ensures
        is_prime(3),
{
    lemma_prime_by_trial(3, 2);
}

/// 5 is prime: no number from 2 to 2 divides it.
pub proof fn lemma_prime_5()
    ensures
        is_prime(5),
{
    assert forall|d: int| 2 <= d < 3 implies #[trigger] (5int % d) != 0 by {
        if d == 2 {
            assert(5int % 2 != 0);
        }
    }
    lemma_prime_by_trial(5, 3);
}

/// 7 is prime: no number from 2 to 2 divides it.
pub proof fn lemma_prime_7()
    ensures
        is_prime(7),
{
    assert forall|d: int| 2 <= d < 3 implies #[trigger] (7int % d) != 0 by {
        if d == 2 {
            assert(7int % 2 != 0);
        }
    }
    lemma_prime_by_trial(7, 3);
}

/// 11 is prime: no number from 2 to 3 divides it.
pub proof fn lemma_prime_11()
    ensures
        is_prime(11),
{
    assert forall|d: int| 2 <= d < 4 implies #[trigger] (11int % d) != 0 by {
        if d == 2 {
            assert(11int % 2 != 0);
        } else if d == 3 {
            assert(11int % 3 != 0);
        }
    }
    lemma_prime_by_trial(11, 4);
}

/// 13 is prime: no number from 2 to 3 divides it.
pub proof fn lemma_prime_13()
    ensures
        is_prime(13),
{
    assert forall|d: int| 2 <= d < 4 implies #[trigger] (13int % d) != 0 by {
        if d == 2 {
            assert(13int % 2 != 0);
        } else if d == 3 {
            assert(13int % 3 != 0);
        }
    }
    lemma_prime_by_trial(13, 4);
}

/// 17 is prime: no number from 2 to 4 divides it.
pub proof fn lemma_prime_17()
    ensures
        is_prime(17),
{
    assert forall|d: int| 2 <= d < 5 implies #[trigger] (17int % d) != 0 by {
        if d == 2 {
            assert(17int % 2 != 0);
        } else if d == 3 {
            assert(17int % 3 != 0);
        } else if d == 4 {
            assert(17int % 4 != 0);
        }
    }
    lemma_prime_by_trial(17, 5);
}

/// 19 is prime: no number from 2 to 4 divides it.
pub proof fn lemma_prime_19()
    ensures
        is_prime(19),
{
    assert forall|d: int| 2 <= d < 5 implies #[trigger] (19int % d) != 0 by {
        if d == 2 {
            assert(19int % 2 != 0);
        } else if d == 3 {
            assert(19int % 3 != 0);
        } else if d == 4 {
            assert(19int % 4 != 0);
        }
    }
    lemma_prime_by_trial(19, 5);
}

/// 23 is prime: no number from 2 to 4 divides it.
pub proof fn lemma_prime_23()
    ensures
        is_prime(23),
{
    assert forall|d: int| 2 <= d < 5 implies #[trigger] (23int % d) != 0 by {
        if d == 2 {
            assert(23int % 2 != 0);
        } else if d == 3 {
            assert(23int % 3 != 0);
        } else if d == 4 {
            assert(23int % 4 != 0);
        }
    }
    lemma_prime_by_trial(23, 5);
}

/// 29 is prime: no number from 2 to 5 divides it.
pub proof fn lemma_prime_29()
    ensures
        is_prime(29),
{
    assert forall|d: int| 2 <= d < 6 implies #[trigger] (29int % d) != 0 by {
        if d == 2 {
            assert(29int % 2 != 0);
        } else if d == 3 {
            assert(29int % 3 != 0);
        } else if d == 4 {
            assert(29int % 4 != 0);
        } else if d == 5 {
            assert(29int % 5 != 0);
        }
    }
    lemma_prime_by_trial(29, 6);
}

/// 43 is prime: no number from 2 to 6 divides it.
pub proof fn lemma_prime_43()
    ensures
        is_prime(43),
{
    assert forall|d: int| 2 <= d < 7 implies #[trigger] (43int % d) != 0 by {
        if d == 2 {
            assert(43int % 2 != 0);
        } else if d == 3 {
            assert(43int % 3 != 0);
        } else if d == 4 {
            assert(43int % 4 != 0);
        } else if d == 5 {
            assert(43int % 5 != 0);
        } else if d == 6 {
            assert(43int % 6 != 0);
        }
    }
    lemma_prime_by_trial(43, 7);
}

/// 47 is prime: no number from 2 to 6 divides it.
pub proof fn lemma_prime_47()
    ensures
        is_prime(47),
{
    assert forall|d: int| 2 <= d < 7 implies #[trigger] (47int % d) != 0 by {
        if d == 2 {
            assert(47int % 2 != 0);
        } else if d == 3 {
            assert(47int % 3 != 0);
        } else if d == 4 {
            assert(47int % 4 != 0);
        } else if d == 5 {
            assert(47int % 5 != 0);
        } else if d == 6 {
            assert(47int % 6 != 0);
        }
    }
    lemma_prime_by_trial(47, 7);
}

/// 53 is prime: no number from 2 to 7 divides it.
pub proof fn lemma_prime_53()
    ensures
        is_prime(53),
{
    assert forall|d: int| 2 <= d < 8 implies #[trigger] (53int % d) != 0 by {
        if d == 2 {
            assert(53int % 2 != 0);
        } else if d == 3 {
            assert(53int % 3 != 0);
        } else if d == 4 {
            assert(53int % 4 != 0);
        } else if d == 5 {
            assert(53int % 5 != 0);
        } else if d == 6 {
            assert(53int % 6 != 0);
        } else if d == 7 {
            assert(53int % 7 != 0);
        }
    }
    lemma_prime_by_trial(53, 8);
}

/// 79 is prime: no number from 2 to 8 divides it.
pub proof fn lemma_prime_79()
    ensures
        is_prime(79),
{
    assert forall|d: int| 2 <= d < 9 implies #[trigger] (79int % d) != 0 by {
        if d == 2 {
            assert(79int % 2 != 0);
        } else if d == 3 {
            assert(79int % 3 != 0);
        } else if d == 4 {
            assert(79int % 4 != 0);
        } else if d == 5 {
            assert(79int % 5 != 0);
        } else if d == 6 {
            assert(79int % 6 != 0);
        } else if d == 7 {
            assert(79int % 7 != 0);
        } else if d == 8 {
            assert(79int % 8 != 0);
        }
    }
    lemma_prime_by_trial(79, 9);
}

/// 97 is prime: no number from 2 to 9 divides it.
pub proof fn lemma_prime_97()
    ensures
        is_prime(97),
{
    assert forall|d: int| 2 <= d < 10 implies #[trigger] (97int % d) != 0 by {
        if d == 2 {
            assert(97int % 2 != 0);
        } else if d == 3 {
            assert(97int % 3 != 0);
        } else if d == 4 {
            assert(97int % 4 != 0);
        } else if d == 5 {
            assert(97int % 5 != 0);
        } else if d == 6 {
            assert(97int % 6 != 0);
        } else if d == 7 {
            assert(97int % 7 != 0);
        } else if d == 8 {
            assert(97int % 8 != 0);
        } else if d == 9 {
            assert(97int % 9 != 0);
        }
    }
    lemma_prime_by_trial(97, 10);
}

/// 359 is prime: no number from 2 to 18 divides it.
pub proof fn lemma_prime_359()
    ensures
        is_prime(359),
{
    assert forall|d: int| 2 <= d < 19 implies #[trigger] (359int % d) != 0 by {
        if d == 2 {
            assert(359int % 2 != 0);
        } else if d == 3 {
            assert(359int % 3 != 0);
        } else if d == 4 {
            assert(359int % 4 != 0);
        } else if d == 5 {
            assert(359int % 5 != 0);
        } else if d == 6 {
            assert(359int % 6 != 0);
        } else if d == 7 {
            assert(359int % 7 != 0);
        } else if d == 8 {
            assert(359int % 8 != 0);
        } else if d == 9 {
            assert(359int % 9 != 0);
        } else if d == 10 {
            assert(359int % 10 != 0);
        } else if d == 11 {
            assert(359int % 11 != 0);
        } else if d == 12 {
            assert(359int % 12 != 0);
        } else if d == 13 {
            assert(359int % 13 != 0);
        } else if d == 14 {
            assert(359int % 14 != 0);
        } else if d == 15 {
            assert(359int % 15 != 0);
        } else if d == 16 {
            assert(359int % 16 != 0);
        } else if d == 17 {
            assert(359int % 17 != 0);
        } else if d == 18 {
            assert(359int % 18 != 0);
        }
    }
    lemma_prime_by_trial(359, 19);
}

/// 449 is prime: no number from 2 to 21 divides it.
pub proof fn lemma_prime_449()
    ensures
        is_prime(449),
{
    assert forall|d: int| 2 <= d < 22 implies #[trigger] (449int % d) != 0 by {
        if d == 2 {
            assert(449int % 2 != 0);
        } else if d == 3 {
            assert(449int % 3 != 0);
        } else if d == 4 {
            assert(449int % 4 != 0);
        } else if d == 5 {
            assert(449int % 5 != 0);
        } else if d == 6 {
            assert(449int % 6 != 0);
        } else if d == 7 {
            assert(449int % 7 != 0);
        } else if d == 8 {
            assert(449int % 8 != 0);
        } else if d == 9 {
            assert(449int % 9 != 0);
        } else if d == 10 {
            assert(449int % 10 != 0);
        } else if d == 11 {
            assert(449int % 11 != 0);
        } else if d == 12 {
            assert(449int % 12 != 0);
        } else if d == 13 {
            assert(449int % 13 != 0);
        } else if d == 14 {
            assert(449int % 14 != 0);
        } else if d == 15 {
            assert(449int % 15 != 0);
        } else if d == 16 {
            assert(449int % 16 != 0);
        } else if d == 17 {
            assert(449int % 17 != 0);
        } else if d == 18 {
            assert(449int % 18 != 0);
        } else if d == 19 {
            assert(449int % 19 != 0);
        } else if d == 20 {
            assert(449int % 20 != 0);
        } else if d == 21 {
            assert(449int % 21 != 0);
        }
    }
    lemma_prime_by_trial(449, 22);
}

/// 523 is prime: no number from 2 to 22 divides it.
pub proof fn lemma_prime_523()
    ensures
        is_prime(523),
{
    assert forall|d: int| 2 <= d < 23 implies #[trigger] (523int % d) != 0 by {
        if d == 2 {
            assert(523int % 2 != 0);
        } else if d == 3 {
            assert(523int % 3 != 0);
        } else if d == 4 {
            assert(523int % 4 != 0);
        } else if d == 5 {
            assert(523int % 5 != 0);
        } else if d == 6 {
            assert(523int % 6 != 0);
        } else if d == 7 {
            assert(523int % 7 != 0);
        } else if d == 8 {
            assert(523int % 8 != 0);
        } else if d == 9 {
            assert(523int % 9 != 0);
        } else if d == 10 {
            assert(523int % 10 != 0);
        } else if d == 11 {
            assert(523int % 11 != 0);
        } else if d == 12 {
            assert(523int % 12 != 0);
        } else if d == 13 {
            assert(523int % 13 != 0);
        } else if d == 14 {
            assert(523int % 14 != 0);
        } else if d == 15 {
            assert(523int % 15 != 0);
        } else if d == 16 {
            assert(523int % 16 != 0);
        } else if d == 17 {
            assert(523int % 17 != 0);
        } else if d == 18 {
            assert(523int % 18 != 0);
        } else if d == 19 {
            assert(523int % 19 != 0);
        } else if d == 20 {
            assert(523int % 20 != 0);
        } else if d == 21 {
            assert(523int % 21 != 0);
        } else if d == 22 {
            assert(523int % 22 != 0);
        }
    }
    lemma_prime_by_trial(523, 23);
}

/// 1607 is prime: no number from 2 to 40 divides it.
pub proof fn lemma_prime_1607()
    ensures
        is_prime(1607),
{
    assert forall|d: int| 2 <= d < 41 implies #[trigger] (1607int % d) != 0 by {
        if d == 2 {
            assert(1607int % 2 != 0);
        } else if d == 3 {
            assert(1607int % 3 != 0);
        } else if d == 4 {
            assert(1607int % 4 != 0);
        } else if d == 5 {
            assert(1607int % 5 != 0);
        } else if d == 6 {
            assert(1607int % 6 != 0);
        } else if d == 7 {
            assert(1607int % 7 != 0);
        } else if d == 8 {
            assert(1607int % 8 != 0);
        } else if d == 9 {
            assert(1607int % 9 != 0);
        } else if d == 10 {
            assert(1607int % 10 != 0);
        } else if d == 11 {
            assert(1607int % 11 != 0);
        } else if d == 12 {
            assert(1607int % 12 != 0);
        } else if d == 13 {
            assert(1607int % 13 != 0);
        } else if d == 14 {
            assert(1607int % 14 != 0);
        } else if d == 15 {
            assert(1607int % 15 != 0);
        } else if d == 16 {
            assert(1607int % 16 != 0);
        } else if d == 17 {
            assert(1607int % 17 != 0);
        } else if d == 18 {
            assert(1607int % 18 != 0);
        } else if d == 19 {
            assert(1607int % 19 != 0);
        } else if d == 20 {
            assert(1607int % 20 != 0);
        } else if d == 21 {
            assert(1607int % 21 != 0);
        } else if d == 22 {
            assert(1607int % 22 != 0);
        } else if d == 23 {
            assert(1607int % 23 != 0);
        } else if d == 24 {
            assert(1607int % 24 != 0);
        } else if d == 25 {
            assert(1607int % 25 != 0);
        } else if d == 26 {
            assert(1607int % 26 != 0);
        } else if d == 27 {
            assert(1607int % 27 != 0);
        } else if d == 28 {
            assert(1607int % 28 != 0);
        } else if d == 29 {
            assert(1607int % 29 != 0);
        } else if d == 30 {
            assert(1607int % 30 != 0);
        } else if d == 31 {
            assert(1607int % 31 != 0);
        } else if d == 32 {
            assert(1607int % 32 != 0);
        } else if d == 33 {
            assert(1607int % 33 != 0);
        } else if d == 34 {
            assert(1607int % 34 != 0);
        } else if d == 35 {
            assert(1607int % 35 != 0);
        } else if d == 36 {
            assert(1607int % 36 != 0);
        } else if d == 37 {
            assert(1607int % 37 != 0);
        } else if d == 38 {
            assert(1607int % 38 != 0);
        } else if d == 39 {
            assert(1607int % 39 != 0);
        } else if d == 40 {
            assert(1607int % 40 != 0);
        }
    }
    lemma_prime_by_trial(1607, 41);
}

/// 10177 is prime: 7 is a witness, with 10176 = 2^6 * 3 * 53.
pub proof fn lemma_prime_10177()
    ensures
        is_prime(10177),
{
    let n = 10177int;
    let g = 7int;
    lemma_mpow_first(g, n);
    // 7 to the power 32
    let b1 = 7int;
    lemma_mpow_first(b1, n);
    let v1_1 = 49int;
    let e1_1 = lemma_mpow_double(b1, n, 1nat, b1, v1_1);
    let v1_2 = 2401int;
    let e1_2 = lemma_mpow_double(b1, n, e1_1, v1_1, v1_2);
    let v1_3 = 4619int;
    let e1_3 = lemma_mpow_double(b1, n, e1_2, v1_2, v1_3);
    let v1_4 = 4169int;
    let e1_4 = lemma_mpow_double(b1, n, e1_3, v1_3, v1_4);
    let v1_5 = 8422int;
    let e1_5 = lemma_mpow_double(b1, n, e1_4, v1_4, v1_5);
    assert(mpow(7int, 32nat, 10177int) == 8422int);
    // 7 to the power 5088, from the power 32 raised to the power 159
    let b2 = 8422int;
    lemma_mpow_first(b2, n);
    let v2_1 = 6571int;
    let e2_1 = lemma_mpow_double(b2, n, 1nat, b2, v2_1);
    let v2_2 = 7207int;
    let e2_2 = lemma_mpow_double(b2, n, e2_1, v2_1, v2_2);
    let s2_3 = 7618int;
    let v2_3 = 2988int;
    let e2_3 = lemma_mpow_double_next(b2, n, e2_2, v2_2, s2_3, v2_3);
    let s2_4 = 2915int;
    let v2_4 = 3206int;
    let e2_4 = lemma_mpow_double_next(b2, n, e2_3, v2_3, s2_4, v2_4);
    let s2_5 = 9843int;
    let v2_5 = 6081int;
    let e2_5 = lemma_mpow_double_next(b2, n, e2_4, v2_4, s2_5, v2_5);
    let s2_6 = 5520int;
    let v2_6 = 904int;
    let e2_6 = lemma_mpow_double_next(b2, n, e2_5, v2_5, s2_6, v2_6);
    let s2_7 = 3056int;
    let v2_7 = 10176int;
    let e2_7 = lemma_mpow_double_next(b2, n, e2_6, v2_6, s2_7, v2_7);
    lemma_mpow_mul(g, 32nat, 159nat, n);
    assert(mpow(7int, 5088nat, 10177int) == 10176int);
    // 7 to the power 64, from the power 32 raised to the power 2
    let b3 = 8422int;
    lemma_mpow_first(b3, n);
    let v3_1 = 6571int;
    let e3_1 = lemma_mpow_double(b3, n, 1nat, b3, v3_1);
    lemma_mpow_mul(g, 32nat, 2nat, n);
    assert(mpow(7int, 64nat, 10177int) == 6571int);
    // 7 to the power 3392, from the power 64 raised to the power 53
    let b4 = 6571int;
    lemma_mpow_first(b4, n);
    let s4_1 = 7207int;
    let v4_1 = 3616int;
    let e4_1 = lemma_mpow_double_next(b4, n, 1nat, b4, s4_1, v4_1);
    let v4_2 = 8188int;
    let e4_2 = lemma_mpow_double(b4, n, e4_1, v4_1, v4_2);
    let s4_3 = 7445int;
    let v4_3 = 256int;
    let e4_3 = lemma_mpow_double_next(b4, n, e4_2, v4_2, s4_3, v4_3);
    let v4_4 = 4474int;
    let e4_4 = lemma_mpow_double(b4, n, e4_3, v4_3, v4_4);
    let s4_5 = 8694int;
    let v4_5 = 4773int;
    let e4_5 = lemma_mpow_double_next(b4, n, e4_4, v4_4, s4_5, v4_5);
    lemma_mpow_mul(g, 64nat, 53nat, n);
    assert(mpow(7int, 3392nat, 10177int) == 4773int);
    // 7 to the power 192, from the power 64 raised to the power 3
    let b5 = 6571int;
    lemma_mpow_first(b5, n);
    let s5_1 = 7207int;
    let v5_1 = 3616int;
    let e5_1 = lemma_mpow_double_next(b5, n, 1nat, b5, s5_1, v5_1);
    lemma_mpow_mul(g, 64nat, 3nat, n);
    assert(mpow(7int, 192nat, 10177int) == 3616int);
    // 7 to the power 10176, from the power 5088 raised to the power 2
    let b6 = 10176int;
    lemma_mpow_first(b6, n);
    let v6_1 = 1int;
    let e6_1 = lemma_mpow_double(b6, n, 1nat, b6, v6_1);
    lemma_mpow_mul(g, 5088nat, 2nat, n);
    assert(mpow(7int, 10176nat, 10177int) == 1int);
    lemma_prime_2();
    lemma_prime_3();
    lemma_prime_53();
    let fs0 = Seq::<int>::empty();
    lemma_witness_push(n, g, fs0, 2);
    let fs1 = fs0.push(2);
    lemma_witness_push(n, g, fs1, 2);
    let fs2 = fs1.push(2);
    lemma_witness_push(n, g, fs2, 2);
    let fs3 = fs2.push(2);
    lemma_witness_push(n, g, fs3, 2);
    let fs4 = fs3.push(2);
    lemma_witness_push(n, g, fs4, 2);
    let fs5 = fs4.push(2);
    lemma_witness_push(n, g, fs5, 2);
    let fs6 = fs5.push(2);
    lemma_witness_push(n, g, fs6, 3);
    let fs7 = fs6.push(3);
    lemma_witness_push(n, g, fs7, 53);
    let fs8 = fs7.push(53);
    lemma_witness_prime(n, g, fs8);
}

/// 18329 is prime: 3 is a witness, with 18328 = 2^3 * 29 * 79.
pub proof fn lemma_prime_18329()
    ensures
        is_prime(18329),
{
    let n = 18329int;
    let g = 3int;
    lemma_mpow_first(g, n);
    // 3 to the power 4
    let b1 = 3int;
    lemma_mpow_first(b1, n);
    let v1_1 = 9int;
    let e1_1 = lemma_mpow_double(b1, n, 1nat, b1, v1_1);
    let v1_2 = 81int;
    let e1_2 = lemma_mpow_double(b1, n, e1_1, v1_1, v1_2);
    assert(mpow(3int, 4nat, 18329int) == 81int);
    // 3 to the power 9164, from the power 4 raised to the power 2291
    let b2 = 81int;
    lemma_mpow_first(b2, n);
    let v2_1 = 6561int;
    let e2_1 = lemma_mpow_double(b2, n, 1nat, b2, v2_1);
    let v2_2 = 10229int;
    let e2_2 = lemma_mpow_double(b2, n, e2_1, v2_1, v2_2);
    let v2_3 = 10509int;
    let e2_3 = lemma_mpow_double(b2, n, e2_2, v2_2, v2_3);
    let s2_4 = 6856int;
    let v2_4 = 5466int;
    let e2_4 = lemma_mpow_double_next(b2, n, e2_3, v2_3, s2_4, v2_4);
    let s2_5 = 886int;
    let v2_5 = 16779int;
    let e2_5 = lemma_mpow_double_next(b2, n, e2_4, v2_4, s2_5, v2_5);
    let s2_6 = 1401int;
    let v2_6 = 3507int;
    let e2_6 = lemma_mpow_double_next(b2, n, e2_5, v2_5, s2_6, v2_6);
    let s2_7 = 290int;
    let v2_7 = 5161int;
    let e2_7 = lemma_mpow_double_next(b2, n, e2_6, v2_6, s2_7, v2_7);
    let v2_8 = 3884int;
    let e2_8 = lemma_mpow_double(b2, n, e2_7, v2_7, v2_8);
    let v2_9 = 689int;
    let e2_9 = lemma_mpow_double(b2, n, e2_8, v2_8, v2_9);
    let s2_10 = 16496int;
    let v2_10 = 16488int;
    let e2_10 = lemma_mpow_double_next(b2, n, e2_9, v2_9, s2_10, v2_10);
    let s2_11 = 16745int;
    let v2_11 = 18328int;
    let e2_11 = lemma_mpow_double_next(b2, n, e2_10, v2_10, s2_11, v2_11);
    lemma_mpow_mul(g, 4nat, 2291nat, n);
    assert(mpow(3int, 9164nat, 18329int) == 18328int);
    // 3 to the power 8, from the power 4 raised to the power 2
    let b3 = 81int;
    lemma_mpow_first(b3, n);
    let v3_1 = 6561int;
    let e3_1 = lemma_mpow_double(b3, n, 1nat, b3, v3_1);
    lemma_mpow_mul(g, 4nat, 2nat, n);
    assert(mpow(3int, 8nat, 18329int) == 6561int);
    // 3 to the power 632, from the power 8 raised to the power 79
    let b4 = 6561int;
    lemma_mpow_first(b4, n);
    let v4_1 = 10229int;
    let e4_1 = lemma_mpow_double(b4, n, 1nat, b4, v4_1);
    let v4_2 = 10509int;
    let e4_2 = lemma_mpow_double(b4, n, e4_1, v4_1, v4_2);
    let s4_3 = 6856int;
    let v4_3 = 2850int;
    let e4_3 = lemma_mpow_double_next(b4, n, e4_2, v4_2, s4_3, v4_3);
    let s4_4 = 2753int;
    let v4_4 = 8368int;
    let e4_4 = lemma_mpow_double_next(b4, n, e4_3, v4_3, s4_4, v4_4);
    let s4_5 = 6644int;
    let v4_5 = 4922int;
    let e4_5 = lemma_mpow_double_next(b4, n, e4_4, v4_4, s4_5, v4_5);
    let s4_6 = 13475int;
    let v4_6 = 8708int;
    let e4_6 = lemma_mpow_double_next(b4, n, e4_5, v4_5, s4_6, v4_6);
    lemma_mpow_mul(g, 8nat, 79nat, n);
    assert(mpow(3int, 632nat, 18329int) == 8708int);
    // 3 to the power 232, from the power 8 raised to the power 29
    let b5 = 6561int;
    lemma_mpow_first(b5, n);
    let s5_1 = 10229int;
    let v5_1 = 10000int;
    let e5_1 = lemma_mpow_double_next(b5, n, 1nat, b5, s5_1, v5_1);
    let s5_2 = 15305int;
    let v5_2 = 9843int;
    let e5_2 = lemma_mpow_double_next(b5, n, e5_1, v5_1, s5_2, v5_2);
    let v5_3 = 15884int;
    let e5_3 = lemma_mpow_double(b5, n, e5_2, v5_2, v5_3);
    let s5_4 = 2771int;
    let v5_4 = 16492int;
    let e5_4 = lemma_mpow_double_next(b5, n, e5_3, v5_3, s5_4, v5_4);
    lemma_mpow_mul(g, 8nat, 29nat, n);
    assert(mpow(3int, 232nat, 18329int) == 16492int);
    // 3 to the power 18328, from the power 9164 raised to the power 2
    let b6 = 18328int;
    lemma_mpow_first(b6, n);
    let v6_1 = 1int;
    let e6_1 = lemma_mpow_double(b6, n, 1nat, b6, v6_1);
    lemma_mpow_mul(g, 9164nat, 2nat, n);
    assert(mpow(3int, 18328nat, 18329int) == 1int);
    lemma_prime_2();
    lemma_prime_29();
    lemma_prime_79();
    let fs0 = Seq::<int>::empty();
    lemma_witness_push(n, g, fs0, 2);
    let fs1 = fs0.push(2);
    lemma_witness_push(n, g, fs1, 2);
    let fs2 = fs1.push(2);
    lemma_witness_push(n, g, fs2, 2);
    let fs3 = fs2.push(2);
    lemma_witness_push(n, g, fs3, 29);
    let fs4 = fs3.push(29);
    lemma_witness_push(n, g, fs4, 79);
    let fs5 = fs4.push(79);
    lemma_witness_prime(n, g, fs5);
}

/// 20921 is prime: 3 is a witness, with 20920 = 2^3 * 5 * 523.
pub proof fn lemma_prime_20921()
    ensures
        is_prime(20921),
{
    let n = 20921int;
    let g = 3int;
    lemma_mpow_first(g, n);
    // 3 to the power 4
    let b1 = 3int;
    lemma_mpow_first(b1, n);
    let v1_1 = 9int;
    let e1_1 = lemma_mpow_double(b1, n, 1nat, b1, v1_1);
    let v1_2 = 81int;
    let e1_2 = lemma_mpow_double(b1, n, e1_1, v1_1, v1_2);
    assert(mpow(3int, 4nat, 20921int) == 81int);
    // 3 to the power 10460, from the power 4 raised to the power 2615
    let b2 = 81int;
    lemma_mpow_first(b2, n);
    let v2_1 = 6561int;
    let e2_1 = lemma_mpow_double(b2, n, 1nat, b2, v2_1);
    let s2_2 = 12224int;
    let v2_2 = 6857int;
    let e2_2 = lemma_mpow_double_next(b2, n, e2_1, v2_1, s2_2, v2_2);
    let v2_3 = 8962int;
    let e2_3 = lemma_mpow_double(b2, n, e2_2, v2_2, v2_3);
    let v2_4 = 1725int;
    let e2_4 = lemma_mpow_double(b2, n, e2_3, v2_3, v2_4);
    let v2_5 = 4843int;
    let e2_5 = lemma_mpow_double(b2, n, e2_4, v2_4, v2_5);
    let s2_6 = 2208int;
    let v2_6 = 11480int;
    let e2_6 = lemma_mpow_double_next(b2, n, e2_5, v2_5, s2_6, v2_6);
    let s2_7 = 9021int;
    let v2_7 = 19387int;
    let e2_7 = lemma_mpow_double_next(b2, n, e2_6, v2_6, s2_7, v2_7);
    let v2_8 = 10004int;
    let e2_8 = lemma_mpow_double(b2, n, e2_7, v2_7, v2_8);
    let s2_9 = 14873int;
    let v2_9 = 12216int;
    let e2_9 = lemma_mpow_double_next(b2, n, e2_8, v2_8, s2_9, v2_9);
    let s2_10 = 1163int;
    let v2_10 = 10519int;
    let e2_10 = lemma_mpow_double_next(b2, n, e2_9, v2_9, s2_10, v2_10);
    let s2_11 = 19113int;
    let v2_11 = 20920int;
    let e2_11 = lemma_mpow_double_next(b2, n, e2_10, v2_10, s2_11, v2_11);
    lemma_mpow_mul(g, 4nat, 2615nat, n);
    assert(mpow(3int, 10460nat, 20921int) == 20920int);
    // 3 to the power 8, from the power 4 raised to the power 2
    let b3 = 81int;
    lemma_mpow_first(b3, n);
    let v3_1 = 6561int;
    let e3_1 = lemma_mpow_double(b3, n, 1nat, b3, v3_1);
    lemma_mpow_mul(g, 4nat, 2nat, n);
    assert(mpow(3int, 8nat, 20921int) == 6561int);
    // 3 to the power 4184, from the power 8 raised to the power 523
    let b4 = 6561int;
    lemma_mpow_first(b4, n);
    let v4_1 = 12224int;
    let e4_1 = lemma_mpow_double(b4, n, 1nat, b4, v4_1);
    let v4_2 = 8394int;
    let e4_2 = lemma_mpow_double(b4, n, e4_1, v4_1, v4_2);
    let v4_3 = 18229int;
    let e4_3 = lemma_mpow_double(b4, n, e4_2, v4_2, v4_3);
    let v4_4 = 8198int;
    let e4_4 = lemma_mpow_double(b4, n, e4_3, v4_3, v4_4);
    let v4_5 = 8952int;
    let e4_5 = lemma_mpow_double(b4, n, e4_4, v4_4, v4_5);
    let s4_6 = 10874int;
    let v4_6 = 3704int;
    let e4_6 = lemma_mpow_double_next(b4, n, e4_5, v4_5, s4_6, v4_6);
    let v4_7 = 16361int;
    let e4_7 = lemma_mpow_double(b4, n, e4_6, v4_6, v4_7);
    let s4_8 = 19047int;
    let v4_8 = 6234int;
    let e4_8 = lemma_mpow_double_next(b4, n, e4_7, v4_7, s4_8, v4_8);
    let s4_9 = 12459int;
    let v4_9 = 5152int;
    let e4_9 = lemma_mpow_double_next(b4, n, e4_8, v4_8, s4_9, v4_9);
    lemma_mpow_mul(g, 8nat, 523nat, n);
    assert(mpow(3int, 4184nat, 20921int) == 5152int);
    // 3 to the power 40, from the power 8 raised to the power 5
    let b5 = 6561int;
    lemma_mpow_first(b5, n);
    let v5_1 = 12224int;
    let e5_1 = lemma_mpow_double(b5, n, 1nat, b5, v5_1);
    let s5_2 = 8394int;
    let v5_2 = 8962int;
    let e5_2 = lemma_mpow_double_next(b5, n, e5_1, v5_1, s5_2, v5_2);
    lemma_mpow_mul(g, 8nat, 5nat, n);
    assert(mpow(3int, 40nat, 20921int) == 8962int);
    // 3 to the power 20920, from the power 10460 raised to the power 2
    let b6 = 20920int;
    lemma_mpow_first(b6, n);
    let v6_1 = 1int;
    let e6_1 = lemma_mpow_double(b6, n, 1nat, b6, v6_1);
    lemma_mpow_mul(g, 10460nat, 2nat, n);
    assert(mpow(3int, 20920nat, 20921int) == 1int);
    lemma_prime_2();
    lemma_prime_5();
    lemma_prime_523();
    let fs0 = Seq::<int>::empty();
    lemma_witness_push(n, g, fs0, 2);
    let fs1 = fs0.push(2);
    lemma_witness_push(n, g, fs1, 2);
    let fs2 = fs1.push(2);
    lemma_witness_push(n, g, fs2, 2);
    let fs3 = fs2.push(2);
    lemma_witness_push(n, g, fs3, 5);
    let fs4 = fs3.push(5);
    lemma_witness_push(n, g, fs4, 523);
    let fs5 = fs4.push(523);
    lemma_witness_prime(n, g, fs5);
}

/// 47737 is prime: 5 is a witness, with 47736 = 2^3 * 3^3 * 13 * 17.
pub proof fn lemma_prime_47737()
    ensures
        is_prime(47737),
{
    let n = 47737int;
    let g = 5int;
    lemma_mpow_first(g, n);
    // 5 to the power 36
    let b1 = 5int;
    lemma_mpow_first(b1, n);
    let v1_1 = 25int;
    let e1_1 = lemma_mpow_double(b1, n, 1nat, b1, v1_1);
    let v1_2 = 625int;
    let e1_2 = lemma_mpow_double(b1, n, e1_1, v1_1, v1_2);
    let s1_3 = 8729int;
    let v1_3 = 43645int;
    let e1_3 = lemma_mpow_double_next(b1, n, e1_2, v1_2, s1_3, v1_3);
    let v1_4 = 36514int;
    let e1_4 = lemma_mpow_double(b1, n, e1_3, v1_3, v1_4);
    let v1_5 = 25523int;
    let e1_5 = lemma_mpow_double(b1, n, e1_4, v1_4, v1_5);
    assert(mpow(5int, 36nat, 47737int) == 25523int);
    // 5 to the power 7956, from the power 36 raised to the power 221
    let b2 = 25523int;
    lemma_mpow_first(b2, n);
    let s2_1 = 4427int;
    let v2_1 = 44579int;
    let e2_1 = lemma_mpow_double_next(b2, n, 1nat, b2, s2_1, v2_1);
    let v2_2 = 43668int;
    let e2_2 = lemma_mpow_double(b2, n, e2_1, v2_1, v2_2);
    let s2_3 = 39759int;
    let v2_3 = 23548int;
    let e2_3 = lemma_mpow_double_next(b2, n, e2_2, v2_2, s2_3, v2_3);
    let s2_4 = 43049int;
    let v2_4 = 24835int;
    let e2_4 = lemma_mpow_double_next(b2, n, e2_3, v2_3, s2_4, v2_4);
    let s2_5 = 15185int;
    let v2_5 = 37789int;
    let e2_5 = lemma_mpow_double_next(b2, n, e2_4, v2_4, s2_5, v2_5);
    let v2_6 = 3903int;
    let e2_6 = lemma_mpow_double(b2, n, e2_5, v2_5, v2_6);
    let s2_7 = 5306int;
    let v2_7 = 42906int;
    let e2_7 = lemma_mpow_double_next(b2, n, e2_6, v2_6, s2_7, v2_7);
    lemma_mpow_mul(g, 36nat, 221nat, n);
    assert(mpow(5int, 7956nat, 47737int) == 42906int);
    // 5 to the power 23868, from the power 7956 raised to the power 3
    let b3 = 42906int;
    lemma_mpow_first(b3, n);
    let s3_1 = 42905int;
    let v3_1 = 47736int;
    let e3_1 = lemma_mpow_double_next(b3, n, 1nat, b3, s3_1, v3_1);
    lemma_mpow_mul(g, 7956nat, 3nat, n);
    assert(mpow(5int, 23868nat, 47737int) == 47736int);
    // 5 to the power 15912, from the power 7956 raised to the power 2
    let b4 = 42906int;
    lemma_mpow_first(b4, n);
    let v4_1 = 42905int;
    let e4_1 = lemma_mpow_double(b4, n, 1nat, b4, v4_1);
    lemma_mpow_mul(g, 7956nat, 2nat, n);
    assert(mpow(5int, 15912nat, 47737int) == 42905int);
    // 5 to the power 216, from the power 36 raised to the power 6
    let b5 = 25523int;
    lemma_mpow_first(b5, n);
    let s5_1 = 4427int;
    let v5_1 = 44579int;
    let e5_1 = lemma_mpow_double_next(b5, n, 1nat, b5, s5_1, v5_1);
    let v5_2 = 43668int;
    let e5_2 = lemma_mpow_double(b5, n, e5_1, v5_1, v5_2);
    lemma_mpow_mul(g, 36nat, 6nat, n);
    assert(mpow(5int, 216nat, 47737int) == 43668int);
    // 5 to the power 3672, from the power 216 raised to the power 17
    let b6 = 43668int;
    lemma_mpow_first(b6, n);
    let v6_1 = 39759int;
    let e6_1 = lemma_mpow_double(b6, n, 1nat, b6, v6_1);
    let v6_2 = 15063int;
    let e6_2 = lemma_mpow_double(b6, n, e6_1, v6_1, v6_2);
    let v6_3 = 8int;
    let e6_3 = lemma_mpow_double(b6, n, e6_2, v6_2, v6_3);
    let s6_4 = 64int;
    let v6_4 = 26006int;
    let e6_4 = lemma_mpow_double_next(b6, n, e6_3, v6_3, s6_4, v6_4);
    lemma_mpow_mul(g, 216nat, 17nat, n);
    assert(mpow(5int, 3672nat, 47737int) == 26006int);
    // 5 to the power 2808, from the power 216 raised to the power 13
    let b7 = 43668int;
    lemma_mpow_first(b7, n);
    let s7_1 = 39759int;
    let v7_1 = 1322int;
    let e7_1 = lemma_mpow_double_next(b7, n, 1nat, b7, s7_1, v7_1);
    let v7_2 = 29152int;
    let e7_2 = lemma_mpow_double(b7, n, e7_1, v7_1, v7_2);
    let s7_3 = 25030int;
    let v7_3 = 23688int;
    let e7_3 = lemma_mpow_double_next(b7, n, e7_2, v7_2, s7_3, v7_3);
    lemma_mpow_mul(g, 216nat, 13nat, n);
    assert(mpow(5int, 2808nat, 47737int) == 23688int);
    // 5 to the power 47736, from the power 23868 raised to the power 2
    let b8 = 47736int;
    lemma_mpow_first(b8, n);
    let v8_1 = 1int;
    let e8_1 = lemma_mpow_double(b8, n, 1nat, b8, v8_1);
    lemma_mpow_mul(g, 23868nat, 2nat, n);
    assert(mpow(5int, 47736nat, 47737int) == 1int);
    lemma_prime_2();
    lemma_prime_3();
    lemma_prime_13();
    lemma_prime_17();
    let fs0 = Seq::<int>::empty();
    lemma_witness_push(n, g, fs0, 2);
    let fs1 = fs0.push(2);
    lemma_witness_push(n, g, fs1, 2);
    let fs2 = fs1.push(2);
    lemma_witness_push(n, g, fs2, 2);
    let fs3 = fs2.push(2);
    lemma_witness_push(n, g, fs3, 3);
    let fs4 = fs3.push(3);
    lemma_witness_push(n, g, fs4, 3);
    let fs5 = fs4.push(3);
    lemma_witness_push(n, g, fs5, 3);
    let fs6 = fs5.push(3);
    lemma_witness_push(n, g, fs6, 13);
    let fs7 = fs6.push(13);
    lemma_witness_push(n, g, fs7, 17);
    let fs8 = fs7.push(17);
    lemma_witness_prime(n, g, fs8);
}

/// 110573 is prime: 3 is a witness, with 110572 = 2^2 * 7 * 11 * 359.
pub proof fn lemma_prime_110573()
    ensures
        is_prime(110573),
{
    let n = 110573int;
    let g = 3int;
    lemma_mpow_first(g, n);
    // 3 to the power 2
    let b1 = 3int;
    lemma_mpow_first(b1, n);
    let v1_1 = 9int;
    let e1_1 = lemma_mpow_double(b1, n, 1nat, b1, v1_1);
    assert(mpow(3int, 2nat, 110573int) == 9int);
    // 3 to the power 7898, from the power 2 raised to the power 3949
    let b2 = 9int;
    lemma_mpow_first(b2, n);
    let s2_1 = 81int;
    let v2_1 = 729int;
    let e2_1 = lemma_mpow_double_next(b2, n, 1nat, b2, s2_1, v2_1);
    let s2_2 = 89149int;
    let v2_2 = 28330int;
    let e2_2 = lemma_mpow_double_next(b2, n, e2_1, v2_1, s2_2, v2_2);
    let s2_3 = 50066int;
    let v2_3 = 8302int;
    let e2_3 = lemma_mpow_double_next(b2, n, e2_2, v2_2, s2_3, v2_3);
    let v2_4 = 36225int;
    let e2_4 = lemma_mpow_double(b2, n, e2_3, v2_3, v2_4);
    let s2_5 = 80834int;
    let v2_5 = 64068int;
    let e2_5 = lemma_mpow_double_next(b2, n, e2_4, v2_4, s2_5, v2_5);
    let s2_6 = 17718int;
    let v2_6 = 48889int;
    let e2_6 = lemma_mpow_double_next(b2, n, e2_5, v2_5, s2_6, v2_6);
    let v2_7 = 98926int;
    let e2_7 = lemma_mpow_double(b2, n, e2_6, v2_6, v2_7);
    let s2_8 = 90111int;
    let v2_8 = 36988int;
    let e2_8 = lemma_mpow_double_next(b2, n, e2_7, v2_7, s2_8, v2_8);
    let s2_9 = 102988int;
    let v2_9 = 42308int;
    let e2_9 = lemma_mpow_double_next(b2, n, e2_8, v2_8, s2_9, v2_9);
    let v2_10 = 11140int;
    let e2_10 = lemma_mpow_double(b2, n, e2_9, v2_9, v2_10);
    let s2_11 = 36694int;
    let v2_11 = 109100int;
    let e2_11 = lemma_mpow_double_next(b2, n, e2_10, v2_10, s2_11, v2_11);
    lemma_mpow_mul(g, 2nat, 3949nat, n);
    assert(mpow(3int, 7898nat, 110573int) == 109100int);
    // 3 to the power 55286, from the power 7898 raised to the power 7
    let b3 = 109100int;
    lemma_mpow_first(b3, n);
    let s3_1 = 68842int;
    let v3_1 = 101748int;
    let e3_1 = lemma_mpow_double_next(b3, n, 1nat, b3, s3_1, v3_1);
    let s3_2 = 37233int;
    let v3_2 = 110572int;
    let e3_2 = lemma_mpow_double_next(b3, n, e3_1, v3_1, s3_2, v3_2);
    lemma_mpow_mul(g, 7898nat, 7nat, n);
    assert(mpow(3int, 55286nat, 110573int) == 110572int);
    // 3 to the power 15796, from the power 7898 raised to the power 2
    let b4 = 109100int;
    lemma_mpow_first(b4, n);
    let v4_1 = 68842int;
    let e4_1 = lemma_mpow_double(b4, n, 1nat, b4, v4_1);
    lemma_mpow_mul(g, 7898nat, 2nat, n);
    assert(mpow(3int, 15796nat, 110573int) == 68842int);
    // 3 to the power 28, from the power 2 raised to the power 14
    let b5 = 9int;
    lemma_mpow_first(b5, n);
    let s5_1 = 81int;
    let v5_1 = 729int;
    let e5_1 = lemma_mpow_double_next(b5, n, 1nat, b5, s5_1, v5_1);
    let s5_2 = 89149int;
    let v5_2 = 28330int;
    let e5_2 = lemma_mpow_double_next(b5, n, e5_1, v5_1, s5_2, v5_2);
    let v5_3 = 50066int;
    let e5_3 = lemma_mpow_double(b5, n, e5_2, v5_2, v5_3);
    lemma_mpow_mul(g, 2nat, 14nat, n);
    assert(mpow(3int, 28nat, 110573int) == 50066int);
    // 3 to the power 10052, from the power 28 raised to the power 359
    let b6 = 50066int;
    lemma_mpow_first(b6, n);
    let v6_1 = 25019int;
    let e6_1 = lemma_mpow_double(b6, n, 1nat, b6, v6_1);
    let s6_2 = 107181int;
    let v6_2 = 16256int;
    let e6_2 = lemma_mpow_double_next(b6, n, e6_1, v6_1, s6_2, v6_2);
    let s6_3 = 98639int;
    let v6_3 = 48848int;
    let e6_3 = lemma_mpow_double_next(b6, n, e6_2, v6_2, s6_3, v6_3);
    let v6_4 = 72337int;
    let e6_4 = lemma_mpow_double(b6, n, e6_3, v6_3, v6_4);
    let v6_5 = 106063int;
    let e6_5 = lemma_mpow_double(b6, n, e6_4, v6_4, v6_5);
    let s6_6 = 105241int;
    let v6_6 = 81883int;
    let e6_6 = lemma_mpow_double_next(b6, n, e6_5, v6_5, s6_6, v6_6);
    let s6_7 = 10688int;
    let v6_7 = 42661int;
    let e6_7 = lemma_mpow_double_next(b6, n, e6_6, v6_6, s6_7, v6_7);
    let s6_8 = 39914int;
    let v6_8 = 59068int;
    let e6_8 = lemma_mpow_double_next(b6, n, e6_7, v6_7, s6_8, v6_8);
    lemma_mpow_mul(g, 28nat, 359nat, n);
    assert(mpow(3int, 10052nat, 110573int) == 59068int);
    // 3 to the power 308, from the power 28 raised to the power 11
    let b7 = 50066int;
    lemma_mpow_first(b7, n);
    let v7_1 = 25019int;
    let e7_1 = lemma_mpow_double(b7, n, 1nat, b7, v7_1);
    let s7_2 = 107181int;
    let v7_2 = 16256int;
    let e7_2 = lemma_mpow_double_next(b7, n, e7_1, v7_1, s7_2, v7_2);
    let s7_3 = 98639int;
    let v7_3 = 48848int;
    let e7_3 = lemma_mpow_double_next(b7, n, e7_2, v7_2, s7_3, v7_3);
    lemma_mpow_mul(g, 28nat, 11nat, n);
    assert(mpow(3int, 308nat, 110573int) == 48848int);
    // 3 to the power 110572, from the power 55286 raised to the power 2
    let b8 = 110572int;
    lemma_mpow_first(b8, n);
    let v8_1 = 1int;
    let e8_1 = lemma_mpow_double(b8, n, 1nat, b8, v8_1);
    lemma_mpow_mul(g, 55286nat, 2nat, n);
    assert(mpow(3int, 110572nat, 110573int) == 1int);
    lemma_prime_2();
    lemma_prime_7();
    lemma_prime_11();
    lemma_prime_359();
    let fs0 = Seq::<int>::empty();
    lemma_witness_push(n, g, fs0, 2);
    let fs1 = fs0.push(2);
    lemma_witness_push(n, g, fs1, 2);
    let fs2 = fs1.push(2);
    lemma_witness_push(n, g, fs2, 7);
    let fs3 = fs2.push(7);
    lemma_witness_push(n, g, fs3, 11);
    let fs4 = fs3.push(11);
    lemma_witness_push(n, g, fs4, 359);
    let fs5 = fs4.push(359);
    lemma_witness_prime(n, g, fs5);
}

/// 125527 is prime: 5 is a witness, with 125526 = 2 * 3 * 20921.
pub proof fn lemma_prime_125527()
    ensures
        is_prime(125527),
{
    let n = 125527int;
    let g = 5int;
    lemma_mpow_first(g, n);
    // 5 to the power 62763
    let b1 = 5int;
    lemma_mpow_first(b1, n);
    let s1_1 = 25int;
    let v1_1 = 125int;
    let e1_1 = lemma_mpow_double_next(b1, n, 1nat, b1, s1_1, v1_1);
    let s1_2 = 15625int;
    let v1_2 = 78125int;
    let e1_2 = lemma_mpow_double_next(b1, n, e1_1, v1_1, s1_2, v1_2);
    let s1_3 = 16304int;
    let v1_3 = 81520int;
    let e1_3 = lemma_mpow_double_next(b1, n, e1_2, v1_2, s1_3, v1_3);
    let v1_4 = 111020int;
    let e1_4 = lemma_mpow_double(b1, n, e1_3, v1_3, v1_4);
    let s1_5 = 69797int;
    let v1_5 = 97931int;
    let e1_5 = lemma_mpow_double_next(b1, n, e1_4, v1_4, s1_5, v1_5);
    let v1_6 = 92434int;
    let e1_6 = lemma_mpow_double(b1, n, e1_5, v1_5, v1_6);
    let s1_7 = 49101int;
    let v1_7 = 119978int;
    let e1_7 = lemma_mpow_double_next(b1, n, e1_6, v1_6, s1_7, v1_7);
    let v1_8 = 37286int;
    let e1_8 = lemma_mpow_double(b1, n, e1_7, v1_7, v1_8);
    let v1_9 = 34271int;
    let e1_9 = lemma_mpow_double(b1, n, e1_8, v1_8, v1_9);
    let s1_10 = 70829int;
    let v1_10 = 103091int;
    let e1_10 = lemma_mpow_double_next(b1, n, e1_9, v1_9, s1_10, v1_10);
    let v1_11 = 10826int;
    let e1_11 = lemma_mpow_double(b1, n, e1_10, v1_10, v1_11);
    let s1_12 = 85585int;
    let v1_12 = 51344int;
    let e1_12 = lemma_mpow_double_next(b1, n, e1_11, v1_11, s1_12, v1_12);
    let v1_13 = 13809int;
    let e1_13 = lemma_mpow_double(b1, n, e1_12, v1_12, v1_13);
    let s1_14 = 12968int;
    let v1_14 = 64840int;
    let e1_14 = lemma_mpow_double_next(b1, n, e1_13, v1_13, s1_14, v1_14);
    let s1_15 = 75316int;
    let v1_15 = 125526int;
    let e1_15 = lemma_mpow_double_next(b1, n, e1_14, v1_14, s1_15, v1_15);
    assert(mpow(5int, 62763nat, 125527int) == 125526int);
    // 5 to the power 2
    let b2 = 5int;
    lemma_mpow_first(b2, n);
    let v2_1 = 25int;
    let e2_1 = lemma_mpow_double(b2, n, 1nat, b2, v2_1);
    assert(mpow(5int, 2nat, 125527int) == 25int);
    // 5 to the power 41842, from the power 2 raised to the power 20921
    let b3 = 25int;
    lemma_mpow_first(b3, n);
    let v3_1 = 625int;
    let e3_1 = lemma_mpow_double(b3, n, 1nat, b3, v3_1);
    let s3_2 = 14044int;
    let v3_2 = 100046int;
    let e3_2 = lemma_mpow_double_next(b3, n, e3_1, v3_1, s3_2, v3_2);
    let v3_3 = 55717int;
    let e3_3 = lemma_mpow_double(b3, n, e3_2, v3_2, v3_3);
    let v3_4 = 101379int;
    let e3_4 = lemma_mpow_double(b3, n, e3_3, v3_3, v3_4);
    let v3_5 = 52989int;
    let e3_5 = lemma_mpow_double(b3, n, e3_4, v3_4, v3_5);
    let s3_6 = 46185int;
    let v3_6 = 24882int;
    let e3_6 = lemma_mpow_double_next(b3, n, e3_5, v3_5, s3_6, v3_6);
    let s3_7 = 14760int;
    let v3_7 = 117946int;
    let e3_7 = lemma_mpow_double_next(b3, n, e3_6, v3_6, s3_7, v3_7);
    let v3_8 = 105722int;
    let e3_8 = lemma_mpow_double(b3, n, e3_7, v3_7, v3_8);
    let s3_9 = 91677int;
    let v3_9 = 32439int;
    let e3_9 = lemma_mpow_double_next(b3, n, e3_8, v3_8, s3_9, v3_9);
    let s3_10 = 121407int;
    let v3_10 = 22527int;
    let e3_10 = lemma_mpow_double_next(b3, n, e3_9, v3_9, s3_10, v3_10);
    let s3_11 = 85595int;
    let v3_11 = 5916int;
    let e3_11 = lemma_mpow_double_next(b3, n, e3_10, v3_10, s3_11, v3_11);
    let v3_12 = 102550int;
    let e3_12 = lemma_mpow_double(b3, n, e3_11, v3_11, v3_12);
    let v3_13 = 101494int;
    let e3_13 = lemma_mpow_double(b3, n, e3_12, v3_12, v3_13);
    let s3_14 = 35362int;
    let v3_14 = 5361int;
    let e3_14 = lemma_mpow_double_next(b3, n, e3_13, v3_13, s3_14, v3_14);
    lemma_mpow_mul(g, 2nat, 20921nat, n);
    assert(mpow(5int, 41842nat, 125527int) == 5361int);
    // 5 to the power 6, from the power 2 raised to the power 3
    let b4 = 25int;
    lemma_mpow_first(b4, n);
    let s4_1 = 625int;
    let v4_1 = 15625int;
    let e4_1 = lemma_mpow_double_next(b4, n, 1nat, b4, s4_1, v4_1);
    lemma_mpow_mul(g, 2nat, 3nat, n);
    assert(mpow(5int, 6nat, 125527int) == 15625int);
    // 5 to the power 125526, from the power 62763 raised to the power 2
    let b5 = 125526int;
    lemma_mpow_first(b5, n);
    let v5_1 = 1int;
    let e5_1 = lemma_mpow_double(b5, n, 1nat, b5, v5_1);
    lemma_mpow_mul(g, 62763nat, 2nat, n);
    assert(mpow(5int, 125526nat, 125527int) == 1int);
    lemma_prime_2();
    lemma_prime_3();
    lemma_prime_20921();
    let fs0 = Seq::<int>::empty();
    lemma_witness_push(n, g, fs0, 2);
    let fs1 = fs0.push(2);
    lemma_witness_push(n, g, fs1, 3);
    let fs2 = fs1.push(3);
    lemma_witness_push(n, g, fs2, 20921);
    let fs3 = fs2.push(20921);
    lemma_witness_prime(n, g, fs3);
}

/// 609743 is prime: 5 is a witness, with 609742 = 2 * 7 * 97 * 449.
pub proof fn lemma_prime_609743()
    ensures
        is_prime(609743),
{
    let n = 609743int;
    let g = 5int;
    lemma_mpow_first(g, n);
    // 5 to the power 43553
    let b1 = 5int;
    lemma_mpow_first(b1, n);
    let v1_1 = 25int;
    let e1_1 = lemma_mpow_double(b1, n, 1nat, b1, v1_1);
    let s1_2 = 625int;
    let v1_2 = 3125int;
    let e1_2 = lemma_mpow_double_next(b1, n, e1_1, v1_1, s1_2, v1_2);
    let v1_3 = 9737int;
    let e1_3 = lemma_mpow_double(b1, n, e1_2, v1_2, v1_3);
    let s1_4 = 299004int;
    let v1_4 = 275534int;
    let e1_4 = lemma_mpow_double_next(b1, n, e1_3, v1_3, s1_4, v1_4);
    let v1_5 = 493969int;
    let e1_5 = lemma_mpow_double(b1, n, e1_4, v1_4, v1_5);
    let s1_6 = 248450int;
    let v1_6 = 22764int;
    let e1_6 = lemma_mpow_double_next(b1, n, e1_5, v1_5, s1_6, v1_6);
    let v1_7 = 527889int;
    let e1_7 = lemma_mpow_double(b1, n, e1_6, v1_6, v1_7);
    let v1_8 = 221232int;
    let e1_8 = lemma_mpow_double(b1, n, e1_7, v1_7, v1_8);
    let v1_9 = 136957int;
    let e1_9 = lemma_mpow_double(b1, n, e1_8, v1_8, v1_9);
    let s1_10 = 305683int;
    let v1_10 = 308929int;
    let e1_10 = lemma_mpow_double_next(b1, n, e1_9, v1_9, s1_10, v1_10);
    let v1_11 = 152681int;
    let e1_11 = lemma_mpow_double(b1, n, e1_10, v1_10, v1_11);
    let v1_12 = 403128int;
    let e1_12 = lemma_mpow_double(b1, n, e1_11, v1_11, v1_12);
    let v1_13 = 431309int;
    let e1_13 = lemma_mpow_double(b1, n, e1_12, v1_12, v1_13);
    let v1_14 = 351868int;
    let e1_14 = lemma_mpow_double(b1, n, e1_13, v1_13, v1_14);
    let s1_15 = 334302int;
    let v1_15 = 452024int;
    let e1_15 = lemma_mpow_double_next(b1, n, e1_14, v1_14, s1_15, v1_15);
    assert(mpow(5int, 43553nat, 609743int) == 452024int);
    // 5 to the power 304871, from the power 43553 raised to the power 7
    let b2 = 452024int;
    lemma_mpow_first(b2, n);
    let s2_1 = 207533int;
    let v2_1 = 326499int;
    let e2_1 = lemma_mpow_double_next(b2, n, 1nat, b2, s2_1, v2_1);
    let s2_2 = 228311int;
    let v2_2 = 609742int;
    let e2_2 = lemma_mpow_double_next(b2, n, e2_1, v2_1, s2_2, v2_2);
    lemma_mpow_mul(g, 43553nat, 7nat, n);
    assert(mpow(5int, 304871nat, 609743int) == 609742int);
    // 5 to the power 87106, from the power 43553 raised to the power 2
    let b3 = 452024int;
    lemma_mpow_first(b3, n);
    let v3_1 = 207533int;
    let e3_1 = lemma_mpow_double(b3, n, 1nat, b3, v3_1);
    lemma_mpow_mul(g, 43553nat, 2nat, n);
    assert(mpow(5int, 87106nat, 609743int) == 207533int);
    // 5 to the power 14
    let b4 = 5int;
    lemma_mpow_first(b4, n);
    let s4_1 = 25int;
    let v4_1 = 125int;
    let e4_1 = lemma_mpow_double_next(b4, n, 1nat, b4, s4_1, v4_1);
    let s4_2 = 15625int;
    let v4_2 = 78125int;
    let e4_2 = lemma_mpow_double_next(b4, n, e4_1, v4_1, s4_2, v4_2);
    let v4_3 = 597938int;
    let e4_3 = lemma_mpow_double(b4, n, e4_2, v4_2, v4_3);
    assert(mpow(5int, 14nat, 609743int) == 597938int);
    // 5 to the power 6286, from the power 14 raised to the power 449
    let b5 = 597938int;
    lemma_mpow_first(b5, n);
    let s5_1 = 336621int;
    let v5_1 = 493969int;
    let e5_1 = lemma_mpow_double_next(b5, n, 1nat, b5, s5_1, v5_1);
    let s5_2 = 248450int;
    let v5_2 = 521323int;
    let e5_2 = lemma_mpow_double_next(b5, n, e5_1, v5_1, s5_2, v5_2);
    let v5_3 = 581397int;
    let e5_3 = lemma_mpow_double(b5, n, e5_2, v5_2, v5_3);
    let v5_4 = 464185int;
    let e5_4 = lemma_mpow_double(b5, n, e5_3, v5_3, v5_4);
    let v5_5 = 391343int;
    let e5_5 = lemma_mpow_double(b5, n, e5_4, v5_4, v5_5);
    let v5_6 = 194339int;
    let e5_6 = lemma_mpow_double(b5, n, e5_5, v5_5, v5_6);
    let v5_7 = 165501int;
    let e5_7 = lemma_mpow_double(b5, n, e5_6, v5_6, v5_7);
    let s5_8 = 315698int;
    let v5_8 = 544069int;
    let e5_8 = lemma_mpow_double_next(b5, n, e5_7, v5_7, s5_8, v5_8);
    lemma_mpow_mul(g, 14nat, 449nat, n);
    assert(mpow(5int, 6286nat, 609743int) == 544069int);
    // 5 to the power 1358, from the power 14 raised to the power 97
    let b6 = 597938int;
    lemma_mpow_first(b6, n);
    let s6_1 = 336621int;
    let v6_1 = 493969int;
    let e6_1 = lemma_mpow_double_next(b6, n, 1nat, b6, s6_1, v6_1);
    let v6_2 = 248450int;
    let e6_2 = lemma_mpow_double(b6, n, e6_1, v6_1, v6_2);
    let v6_3 = 69895int;
    let e6_3 = lemma_mpow_double(b6, n, e6_2, v6_2, v6_3);
    let v6_4 = 50109int;
    let e6_4 = lemma_mpow_double(b6, n, e6_3, v6_3, v6_4);
    let v6_5 = 599950int;
    let e6_5 = lemma_mpow_double(b6, n, e6_4, v6_4, v6_5);
    let s6_6 = 173198int;
    let v6_6 = 475632int;
    let e6_6 = lemma_mpow_double_next(b6, n, e6_5, v6_5, s6_6, v6_6);
    lemma_mpow_mul(g, 14nat, 97nat, n);
    assert(mpow(5int, 1358nat, 609743int) == 475632int);
    // 5 to the power 609742, from the power 304871 raised to the power 2
    let b7 = 609742int;
    lemma_mpow_first(b7, n);
    let v7_1 = 1int;
    let e7_1 = lemma_mpow_double(b7, n, 1nat, b7, v7_1);
    lemma_mpow_mul(g, 304871nat, 2nat, n);
    assert(mpow(5int, 609742nat, 609743int) == 1int);
    lemma_prime_2();
    lemma_prime_7();
    lemma_prime_97();
    lemma_prime_449();
    let fs0 = Seq::<int>::empty();
    lemma_witness_push(n, g, fs0, 2);
    let fs1 = fs0.push(2);
    lemma_witness_push(n, g, fs1, 7);
    let fs2 = fs1.push(7);
    lemma_witness_push(n, g, fs2, 97);
    let fs3 = fs2.push(97);
    lemma_witness_push(n, g, fs3, 449);
    let fs4 = fs3.push(449);
    lemma_witness_prime(n, g, fs4);
}

/// 859267 is prime: 2 is a witness, with 859266 = 2 * 3^2 * 47737.
pub proof fn lemma_prime_859267()
    ensures
        is_prime(859267),
{
    let n = 859267int;
    let g = 2int;
    lemma_mpow_first(g, n);
    // 2 to the power 3
    let b1 = 2int;
    lemma_mpow_first(b1, n);
    let s1_1 = 4int;
    let v1_1 = 8int;
    let e1_1 = lemma_mpow_double_next(b1, n, 1nat, b1, s1_1, v1_1);
    assert(mpow(2int, 3nat, 859267int) == 8int);
    // 2 to the power 429633, from the power 3 raised to the power 143211
    let b2 = 8int;
    lemma_mpow_first(b2, n);
    let v2_1 = 64int;
    let e2_1 = lemma_mpow_double(b2, n, 1nat, b2, v2_1);
    let v2_2 = 4096int;
    let e2_2 = lemma_mpow_double(b2, n, e2_1, v2_1, v2_2);
    let v2_3 = 451143int;
    let e2_3 = lemma_mpow_double(b2, n, e2_2, v2_2, v2_3);
    let s2_4 = 587761int;
    let v2_4 = 405753int;
    let e2_4 = lemma_mpow_double_next(b2, n, e2_3, v2_3, s2_4, v2_4);
    let v2_5 = 799076int;
    let e2_5 = lemma_mpow_double(b2, n, e2_4, v2_4, v2_5);
    let s2_6 = 286809int;
    let v2_6 = 575938int;
    let e2_6 = lemma_mpow_double_next(b2, n, e2_5, v2_5, s2_6, v2_6);
    let s2_7 = 21300int;
    let v2_7 = 170400int;
    let e2_7 = lemma_mpow_double_next(b2, n, e2_6, v2_6, s2_7, v2_7);
    let s2_8 = 668803int;
    let v2_8 = 194822int;
    let e2_8 = lemma_mpow_double_next(b2, n, e2_7, v2_7, s2_8, v2_8);
    let s2_9 = 69760int;
    let v2_9 = 558080int;
    let e2_9 = lemma_mpow_double_next(b2, n, e2_8, v2_8, s2_9, v2_9);
    let v2_10 = 791779int;
    let e2_10 = lemma_mpow_double(b2, n, e2_9, v2_9, v2_10);
    let s2_11 = 515044int;
    let v2_11 = 683284int;
    let e2_11 = lemma_mpow_double_next(b2, n, e2_10, v2_10, s2_11, v2_11);
    let s2_12 = 315075int;
    let v2_12 = 802066int;
    let e2_12 = lemma_mpow_double_next(b2, n, e2_11, v2_11, s2_12, v2_12);
    let v2_13 = 724932int;
    let e2_13 = lemma_mpow_double(b2, n, e2_12, v2_12, v2_13);
    let s2_14 = 425958int;
    let v2_14 = 829863int;
    let e2_14 = lemma_mpow_double_next(b2, n, e2_13, v2_13, s2_14, v2_14);
    let v2_15 = 172614int;
    let e2_15 = lemma_mpow_double(b2, n, e2_14, v2_14, v2_15);
    let s2_16 = 509771int;
    let v2_16 = 641100int;
    let e2_16 = lemma_mpow_double_next(b2, n, e2_15, v2_15, s2_16, v2_16);
    let s2_17 = 322225int;
    let v2_17 = 859266int;
    let e2_17 = lemma_mpow_double_next(b2, n, e2_16, v2_16, s2_17, v2_17);
    lemma_mpow_mul(g, 3nat, 143211nat, n);
    assert(mpow(2int, 429633nat, 859267int) == 859266int);
    // 2 to the power 6, from the power 3 raised to the power 2
    let b3 = 8int;
    lemma_mpow_first(b3, n);
    let v3_1 = 64int;
    let e3_1 = lemma_mpow_double(b3, n, 1nat, b3, v3_1);
    lemma_mpow_mul(g, 3nat, 2nat, n);
    assert(mpow(2int, 6nat, 859267int) == 64int);
    // 2 to the power 286422, from the power 6 raised to the power 47737
    let b4 = 64int;
    lemma_mpow_first(b4, n);
    let v4_1 = 4096int;
    let e4_1 = lemma_mpow_double(b4, n, 1nat, b4, v4_1);
    let s4_2 = 451143int;
    let v4_2 = 517341int;
    let e4_2 = lemma_mpow_double_next(b4, n, e4_1, v4_1, s4_2, v4_2);
    let s4_3 = 662189int;
    let v4_3 = 276013int;
    let e4_3 = lemma_mpow_double_next(b4, n, e4_2, v4_2, s4_3, v4_3);
    let s4_4 = 563949int;
    let v4_4 = 3522int;
    let e4_4 = lemma_mpow_double_next(b4, n, e4_3, v4_3, s4_4, v4_4);
    let v4_5 = 374746int;
    let e4_5 = lemma_mpow_double(b4, n, e4_4, v4_4, v4_5);
    let s4_6 = 262371int;
    let v4_6 = 465671int;
    let e4_6 = lemma_mpow_double_next(b4, n, e4_5, v4_5, s4_6, v4_6);
    let v4_7 = 563786int;
    let e4_7 = lemma_mpow_double(b4, n, e4_6, v4_6, v4_7);
    let v4_8 = 620025int;
    let e4_8 = lemma_mpow_double(b4, n, e4_7, v4_7, v4_8);
    let s4_9 = 100427int;
    let v4_9 = 412459int;
    let e4_9 = lemma_mpow_double_next(b4, n, e4_8, v4_8, s4_9, v4_9);
    let s4_10 = 449686int;
    let v4_10 = 424093int;
    let e4_10 = lemma_mpow_double_next(b4, n, e4_9, v4_9, s4_10, v4_10);
    let s4_11 = 837612int;
    let v4_11 = 332614int;
    let e4_11 = lemma_mpow_double_next(b4, n, e4_10, v4_10, s4_11, v4_11);
    let s4_12 = 587479int;
    let v4_12 = 650175int;
    let e4_12 = lemma_mpow_double_next(b4, n, e4_11, v4_11, s4_12, v4_12);
    let v4_13 = 818771int;
    let e4_13 = lemma_mpow_double(b4, n, e4_12, v4_12, v4_13);
    let v4_14 = 444580int;
    let e4_14 = lemma_mpow_double(b4, n, e4_13, v4_13, v4_14);
    let s4_15 = 203259int;
    let v4_15 = 119571int;
    let e4_15 = lemma_mpow_double_next(b4, n, e4_14, v4_14, s4_15, v4_15);
    lemma_mpow_mul(g, 6nat, 47737nat, n);
    assert(mpow(2int, 286422nat, 859267int) == 119571int);
    // 2 to the power 18, from the power 6 raised to the power 3
    let b5 = 64int;
    lemma_mpow_first(b5, n);
    let s5_1 = 4096int;
    let v5_1 = 262144int;
    let e5_1 = lemma_mpow_double_next(b5, n, 1nat, b5, s5_1, v5_1);
    lemma_mpow_mul(g, 6nat, 3nat, n);
    assert(mpow(2int, 18nat, 859267int) == 262144int);
    // 2 to the power 859266, from the power 429633 raised to the power 2
    let b6 = 859266int;
    lemma_mpow_first(b6, n);
    let v6_1 = 1int;
    let e6_1 = lemma_mpow_double(b6, n, 1nat, b6, v6_1);
    lemma_mpow_mul(g, 429633nat, 2nat, n);
    assert(mpow(2int, 859266nat, 859267int) == 1int);
    lemma_prime_2();
    lemma_prime_3();
    lemma_prime_47737();
    let fs0 = Seq::<int>::empty();
    lemma_witness_push(n, g, fs0, 2);
    let fs1 = fs0.push(2);
    lemma_witness_push(n, g, fs1, 3);
    let fs2 = fs1.push(3);
    lemma_witness_push(n, g, fs2, 3);
    let fs3 = fs2.push(3);
    lemma_witness_push(n, g, fs3, 47737);
    let fs4 = fs3.push(47737);
    lemma_witness_prime(n, g, fs4);
}

/// 906349 is prime: 2 is a witness, with 906348 = 2^2 * 3 * 47 * 1607.
pub proof fn lemma_prime_906349()
    ensures
        is_prime(906349),
{
    let n = 906349int;
    let g = 2int;
    lemma_mpow_first(g, n);
    // 2 to the power 2
    let b1 = 2int;
    lemma_mpow_first(b1, n);
    let v1_1 = 4int;
    let e1_1 = lemma_mpow_double(b1, n, 1nat, b1, v1_1);
    assert(mpow(2int, 2nat, 906349int) == 4int);
    // 2 to the power 151058, from the power 2 raised to the power 75529
    let b2 = 4int;
    lemma_mpow_first(b2, n);
    let v2_1 = 16int;
    let e2_1 = lemma_mpow_double(b2, n, 1nat, b2, v2_1);
    let v2_2 = 256int;
    let e2_2 = lemma_mpow_double(b2, n, e2_1, v2_1, v2_2);
    let s2_3 = 65536int;
    let v2_3 = 262144int;
    let e2_3 = lemma_mpow_double_next(b2, n, e2_2, v2_2, s2_3, v2_3);
    let v2_4 = 95556int;
    let e2_4 = lemma_mpow_double(b2, n, e2_3, v2_3, v2_4);
    let v2_5 = 389310int;
    let e2_5 = lemma_mpow_double(b2, n, e2_4, v2_4, v2_5);
    let s2_6 = 783622int;
    let v2_6 = 415441int;
    let e2_6 = lemma_mpow_double_next(b2, n, e2_5, v2_5, s2_6, v2_6);
    let s2_7 = 622505int;
    let v2_7 = 677322int;
    let e2_7 = lemma_mpow_double_next(b2, n, e2_6, v2_6, s2_7, v2_7);
    let s2_8 = 231052int;
    let v2_8 = 17859int;
    let e2_8 = lemma_mpow_double_next(b2, n, e2_7, v2_7, s2_8, v2_8);
    let v2_9 = 815382int;
    let e2_9 = lemma_mpow_double(b2, n, e2_8, v2_8, v2_9);
    let v2_10 = 28719int;
    let e2_10 = lemma_mpow_double(b2, n, e2_9, v2_9, v2_10);
    let v2_11 = 3371int;
    let e2_11 = lemma_mpow_double(b2, n, e2_10, v2_10, v2_11);
    let v2_12 = 487453int;
    let e2_12 = lemma_mpow_double(b2, n, e2_11, v2_11, v2_12);
    let s2_13 = 160671int;
    let v2_13 = 642684int;
    let e2_13 = lemma_mpow_double_next(b2, n, e2_12, v2_12, s2_13, v2_13);
    let v2_14 = 451227int;
    let e2_14 = lemma_mpow_double(b2, n, e2_13, v2_13, v2_14);
    let v2_15 = 847122int;
    let e2_15 = lemma_mpow_double(b2, n, e2_14, v2_14, v2_15);
    let s2_16 = 266899int;
    let v2_16 = 161247int;
    let e2_16 = lemma_mpow_double_next(b2, n, e2_15, v2_15, s2_16, v2_16);
    lemma_mpow_mul(g, 2nat, 75529nat, n);
    assert(mpow(2int, 151058nat, 906349int) == 161247int);
    // 2 to the power 453174, from the power 151058 raised to the power 3
    let b3 = 161247int;
    lemma_mpow_first(b3, n);
    let s3_1 = 161246int;
    let v3_1 = 906348int;
    let e3_1 = lemma_mpow_double_next(b3, n, 1nat, b3, s3_1, v3_1);
    lemma_mpow_mul(g, 151058nat, 3nat, n);
    assert(mpow(2int, 453174nat, 906349int) == 906348int);
    // 2 to the power 302116, from the power 151058 raised to the power 2
    let b4 = 161247int;
    lemma_mpow_first(b4, n);
    let v4_1 = 161246int;
    let e4_1 = lemma_mpow_double(b4, n, 1nat, b4, v4_1);
    lemma_mpow_mul(g, 151058nat, 2nat, n);
    assert(mpow(2int, 302116nat, 906349int) == 161246int);
    // 2 to the power 12, from the power 2 raised to the power 6
    let b5 = 4int;
    lemma_mpow_first(b5, n);
    let s5_1 = 16int;
    let v5_1 = 64int;
    let e5_1 = lemma_mpow_double_next(b5, n, 1nat, b5, s5_1, v5_1);
    let v5_2 = 4096int;
    let e5_2 = lemma_mpow_double(b5, n, e5_1, v5_1, v5_2);
    lemma_mpow_mul(g, 2nat, 6nat, n);
    assert(mpow(2int, 12nat, 906349int) == 4096int);
    // 2 to the power 19284, from the power 12 raised to the power 1607
    let b6 = 4096int;
    lemma_mpow_first(b6, n);
    let s6_1 = 462934int;
    let v6_1 = 95556int;
    let e6_1 = lemma_mpow_double_next(b6, n, 1nat, b6, s6_1, v6_1);
    let v6_2 = 389310int;
    let e6_2 = lemma_mpow_double(b6, n, e6_1, v6_1, v6_2);
    let v6_3 = 783622int;
    let e6_3 = lemma_mpow_double(b6, n, e6_2, v6_2, v6_3);
    let s6_4 = 208847int;
    let v6_4 = 750205int;
    let e6_4 = lemma_mpow_double_next(b6, n, e6_3, v6_3, s6_4, v6_4);
    let v6_5 = 160636int;
    let e6_5 = lemma_mpow_double(b6, n, e6_4, v6_4, v6_5);
    let v6_6 = 168466int;
    let e6_6 = lemma_mpow_double(b6, n, e6_5, v6_5, v6_6);
    let v6_7 = 286919int;
    let e6_7 = lemma_mpow_double(b6, n, e6_6, v6_6, v6_7);
    let s6_8 = 645589int;
    let v6_8 = 512511int;
    let e6_8 = lemma_mpow_double_next(b6, n, e6_7, v6_7, s6_8, v6_8);
    let s6_9 = 334129int;
    let v6_9 = 5394int;
    let e6_9 = lemma_mpow_double_next(b6, n, e6_8, v6_8, s6_9, v6_9);
    let s6_10 = 92068int;
    let v6_10 = 69344int;
    let e6_10 = lemma_mpow_double_next(b6, n, e6_9, v6_9, s6_10, v6_10);
    lemma_mpow_mul(g, 12nat, 1607nat, n);
    assert(mpow(2int, 19284nat, 906349int) == 69344int);
    // 2 to the power 564, from the power 12 raised to the power 47
    let b7 = 4096int;
    lemma_mpow_first(b7, n);
    let v7_1 = 462934int;
    let e7_1 = lemma_mpow_double(b7, n, 1nat, b7, v7_1);
    let s7_2 = 760957int;
    let v7_2 = 852010int;
    let e7_2 = lemma_mpow_double_next(b7, n, e7_1, v7_1, s7_2, v7_2);
    let s7_3 = 748228int;
    let v7_3 = 375919int;
    let e7_3 = lemma_mpow_double_next(b7, n, e7_2, v7_2, s7_3, v7_3);
    let s7_4 = 783877int;
    let v7_4 = 472034int;
    let e7_4 = lemma_mpow_double_next(b7, n, e7_3, v7_3, s7_4, v7_4);
    let s7_5 = 165345int;
    let v7_5 = 210417int;
    let e7_5 = lemma_mpow_double_next(b7, n, e7_4, v7_4, s7_5, v7_5);
    lemma_mpow_mul(g, 12nat, 47nat, n);
    assert(mpow(2int, 564nat, 906349int) == 210417int);
    // 2 to the power 906348, from the power 453174 raised to the power 2
    let b8 = 906348int;
    lemma_mpow_first(b8, n);
    let v8_1 = 1int;
    let e8_1 = lemma_mpow_double(b8, n, 1nat, b8, v8_1);
    lemma_mpow_mul(g, 453174nat, 2nat, n);
    assert(mpow(2int, 906348nat, 906349int) == 1int);
    lemma_prime_2();
    lemma_prime_3();
    lemma_prime_47();
    lemma_prime_1607();
    let fs0 = Seq::<int>::empty();
    lemma_witness_push(n, g, fs0, 2);
    let fs1 = fs0.push(2);
    lemma_witness_push(n, g, fs1, 2);
    let fs2 = fs1.push(2);
    lemma_witness_push(n, g, fs2, 3);
    let fs3 = fs2.push(3);
    lemma_witness_push(n, g, fs3, 47);
    let fs4 = fs3.push(47);
    lemma_witness_push(n, g, fs4, 1607);
    let fs5 = fs4.push(1607);
    lemma_witness_prime(n, g, fs5);
}

/// 2508409 is prime: 11 is a witness, with 2508408 = 2^3 * 3^4 * 7^2 * 79.
pub proof fn lemma_prime_2508409()
    ensures
        is_prime(2508409),
{
    let n = 2508409int;
    let g = 11int;
    lemma_mpow_first(g, n);
    // 11 to the power 756
    let b1 = 11int;
    lemma_mpow_first(b1, n);
    let v1_1 = 121int;
    let e1_1 = lemma_mpow_double(b1, n, 1nat, b1, v1_1);
    let s1_2 = 14641int;
    let v1_2 = 161051int;
    let e1_2 = lemma_mpow_double_next(b1, n, e1_1, v1_1, s1_2, v1_2);
    let s1_3 = 475541int;
    let v1_3 = 214133int;
    let e1_3 = lemma_mpow_double_next(b1, n, e1_2, v1_2, s1_3, v1_3);
    let s1_4 = 1733578int;
    let v1_4 = 1510495int;
    let e1_4 = lemma_mpow_double_next(b1, n, e1_3, v1_3, s1_4, v1_4);
    let s1_5 = 1503623int;
    let v1_5 = 1489399int;
    let e1_5 = lemma_mpow_double_next(b1, n, e1_4, v1_4, s1_5, v1_5);
    let v1_6 = 390460int;
    let e1_6 = lemma_mpow_double(b1, n, e1_5, v1_5, v1_6);
    let s1_7 = 420989int;
    let v1_7 = 2122470int;
    let e1_7 = lemma_mpow_double_next(b1, n, e1_6, v1_6, s1_7, v1_7);
    let v1_8 = 2093710int;
    let e1_8 = lemma_mpow_double(b1, n, e1_7, v1_7, v1_8);
    let v1_9 = 1247970int;
    let e1_9 = lemma_mpow_double(b1, n, e1_8, v1_8, v1_9);
    assert(mpow(11int, 756nat, 2508409int) == 1247970int);
    // 11 to the power 418068, from the power 756 raised to the power 553
    let b2 = 1247970int;
    lemma_mpow_first(b2, n);
    let v2_1 = 615753int;
    let e2_1 = lemma_mpow_double(b2, n, 1nat, b2, v2_1);
    let v2_2 = 719841int;
    let e2_2 = lemma_mpow_double(b2, n, e2_1, v2_1, v2_2);
    let v2_3 = 1492924int;
    let e2_3 = lemma_mpow_double(b2, n, e2_2, v2_2, v2_3);
    let s2_4 = 336916int;
    let v2_4 = 1543940int;
    let e2_4 = lemma_mpow_double_next(b2, n, e2_3, v2_3, s2_4, v2_4);
    let v2_5 = 2125673int;
    let e2_5 = lemma_mpow_double(b2, n, e2_4, v2_4, v2_5);
    let s2_6 = 776914int;
    let v2_6 = 67446int;
    let e2_6 = lemma_mpow_double_next(b2, n, e2_5, v2_5, s2_6, v2_6);
    let v2_7 = 1217399int;
    let e2_7 = lemma_mpow_double(b2, n, e2_6, v2_6, v2_7);
    let v2_8 = 1985277int;
    let e2_8 = lemma_mpow_double(b2, n, e2_7, v2_7, v2_8);
    let s2_9 = 2175933int;
    let v2_9 = 875788int;
    let e2_9 = lemma_mpow_double_next(b2, n, e2_8, v2_8, s2_9, v2_9);
    lemma_mpow_mul(g, 756nat, 553nat, n);
    assert(mpow(11int, 418068nat, 2508409int) == 875788int);
    // 11 to the power 1254204, from the power 418068 raised to the power 3
    let b3 = 875788int;
    lemma_mpow_first(b3, n);
    let s3_1 = 875787int;
    let v3_1 = 2508408int;
    let e3_1 = lemma_mpow_double_next(b3, n, 1nat, b3, s3_1, v3_1);
    lemma_mpow_mul(g, 418068nat, 3nat, n);
    assert(mpow(11int, 1254204nat, 2508409int) == 2508408int);
    // 11 to the power 836136, from the power 418068 raised to the power 2
    let b4 = 875788int;
    lemma_mpow_first(b4, n);
    let v4_1 = 875787int;
    let e4_1 = lemma_mpow_double(b4, n, 1nat, b4, v4_1);
    lemma_mpow_mul(g, 418068nat, 2nat, n);
    assert(mpow(11int, 836136nat, 2508409int) == 875787int);
    // 11 to the power 4536, from the power 756 raised to the power 6
    let b5 = 1247970int;
    lemma_mpow_first(b5, n);
    let s5_1 = 615753int;
    let v5_1 = 207896int;
    let e5_1 = lemma_mpow_double_next(b5, n, 1nat, b5, s5_1, v5_1);
    let v5_2 = 859746int;
    let e5_2 = lemma_mpow_double(b5, n, e5_1, v5_1, v5_2);
    lemma_mpow_mul(g, 756nat, 6nat, n);
    assert(mpow(11int, 4536nat, 2508409int) == 859746int);
    // 11 to the power 358344, from the power 4536 raised to the power 79
    let b6 = 859746int;
    lemma_mpow_first(b6, n);
    let v6_1 = 270850int;
    let e6_1 = lemma_mpow_double(b6, n, 1nat, b6, v6_1);
    let v6_2 = 1301295int;
    let e6_2 = lemma_mpow_double(b6, n, e6_1, v6_1, v6_2);
    let s6_3 = 1962941int;
    let v6_3 = 690285int;
    let e6_3 = lemma_mpow_double_next(b6, n, e6_2, v6_2, s6_3, v6_3);
    let s6_4 = 1024403int;
    let v6_4 = 1406057int;
    let e6_4 = lemma_mpow_double_next(b6, n, e6_3, v6_3, s6_4, v6_4);
    let s6_5 = 1259126int;
    let v6_5 = 2062365int;
    let e6_5 = lemma_mpow_double_next(b6, n, e6_4, v6_4, s6_5, v6_5);
    let s6_6 = 790101int;
    let v6_6 = 1491919int;
    let e6_6 = lemma_mpow_double_next(b6, n, e6_5, v6_5, s6_6, v6_6);
    lemma_mpow_mul(g, 4536nat, 79nat, n);
    assert(mpow(11int, 358344nat, 2508409int) == 1491919int);
    // 11 to the power 31752, from the power 4536 raised to the power 7
    let b7 = 859746int;
    lemma_mpow_first(b7, n);
    let s7_1 = 270850int;
    let v7_1 = 1579812int;
    let e7_1 = lemma_mpow_double_next(b7, n, 1nat, b7, s7_1, v7_1);
    let s7_2 = 1710569int;
    let v7_2 = 2251273int;
    let e7_2 = lemma_mpow_double_next(b7, n, e7_1, v7_1, s7_2, v7_2);
    lemma_mpow_mul(g, 4536nat, 7nat, n);
    assert(mpow(11int, 31752nat, 2508409int) == 2251273int);
    // 11 to the power 2508408, from the power 1254204 raised to the power 2
    let b8 = 2508408int;
    lemma_mpow_first(b8, n);
    let v8_1 = 1int;
    let e8_1 = lemma_mpow_double(b8, n, 1nat, b8, v8_1);
    lemma_mpow_mul(g, 1254204nat, 2nat, n);
    assert(mpow(11int, 2508408nat, 2508409int) == 1int);
    lemma_prime_2();
    lemma_prime_3();
    lemma_prime_7();
    lemma_prime_79();
    let fs0 = Seq::<int>::empty();
    lemma_witness_push(n, g, fs0, 2);
    let fs1 = fs0.push(2);
    lemma_witness_push(n, g, fs1, 2);
    let fs2 = fs1.push(2);
    lemma_witness_push(n, g, fs2, 2);
    let fs3 = fs2.push(2);
    lemma_witness_push(n, g, fs3, 3);
    let fs4 = fs3.push(3);
    lemma_witness_push(n, g, fs4, 3);
    let fs5 = fs4.push(3);
    lemma_witness_push(n, g, fs5, 3);
    let fs6 = fs5.push(3);
    lemma_witness_push(n, g, fs6, 3);
    let fs7 = fs6.push(3);
    lemma_witness_push(n, g, fs7, 7);
    let fs8 = fs7.push(7);
    lemma_witness_push(n, g, fs8, 7);
    let fs9 = fs8.push(7);
    lemma_witness_push(n, g, fs9, 79);
    let fs10 = fs9.push(79);
    lemma_witness_prime(n, g, fs10);
}

/// 2529403 is prime: 2 is a witness, with 2529402 = 2 * 3 * 23 * 18329.
pub proof fn lemma_prime_2529403()
    ensures
        is_prime(2529403),
{
    let n = 2529403int;
    let g = 2int;
    lemma_mpow_first(g, n);
    // 2 to the power 421567
    let b1 = 2int;
    lemma_mpow_first(b1, n);
    let s1_1 = 4int;
    let v1_1 = 8int;
    let e1_1 = lemma_mpow_double_next(b1, n, 1nat, b1, s1_1, v1_1);
    let v1_2 = 64int;
    let e1_2 = lemma_mpow_double(b1, n, e1_1, v1_1, v1_2);
    let v1_3 = 4096int;
    let e1_3 = lemma_mpow_double(b1, n, e1_2, v1_2, v1_3);
    let s1_4 = 1600798int;
    let v1_4 = 672193int;
    let e1_4 = lemma_mpow_double_next(b1, n, e1_3, v1_3, s1_4, v1_4);
    let s1_5 = 994941int;
    let v1_5 = 1989882int;
    let e1_5 = lemma_mpow_double_next(b1, n, e1_4, v1_4, s1_5, v1_5);
    let v1_6 = 1741604int;
    let e1_6 = lemma_mpow_double(b1, n, e1_5, v1_5, v1_6);
    let s1_7 = 297306int;
    let v1_7 = 594612int;
    let e1_7 = lemma_mpow_double_next(b1, n, e1_6, v1_6, s1_7, v1_7);
    let s1_8 = 949801int;
    let v1_8 = 1899602int;
    let e1_8 = lemma_mpow_double_next(b1, n, e1_7, v1_7, s1_8, v1_8);
    let s1_9 = 968156int;
    let v1_9 = 1936312int;
    let e1_9 = lemma_mpow_double_next(b1, n, e1_8, v1_8, s1_9, v1_9);
    let v1_10 = 447280int;
    let e1_10 = lemma_mpow_double(b1, n, e1_9, v1_9, v1_10);
    let s1_11 = 1326921int;
    let v1_11 = 124439int;
    let e1_11 = lemma_mpow_double_next(b1, n, e1_10, v1_10, s1_11, v1_11);
    let v1_12 = 59555int;
    let e1_12 = lemma_mpow_double(b1, n, e1_11, v1_11, v1_12);
    let s1_13 = 575019int;
    let v1_13 = 1150038int;
    let e1_13 = lemma_mpow_double_next(b1, n, e1_12, v1_12, s1_13, v1_13);
    let s1_14 = 513789int;
    let v1_14 = 1027578int;
    let e1_14 = lemma_mpow_double_next(b1, n, e1_13, v1_13, s1_14, v1_14);
    let s1_15 = 2087316int;
    let v1_15 = 1645229int;
    let e1_15 = lemma_mpow_double_next(b1, n, e1_14, v1_14, s1_15, v1_15);
    let s1_16 = 1077066int;
    let v1_16 = 2154132int;
    let e1_16 = lemma_mpow_double_next(b1, n, e1_15, v1_15, s1_16, v1_16);
    let s1_17 = 1282013int;
    let v1_17 = 34623int;
    let e1_17 = lemma_mpow_double_next(b1, n, e1_16, v1_16, s1_17, v1_17);
    let s1_18 = 2344510int;
    let v1_18 = 2159617int;
    let e1_18 = lemma_mpow_double_next(b1, n, e1_17, v1_17, s1_18, v1_18);
    assert(mpow(2int, 421567nat, 2529403int) == 2159617int);
    // 2 to the power 1264701, from the power 421567 raised to the power 3
    let b2 = 2159617int;
    lemma_mpow_first(b2, n);
    let s2_1 = 2159616int;
    let v2_1 = 2529402int;
    let e2_1 = lemma_mpow_double_next(b2, n, 1nat, b2, s2_1, v2_1);
    lemma_mpow_mul(g, 421567nat, 3nat, n);
    assert(mpow(2int, 1264701nat, 2529403int) == 2529402int);
    // 2 to the power 843134, from the power 421567 raised to the power 2
    let b3 = 2159617int;
    lemma_mpow_first(b3, n);
    let v3_1 = 2159616int;
    let e3_1 = lemma_mpow_double(b3, n, 1nat, b3, v3_1);
    lemma_mpow_mul(g, 421567nat, 2nat, n);
    assert(mpow(2int, 843134nat, 2529403int) == 2159616int);
    // 2 to the power 6
    let b4 = 2int;
    lemma_mpow_first(b4, n);
    let s4_1 = 4int;
    let v4_1 = 8int;
    let e4_1 = lemma_mpow_double_next(b4, n, 1nat, b4, s4_1, v4_1);
    let v4_2 = 64int;
    let e4_2 = lemma_mpow_double(b4, n, e4_1, v4_1, v4_2);
    assert(mpow(2int, 6nat, 2529403int) == 64int);
    // 2 to the power 109974, from the power 6 raised to the power 18329
    let b5 = 64int;
    lemma_mpow_first(b5, n);
    let v5_1 = 4096int;
    let e5_1 = lemma_mpow_double(b5, n, 1nat, b5, v5_1);
    let v5_2 = 1600798int;
    let e5_2 = lemma_mpow_double(b5, n, e5_1, v5_1, v5_2);
    let v5_3 = 881086int;
    let e5_3 = lemma_mpow_double(b5, n, e5_2, v5_2, v5_3);
    let s5_4 = 817651int;
    let v5_4 = 1741604int;
    let e5_4 = lemma_mpow_double_next(b5, n, e5_3, v5_3, s5_4, v5_4);
    let s5_5 = 297306int;
    let v5_5 = 1321763int;
    let e5_5 = lemma_mpow_double_next(b5, n, e5_4, v5_4, s5_5, v5_5);
    let s5_6 = 1305472int;
    let v5_6 = 79909int;
    let e5_6 = lemma_mpow_double_next(b5, n, e5_5, v5_5, s5_6, v5_6);
    let s5_7 = 1235109int;
    let v5_7 = 635483int;
    let e5_7 = lemma_mpow_double_next(b5, n, e5_6, v5_6, s5_7, v5_7);
    let v5_8 = 1748518int;
    let e5_8 = lemma_mpow_double(b5, n, e5_7, v5_7, v5_8);
    let v5_9 = 496194int;
    let e5_9 = lemma_mpow_double(b5, n, e5_8, v5_8, v5_9);
    let s5_10 = 1456422int;
    let v5_10 = 2152500int;
    let e5_10 = lemma_mpow_double_next(b5, n, e5_9, v5_9, s5_10, v5_10);
    let s5_11 = 2069526int;
    let v5_11 = 920708int;
    let e5_11 = lemma_mpow_double_next(b5, n, e5_10, v5_10, s5_11, v5_11);
    let v5_12 = 1629247int;
    let e5_12 = lemma_mpow_double(b5, n, e5_11, v5_11, v5_12);
    let v5_13 = 1749704int;
    let e5_13 = lemma_mpow_double(b5, n, e5_12, v5_12, v5_13);
    let s5_14 = 1166566int;
    let v5_14 = 1307537int;
    let e5_14 = lemma_mpow_double_next(b5, n, e5_13, v5_13, s5_14, v5_14);
    lemma_mpow_mul(g, 6nat, 18329nat, n);
    assert(mpow(2int, 109974nat, 2529403int) == 1307537int);
    // 2 to the power 138, from the power 6 raised to the power 23
    let b6 = 64int;
    lemma_mpow_first(b6, n);
    let v6_1 = 4096int;
    let e6_1 = lemma_mpow_double(b6, n, 1nat, b6, v6_1);
    let s6_2 = 1600798int;
    let v6_2 = 1274952int;
    let e6_2 = lemma_mpow_double_next(b6, n, e6_1, v6_1, s6_2, v6_2);
    let s6_3 = 1999578int;
    let v6_3 = 1502842int;
    let e6_3 = lemma_mpow_double_next(b6, n, e6_2, v6_2, s6_3, v6_3);
    let s6_4 = 2314831int;
    let v6_4 = 1443810int;
    let e6_4 = lemma_mpow_double_next(b6, n, e6_3, v6_3, s6_4, v6_4);
    lemma_mpow_mul(g, 6nat, 23nat, n);
    assert(mpow(2int, 138nat, 2529403int) == 1443810int);
    // 2 to the power 2529402, from the power 1264701 raised to the power 2
    let b7 = 2529402int;
    lemma_mpow_first(b7, n);
    let v7_1 = 1int;
    let e7_1 = lemma_mpow_double(b7, n, 1nat, b7, v7_1);
    lemma_mpow_mul(g, 1264701nat, 2nat, n);
    assert(mpow(2int, 2529402nat, 2529403int) == 1int);
    lemma_prime_2();
    lemma_prime_3();
    lemma_prime_23();
    lemma_prime_18329();
    let fs0 = Seq::<int>::empty();
    lemma_witness_push(n, g, fs0, 2);
    let fs1 = fs0.push(2);
    lemma_witness_push(n, g, fs1, 3);
    let fs2 = fs1.push(3);
    lemma_witness_push(n, g, fs2, 23);
    let fs3 = fs2.push(23);
    lemma_witness_push(n, g, fs3, 18329);
    let fs4 = fs3.push(18329);
    lemma_witness_prime(n, g, fs4);
}

/// 2653753 is prime: 5 is a witness, with 2653752 = 2^3 * 3 * 110573.
pub proof fn lemma_prime_2653753()
    ensures
        is_prime(2653753),
{
    let n = 2653753int;
    let g = 5int;
    lemma_mpow_first(g, n);
    // 5 to the power 4
    let b1 = 5int;
    lemma_mpow_first(b1, n);
    let v1_1 = 25int;
    let e1_1 = lemma_mpow_double(b1, n, 1nat, b1, v1_1);
    let v1_2 = 625int;
    let e1_2 = lemma_mpow_double(b1, n, e1_1, v1_1, v1_2);
    assert(mpow(5int, 4nat, 2653753int) == 625int);
    // 5 to the power 1326876, from the power 4 raised to the power 331719
    let b2 = 625int;
    lemma_mpow_first(b2, n);
    let v2_1 = 390625int;
    let e2_1 = lemma_mpow_double(b2, n, 1nat, b2, v2_1);
    let s2_2 = 2400631int;
    let v2_2 = 1023930int;
    let e2_2 = lemma_mpow_double_next(b2, n, e2_1, v2_1, s2_2, v2_2);
    let v2_3 = 1178425int;
    let e2_3 = lemma_mpow_double(b2, n, e2_2, v2_2, v2_3);
    let v2_4 = 419502int;
    let e2_4 = lemma_mpow_double(b2, n, e2_3, v2_3, v2_4);
    let v2_5 = 951562int;
    let e2_5 = lemma_mpow_double(b2, n, e2_4, v2_4, v2_5);
    let v2_6 = 1754985int;
    let e2_6 = lemma_mpow_double(b2, n, e2_5, v2_5, v2_6);
    let s2_7 = 80895int;
    let v2_7 = 138068int;
    let e2_7 = lemma_mpow_double_next(b2, n, e2_6, v2_6, s2_7, v2_7);
    let s2_8 = 864825int;
    let v2_8 = 1803766int;
    let e2_8 = lemma_mpow_double_next(b2, n, e2_7, v2_7, s2_8, v2_8);
    let s2_9 = 1607178int;
    let v2_9 = 1367616int;
    let e2_9 = lemma_mpow_double_next(b2, n, e2_8, v2_8, s2_9, v2_9);
    let s2_10 = 447797int;
    let v2_10 = 1229060int;
    let e2_10 = lemma_mpow_double_next(b2, n, e2_9, v2_9, s2_10, v2_10);
    let s2_11 = 624669int;
    let v2_11 = 316434int;
    let e2_11 = lemma_mpow_double_next(b2, n, e2_10, v2_10, s2_11, v2_11);
    let s2_12 = 1721913int;
    let v2_12 = 1425660int;
    let e2_12 = lemma_mpow_double_next(b2, n, e2_11, v2_11, s2_12, v2_12);
    let v2_13 = 2320406int;
    let e2_13 = lemma_mpow_double(b2, n, e2_12, v2_12, v2_13);
    let v2_14 = 2276793int;
    let e2_14 = lemma_mpow_double(b2, n, e2_13, v2_13, v2_14);
    let v2_15 = 983462int;
    let e2_15 = lemma_mpow_double(b2, n, e2_14, v2_14, v2_15);
    let s2_16 = 72052int;
    let v2_16 = 2572452int;
    let e2_16 = lemma_mpow_double_next(b2, n, e2_15, v2_15, s2_16, v2_16);
    let s2_17 = 2007631int;
    let v2_17 = 2197959int;
    let e2_17 = lemma_mpow_double_next(b2, n, e2_16, v2_16, s2_17, v2_17);
    let s2_18 = 1770584int;
    let v2_18 = 2653752int;
    let e2_18 = lemma_mpow_double_next(b2, n, e2_17, v2_17, s2_18, v2_18);
    lemma_mpow_mul(g, 4nat, 331719nat, n);
    assert(mpow(5int, 1326876nat, 2653753int) == 2653752int);
    // 5 to the power 8, from the power 4 raised to the power 2
    let b3 = 625int;
    lemma_mpow_first(b3, n);
    let v3_1 = 390625int;
    let e3_1 = lemma_mpow_double(b3, n, 1nat, b3, v3_1);
    lemma_mpow_mul(g, 4nat, 2nat, n);
    assert(mpow(5int, 8nat, 2653753int) == 390625int);
    // 5 to the power 884584, from the power 8 raised to the power 110573
    let b4 = 390625int;
    lemma_mpow_first(b4, n);
    let s4_1 = 2400631int;
    let v4_1 = 401777int;
    let e4_1 = lemma_mpow_double_next(b4, n, 1nat, b4, s4_1, v4_1);
    let v4_2 = 2270245int;
    let e4_2 = lemma_mpow_double(b4, n, e4_1, v4_1, v4_2);
    let s4_3 = 2087298int;
    let v4_3 = 1094518int;
    let e4_3 = lemma_mpow_double_next(b4, n, e4_2, v4_2, s4_3, v4_3);
    let v4_4 = 1858052int;
    let e4_4 = lemma_mpow_double(b4, n, e4_3, v4_3, v4_4);
    let s4_5 = 2383155int;
    let v4_5 = 1945746int;
    let e4_5 = lemma_mpow_double_next(b4, n, e4_4, v4_4, s4_5, v4_5);
    let s4_6 = 1200373int;
    let v4_6 = 1431802int;
    let e4_6 = lemma_mpow_double_next(b4, n, e4_5, v4_5, s4_6, v4_6);
    let s4_7 = 929668int;
    let v4_7 = 1386968int;
    let e4_7 = lemma_mpow_double_next(b4, n, e4_6, v4_6, s4_7, v4_7);
    let s4_8 = 1220854int;
    let v4_8 = 757132int;
    let e4_8 = lemma_mpow_double_next(b4, n, e4_7, v4_7, s4_8, v4_8);
    let s4_9 = 1064882int;
    let v4_9 = 1709759int;
    let e4_9 = lemma_mpow_double_next(b4, n, e4_8, v4_8, s4_9, v4_9);
    let s4_10 = 2375895int;
    let v4_10 = 216450int;
    let e4_10 = lemma_mpow_double_next(b4, n, e4_9, v4_9, s4_10, v4_10);
    let s4_11 = 1247038int;
    let v4_11 = 1318070int;
    let e4_11 = lemma_mpow_double_next(b4, n, e4_10, v4_10, s4_11, v4_11);
    let v4_12 = 2585920int;
    let e4_12 = lemma_mpow_double(b4, n, e4_11, v4_11, v4_12);
    let s4_13 = 2361940int;
    let v4_13 = 2506990int;
    let e4_13 = lemma_mpow_double_next(b4, n, e4_12, v4_12, s4_13, v4_13);
    let s4_14 = 1518821int;
    let v4_14 = 509927int;
    let e4_14 = lemma_mpow_double_next(b4, n, e4_13, v4_13, s4_14, v4_14);
    let v4_15 = 211377int;
    let e4_15 = lemma_mpow_double(b4, n, e4_14, v4_14, v4_15);
    let s4_16 = 1650621int;
    let v4_16 = 2076727int;
    let e4_16 = lemma_mpow_double_next(b4, n, e4_15, v4_15, s4_16, v4_16);
    lemma_mpow_mul(g, 8nat, 110573nat, n);
    assert(mpow(5int, 884584nat, 2653753int) == 2076727int);
    // 5 to the power 24, from the power 8 raised to the power 3
    let b5 = 390625int;
    lemma_mpow_first(b5, n);
    let s5_1 = 2400631int;
    let v5_1 = 401777int;
    let e5_1 = lemma_mpow_double_next(b5, n, 1nat, b5, s5_1, v5_1);
    lemma_mpow_mul(g, 8nat, 3nat, n);
    assert(mpow(5int, 24nat, 2653753int) == 401777int);
    // 5 to the power 2653752, from the power 1326876 raised to the power 2
    let b6 = 2653752int;
    lemma_mpow_first(b6, n);
    let v6_1 = 1int;
    let e6_1 = lemma_mpow_double(b6, n, 1nat, b6, v6_1);
    lemma_mpow_mul(g, 1326876nat, 2nat, n);
    assert(mpow(5int, 2653752nat, 2653753int) == 1int);
    lemma_prime_2();
    lemma_prime_3();
    lemma_prime_110573();
    let fs0 = Seq::<int>::empty();
    lemma_witness_push(n, g, fs0, 2);
    let fs1 = fs0.push(2);
    lemma_witness_push(n, g, fs1, 2);
    let fs2 = fs1.push(2);
    lemma_witness_push(n, g, fs2, 2);
    let fs3 = fs2.push(2);
    lemma_witness_push(n, g, fs3, 3);
    let fs4 = fs3.push(3);
    lemma_witness_push(n, g, fs4, 110573);
    let fs5 = fs4.push(110573);
    lemma_witness_prime(n, g, fs5);
}

/// 52437899 is prime: 2 is a witness, with 52437898 = 2 * 43 * 609743.
pub proof fn lemma_prime_52437899()
    ensures
        is_prime(52437899),
{
    let n = 52437899int;
    let g = 2int;
    lemma_mpow_first(g, n);
    // 2 to the power 26218949
    let b1 = 2int;
    lemma_mpow_first(b1, n);
    let s1_1 = 4int;
    let v1_1 = 8int;
    let e1_1 = lemma_mpow_double_next(b1, n, 1nat, b1, s1_1, v1_1);
    let v1_2 = 64int;
    let e1_2 = lemma_mpow_double(b1, n, e1_1, v1_1, v1_2);
    let v1_3 = 4096int;
    let e1_3 = lemma_mpow_double(b1, n, e1_2, v1_2, v1_3);
    let s1_4 = 16777216int;
    let v1_4 = 33554432int;
    let e1_4 = lemma_mpow_double_next(b1, n, e1_3, v1_3, s1_4, v1_4);
    let v1_5 = 9244734int;
    let e1_5 = lemma_mpow_double(b1, n, e1_4, v1_4, v1_5);
    let v1_6 = 36051990int;
    let e1_6 = lemma_mpow_double(b1, n, e1_5, v1_5, v1_6);
    let v1_7 = 29754985int;
    let e1_7 = lemma_mpow_double(b1, n, e1_6, v1_6, v1_7);
    let v1_8 = 5339680int;
    let e1_8 = lemma_mpow_double(b1, n, e1_7, v1_7, v1_8);
    let v1_9 = 18803332int;
    let e1_9 = lemma_mpow_double(b1, n, e1_8, v1_8, v1_9);
    let v1_10 = 33523976int;
    let e1_10 = lemma_mpow_double(b1, n, e1_9, v1_9, v1_10);
    let v1_11 = 49795726int;
    let e1_11 = lemma_mpow_double(b1, n, e1_10, v1_10, v1_11);
    let s1_12 = 20668059int;
    let v1_12 = 41336118int;
    let e1_12 = lemma_mpow_double_next(b1, n, e1_11, v1_11, s1_12, v1_12);
    let v1_13 = 27941351int;
    let e1_13 = lemma_mpow_double(b1, n, e1_12, v1_12, v1_13);
    let v1_14 = 5900752int;
    let e1_14 = lemma_mpow_double(b1, n, e1_13, v1_13, v1_14);
    let v1_15 = 4353706int;
    let e1_15 = lemma_mpow_double(b1, n, e1_14, v1_14, v1_15);
    let s1_16 = 28582906int;
    let v1_16 = 4727913int;
    let e1_16 = lemma_mpow_double_next(b1, n, e1_15, v1_15, s1_16, v1_16);
    let s1_17 = 38625647int;
    let v1_17 = 24813395int;
    let e1_17 = lemma_mpow_double_next(b1, n, e1_16, v1_16, s1_17, v1_17);
    let s1_18 = 51155019int;
    let v1_18 = 49872139int;
    let e1_18 = lemma_mpow_double_next(b1, n, e1_17, v1_17, s1_18, v1_18);
    let v1_19 = 18099241int;
    let e1_19 = lemma_mpow_double(b1, n, e1_18, v1_18, v1_19);
    let v1_20 = 33200737int;
    let e1_20 = lemma_mpow_double(b1, n, e1_19, v1_19, v1_20);
    let v1_21 = 42776413int;
    let e1_21 = lemma_mpow_double(b1, n, e1_20, v1_20, v1_21);
    let s1_22 = 27221488int;
    let v1_22 = 2005077int;
    let e1_22 = lemma_mpow_double_next(b1, n, e1_21, v1_21, s1_22, v1_22);
    let v1_23 = 24935397int;
    let e1_23 = lemma_mpow_double(b1, n, e1_22, v1_22, v1_23);
    let s1_24 = 26218949int;
    let v1_24 = 52437898int;
    let e1_24 = lemma_mpow_double_next(b1, n, e1_23, v1_23, s1_24, v1_24);
    assert(mpow(2int, 26218949nat, 52437899int) == 52437898int);
    // 2 to the power 2
    let b2 = 2int;
    lemma_mpow_first(b2, n);
    let v2_1 = 4int;
    let e2_1 = lemma_mpow_double(b2, n, 1nat, b2, v2_1);
    assert(mpow(2int, 2nat, 52437899int) == 4int);
    // 2 to the power 1219486, from the power 2 raised to the power 609743
    let b3 = 4int;
    lemma_mpow_first(b3, n);
    let v3_1 = 16int;
    let e3_1 = lemma_mpow_double(b3, n, 1nat, b3, v3_1);
    let v3_2 = 256int;
    let e3_2 = lemma_mpow_double(b3, n, e3_1, v3_1, v3_2);
    let s3_3 = 65536int;
    let v3_3 = 262144int;
    let e3_3 = lemma_mpow_double_next(b3, n, e3_2, v3_2, s3_3, v3_3);
    let v3_4 = 25829046int;
    let e3_4 = lemma_mpow_double(b3, n, e3_3, v3_3, v3_4);
    let s3_5 = 20379586int;
    let v3_5 = 29080445int;
    let e3_5 = lemma_mpow_double_next(b3, n, e3_4, v3_4, s3_5, v3_5);
    let v3_6 = 44115044int;
    let e3_6 = lemma_mpow_double(b3, n, e3_5, v3_5, v3_6);
    let v3_7 = 27588914int;
    let e3_7 = lemma_mpow_double(b3, n, e3_6, v3_6, v3_7);
    let s3_8 = 10997626int;
    let v3_8 = 43990504int;
    let e3_8 = lemma_mpow_double_next(b3, n, e3_7, v3_7, s3_8, v3_8);
    let s3_9 = 45444643int;
    let v3_9 = 24464875int;
    let e3_9 = lemma_mpow_double_next(b3, n, e3_8, v3_8, s3_9, v3_9);
    let v3_10 = 49175099int;
    let e3_10 = lemma_mpow_double(b3, n, e3_9, v3_9, v3_10);
    let s3_11 = 26460818int;
    let v3_11 = 967474int;
    let e3_11 = lemma_mpow_double_next(b3, n, e3_10, v3_10, s3_11, v3_11);
    let s3_12 = 41881425int;
    let v3_12 = 10212003int;
    let e3_12 = lemma_mpow_double_next(b3, n, e3_11, v3_11, s3_12, v3_12);
    let s3_13 = 25080042int;
    let v3_13 = 47882269int;
    let e3_13 = lemma_mpow_double_next(b3, n, e3_12, v3_12, s3_13, v3_13);
    let v3_14 = 50344377int;
    let e3_14 = lemma_mpow_double(b3, n, e3_13, v3_13, v3_14);
    let v3_15 = 22328165int;
    let e3_15 = lemma_mpow_double(b3, n, e3_14, v3_14, v3_15);
    let s3_16 = 24948403int;
    let v3_16 = 47355713int;
    let e3_16 = lemma_mpow_double_next(b3, n, e3_15, v3_15, s3_16, v3_16);
    let s3_17 = 12758752int;
    let v3_17 = 51035008int;
    let e3_17 = lemma_mpow_double_next(b3, n, e3_16, v3_16, s3_17, v3_17);
    let s3_18 = 3932613int;
    let v3_18 = 15730452int;
    let e3_18 = lemma_mpow_double_next(b3, n, e3_17, v3_17, s3_18, v3_18);
    let s3_19 = 16049164int;
    let v3_19 = 11758757int;
    let e3_19 = lemma_mpow_double_next(b3, n, e3_18, v3_18, s3_19, v3_19);
    lemma_mpow_mul(g, 2nat, 609743nat, n);
    assert(mpow(2int, 1219486nat, 52437899int) == 11758757int);
    // 2 to the power 86, from the power 2 raised to the power 43
    let b4 = 4int;
    lemma_mpow_first(b4, n);
    let v4_1 = 16int;
    let e4_1 = lemma_mpow_double(b4, n, 1nat, b4, v4_1);
    let s4_2 = 256int;
    let v4_2 = 1024int;
    let e4_2 = lemma_mpow_double_next(b4, n, e4_1, v4_1, s4_2, v4_2);
    let v4_3 = 1048576int;
    let e4_3 = lemma_mpow_double(b4, n, e4_2, v4_2, v4_3);
    let s4_4 = 46199443int;
    let v4_4 = 27484075int;
    let e4_4 = lemma_mpow_double_next(b4, n, e4_3, v4_3, s4_4, v4_4);
    let s4_5 = 46086947int;
    let v4_5 = 27034091int;
    let e4_5 = lemma_mpow_double_next(b4, n, e4_4, v4_4, s4_5, v4_5);
    lemma_mpow_mul(g, 2nat, 43nat, n);
    assert(mpow(2int, 86nat, 52437899int) == 27034091int);
    // 2 to the power 52437898, from the power 26218949 raised to the power 2
    let b5 = 52437898int;
    lemma_mpow_first(b5, n);
    let v5_1 = 1int;
    let e5_1 = lemma_mpow_double(b5, n, 1nat, b5, v5_1);
    lemma_mpow_mul(g, 26218949nat, 2nat, n);
    assert(mpow(2int, 52437898nat, 52437899int) == 1int);
    lemma_prime_2();
    lemma_prime_43();
    lemma_prime_609743();
    let fs0 = Seq::<int>::empty();
    lemma_witness_push(n, g, fs0, 2);
    let fs1 = fs0.push(2);
    lemma_witness_push(n, g, fs1, 43);
    let fs2 = fs1.push(43);
    lemma_witness_push(n, g, fs2, 609743);
    let fs3 = fs2.push(609743);
    lemma_witness_prime(n, g, fs3);
}

/// 63690073 is prime: 7 is a witness, with 63690072 = 2^3 * 3 * 2653753.
pub proof fn lemma_prime_63690073()
    ensures
        is_prime(63690073),
{
    let n = 63690073int;
    let g = 7int;
    lemma_mpow_first(g, n);
    // 7 to the power 4
    let b1 = 7int;
    lemma_mpow_first(b1, n);
    let v1_1 = 49int;
    let e1_1 = lemma_mpow_double(b1, n, 1nat, b1, v1_1);
    let v1_2 = 2401int;
    let e1_2 = lemma_mpow_double(b1, n, e1_1, v1_1, v1_2);
    assert(mpow(7int, 4nat, 63690073int) == 2401int);
    // 7 to the power 31845036, from the power 4 raised to the power 7961259
    let b2 = 2401int;
    lemma_mpow_first(b2, n);
    let s2_1 = 5764801int;
    let v2_1 = 20541360int;
    let e2_1 = lemma_mpow_double_next(b2, n, 1nat, b2, s2_1, v2_1);
    let s2_2 = 36433797int;
    let v2_2 = 31076368int;
    let e2_2 = lemma_mpow_double_next(b2, n, e2_1, v2_1, s2_2, v2_2);
    let s2_3 = 46223226int;
    let v2_3 = 33858460int;
    let e2_3 = lemma_mpow_double_next(b2, n, e2_2, v2_2, s2_3, v2_3);
    let v2_4 = 48811457int;
    let e2_4 = lemma_mpow_double(b2, n, e2_3, v2_3, v2_4);
    let v2_5 = 22622932int;
    let e2_5 = lemma_mpow_double(b2, n, e2_4, v2_4, v2_5);
    let s2_6 = 57687458int;
    let v2_6 = 45367956int;
    let e2_6 = lemma_mpow_double_next(b2, n, e2_5, v2_5, s2_6, v2_6);
    let v2_7 = 41750661int;
    let e2_7 = lemma_mpow_double(b2, n, e2_6, v2_6, v2_7);
    let s2_8 = 8518171int;
    let v2_8 = 7615138int;
    let e2_8 = lemma_mpow_double_next(b2, n, e2_7, v2_7, s2_8, v2_8);
    let s2_9 = 5771960int;
    let v2_9 = 37730119int;
    let e2_9 = lemma_mpow_double_next(b2, n, e2_8, v2_8, s2_9, v2_9);
    let s2_10 = 27932472int;
    let v2_10 = 218403int;
    let e2_10 = lemma_mpow_double_next(b2, n, e2_9, v2_9, s2_10, v2_10);
    let s2_11 = 59695805int;
    let v2_11 = 26963555int;
    let e2_11 = lemma_mpow_double_next(b2, n, e2_10, v2_10, s2_11, v2_11);
    let v2_12 = 32870323int;
    let e2_12 = lemma_mpow_double(b2, n, e2_11, v2_11, v2_12);
    let s2_13 = 55519772int;
    let v2_13 = 63339856int;
    let e2_13 = lemma_mpow_double_next(b2, n, e2_12, v2_12, s2_13, v2_13);
    let v2_14 = 48556564int;
    let e2_14 = lemma_mpow_double(b2, n, e2_13, v2_13, v2_14);
    let s2_15 = 24842454int;
    let v2_15 = 32823726int;
    let e2_15 = lemma_mpow_double_next(b2, n, e2_14, v2_14, s2_15, v2_15);
    let v2_16 = 45897118int;
    let e2_16 = lemma_mpow_double(b2, n, e2_15, v2_15, v2_16);
    let s2_17 = 33945231int;
    let v2_17 = 42896264int;
    let e2_17 = lemma_mpow_double_next(b2, n, e2_16, v2_16, s2_17, v2_17);
    let v2_18 = 13262285int;
    let e2_18 = lemma_mpow_double(b2, n, e2_17, v2_17, v2_18);
    let s2_19 = 41882527int;
    let v2_19 = 57012133int;
    let e2_19 = lemma_mpow_double_next(b2, n, e2_18, v2_18, s2_19, v2_19);
    let v2_20 = 48880095int;
    let e2_20 = lemma_mpow_double(b2, n, e2_19, v2_19, v2_20);
    let s2_21 = 20793595int;
    let v2_21 = 56094436int;
    let e2_21 = lemma_mpow_double_next(b2, n, e2_20, v2_20, s2_21, v2_21);
    let s2_22 = 48808719int;
    let v2_22 = 63690072int;
    let e2_22 = lemma_mpow_double_next(b2, n, e2_21, v2_21, s2_22, v2_22);
    lemma_mpow_mul(g, 4nat, 7961259nat, n);
    assert(mpow(7int, 31845036nat, 63690073int) == 63690072int);
    // 7 to the power 8, from the power 4 raised to the power 2
    let b3 = 2401int;
    lemma_mpow_first(b3, n);
    let v3_1 = 5764801int;
    let e3_1 = lemma_mpow_double(b3, n, 1nat, b3, v3_1);
    lemma_mpow_mul(g, 4nat, 2nat, n);
    assert(mpow(7int, 8nat, 63690073int) == 5764801int);
    // 7 to the power 21230024, from the power 8 raised to the power 2653753
    let b4 = 5764801int;
    lemma_mpow_first(b4, n);
    let v4_1 = 23688858int;
    let e4_1 = lemma_mpow_double(b4, n, 1nat, b4, v4_1);
    let s4_2 = 33284085int;
    let v4_2 = 36998416int;
    let e4_2 = lemma_mpow_double_next(b4, n, e4_1, v4_1, s4_2, v4_2);
    let v4_3 = 8779181int;
    let e4_3 = lemma_mpow_double(b4, n, e4_2, v4_2, v4_3);
    let v4_4 = 50400468int;
    let e4_4 = lemma_mpow_double(b4, n, e4_3, v4_3, v4_4);
    let v4_5 = 9585857int;
    let e4_5 = lemma_mpow_double(b4, n, e4_4, v4_4, v4_5);
    let v4_6 = 56363991int;
    let e4_6 = lemma_mpow_double(b4, n, e4_5, v4_5, v4_6);
    let s4_7 = 44023843int;
    let v4_7 = 57903931int;
    let e4_7 = lemma_mpow_double_next(b4, n, e4_6, v4_6, s4_7, v4_7);
    let s4_8 = 51780911int;
    let v4_8 = 902712int;
    let e4_8 = lemma_mpow_double_next(b4, n, e4_7, v4_7, s4_8, v4_8);
    let s4_9 = 38160982int;
    let v4_9 = 50916961int;
    let e4_9 = lemma_mpow_double_next(b4, n, e4_8, v4_8, s4_9, v4_9);
    let s4_10 = 14073291int;
    let v4_10 = 33241231int;
    let e4_10 = lemma_mpow_double_next(b4, n, e4_9, v4_9, s4_10, v4_10);
    let s4_11 = 44785074int;
    let v4_11 = 29724116int;
    let e4_11 = lemma_mpow_double_next(b4, n, e4_10, v4_10, s4_11, v4_11);
    let s4_12 = 49059031int;
    let v4_12 = 36571623int;
    let e4_12 = lemma_mpow_double_next(b4, n, e4_11, v4_11, s4_12, v4_12);
    let v4_13 = 37113254int;
    let e4_13 = lemma_mpow_double(b4, n, e4_12, v4_12, v4_13);
    let v4_14 = 3973724int;
    let e4_14 = lemma_mpow_double(b4, n, e4_13, v4_13, v4_14);
    let v4_15 = 57389578int;
    let e4_15 = lemma_mpow_double(b4, n, e4_14, v4_14, v4_15);
    let s4_16 = 61756242int;
    let v4_16 = 32115143int;
    let e4_16 = lemma_mpow_double_next(b4, n, e4_15, v4_15, s4_16, v4_16);
    let s4_17 = 16465239int;
    let v4_17 = 45588860int;
    let e4_17 = lemma_mpow_double_next(b4, n, e4_16, v4_16, s4_17, v4_17);
    let s4_18 = 13072504int;
    let v4_18 = 60605549int;
    let e4_18 = lemma_mpow_double_next(b4, n, e4_17, v4_17, s4_18, v4_18);
    let v4_19 = 10441544int;
    let e4_19 = lemma_mpow_double(b4, n, e4_18, v4_18, v4_19);
    let v4_20 = 27721222int;
    let e4_20 = lemma_mpow_double(b4, n, e4_19, v4_19, v4_20);
    let s4_21 = 7406235int;
    let v4_21 = 2527736int;
    let e4_21 = lemma_mpow_double_next(b4, n, e4_20, v4_20, s4_21, v4_21);
    lemma_mpow_mul(g, 8nat, 2653753nat, n);
    assert(mpow(7int, 21230024nat, 63690073int) == 2527736int);
    // 7 to the power 24, from the power 8 raised to the power 3
    let b5 = 5764801int;
    lemma_mpow_first(b5, n);
    let s5_1 = 23688858int;
    let v5_1 = 36433797int;
    let e5_1 = lemma_mpow_double_next(b5, n, 1nat, b5, s5_1, v5_1);
    lemma_mpow_mul(g, 8nat, 3nat, n);
    assert(mpow(7int, 24nat, 63690073int) == 36433797int);
    // 7 to the power 63690072, from the power 31845036 raised to the power 2
    let b6 = 63690072int;
    lemma_mpow_first(b6, n);
    let v6_1 = 1int;
    let e6_1 = lemma_mpow_double(b6, n, 1nat, b6, v6_1);
    lemma_mpow_mul(g, 31845036nat, 2nat, n);
    assert(mpow(7int, 63690072nat, 63690073int) == 1int);
    lemma_prime_2();
    lemma_prime_3();
    lemma_prime_2653753();
    let fs0 = Seq::<int>::empty();
    lemma_witness_push(n, g, fs0, 2);
    let fs1 = fs0.push(2);
    lemma_witness_push(n, g, fs1, 2);
    let fs2 = fs1.push(2);
    lemma_witness_push(n, g, fs2, 2);
    let fs3 = fs2.push(2);
    lemma_witness_push(n, g, fs3, 3);
    let fs4 = fs3.push(3);
    lemma_witness_push(n, g, fs4, 2653753);
    let fs5 = fs4.push(2653753);
    lemma_witness_prime(n, g, fs5);
}

/// 254760293 is prime: 2 is a witness, with 254760292 = 2^2 * 63690073.
pub proof fn lemma_prime_254760293()
    ensures
        is_prime(254760293),
{
    let n = 254760293int;
    let g = 2int;
    lemma_mpow_first(g, n);
    // 2 to the power 2
    let b1 = 2int;
    lemma_mpow_first(b1, n);
    let v1_1 = 4int;
    let e1_1 = lemma_mpow_double(b1, n, 1nat, b1, v1_1);
    assert(mpow(2int, 2nat, 254760293int) == 4int);
    // 2 to the power 127380146, from the power 2 raised to the power 63690073
    let b2 = 4int;
    lemma_mpow_first(b2, n);
    let s2_1 = 16int;
    let v2_1 = 64int;
    let e2_1 = lemma_mpow_double_next(b2, n, 1nat, b2, s2_1, v2_1);
    let s2_2 = 4096int;
    let v2_2 = 16384int;
    let e2_2 = lemma_mpow_double_next(b2, n, e2_1, v2_1, s2_2, v2_2);
    let s2_3 = 13675163int;
    let v2_3 = 54700652int;
    let e2_3 = lemma_mpow_double_next(b2, n, e2_2, v2_2, s2_3, v2_3);
    let v2_4 = 159378346int;
    let e2_4 = lemma_mpow_double(b2, n, e2_3, v2_3, v2_4);
    let v2_5 = 32861211int;
    let e2_5 = lemma_mpow_double(b2, n, e2_4, v2_4, v2_5);
    let s2_6 = 110679803int;
    let v2_6 = 187958919int;
    let e2_6 = lemma_mpow_double_next(b2, n, e2_5, v2_5, s2_6, v2_6);
    let v2_7 = 240651531int;
    let e2_7 = lemma_mpow_double(b2, n, e2_6, v2_6, v2_7);
    let s2_8 = 210237094int;
    let v2_8 = 76667497int;
    let e2_8 = lemma_mpow_double_next(b2, n, e2_7, v2_7, s2_8, v2_8);
    let s2_9 = 207102281int;
    let v2_9 = 64128245int;
    let e2_9 = lemma_mpow_double_next(b2, n, e2_8, v2_8, s2_9, v2_9);
    let s2_10 = 207749424int;
    let v2_10 = 66716817int;
    let e2_10 = lemma_mpow_double_next(b2, n, e2_9, v2_9, s2_10, v2_10);
    let s2_11 = 45359439int;
    let v2_11 = 181437756int;
    let e2_11 = lemma_mpow_double_next(b2, n, e2_10, v2_10, s2_11, v2_11);
    let v2_12 = 197431433int;
    let e2_12 = lemma_mpow_double(b2, n, e2_11, v2_11, v2_12);
    let s2_13 = 103260729int;
    let v2_13 = 158282623int;
    let e2_13 = lemma_mpow_double_next(b2, n, e2_12, v2_12, s2_13, v2_13);
    let v2_14 = 146079511int;
    let e2_14 = lemma_mpow_double(b2, n, e2_13, v2_13, v2_14);
    let s2_15 = 24062497int;
    let v2_15 = 96249988int;
    let e2_15 = lemma_mpow_double_next(b2, n, e2_14, v2_14, s2_15, v2_15);
    let v2_16 = 204597954int;
    let e2_16 = lemma_mpow_double(b2, n, e2_15, v2_15, v2_16);
    let s2_17 = 228038418int;
    let v2_17 = 147872793int;
    let e2_17 = lemma_mpow_double_next(b2, n, e2_16, v2_16, s2_17, v2_17);
    let v2_18 = 101340931int;
    let e2_18 = lemma_mpow_double(b2, n, e2_17, v2_17, v2_18);
    let s2_19 = 236510555int;
    let v2_19 = 181761341int;
    let e2_19 = lemma_mpow_double_next(b2, n, e2_18, v2_18, s2_19, v2_19);
    let v2_20 = 213627711int;
    let e2_20 = lemma_mpow_double(b2, n, e2_19, v2_19, v2_20);
    let s2_21 = 210623838int;
    let v2_21 = 78214473int;
    let e2_21 = lemma_mpow_double_next(b2, n, e2_20, v2_20, s2_21, v2_21);
    let s2_22 = 153842310int;
    let v2_22 = 105848654int;
    let e2_22 = lemma_mpow_double_next(b2, n, e2_21, v2_21, s2_22, v2_22);
    let v2_23 = 221955166int;
    let e2_23 = lemma_mpow_double(b2, n, e2_22, v2_22, v2_23);
    let v2_24 = 94575019int;
    let e2_24 = lemma_mpow_double(b2, n, e2_23, v2_23, v2_24);
    let s2_25 = 63690073int;
    let v2_25 = 254760292int;
    let e2_25 = lemma_mpow_double_next(b2, n, e2_24, v2_24, s2_25, v2_25);
    lemma_mpow_mul(g, 2nat, 63690073nat, n);
    assert(mpow(2int, 127380146nat, 254760293int) == 254760292int);
    // 2 to the power 4, from the power 2 raised to the power 2
    let b3 = 4int;
    lemma_mpow_first(b3, n);
    let v3_1 = 16int;
    let e3_1 = lemma_mpow_double(b3, n, 1nat, b3, v3_1);
    lemma_mpow_mul(g, 2nat, 2nat, n);
    assert(mpow(2int, 4nat, 254760293int) == 16int);
    // 2 to the power 254760292, from the power 127380146 raised to the power 2
    let b4 = 254760292int;
    lemma_mpow_first(b4, n);
    let v4_1 = 1int;
    let e4_1 = lemma_mpow_double(b4, n, 1nat, b4, v4_1);
    lemma_mpow_mul(g, 127380146nat, 2nat, n);
    assert(mpow(2int, 254760292nat, 254760293int) == 1int);
    lemma_prime_2();
    lemma_prime_63690073();
    let fs0 = Seq::<int>::empty();
    lemma_witness_push(n, g, fs0, 2);
    let fs1 = fs0.push(2);
    lemma_witness_push(n, g, fs1, 2);
    let fs2 = fs1.push(2);
    lemma_witness_push(n, g, fs2, 63690073);
    let fs3 = fs2.push(63690073);
    lemma_witness_prime(n, g, fs3);
}

} // verus!
