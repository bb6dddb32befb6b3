use curv_kzen::elliptic::curves::traits::ECPoint;
use curv_kzen::elliptic::curves::traits::ECScalar;
use curv_kzen::BigInt;
use proactive_refresh::bls::BLSSignature;
use proactive_refresh::bls::FE2;
use proactive_refresh::bls::GE1;
use proactive_refresh::bls::GE2;
use proactive_refresh::lagrange::lagrange_interpolate_f0;
use proactive_refresh::pr::ProactiveRefresh;
use proactive_refresh::threshold::ThresholdError;
use proactive_refresh::threshold::ThresholdKeyPairs;

fn committee(n: usize, t: usize) -> ThresholdKeyPairs {
    match ThresholdKeyPairs::new(n, t) {
        Ok(c) => c,
        Err(e) => panic!("no committee: {:?}", e),
    }
}

fn refreshing(n: usize, t: usize) -> ProactiveRefresh {
    match ProactiveRefresh::new(n, t) {
        Ok(c) => c,
        Err(e) => panic!("no committee: {:?}", e),
    }
}

fn zero() -> FE2 {
    ECScalar::from(&BigInt::from(0u64))
}

#[test]
fn committee_has_its_size_and_threshold() {
    let c = committee(5, 2);
    assert_eq!(c.size(), 5);
    assert_eq!(c.threshold(), 2);
}

#[test]
fn zero_threshold_is_a_configuration_error() {
    assert_eq!(ThresholdKeyPairs::new(5, 0).err(), Some(ThresholdError::Configuration));
    assert_eq!(ThresholdKeyPairs::new(0, 0).err(), Some(ThresholdError::Configuration));
    assert_eq!(ProactiveRefresh::new(5, 0).err(), Some(ThresholdError::Configuration));
}

#[test]
fn threshold_above_size_is_a_configuration_error() {
    assert_eq!(ThresholdKeyPairs::new(5, 6).err(), Some(ThresholdError::Configuration));
    assert_eq!(ThresholdKeyPairs::new(0, 1).err(), Some(ThresholdError::Configuration));
    assert_eq!(ProactiveRefresh::new(2, 3).err(), Some(ThresholdError::Configuration));
}

#[test]
fn threshold_may_equal_size() {
    let c = committee(3, 3);
    let all = c.collective_public(&vec![1, 2, 3]);
    assert!(all.is_ok());
    assert_eq!(c.collective_public(&vec![1, 2]).err(), Some(ThresholdError::Threshold));
}

#[test]
fn every_key_pair_is_consistent() {
    let c = committee(5, 3);
    let pairs = c.get_quorum_keys(&vec![1, 2, 3, 4, 5]).unwrap();
    assert_eq!(pairs.len(), 5);
    for kp in pairs.iter() {
        assert_eq!(kp.pub_key(), GE2::generator() * kp.priv_key());
    }
}

#[test]
fn quorum_keys_come_in_the_order_asked() {
    let c = committee(5, 2);
    let all = c.get_quorum_keys(&vec![1, 2, 3, 4, 5]).unwrap();
    let some = c.get_quorum_keys(&vec![4, 1, 4]).unwrap();
    assert_eq!(some.len(), 3);
    assert_eq!(some[0].priv_key(), all[3].priv_key());
    assert_eq!(some[1].priv_key(), all[0].priv_key());
    assert_eq!(some[2].pub_key(), all[3].pub_key());
}

#[test]
fn quorum_keys_below_the_threshold_are_given() {
    let c = committee(5, 3);
    assert_eq!(c.get_quorum_keys(&vec![2]).unwrap().len(), 1);
    assert_eq!(c.get_quorum_keys(&Vec::new()).unwrap().len(), 0);
}

#[test]
fn quorum_keys_reject_an_index_outside_the_committee() {
    let c = committee(5, 2);
    assert_eq!(c.get_quorum_keys(&vec![0]).err(), Some(ThresholdError::Index));
    assert_eq!(c.get_quorum_keys(&vec![1, 6]).err(), Some(ThresholdError::Index));
    assert_eq!(c.get_quorum_keys(&vec![usize::MAX]).err(), Some(ThresholdError::Index));
}

#[test]
fn shares_lie_on_one_polynomial() {
    // with threshold 2 the shares lie on a line: s_1 + s_3 == 2 s_2
    let c = committee(3, 2);
    let pairs = c.get_quorum_keys(&vec![1, 2, 3]).unwrap();
    let twice = pairs[1].priv_key() + pairs[1].priv_key();
    assert_eq!(pairs[0].priv_key() + pairs[2].priv_key(), twice);
}

#[test]
fn any_two_quorums_give_one_collective_key() {
    let c = committee(5, 3);
    let first = c.collective_public(&vec![1, 2, 3]).unwrap();
    assert_eq!(c.collective_public(&vec![5, 3, 1]).unwrap(), first);
    assert_eq!(c.collective_public(&vec![2, 4, 5, 1]).unwrap(), first);
    assert_eq!(c.collective_public(&vec![1, 2, 3, 4, 5]).unwrap(), first);
}

#[test]
fn collective_key_is_the_generator_times_the_secret() {
    let c = committee(5, 3);
    let secret = c.collective_private(&vec![2, 3, 5]).unwrap();
    assert_eq!(c.collective_private(&vec![4, 1, 3, 2]).unwrap(), secret);
    assert_eq!(c.collective_public(&vec![1, 4, 5]).unwrap(), GE2::generator() * secret);
}

#[test]
fn committee_of_one() {
    let c = committee(1, 1);
    let pair = c.get_quorum_keys(&vec![1]).unwrap()[0];
    assert_eq!(c.collective_private(&vec![1]).unwrap(), pair.priv_key());
    assert_eq!(c.collective_public(&vec![1]).unwrap(), pair.pub_key());
}

#[test]
fn quorum_below_the_threshold_is_a_threshold_error() {
    let c = committee(5, 3);
    assert_eq!(c.collective_public(&vec![1, 2]).err(), Some(ThresholdError::Threshold));
    assert_eq!(c.collective_public(&vec![4]).err(), Some(ThresholdError::Threshold));
    assert_eq!(c.collective_public(&Vec::new()).err(), Some(ThresholdError::Threshold));
    assert_eq!(c.collective_private(&vec![5, 1]).err(), Some(ThresholdError::Threshold));
    assert_eq!(c.check_quorum(&vec![5, 1]).err(), Some(ThresholdError::Threshold));
}

#[test]
fn quorum_with_a_stranger_is_an_index_error() {
    let c = committee(5, 2);
    assert_eq!(c.collective_public(&vec![0, 1]).err(), Some(ThresholdError::Index));
    assert_eq!(c.collective_public(&vec![1, 6]).err(), Some(ThresholdError::Index));
    assert_eq!(c.collective_private(&vec![1, 2, 9]).err(), Some(ThresholdError::Index));
    assert_eq!(c.check_quorum(&vec![6, 1]).err(), Some(ThresholdError::Index));
}

#[test]
fn quorum_with_a_repeated_index_is_an_index_error() {
    let c = committee(5, 2);
    assert_eq!(c.collective_public(&vec![1, 1]).err(), Some(ThresholdError::Index));
    assert_eq!(c.collective_public(&vec![1, 2, 3, 2]).err(), Some(ThresholdError::Index));
    assert_eq!(c.collective_private(&vec![4, 5, 4]).err(), Some(ThresholdError::Index));
}

#[test]
fn index_error_comes_before_threshold_error() {
    let c = committee(5, 3);
    assert_eq!(c.collective_public(&vec![7]).err(), Some(ThresholdError::Index));
    assert_eq!(c.collective_public(&vec![2, 2]).err(), Some(ThresholdError::Index));
}

#[test]
fn check_quorum_accepts_a_quorum() {
    let c = committee(5, 3);
    assert_eq!(c.check_quorum(&vec![5, 1, 3]), Ok(()));
    assert_eq!(c.check_quorum(&vec![1, 2, 3, 4, 5]), Ok(()));
}

#[test]
fn partial_signatures_combine_into_a_signature_of_the_committee() {
    let message = [3u8, 1, 4, 1, 5];
    let c = committee(5, 3);
    let quorum = vec![2usize, 4, 5];
    let pairs = c.get_quorum_keys(&quorum).unwrap();
    let mut partial: Vec<(usize, GE1)> = Vec::new();
    for k in 0..quorum.len() {
        let sig = BLSSignature::sign(&message[..], &pairs[k].priv_key());
        partial.push((quorum[k], sig.sigma()));
    }
    let combined = BLSSignature::from(lagrange_interpolate_f0(&partial));
    let collective = c.collective_public(&vec![1, 2, 3]).unwrap();
    assert!(combined.verify(&message[..], &collective));
    assert!(!combined.verify(&message[..], &pairs[0].pub_key()));
}

#[test]
fn refresh_keeps_size_and_threshold() {
    let mut c = refreshing(4, 3);
    c.refresh_round();
    assert_eq!(c.threshold_keys().size(), 4);
    assert_eq!(c.threshold_keys().threshold(), 3);
}

#[test]
fn refresh_keeps_the_collective_key() {
    let mut c = refreshing(5, 3);
    let quorum = vec![1usize, 3, 5];
    let before = c.threshold_keys().collective_public(&quorum).unwrap();
    for _ in 0..4 {
        c.refresh_round();
        assert_eq!(c.threshold_keys().collective_public(&quorum).unwrap(), before);
    }
    assert_eq!(c.threshold_keys().collective_public(&vec![2, 4, 5]).unwrap(), before);
}

#[test]
fn refresh_keeps_the_secret() {
    let mut c = refreshing(4, 2);
    let before = c.threshold_keys().collective_private(&vec![1, 2]).unwrap();
    c.refresh_round();
    c.refresh_round();
    assert_eq!(c.threshold_keys().collective_private(&vec![3, 4]).unwrap(), before);
}

#[test]
fn refresh_changes_every_share() {
    let mut c = refreshing(5, 3);
    let all = vec![1usize, 2, 3, 4, 5];
    let before = c.threshold_keys().get_quorum_keys(&all).unwrap();
    c.refresh_round();
    let after = c.threshold_keys().get_quorum_keys(&all).unwrap();
    for k in 0..all.len() {
        assert!(after[k].priv_key() != before[k].priv_key());
        assert!(after[k].pub_key() != before[k].pub_key());
        assert_eq!(after[k].pub_key(), GE2::generator() * after[k].priv_key());
    }
}

#[test]
fn refresh_moves_the_shares_along_a_polynomial_through_zero() {
    // with threshold 2 the updates lie on a line through zero: d_2 == 2 d_1
    let mut c = refreshing(3, 2);
    let all = vec![1usize, 2, 3];
    let before = c.threshold_keys().get_quorum_keys(&all).unwrap();
    c.refresh_round();
    let after = c.threshold_keys().get_quorum_keys(&all).unwrap();
    let d1 = after[0].priv_key().sub(&before[0].priv_key().get_element());
    let d2 = after[1].priv_key().sub(&before[1].priv_key().get_element());
    let d3 = after[2].priv_key().sub(&before[2].priv_key().get_element());
    assert_eq!(d2, d1 + d1);
    assert_eq!(d3, d1 + d1 + d1);
    assert!(d1 != zero());
}

#[test]
fn refresh_with_threshold_one_changes_nothing() {
    // a blinding polynomial of one coefficient is the zero polynomial
    let mut c = refreshing(3, 1);
    let all = vec![1usize, 2, 3];
    let before = c.threshold_keys().get_quorum_keys(&all).unwrap();
    c.refresh_round();
    let after = c.threshold_keys().get_quorum_keys(&all).unwrap();
    for k in 0..all.len() {
        assert_eq!(after[k].priv_key(), before[k].priv_key());
        assert_eq!(after[k].pub_key(), before[k].pub_key());
    }
}

#[test]
fn old_shares_do_not_mix_with_new_ones() {
    let mut c = refreshing(5, 2);
    let before = c.threshold_keys().get_quorum_keys(&vec![1]).unwrap();
    let key = c.threshold_keys().collective_public(&vec![1, 2]).unwrap();
    c.refresh_round();
    let after = c.threshold_keys().get_quorum_keys(&vec![2]).unwrap();
    let mixed = vec![(1usize, before[0].pub_key()), (2usize, after[0].pub_key())];
    assert!(lagrange_interpolate_f0(&mixed) != key);
}

#[test]
fn end_to_end() {
    let message = [1u8, 2, 3, 4, 5];
    let mut c = refreshing(5, 2);
    let quorum = vec![1usize, 4];
    let key = c.threshold_keys().collective_public(&quorum).unwrap();
    assert_eq!(c.threshold_keys().collective_public(&vec![2, 3]).unwrap(), key);
    let before = c.threshold_keys().get_quorum_keys(&quorum).unwrap();

    c.refresh_round();

    assert_eq!(c.threshold_keys().collective_public(&quorum).unwrap(), key);
    let after = c.threshold_keys().get_quorum_keys(&quorum).unwrap();
    assert!(after[0].priv_key() != before[0].priv_key());
    assert!(after[1].priv_key() != before[1].priv_key());
    let sig = BLSSignature::sign(&message[..], &after[0].priv_key());
    assert!(sig.verify(&message[..], &after[0].pub_key()));
}
