use curv_kzen::elliptic::curves::traits::ECPoint;
use curv_kzen::elliptic::curves::traits::ECScalar;
use curv_kzen::arithmetic::traits::Converter;
use curv_kzen::BigInt;
use proactive_refresh::bls::BLSSignature;
use proactive_refresh::bls::KeyPairG2;
use proactive_refresh::bls::FE1;
use proactive_refresh::bls::FE2;
use proactive_refresh::bls::GE1;
use proactive_refresh::bls::GE2;

fn fe(n: u64) -> FE2 {
    ECScalar::from(&BigInt::from(n))
}

#[test]
fn new_key_pair_is_consistent() {
    let kp = KeyPairG2::new();
    assert_eq!(kp.pub_key(), GE2::generator() * kp.priv_key());
    assert!(kp.priv_key() != fe(0));
}

#[test]
fn new_key_pairs_differ() {
    let a = KeyPairG2::new();
    let b = KeyPairG2::new();
    assert!(a.priv_key() != b.priv_key());
    assert!(a.pub_key() != b.pub_key());
}

#[test]
fn key_pair_of_a_given_secret() {
    let kp = KeyPairG2::from_secret(fe(5));
    assert_eq!(kp.priv_key(), fe(5));
    assert_eq!(kp.pub_key(), GE2::generator() * fe(5));
    let one = KeyPairG2::from_secret(fe(1));
    assert_eq!(one.pub_key(), GE2::generator());
}

#[test]
fn update_secret_keeps_the_public_point() {
    let mut kp = KeyPairG2::from_secret(fe(5));
    kp.update_secret(fe(9));
    assert_eq!(kp.priv_key(), fe(9));
    assert_eq!(kp.pub_key(), GE2::generator() * fe(5));
}

#[test]
fn key_pairs_add_componentwise() {
    let a = KeyPairG2::from_secret(fe(5));
    let b = KeyPairG2::from_secret(fe(11));
    let sum = a.combine(b);
    assert_eq!(sum.priv_key(), fe(16));
    assert_eq!(sum.pub_key(), GE2::generator() * fe(16));
    let plus = a + b;
    assert_eq!(plus.priv_key(), fe(16));
    assert_eq!(plus.pub_key(), a.pub_key() + b.pub_key());
}

#[test]
fn sum_of_random_key_pairs_is_consistent() {
    let sum = KeyPairG2::new() + KeyPairG2::new();
    assert_eq!(sum.pub_key(), GE2::generator() * sum.priv_key());
}

#[test]
fn key_pair_as_text() {
    assert_eq!(KeyPairG2::from_secret(fe(255)).to_string(), "0xff");
    assert_eq!(KeyPairG2::from_secret(fe(0)).to_string(), "0x0");
    assert_eq!(KeyPairG2::from_secret(fe(0x1234_5678_9abc_def0)).to_string(), "0x123456789abcdef0");
    assert_eq!(KeyPairG2::from_secret(fe(16)).to_string(), "0x10");
}

#[test]
fn signature_is_the_scaled_hash_point() {
    let message = [1u8, 2, 3, 4, 5];
    let sig = BLSSignature::sign(&message[..], &fe(7));
    let seven: FE1 = ECScalar::from(&BigInt::from(7));
    assert_eq!(sig.sigma(), GE1::hash_to_curve(&message[..]) * seven);
}

#[test]
fn sign_then_verify() {
    let message = [1u8, 2, 3, 4, 5];
    let kp = KeyPairG2::new();
    let sig = BLSSignature::sign(&message[..], &kp.priv_key());
    assert!(sig.verify(&message[..], &kp.pub_key()));
}

#[test]
fn sign_then_verify_the_empty_message() {
    let message: [u8; 0] = [];
    let kp = KeyPairG2::new();
    let sig = BLSSignature::sign(&message[..], &kp.priv_key());
    assert!(sig.verify(&message[..], &kp.pub_key()));
}

#[test]
fn verify_rejects_another_key() {
    let message = [1u8, 2, 3, 4, 5];
    let kp = KeyPairG2::new();
    let other = KeyPairG2::new();
    let sig = BLSSignature::sign(&message[..], &kp.priv_key());
    assert!(!sig.verify(&message[..], &other.pub_key()));
}

#[test]
fn verify_rejects_another_message() {
    let message = [1u8, 2, 3, 4, 5];
    let mutated = [1u8, 2, 3, 4, 6];
    let kp = KeyPairG2::new();
    let sig = BLSSignature::sign(&message[..], &kp.priv_key());
    assert!(!sig.verify(&mutated[..], &kp.pub_key()));
}

#[test]
fn verify_rejects_an_inconsistent_pair() {
    let message = [9u8; 32];
    let mut kp = KeyPairG2::from_secret(fe(5));
    kp.update_secret(fe(6));
    let sig = BLSSignature::sign(&message[..], &kp.priv_key());
    assert!(!sig.verify(&message[..], &kp.pub_key()));
}

#[test]
fn verify_accepts_the_sum_of_signatures_under_the_sum_of_keys() {
    let message = [7u8, 7, 7];
    let a = KeyPairG2::new();
    let b = KeyPairG2::new();
    let sa = BLSSignature::sign(&message[..], &a.priv_key());
    let sb = BLSSignature::sign(&message[..], &b.priv_key());
    let sum = BLSSignature::from(sa.sigma() + sb.sigma());
    assert!(sum.verify(&message[..], &(a + b).pub_key()));
    assert!(!sum.verify(&message[..], &a.pub_key()));
}

#[test]
fn signature_from_a_point() {
    let point = GE1::generator();
    let sig = BLSSignature::from(point);
    assert_eq!(sig.sigma(), point);
}

#[test]
fn signature_with_the_zero_key_is_accepted_under_the_zero_point() {
    let message = [1u8];
    let kp = KeyPairG2::from_secret(fe(0));
    let sig = BLSSignature::sign(&message[..], &kp.priv_key());
    assert!(sig.verify(&message[..], &kp.pub_key()));
    assert!(!sig.verify(&message[..], &GE2::generator()));
}

#[test]
fn signature_as_text() {
    let sig = BLSSignature::from(GE1::generator());
    assert_eq!(sig.to_string(), format!("{:?}", GE1::generator()));
}

#[test]
fn signature_as_text_shows_its_point() {
    let message = [1u8, 2, 3];
    let sig = BLSSignature::sign(&message[..], &fe(7));
    let other = BLSSignature::sign(&message[..], &fe(8));
    assert_eq!(sig.to_string(), format!("{:?}", sig.sigma()));
    assert!(sig.to_string() != other.to_string());
    assert!(sig.to_string().starts_with("Point {"));
}

#[test]
fn scalars_are_residues_of_the_group_order() {
    let order: BigInt = FE2::q();
    assert_eq!(
        order.to_str_radix(16),
        "73eda753299d7d483339d80809a1d80553bda402fffe5bfeffffffff00000001"
    );
    let top = fe(0).sub(&fe(1).get_element());
    assert_eq!(
        KeyPairG2::from_secret(top).to_string(),
        "0x73eda753299d7d483339d80809a1d80553bda402fffe5bfeffffffff00000000"
    );
    assert_eq!(top + fe(1), fe(0));
    let reduced: FE2 = ECScalar::from(&(order + BigInt::from(5u64)));
    assert_eq!(reduced, fe(5));
}

#[test]
fn seven_generates_the_scalars() {
    // seven to the power of half the group order less one is minus one
    let mut power = fe(1);
    let mut square = fe(7);
    let half: BigInt = (FE2::q() - BigInt::from(1u64)) / BigInt::from(2u64);
    let bits = half.to_str_radix(2);
    for bit in bits.chars().rev() {
        if bit == '1' {
            power = power * square;
        }
        square = square * square;
    }
    assert_eq!(power, fe(0).sub(&fe(1).get_element()));
    assert_eq!(power * power, fe(1));
}
