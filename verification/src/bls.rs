//! BLS key pairs over G2 and signatures over G1.
//!
//! A key pair is a private scalar `x` and the public point `x` times the
//! generator of G2. A signature on a message is the message's hash point in
//! G1, scaled by the private scalar. It is accepted under a public point
//! when the pairing of the hash point with the public point equals the
//! pairing of the signature with the generator.
pub use curv_kzen::elliptic::curves::bls12_381::g1::FE as FE1;
pub use curv_kzen::elliptic::curves::bls12_381::g1::GE as GE1;
pub use curv_kzen::elliptic::curves::bls12_381::g2::FE as FE2;
pub use curv_kzen::elliptic::curves::bls12_381::g2::GE as GE2;
pub use curv_kzen::elliptic::curves::bls12_381::Pair;
pub use curv_kzen::elliptic::curves::traits::ECPoint;
pub use curv_kzen::elliptic::curves::traits::ECScalar;
use crate::curve::compute_pairing;
use crate::curve::g1_debug;
use crate::curve::g1_exponent;
use crate::curve::g1_hash;
use crate::curve::g1_scale;
use crate::curve::g1_text;
use crate::curve::g2_add;
use crate::curve::g2_exponent;
use crate::curve::g2_generator;
use crate::curve::g2_scale;
use crate::curve::hash_exponent;
use crate::curve::hex_digits;
use crate::curve::pair_eq;
use crate::curve::scalar_add;
use crate::curve::scalar_from_u64;
use crate::curve::scalar_hex;
use crate::curve::scalar_random_below;
use crate::curve::scalar_sub;
use crate::curve::scalar_value;
use crate::field::fadd;
use crate::field::fmul;
use crate::field::lemma_cancel_factor;
use crate::field::lemma_canonical_fixed;
use crate::field::lemma_commutative;
use crate::field::lemma_modulus_large;
use crate::field::lemma_neutral;
use crate::field::lemma_nonzero_invertible;
use crate::field::lemma_reduce_args;
use crate::field::modulus;
use vstd::prelude::*;
use vstd::string::StringExecFns;

verus! {

/// A private scalar and a public point of G2.
#[derive(Clone, Copy, Debug)]
pub struct KeyPairG2 {
    X: GE2,
    x: FE2,
}

/// A signature: a point of G1.
#[derive(Debug)]
pub struct BLSSignature {
    sigma: GE1,
}

/// The exponent of the signature on `message` under the private residue
/// `key`: the hash point's exponent times the key.
pub open spec fn signature_exponent(message: Seq<u8>, key: int) -> int {
    fmul(hash_exponent(message), key)
}

/// Whether a signature of exponent `sigma` on `message` is accepted under
/// the public point of exponent `public`: the two pairings that
/// verification compares have the same exponent.
pub open spec fn accepts(sigma: int, message: Seq<u8>, public: int) -> bool {
    fmul(hash_exponent(message), public) == fmul(sigma, 1)
}

impl KeyPairG2 {
    /// The private scalar.
    pub closed spec fn private(&self) -> FE2 {
        self.x
    }

    /// The public point.
    pub closed spec fn public(&self) -> GE2 {
        self.X
    }

    /// The residue of the private scalar.
    pub open spec fn private_value(&self) -> int {
        scalar_value(self.private())
    }

    /// The exponent of the public point.
    pub open spec fn public_exponent(&self) -> int {
        g2_exponent(self.public())
    }

    /// The public point is the generator times the private scalar.
    pub open spec fn is_consistent(&self) -> bool {
        self.public_exponent() == self.private_value() % modulus()
    }

    /// Generates a key pair: a private scalar drawn uniformly from the
    /// scalars other than zero, and its public point.
    pub fn new() -> (kp: Self)
        ensures
            kp.is_consistent(),
            0 < kp.private_value() < modulus(),
    {
        let zero = scalar_from_u64(0);
        let one = scalar_from_u64(1);
        let top = scalar_sub(&zero, &one);
        proof {
            lemma_modulus_large();
            vstd::arithmetic::div_mod::lemma_mod_add_multiples_vanish(-1, modulus());
            lemma_canonical_fixed(modulus() - 1);
        }
        let below = scalar_random_below(&top);
        let x = scalar_add(&below, &one);
        proof {
            lemma_canonical_fixed(scalar_value(below) + 1);
        }
        Self::from_secret(x)
    }

    /// The key pair of a given private scalar.
    pub fn from_secret(x: FE2) -> (kp: Self)
        ensures
            kp.private() == x,
            kp.is_consistent(),
    {
        let g = g2_generator();
        let public = g2_scale(&g, &x);
        KeyPairG2 { X: public, x }
    }

    /// The public point.
    pub fn pub_key(&self) -> (r: GE2)
        ensures
            r == self.public(),
    {
        self.X
    }

    /// The private scalar.
    pub fn priv_key(&self) -> (r: FE2)
        ensures
            r == self.private(),
    {
        self.x
    }

    /// Replaces the private scalar and leaves the public point as it is.
    /// Unless the new scalar has the old one's residue the pair is no
    /// longer consistent.
    pub fn update_secret(&mut self, upd: FE2)
        ensures
            final(self).private() == upd,
            final(self).public() == old(self).public(),
    {
        self.x = upd;
    }

    /// The sum of two key pairs: private scalars added, public points
    /// added. The sum of consistent pairs is consistent.
    pub fn combine(self, other: Self) -> (r: Self)
        ensures
            r.private_value() == fadd(self.private_value(), other.private_value()),
            r.public_exponent() == fadd(self.public_exponent(), other.public_exponent()),
            self.is_consistent() && other.is_consistent() ==> r.is_consistent(),
    {
        let x = scalar_add(&self.x, &other.x);
        let public = g2_add(&self.X, &other.X);
        proof {
            let a = scalar_value(self.x);
            let b = scalar_value(other.x);
            lemma_reduce_args(a, b);
            lemma_reduce_args(a % modulus(), b);
            lemma_modulus_large();
            lemma_canonical_fixed(fadd(a, b));
        }
        KeyPairG2 { X: public, x }
    }

    /// The private scalar as text: `0x` and its digits in base sixteen.
    pub fn to_string(&self) -> (r: String)
        ensures
            r@ == seq!['0', 'x'] + hex_digits(self.private_value()),
    {
        let prefix = String::from_str("0x");
        proof {
            reveal_strlit("0x");
            assert("0x"@ =~= seq!['0', 'x']);
        }
        let digits = scalar_hex(&self.x);
        prefix.concat(digits.as_str())
    }
}

impl core::ops::Add for KeyPairG2 {
    type Output = KeyPairG2;

    /// The sum of two key pairs: private scalars added, public points
    /// added. The sum of consistent pairs is consistent.
    fn add(self, other: Self) -> (r: Self)
        ensures
            r.private_value() == fadd(self.private_value(), other.private_value()),
            r.public_exponent() == fadd(self.public_exponent(), other.public_exponent()),
            self.is_consistent() && other.is_consistent() ==> r.is_consistent(),
    {
        self.combine(other)
    }
}

/// The sum of two key pairs is not written as a value: its scalar and its
/// point are values of `curv`. What `+` gives is stated on `add` itself.
impl vstd::std_specs::ops::AddSpecImpl for KeyPairG2 {
    open spec fn obeys_add_spec() -> bool {
        false
    }

    open spec fn add_req(self, other: Self) -> bool {
        true
    }

    open spec fn add_spec(self, other: Self) -> Self {
        self
    }
}

impl BLSSignature {
    /// The point of the signature.
    pub closed spec fn point(&self) -> GE1 {
        self.sigma
    }

    /// The exponent of the signature's point.
    pub open spec fn exponent(&self) -> int {
        g1_exponent(self.point())
    }

    /// The signature that is the given point.
    pub fn from(s: GE1) -> (r: Self)
        ensures
            r.point() == s,
    {
        BLSSignature { sigma: s }
    }

    /// Signs a message with a private scalar: the message's hash point,
    /// scaled by the scalar.
    pub fn sign(message: &[u8], x: &FE2) -> (r: Self)
        ensures
            r.exponent() == signature_exponent(message@, scalar_value(*x)),
    {
        let h = g1_hash(message);
        BLSSignature { sigma: g1_scale(&h, x) }
    }

    /// Verifies the signature on a message under a public point: compares
    /// the pairing of the hash point with the public point to the pairing
    /// of the signature with the generator.
    pub fn verify(&self, message: &[u8], X: &GE2) -> (r: bool)
        ensures
            r == accepts(self.exponent(), message@, g2_exponent(*X)),
    {
        let h = g1_hash(message);
        let lhs = compute_pairing(&h, X);
        let rhs = compute_pairing(&self.sigma, &g2_generator());
        pair_eq(&lhs, &rhs)
    }

    /// The point of the signature.
    pub fn sigma(&self) -> (r: GE1)
        ensures
            r == self.point(),
    {
        self.sigma
    }

    /// The signature's point as text, in the form that `curv` prints it.
    pub fn to_string(&self) -> (r: String)
        ensures
            r@ == g1_text(self.point()),
    {
        g1_debug(&self.sigma)
    }
}

/// A signature made with a private scalar is accepted under the public
/// point of that scalar, whatever the message.
pub proof fn lemma_sign_then_verify(message: Seq<u8>, key: int)
    ensures
        accepts(signature_exponent(message, key), message, key % modulus()),
{
    let h = hash_exponent(message);
    lemma_reduce_args(h, key);
    lemma_neutral(fmul(h, key));
    lemma_modulus_large();
    lemma_canonical_fixed(fmul(h, key));
}

/// A signature made with one private scalar is accepted under the public
/// point of another exactly when the hash point's exponent times the one
/// equals it times the other. Unless the hash point is the neutral point,
/// only the signer's own public point is accepted.
pub proof fn lemma_verify_other_key(message: Seq<u8>, key: int, other: int)
    ensures
        accepts(signature_exponent(message, key), message, other % modulus()) == (fmul(
            hash_exponent(message),
            key,
        ) == fmul(hash_exponent(message), other)),
        hash_exponent(message) % modulus() != 0 && key % modulus() != other % modulus()
            ==> !accepts(
            signature_exponent(message, key),
            message,
            other % modulus(),
        ),
{
    let h = hash_exponent(message);
    lemma_reduce_args(h, other);
    lemma_neutral(fmul(h, key));
    lemma_modulus_large();
    lemma_canonical_fixed(fmul(h, key));
    if h % modulus() != 0 && fmul(h, key) == fmul(h, other) {
        lemma_nonzero_invertible(h);
        lemma_cancel_factor(h, key, other);
    }
}

/// A signature on one message is accepted on another, under the signer's
/// own public point, exactly when the two hash points' exponents times the
/// key are equal. Where the messages hash to different points and the key
/// is not zero, it is not accepted.
pub proof fn lemma_verify_other_message(message: Seq<u8>, other: Seq<u8>, key: int)
    ensures
        accepts(signature_exponent(message, key), other, key % modulus()) == (fmul(
            hash_exponent(other),
            key,
        ) == fmul(hash_exponent(message), key)),
        hash_exponent(message) % modulus() != hash_exponent(other) % modulus() && key % modulus()
            != 0 ==> !accepts(signature_exponent(message, key), other, key % modulus()),
{
    let h = hash_exponent(message);
    let k = hash_exponent(other);
    lemma_reduce_args(k, key);
    lemma_neutral(fmul(h, key));
    lemma_modulus_large();
    lemma_canonical_fixed(fmul(h, key));
    if key % modulus() != 0 && fmul(k, key) == fmul(h, key) {
        lemma_nonzero_invertible(key);
        lemma_commutative(k, key);
        lemma_commutative(h, key);
        lemma_cancel_factor(key, k, h);
    }
}

} // verus!
