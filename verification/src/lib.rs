//! Threshold BLS signatures whose shares can be refreshed.
//!
//! A committee of parties holds one secret signing key, shared so that any
//! quorum of them can reconstruct the collective public key or combine a
//! signature, and fewer cannot. A round of refresh gives every party a new
//! share of the same secret.
//!
//! * [`lagrange`] interpolates at zero, over scalars and over points;
//!   [`interpolation`] proves that this recovers a polynomial's constant
//!   term.
//! * [`bls`] holds key pairs and signatures.
//! * [`threshold`] holds a committee's key pairs, and [`pr`] refreshes
//!   them.
//! * [`polynomial`] samples and evaluates the polynomials that the shares
//!   lie on.
//! * [`curve`] is the boundary to the elliptic-curve library.
//! * [`field`] is the arithmetic of the scalar field on integers;
//!   [`primality`], [`factors`] and [`order`] prove that the field is one:
//!   its size is a prime.
#![allow(non_snake_case)]

pub mod bls;
pub mod curve;
pub mod factors;
pub mod field;
pub mod interpolation;
pub mod lagrange;
pub mod order;
pub mod polynomial;
pub mod pr;
pub mod primality;
pub mod threshold;
