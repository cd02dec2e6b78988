//! Threshold secret sharing: Shamir sharing over a prime field, Pedersen
//! verifiable secret sharing and Feldman/Gennaro key generation over the
//! Ristretto255 group.

pub mod arith;
pub mod bignum;
pub mod convert;
pub mod dkg;
pub mod dkg_law;
pub mod group;
pub mod keygen;
pub mod nt;
pub mod output;
pub mod poly;
pub mod primality;
pub mod shamir;
pub mod shamir_law;
pub mod strmap;
pub mod text;
pub mod vss;
pub mod vss_law;
