//! RSA keys held as their components, and the checks and conversions around
//! the OpenSSL RSA primitives, with their contracts proved by Verus.
//!
//! A key ([`Rsa`], [`RsaRef`]) holds its modulus, exponents, factors and CRT
//! parameters as [`BigNum`]s, and keeps them consistent whatever calls built
//! it. Each RSA primitive is described by a [`CryptRequest`]: the key's
//! methods check the arguments of a call and give the values handed to
//! OpenSSL, and [`CryptRequest::finish`] reads the primitive's return value.

pub mod bn;
pub mod cvt;
pub mod error;
pub mod padding;
pub mod passwd;
pub mod rsa;

pub use bn::BigNum;
pub use error::{Error, ErrorStack};
pub use padding::Padding;
pub use rsa::{CryptRequest, KeyGenParams, Rsa, RsaOperation, RsaRef, RsaView};
