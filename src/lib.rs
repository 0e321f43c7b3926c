//! Cryptographic abstraction boundary of a layered attestation engine:
//! profile-dependent buffer sizes, public-key and signature values, and the
//! capability traits that a cryptographic backend implements, with a running
//! hash over OpenSSL's SHA-256 and SHA-384.

pub mod crypto;
pub mod laws;
pub mod ossl_hasher;
pub mod profile;
pub mod response;

pub use profile::DpeProfile;
