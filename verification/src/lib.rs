//! ML-DSA-65 (FIPS 204) signing keys backed by OpenSSL, with verified
//! key-handling, signing and verification logic.

pub mod bytes;
pub mod error;
pub mod keys;
pub mod mldsa65;
pub mod ossl;

pub use error::MlDsaError;
pub use keys::{MlDsa65PrivateKey, MlDsa65PublicKey, PrivateKeyView};
pub use mldsa65::{
    from_public_bytes, from_seed_bytes, generate_key, private_key_from_pkey, public_key_from_pkey,
};
