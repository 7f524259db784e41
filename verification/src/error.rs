use openssl::error::ErrorStack;
use vstd::prelude::*;

verus! {

/// Why an ML-DSA-65 operation did not succeed.
#[derive(Debug)]
pub enum MlDsaError {
    /// OpenSSL reported an error that is passed on as it is.
    OpenSSL(ErrorStack),
    /// The bytes or the key do not form an ML-DSA-65 private key.
    InvalidPrivateKey,
    /// The bytes do not form an ML-DSA-65 public key.
    InvalidPublicKey,
    /// The private key holds no key-generation seed.
    SeedNotAvailable,
    /// The signature does not verify.
    InvalidSignature,
    /// OpenSSL wrote a signature of another length than it announced.
    SignatureLengthMismatch,
}

} // verus!
