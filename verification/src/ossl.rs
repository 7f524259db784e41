//! The OpenSSL types the library uses, the ML-DSA-65 sizes, names for what
//! ML-DSA-65 computes from byte strings, and the OpenSSL calls made on key
//! handles that are not yet keys of this library. Nothing in this file is
//! proved: the contracts are trusted.

use openssl::error::ErrorStack;
use openssl::pkey::{KeyType, PKeyRef, Private, Public};
use vstd::prelude::*;

verus! {

/// Length in bytes of an ML-DSA key-generation seed (FIPS 204, xi).
pub const SEED_LEN: usize = 32;

/// Length in bytes of an encoded ML-DSA-65 public key.
pub const PUBLIC_KEY_LEN: usize = 1952;

/// Length in bytes of an encoded (expanded) ML-DSA-65 private key.
pub const EXPANDED_KEY_LEN: usize = 4032;

/// Length in bytes of an ML-DSA-65 signature.
pub const SIGNATURE_LEN: usize = 3309;

/// Longest context string that ML-DSA accepts, in bytes.
pub const MAX_CONTEXT_LEN: usize = 255;

#[verifier::external_type_specification]
#[verifier::external_body]
pub struct ExErrorStack(ErrorStack);

#[verifier::external_type_specification]
#[verifier::external_body]
#[verifier::reject_recursive_types(T)]
pub struct ExPKey<T>(openssl::pkey::PKey<T>);

#[verifier::external_type_specification]
#[verifier::external_body]
#[verifier::reject_recursive_types(T)]
pub struct ExPKeyRef<T>(PKeyRef<T>);

#[verifier::external_type_specification]
#[verifier::external_body]
pub struct ExPrivate(Private);

#[verifier::external_type_specification]
#[verifier::external_body]
pub struct ExPublic(Public);

/// The encoded ML-DSA-65 public key that OpenSSL derives from the
/// key-generation seed `seed` (FIPS 204 ML-DSA.KeyGen_internal).
pub uninterp spec fn spec_ml_dsa_65_public_of_seed(seed: Seq<u8>) -> Seq<u8>;

/// The encoded ML-DSA-65 public key that belongs to the encoded (expanded)
/// private key `sk`.
pub uninterp spec fn spec_ml_dsa_65_public_of_expanded(sk: Seq<u8>) -> Seq<u8>;

/// Whether OpenSSL's ML-DSA-65 verification accepts `signature` as a
/// signature of `message` under the context string `context` by the key
/// whose encoded public key is `public` (FIPS 204 ML-DSA.Verify).
pub uninterp spec fn spec_ml_dsa_65_verify(
    public: Seq<u8>,
    message: Seq<u8>,
    signature: Seq<u8>,
    context: Seq<u8>,
) -> bool;

/// `openssl::rand::rand_priv_bytes`: fills `buf` with random bytes from
/// OpenSSL's generator for private values. The length stays; the bytes are
/// random. `rand_priv_bytes` asserts that the length fits in a C `int`.
#[verifier::external_body]
pub(crate) fn rand_priv_bytes(buf: &mut Vec<u8>) -> (r: Result<(), ErrorStack>)
    requires
        old(buf)@.len() <= i32::MAX,
    ensures
        final(buf)@.len() == old(buf)@.len(),
{
    openssl::rand::rand_priv_bytes(buf.as_mut_slice())
}

/// `openssl::pkey::PKeyRef::is_a` with `KeyType::ML_DSA_65`: whether the
/// handle holds an ML-DSA-65 key. The answer is not stated.
#[verifier::external_body]
pub(crate) fn is_ml_dsa_65(pkey: &PKeyRef<Private>) -> bool {
    pkey.is_a(KeyType::ML_DSA_65)
}

/// `openssl::pkey::PKeyRef::seed_into` on a handle: writes the key's seed
/// to the front of `buf` and returns its length. The length of `buf`
/// stays, and a returned length fits in `buf` (OpenSSL refuses a buffer
/// that is too small). Which bytes are written is not stated.
#[verifier::external_body]
pub(crate) fn seed_into(pkey: &PKeyRef<Private>, buf: &mut Vec<u8>) -> (r: Result<usize, ErrorStack>)
    ensures
        final(buf)@.len() == old(buf)@.len(),
        r matches Ok(n) ==> n <= old(buf)@.len(),
{
    pkey.seed_into(buf.as_mut_slice())
}

/// `openssl::pkey::PKeyRef::raw_private_key` on a handle: the encoded
/// private key. Its bytes are not stated.
#[verifier::external_body]
pub(crate) fn raw_private_key(pkey: &PKeyRef<Private>) -> Result<Vec<u8>, ErrorStack> {
    pkey.raw_private_key()
}

/// `openssl::pkey::PKeyRef::raw_public_key` on a handle: the encoded
/// public key. Its bytes are not stated.
#[verifier::external_body]
pub(crate) fn raw_public_key(pkey: &PKeyRef<Public>) -> Result<Vec<u8>, ErrorStack> {
    pkey.raw_public_key()
}

} // verus!
