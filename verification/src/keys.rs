//! ML-DSA-65 key values: an OpenSSL key handle together with the bytes it
//! was built from, and the OpenSSL calls that build such a key or use it.
//!
//! A key is only ever built here, by importing its bytes into OpenSSL, so
//! its handle always holds the ML-DSA-65 key that its bytes describe. The
//! contracts of the calls below rest on that, and are trusted.

use crate::ossl::{
    spec_ml_dsa_65_public_of_expanded, spec_ml_dsa_65_public_of_seed, spec_ml_dsa_65_verify,
    EXPANDED_KEY_LEN, MAX_CONTEXT_LEN, PUBLIC_KEY_LEN, SEED_LEN, SIGNATURE_LEN,
};
use openssl::error::ErrorStack;
use openssl::pkey::{KeyType, PKey, Private, Public};
use openssl::sign::{Signer, Verifier};
use vstd::prelude::*;

verus! {

/// The bytes a private key was imported from.
enum KeySource {
    /// A key-generation seed.
    Seed([u8; SEED_LEN]),
    /// An encoded (expanded) private key, without its seed.
    Expanded(Vec<u8>),
}

/// An ML-DSA-65 private key.
pub struct MlDsa65PrivateKey {
    pkey: PKey<Private>,
    source: KeySource,
}

/// An ML-DSA-65 public key.
pub struct MlDsa65PublicKey {
    pkey: PKey<Public>,
    raw: [u8; PUBLIC_KEY_LEN],
}

/// What a private key is: its seed, when it has one, and its encoded
/// public key.
pub struct PrivateKeyView {
    pub seed: Option<Seq<u8>>,
    pub public: Seq<u8>,
}

impl View for MlDsa65PrivateKey {
    type V = PrivateKeyView;

    closed spec fn view(&self) -> PrivateKeyView {
        match self.source {
            KeySource::Seed(s) => PrivateKeyView {
                seed: Some(s@),
                public: spec_ml_dsa_65_public_of_seed(s@),
            },
            KeySource::Expanded(sk) => PrivateKeyView {
                seed: None,
                public: spec_ml_dsa_65_public_of_expanded(sk@),
            },
        }
    }
}

impl View for MlDsa65PublicKey {
    /// The encoded public key.
    type V = Seq<u8>;

    closed spec fn view(&self) -> Seq<u8> {
        self.raw@
    }
}

/// `openssl::pkey::PKey::private_key_from_seed` for ML-DSA-65: the key
/// that the seed generates. OpenSSL refuses a seed of another length than
/// `SEED_LEN` and derives a key from every seed of that length.
#[verifier::external_body]
pub(crate) fn ml_dsa_65_private_from_seed(seed: &[u8]) -> (r: Result<MlDsa65PrivateKey, ErrorStack>)
    ensures
        r is Ok <==> seed@.len() == SEED_LEN,
        r matches Ok(k) ==> k@ == (PrivateKeyView {
            seed: Some(seed@),
            public: spec_ml_dsa_65_public_of_seed(seed@),
        }),
        r matches Ok(k) ==> k@.public.len() == PUBLIC_KEY_LEN,
{
    match PKey::private_key_from_seed(None, KeyType::ML_DSA_65, None, seed) {
        Ok(pkey) => {
            let mut bytes = [0u8; SEED_LEN];
            bytes.copy_from_slice(seed);
            Ok(MlDsa65PrivateKey { pkey, source: KeySource::Seed(bytes) })
        },
        Err(e) => Err(e),
    }
}

/// `openssl::pkey::PKey::private_key_from_raw_bytes_ex` for ML-DSA-65:
/// the key that the encoded private key `sk` describes, which holds no
/// seed. OpenSSL refuses bytes of another length than `EXPANDED_KEY_LEN`;
/// it may also refuse bytes of that length that do not decode.
#[verifier::external_body]
pub(crate) fn ml_dsa_65_private_from_expanded(sk: &[u8]) -> (r: Result<MlDsa65PrivateKey, ErrorStack>)
    ensures
        r is Ok ==> sk@.len() == EXPANDED_KEY_LEN,
        r matches Ok(k) ==> k@ == (PrivateKeyView {
            seed: None,
            public: spec_ml_dsa_65_public_of_expanded(sk@),
        }),
        r matches Ok(k) ==> k@.public.len() == PUBLIC_KEY_LEN,
{
    match PKey::private_key_from_raw_bytes_ex(None, KeyType::ML_DSA_65, None, sk) {
        Ok(pkey) => Ok(MlDsa65PrivateKey { pkey, source: KeySource::Expanded(sk.to_vec()) }),
        Err(e) => Err(e),
    }
}

/// `openssl::pkey::PKey::public_key_from_raw_bytes_ex` for ML-DSA-65: the
/// public key encoded by `data`. OpenSSL refuses bytes of another length
/// than `PUBLIC_KEY_LEN` and decodes all bytes of that length.
#[verifier::external_body]
pub(crate) fn ml_dsa_65_public_from_raw(data: &[u8]) -> (r: Result<MlDsa65PublicKey, ErrorStack>)
    ensures
        r is Ok <==> data@.len() == PUBLIC_KEY_LEN,
        r matches Ok(k) ==> k@ == data@,
{
    match PKey::public_key_from_raw_bytes_ex(None, KeyType::ML_DSA_65, None, data) {
        Ok(pkey) => {
            let mut raw = [0u8; PUBLIC_KEY_LEN];
            raw.copy_from_slice(data);
            Ok(MlDsa65PublicKey { pkey, raw })
        },
        Err(e) => Err(e),
    }
}

/// `openssl::pkey::PKeyRef::raw_public_key` on a private key: OpenSSL
/// returns the key's stored public-key encoding, of `PUBLIC_KEY_LEN`
/// bytes.
#[verifier::external_body]
pub(crate) fn private_key_raw_public(key: &MlDsa65PrivateKey) -> (r: Result<Vec<u8>, ErrorStack>)
    ensures
        r is Ok,
        r matches Ok(v) ==> v@ == key@.public && v@.len() == PUBLIC_KEY_LEN,
{
    key.pkey.raw_public_key()
}

/// `openssl::pkey::PKeyRef::raw_public_key` on a public key: OpenSSL
/// returns the key's stored encoding.
#[verifier::external_body]
pub(crate) fn public_key_raw(key: &MlDsa65PublicKey) -> (r: Result<Vec<u8>, ErrorStack>)
    ensures
        r is Ok,
        r matches Ok(v) ==> v@ == key@,
{
    key.pkey.raw_public_key()
}

/// `openssl::pkey::PKeyRef::seed_into` on a private key: writes the seed
/// that OpenSSL kept for the key to the front of `buf` and returns its
/// length. A key imported without a seed has none; a key imported from its
/// seed keeps it unless OpenSSL is configured to drop seeds
/// (`ml-dsa.retain_seed`), so it may give an error too. The length of
/// `buf` stays.
#[verifier::external_body]
pub(crate) fn private_key_seed_into(key: &MlDsa65PrivateKey, buf: &mut Vec<u8>) -> (r: Result<usize, ErrorStack>)
    ensures
        final(buf)@.len() == old(buf)@.len(),
        r matches Ok(n) ==> n <= old(buf)@.len(),
        r matches Ok(n) ==> (key@.seed matches Some(s) && n == SEED_LEN && final(buf)@.take(
            SEED_LEN as int,
        ) == s),
{
    key.pkey.seed_into(buf.as_mut_slice())
}

/// `openssl::sign::Signer::new_without_digest` then `Signer::len` on a
/// private key: the length of the signatures it makes. For an ML-DSA-65
/// key OpenSSL answers without failing, short of running out of memory,
/// which this contract leaves out.
#[verifier::external_body]
pub(crate) fn signature_len(key: &MlDsa65PrivateKey) -> (r: Result<usize, ErrorStack>)
    ensures
        r is Ok,
        r matches Ok(n) ==> n == SIGNATURE_LEN,
{
    Signer::new_without_digest(&key.pkey)?.len()
}

/// `openssl::sign::Signer::new_without_digest` then
/// `Signer::sign_oneshot`: signs `data` with the empty context string into
/// the front of `sig`. A returned count is `SIGNATURE_LEN`, fits in `sig`,
/// and the bytes written form a signature that ML-DSA-65 verification
/// accepts under the key's public key. The length of `sig` stays. Which
/// signature is made is random. With room for a signature, OpenSSL signs
/// every message; it fails only when its random generator or memory
/// allocation fails, which this contract leaves out.
#[verifier::external_body]
pub(crate) fn ml_dsa_sign_without_context(key: &MlDsa65PrivateKey, data: &[u8], sig: &mut Vec<u8>) -> (r: Result<usize, ErrorStack>)
    ensures
        final(sig)@.len() == old(sig)@.len(),
        old(sig)@.len() >= SIGNATURE_LEN ==> r is Ok,
        r matches Ok(n) ==> n == SIGNATURE_LEN && n <= old(sig)@.len() && spec_ml_dsa_65_verify(
            key@.public,
            data@,
            final(sig)@.take(n as int),
            Seq::<u8>::empty(),
        ),
{
    Signer::new_without_digest(&key.pkey)?.sign_oneshot(sig.as_mut_slice(), data)
}

/// ML-DSA-65 signing under a context string (FIPS 204, section 5.2): a
/// digest-sign context on the key (`MdCtxRef::digest_sign_init`) whose
/// `PkeyCtxRef` takes the context string (`set_context_string`), then
/// `MdCtxRef::digest_sign_to_vec`. A context string longer than
/// `MAX_CONTEXT_LEN` is refused; a returned signature has `SIGNATURE_LEN`
/// bytes and is accepted by ML-DSA-65 verification under the key's public
/// key and the same context. Which signature is made is random. Every
/// message is signed under every context string of at most
/// `MAX_CONTEXT_LEN` bytes, whatever its bytes; OpenSSL then fails only
/// when its random generator or memory allocation fails, which this
/// contract leaves out.
#[verifier::external_body]
pub(crate) fn ml_dsa_sign_with_context(key: &MlDsa65PrivateKey, data: &[u8], context: &[u8]) -> (r: Result<Vec<u8>, ErrorStack>)
    ensures
        context@.len() > MAX_CONTEXT_LEN ==> r is Err,
        context@.len() <= MAX_CONTEXT_LEN ==> r is Ok,
        r matches Ok(s) ==> s@.len() == SIGNATURE_LEN && spec_ml_dsa_65_verify(
            key@.public,
            data@,
            s@,
            context@,
        ),
{
    let mut md_ctx = openssl::md_ctx::MdCtx::new()?;
    md_ctx.digest_sign_init(None, &key.pkey)?.set_context_string(context)?;
    let mut signature = vec![];
    md_ctx.digest_sign_to_vec(data, &mut signature)?;
    Ok(signature)
}

/// `openssl::sign::Verifier::new_without_digest` then
/// `Verifier::verify_oneshot`: checks `signature` of `data` with the empty
/// context string. Setting up the check on an ML-DSA-65 key succeeds; the
/// inner answer is `Ok(true)` exactly when ML-DSA-65 verification
/// accepts.
#[verifier::external_body]
pub(crate) fn ml_dsa_verify_without_context(key: &MlDsa65PublicKey, data: &[u8], signature: &[u8]) -> (r: Result<Result<bool, ErrorStack>, ErrorStack>)
    ensures
        r is Ok,
        r matches Ok(v) ==> (v == Ok::<bool, ErrorStack>(true) <==> spec_ml_dsa_65_verify(
            key@,
            data@,
            signature@,
            Seq::<u8>::empty(),
        )),
{
    let mut verifier = Verifier::new_without_digest(&key.pkey)?;
    Ok(verifier.verify_oneshot(signature, data))
}

/// ML-DSA-65 verification under a context string (FIPS 204, section 5.3),
/// made as `ml_dsa_sign_with_context` is, with `digest_verify_init` and
/// `MdCtxRef::digest_verify`. The answer is `Ok(true)` exactly when
/// ML-DSA-65 verification accepts; a context string longer than
/// `MAX_CONTEXT_LEN` gives an error.
#[verifier::external_body]
pub(crate) fn ml_dsa_verify_with_context(key: &MlDsa65PublicKey, data: &[u8], signature: &[u8], context: &[u8]) -> (r: Result<bool, ErrorStack>)
    ensures
        (r == Ok::<bool, ErrorStack>(true)) <==> spec_ml_dsa_65_verify(
            key@,
            data@,
            signature@,
            context@,
        ),
        context@.len() > MAX_CONTEXT_LEN ==> r is Err,
{
    let mut md_ctx = openssl::md_ctx::MdCtx::new()?;
    md_ctx.digest_verify_init(None, &key.pkey)?.set_context_string(context)?;
    md_ctx.digest_verify(data, signature)
}

/// `openssl::pkey::PKeyRef::public_eq`: OpenSSL compares two ML-DSA-65
/// keys by their encoded public keys.
#[verifier::external_body]
pub(crate) fn public_eq(a: &MlDsa65PublicKey, b: &MlDsa65PublicKey) -> (r: bool)
    ensures
        r == (a@ == b@),
{
    a.pkey.public_eq(&b.pkey)
}

/// The public key of a private key that has a seed is the one that seed
/// generates, and the seed has `SEED_LEN` bytes.
pub proof fn lemma_private_key_seed(key: &MlDsa65PrivateKey)
    ensures
        key@.seed matches Some(s) ==> s.len() == SEED_LEN && key@.public
            == spec_ml_dsa_65_public_of_seed(s),
{
}

/// The encoding of a public key has `PUBLIC_KEY_LEN` bytes.
pub proof fn lemma_public_key_len(key: &MlDsa65PublicKey)
    ensures
        key@.len() == PUBLIC_KEY_LEN,
{
}

} // verus!
