//! ML-DSA-65 key operations: creation, signing, verification and the byte
//! forms of a key, stated over the keys' bytes (`MlDsa65PrivateKey@`,
//! `MlDsa65PublicKey@`) and the ML-DSA-65 functions named in `ossl`.
//!
//! Each operation that turns an OpenSSL answer into the library's result
//! also has a function that takes that answer as an argument and states
//! exactly what the library makes of it.

use crate::bytes::{prefix, zeroed};
use crate::error::MlDsaError;
use crate::keys::{
    ml_dsa_65_private_from_expanded, ml_dsa_65_private_from_seed, ml_dsa_65_public_from_raw,
    ml_dsa_sign_with_context, ml_dsa_sign_without_context, ml_dsa_verify_with_context,
    ml_dsa_verify_without_context, private_key_raw_public, private_key_seed_into, public_eq,
    public_key_raw, signature_len, lemma_private_key_seed, lemma_public_key_len, MlDsa65PrivateKey,
    MlDsa65PublicKey, PrivateKeyView,
};
use crate::ossl::{
    is_ml_dsa_65, rand_priv_bytes, raw_private_key, raw_public_key, seed_into,
    spec_ml_dsa_65_public_of_expanded, spec_ml_dsa_65_public_of_seed, spec_ml_dsa_65_verify, MAX_CONTEXT_LEN, PUBLIC_KEY_LEN,
    SEED_LEN, SIGNATURE_LEN,
};
use openssl::error::ErrorStack;
use openssl::pkey::{PKeyRef, Private, Public};
use vstd::prelude::*;

verus! {

/// A context string as bytes, when one is given.
pub open spec fn context_view(context: Option<&[u8]>) -> Option<Seq<u8>> {
    match context {
        Some(c) => Some(c@),
        None => None,
    }
}

/// The context string that ML-DSA uses: the given one, or the empty one.
pub open spec fn context_or_empty(context: Option<Seq<u8>>) -> Seq<u8> {
    match context {
        Some(c) => c,
        None => Seq::<u8>::empty(),
    }
}

/// Whether a context string, if one is given, has at most
/// `MAX_CONTEXT_LEN` bytes.
pub open spec fn context_fits(context: Option<Seq<u8>>) -> bool {
    match context {
        Some(c) => c.len() <= MAX_CONTEXT_LEN,
        None => true,
    }
}

/// What signing `data` under `context` with the private key whose public
/// key is `public` gives: for every message and every context string that
/// fits (or none), a signature of `SIGNATURE_LEN` bytes that ML-DSA-65
/// verification accepts; an error for a context string longer than
/// `MAX_CONTEXT_LEN`; and only OpenSSL's errors, or, without a context
/// string, a signature of another length than announced.
pub open spec fn sign_post(
    public: Seq<u8>,
    data: Seq<u8>,
    context: Option<Seq<u8>>,
    r: Result<Vec<u8>, MlDsaError>,
) -> bool {
    &&& r matches Ok(s) ==> s@.len() == SIGNATURE_LEN && spec_ml_dsa_65_verify(
        public,
        data,
        s@,
        context_or_empty(context),
    )
    &&& context matches Some(c) ==> (c.len() > MAX_CONTEXT_LEN ==> r is Err)
    &&& context_fits(context) ==> r is Ok
    &&& r matches Err(e) ==> (e is OpenSSL || (context is None && e is SignatureLengthMismatch))
}

/// What checking `signature` of `data` under `context` with the public key
/// `public` gives: success exactly when ML-DSA-65 verification accepts,
/// under the given context string or the empty one, and `InvalidSignature`
/// otherwise.
pub open spec fn verify_post(
    public: Seq<u8>,
    signature: Seq<u8>,
    data: Seq<u8>,
    context: Option<Seq<u8>>,
    r: Result<(), MlDsaError>,
) -> bool {
    let accepted = spec_ml_dsa_65_verify(public, data, signature, context_or_empty(context));
    &&& r is Ok ==> accepted
    &&& accepted ==> r is Ok
    &&& context matches Some(c) ==> (c.len() > MAX_CONTEXT_LEN ==> r matches Err(
        MlDsaError::InvalidSignature,
    ))
    &&& r is Err ==> r matches Err(MlDsaError::InvalidSignature)
}

/// What reading the seed of a private key gives: its seed, or
/// `SeedNotAvailable` for a key that has none or whose seed OpenSSL did
/// not keep.
pub open spec fn seed_bytes_post(key: PrivateKeyView, r: Result<Vec<u8>, MlDsaError>) -> bool {
    &&& (r matches Ok(v) ==> key.seed == Some(v@))
    &&& (key.seed is None ==> (r matches Err(MlDsaError::SeedNotAvailable)))
    &&& (r is Err ==> (r matches Err(MlDsaError::SeedNotAvailable)))
}

/// What importing the seed `data` gives: for a 32-byte seed the key that
/// it generates, with a `PUBLIC_KEY_LEN`-byte public key; for any other
/// length `InvalidPrivateKey`.
pub open spec fn from_seed_post(data: Seq<u8>, r: Result<MlDsa65PrivateKey, MlDsaError>) -> bool {
    &&& r is Ok <==> data.len() == SEED_LEN
    &&& r matches Ok(k) ==> k@ == (PrivateKeyView {
        seed: Some(data),
        public: spec_ml_dsa_65_public_of_seed(data),
    })
    &&& r matches Ok(k) ==> k@.public.len() == PUBLIC_KEY_LEN
    &&& r is Err ==> r matches Err(MlDsaError::InvalidPrivateKey)
}

/// What importing the encoding `data` gives: for `PUBLIC_KEY_LEN` bytes
/// the public key with exactly that encoding; for any other length
/// `InvalidPublicKey`.
pub open spec fn from_public_post(data: Seq<u8>, r: Result<MlDsa65PublicKey, MlDsaError>) -> bool {
    &&& r is Ok <==> data.len() == PUBLIC_KEY_LEN
    &&& r matches Ok(k) ==> k@ == data
    &&& r is Err ==> r matches Err(MlDsaError::InvalidPublicKey)
}

/// What reading the encoding of the public key `key` gives: the encoding
/// itself, of `PUBLIC_KEY_LEN` bytes.
pub open spec fn public_bytes_raw_post(key: Seq<u8>, r: Result<Vec<u8>, MlDsaError>) -> bool {
    r matches Ok(v) && v@ == key && key.len() == PUBLIC_KEY_LEN
}

/// Passes OpenSSL's answer on, its error as `MlDsaError::OpenSSL`.
pub fn with_openssl_error<T>(r: Result<T, ErrorStack>) -> (out: Result<T, MlDsaError>)
    ensures
        match r {
            Ok(v) => out == Ok::<T, MlDsaError>(v),
            Err(e) => out == Err::<T, MlDsaError>(MlDsaError::OpenSSL(e)),
        },
{
    match r {
        Ok(v) => Ok(v),
        Err(e) => Err(MlDsaError::OpenSSL(e)),
    }
}

/// The private key that a seed import gives: the imported key, or
/// `InvalidPrivateKey` whatever OpenSSL's error was.
pub fn private_key_from_seed_outcome(r: Result<MlDsa65PrivateKey, ErrorStack>) -> (out: Result<
    MlDsa65PrivateKey,
    MlDsaError,
>)
    ensures
        match r {
            Ok(k) => out matches Ok(k2) && k2@ == k@,
            Err(_) => out matches Err(MlDsaError::InvalidPrivateKey),
        },
{
    match r {
        Ok(k) => Ok(k),
        Err(_) => Err(MlDsaError::InvalidPrivateKey),
    }
}

/// The public key that an import of raw bytes gives: the imported key, or
/// `InvalidPublicKey` whatever OpenSSL's error was.
pub fn public_key_from_raw_outcome(r: Result<MlDsa65PublicKey, ErrorStack>) -> (out: Result<
    MlDsa65PublicKey,
    MlDsaError,
>)
    ensures
        match r {
            Ok(k) => out matches Ok(k2) && k2@ == k@,
            Err(_) => out matches Err(MlDsaError::InvalidPublicKey),
        },
{
    match r {
        Ok(k) => Ok(k),
        Err(_) => Err(MlDsaError::InvalidPublicKey),
    }
}

/// The signature that a one-shot signing into a buffer of `expected_len`
/// bytes gives: the buffer when OpenSSL wrote exactly `expected_len`
/// bytes, `SignatureLengthMismatch` when it wrote another count, and
/// OpenSSL's error when it failed.
pub fn signature_outcome(expected_len: usize, written: Result<usize, ErrorStack>, sig: Vec<u8>) -> (out: Result<
    Vec<u8>,
    MlDsaError,
>)
    requires
        sig@.len() == expected_len,
    ensures
        match written {
            Ok(n) => if n == expected_len {
                out matches Ok(s) && s@ == sig@
            } else {
                out matches Err(MlDsaError::SignatureLengthMismatch)
            },
            Err(e) => out matches Err(MlDsaError::OpenSSL(e2)) && e2 == e,
        },
{
    match written {
        Ok(n) => {
            if n == expected_len {
                Ok(sig)
            } else {
                Err(MlDsaError::SignatureLengthMismatch)
            }
        },
        Err(e) => Err(MlDsaError::OpenSSL(e)),
    }
}

/// What a signature check reports for OpenSSL's answer: success exactly
/// when OpenSSL found the signature valid; an invalid signature and an
/// error during the check both give `InvalidSignature`.
pub fn verification_outcome(verdict: Result<bool, ErrorStack>) -> (out: Result<(), MlDsaError>)
    ensures
        out is Ok <==> verdict == Ok::<bool, ErrorStack>(true),
        out is Err ==> out matches Err(MlDsaError::InvalidSignature),
{
    let valid = match verdict {
        Ok(v) => v,
        Err(_) => false,
    };
    if !valid {
        return Err(MlDsaError::InvalidSignature);
    }
    Ok(())
}

/// The seed that a seed read gives: the first `n` bytes of `buf` when
/// OpenSSL wrote `n` bytes, `SeedNotAvailable` when it failed.
pub fn seed_outcome(written: Result<usize, ErrorStack>, buf: &Vec<u8>) -> (out: Result<Vec<u8>, MlDsaError>)
    requires
        written matches Ok(n) ==> n <= buf@.len(),
    ensures
        match written {
            Ok(n) => out matches Ok(s) && s@ == buf@.subrange(0, n as int),
            Err(_) => out matches Err(MlDsaError::SeedNotAvailable),
        },
{
    match written {
        Ok(n) => Ok(prefix(buf, n)),
        Err(_) => Err(MlDsaError::SeedNotAvailable),
    }
}

/// Generates a new ML-DSA-65 private key from a fresh random seed: the key
/// that `from_seed_bytes` makes of the drawn 32-byte seed. A failure is an
/// OpenSSL error from the random generator.
pub fn generate_key() -> (r: Result<MlDsa65PrivateKey, MlDsaError>)
    ensures
        r matches Ok(k) ==> k@.seed matches Some(s) && from_seed_post(s, Ok(k)),
        r is Err ==> r matches Err(MlDsaError::OpenSSL(_)),
{
    let mut seed = zeroed(SEED_LEN);
    match rand_priv_bytes(&mut seed) {
        Ok(()) => {},
        Err(e) => return Err(MlDsaError::OpenSSL(e)),
    }
    from_seed_bytes(seed.as_slice())
}

/// The ML-DSA-65 private key that an OpenSSL key handle holds, imported
/// again from its seed when the handle has one, else from its encoded
/// private key. A handle that holds no ML-DSA-65 key gives
/// `InvalidPrivateKey`.
pub fn private_key_from_pkey(pkey: &PKeyRef<Private>) -> (r: Result<MlDsa65PrivateKey, MlDsaError>)
    ensures
        r matches Ok(k) ==> k@.public.len() == PUBLIC_KEY_LEN && (k@.seed matches Some(s)
            ==> s.len() == SEED_LEN),
        r is Err ==> (r matches Err(MlDsaError::InvalidPrivateKey)) || (r matches Err(
            MlDsaError::OpenSSL(_),
        )),
{
    if !is_ml_dsa_65(pkey) {
        return Err(MlDsaError::InvalidPrivateKey);
    }
    let mut buf = zeroed(SEED_LEN);
    let written = seed_into(pkey, &mut buf);
    if let Some(r) = private_key_from_seed_read(written, &buf) {
        return r;
    }
    private_key_from_expanded_read(raw_private_key(pkey))
}

/// The private key that a seed read from a handle gives: when the handle
/// wrote a whole seed of `SEED_LEN` bytes, the key that exactly those bytes
/// generate (with that seed and the public key it generates); otherwise
/// no key, and the encoded private key is to be read instead.
pub fn private_key_from_seed_read(written: Result<usize, ErrorStack>, buf: &Vec<u8>) -> (r: Option<
    Result<MlDsa65PrivateKey, MlDsaError>,
>)
    requires
        buf@.len() == SEED_LEN,
    ensures
        written == Ok::<usize, ErrorStack>(SEED_LEN) ==> (r matches Some(res) && res is Ok
            && from_seed_post(buf@, res)),
        written != Ok::<usize, ErrorStack>(SEED_LEN) ==> r is None,
{
    match written {
        Ok(n) => {
            if n == SEED_LEN {
                Some(from_seed_bytes(buf.as_slice()))
            } else {
                None
            }
        },
        Err(_) => None,
    }
}

/// The private key that an encoded private key read from a handle gives:
/// OpenSSL's error passed on, or the key that exactly those bytes encode,
/// which has no seed.
pub fn private_key_from_expanded_read(read: Result<Vec<u8>, ErrorStack>) -> (r: Result<
    MlDsa65PrivateKey,
    MlDsaError,
>)
    ensures
        match read {
            Ok(sk) => (r matches Ok(k) ==> k@ == (PrivateKeyView {
                seed: None,
                public: spec_ml_dsa_65_public_of_expanded(sk@),
            }) && k@.public.len() == PUBLIC_KEY_LEN) && (r is Err ==> (r matches Err(
                MlDsaError::OpenSSL(_),
            ))),
            Err(e) => r == Err::<MlDsa65PrivateKey, MlDsaError>(MlDsaError::OpenSSL(e)),
        },
{
    match read {
        Ok(sk) => with_openssl_error(ml_dsa_65_private_from_expanded(sk.as_slice())),
        Err(e) => Err(MlDsaError::OpenSSL(e)),
    }
}

/// The ML-DSA-65 public key that an OpenSSL key handle holds, imported
/// again from its encoding. A handle whose encoding is no ML-DSA-65 public
/// key gives `InvalidPublicKey`.
pub fn public_key_from_pkey(pkey: &PKeyRef<Public>) -> (r: Result<MlDsa65PublicKey, MlDsaError>)
    ensures
        r matches Ok(k) ==> k@.len() == PUBLIC_KEY_LEN,
        r is Err ==> (r matches Err(MlDsaError::InvalidPublicKey)) || (r matches Err(
            MlDsaError::OpenSSL(_),
        )),
{
    public_key_from_encoding_read(raw_public_key(pkey))
}

/// The public key that an encoding read from a handle gives: OpenSSL's
/// error passed on, or what `from_public_bytes` makes of exactly those
/// bytes: for `PUBLIC_KEY_LEN` bytes the key with that encoding.
pub fn public_key_from_encoding_read(read: Result<Vec<u8>, ErrorStack>) -> (r: Result<
    MlDsa65PublicKey,
    MlDsaError,
>)
    ensures
        match read {
            Ok(raw) => from_public_post(raw@, r),
            Err(e) => r == Err::<MlDsa65PublicKey, MlDsaError>(MlDsaError::OpenSSL(e)),
        },
{
    match read {
        Ok(raw) => from_public_bytes(raw.as_slice()),
        Err(e) => Err(MlDsaError::OpenSSL(e)),
    }
}

/// The private key that the 32-byte seed `data` generates. Every seed of
/// that length gives a key; every other length gives `InvalidPrivateKey`.
pub fn from_seed_bytes(data: &[u8]) -> (r: Result<MlDsa65PrivateKey, MlDsaError>)
    ensures
        from_seed_post(data@, r),
{
    private_key_from_seed_outcome(ml_dsa_65_private_from_seed(data))
}

/// The public key whose encoding is `data`. Every byte string of an
/// ML-DSA-65 public key's length gives a key; every other length gives
/// `InvalidPublicKey`.
pub fn from_public_bytes(data: &[u8]) -> (r: Result<MlDsa65PublicKey, MlDsaError>)
    ensures
        r is Ok <==> data@.len() == PUBLIC_KEY_LEN,
        r matches Ok(k) ==> k@ == data@,
        r is Err ==> r matches Err(MlDsaError::InvalidPublicKey),
        from_public_post(data@, r),
{
    public_key_from_raw_outcome(ml_dsa_65_public_from_raw(data))
}

impl MlDsa65PrivateKey {
    /// Signs `data`, under the context string `context` when one is given
    /// and under the empty one otherwise.
    pub fn sign(&self, data: &[u8], context: Option<&[u8]>) -> (r: Result<Vec<u8>, MlDsaError>)
        ensures
            sign_post(self@.public, data@, context_view(context), r),
    {
        if let Some(ctx) = context {
            return with_openssl_error(ml_dsa_sign_with_context(self, data, ctx));
        }
        let len = match signature_len(self) {
            Ok(n) => n,
            Err(e) => return Err(MlDsaError::OpenSSL(e)),
        };
        let mut sig = zeroed(len);
        let written = ml_dsa_sign_without_context(self, data, &mut sig);
        proof {
            if written is Ok {
                assert(sig@.take(len as int) =~= sig@);
            }
        }
        signature_outcome(len, written, sig)
    }

    /// Signs `data` under the context string `context`: `sign` with
    /// `Some(context)`.
    pub fn sign_with_context(&self, data: &[u8], context: &[u8]) -> (r: Result<Vec<u8>, MlDsaError>)
        ensures
            sign_post(self@.public, data@, Some(context@), r),
    {
        self.sign(data, Some(context))
    }

    /// The public key of this private key, read from OpenSSL and imported
    /// again.
    pub fn public_key(&self) -> (r: Result<MlDsa65PublicKey, MlDsaError>)
        ensures
            r matches Ok(k) && k@ == self@.public,
    {
        let raw = match with_openssl_error(private_key_raw_public(self)) {
            Ok(raw) => raw,
            Err(e) => return Err(e),
        };
        with_openssl_error(ml_dsa_65_public_from_raw(raw.as_slice()))
    }

    /// The 32-byte seed that generated this key, or `SeedNotAvailable` for
    /// a key imported without its seed or whose seed OpenSSL did not keep.
    pub fn seed_bytes(&self) -> (r: Result<Vec<u8>, MlDsaError>)
        ensures
            seed_bytes_post(self@, r),
    {
        let mut buf = zeroed(SEED_LEN);
        let written = private_key_seed_into(self, &mut buf);
        proof {
            if written is Ok {
                assert(buf@.subrange(0, SEED_LEN as int) =~= buf@.take(SEED_LEN as int));
            }
        }
        seed_outcome(written, &buf)
    }
}

impl MlDsa65PublicKey {
    /// Checks that `signature` is a signature of `data` by this key, under
    /// the context string `context` when one is given and under the empty
    /// one otherwise.
    pub fn verify(&self, signature: &[u8], data: &[u8], context: Option<&[u8]>) -> (r: Result<
        (),
        MlDsaError,
    >)
        ensures
            verify_post(self@, signature@, data@, context_view(context), r),
    {
        if let Some(ctx) = context {
            return verification_outcome(ml_dsa_verify_with_context(self, data, signature, ctx));
        }
        match ml_dsa_verify_without_context(self, data, signature) {
            Ok(verdict) => verification_outcome(verdict),
            Err(e) => Err(MlDsaError::OpenSSL(e)),
        }
    }

    /// Checks `signature` of `data` under the context string `context`:
    /// `verify` with `Some(context)`.
    pub fn verify_with_context(&self, signature: &[u8], data: &[u8], context: &[u8]) -> (r: Result<
        (),
        MlDsaError,
    >)
        ensures
            verify_post(self@, signature@, data@, Some(context@), r),
    {
        self.verify(signature, data, Some(context))
    }

    /// The encoding of this public key, read from OpenSSL.
    pub fn public_bytes_raw(&self) -> (r: Result<Vec<u8>, MlDsaError>)
        ensures
            public_bytes_raw_post(self@, r),
    {
        proof {
            lemma_public_key_len(self);
        }
        with_openssl_error(public_key_raw(self))
    }

    /// Whether the two keys are the same public key: OpenSSL compares
    /// their encodings.
    pub fn public_eq(&self, other: &MlDsa65PublicKey) -> (r: bool)
        ensures
            r == (self@ == other@),
    {
        public_eq(self, other)
    }
}

/// A signature made by a private key verifies under its public key and the
/// same message and context.
pub proof fn lemma_signature_verifies(
    public: Seq<u8>,
    data: Seq<u8>,
    context: Option<Seq<u8>>,
    signature: Vec<u8>,
    checked: Result<(), MlDsaError>,
)
    requires
        sign_post(public, data, context, Ok(signature)),
        verify_post(public, signature@, data, context, checked),
    ensures
        checked is Ok,
{
}

/// Every message is signed under every context string of at most
/// `MAX_CONTEXT_LEN` bytes, whatever its bytes, or under none: the
/// signature has `SIGNATURE_LEN` bytes and every check of it under the
/// signer's public key, the same message and the same context accepts it.
pub proof fn lemma_sign_succeeds_and_verifies(
    public: Seq<u8>,
    data: Seq<u8>,
    context: Option<Seq<u8>>,
    signed: Result<Vec<u8>, MlDsaError>,
)
    requires
        sign_post(public, data, context, signed),
        context_fits(context),
    ensures
        signed matches Ok(s) && s@.len() == SIGNATURE_LEN && forall|checked: Result<(), MlDsaError>|
            #[trigger] verify_post(public, s@, data, context, checked) ==> checked is Ok,
{
}

/// Checking without a context string is checking under the empty one.
pub proof fn lemma_no_context_is_empty_context(
    public: Seq<u8>,
    signature: Seq<u8>,
    data: Seq<u8>,
    without: Result<(), MlDsaError>,
    with_empty: Result<(), MlDsaError>,
)
    requires
        verify_post(public, signature, data, None, without),
        verify_post(public, signature, data, Some(Seq::<u8>::empty()), with_empty),
    ensures
        without == with_empty,
{
    assert(context_or_empty(Some(Seq::<u8>::empty())) =~= context_or_empty(None));
    lemma_results_agree(without, with_empty);
}

/// Checking a signature always gives the same answer.
pub proof fn lemma_verification_is_repeatable(
    public: Seq<u8>,
    signature: Seq<u8>,
    data: Seq<u8>,
    context: Option<Seq<u8>>,
    first: Result<(), MlDsaError>,
    second: Result<(), MlDsaError>,
)
    requires
        verify_post(public, signature, data, context, first),
        verify_post(public, signature, data, context, second),
    ensures
        first == second,
{
    lemma_results_agree(first, second);
}

/// Two check results that are both success or both `InvalidSignature` are
/// equal.
proof fn lemma_results_agree(a: Result<(), MlDsaError>, b: Result<(), MlDsaError>)
    requires
        a is Ok <==> b is Ok,
        a is Err ==> (a matches Err(MlDsaError::InvalidSignature)),
        b is Err ==> (b matches Err(MlDsaError::InvalidSignature)),
    ensures
        a == b,
{
    match a {
        Ok(u) => {
            match b {
                Ok(w) => {
                    assert(u == w);
                },
                Err(_) => {},
            }
        },
        Err(_) => {},
    }
}

/// A key made from a seed gives that seed back, unless OpenSSL did not
/// keep it.
pub proof fn lemma_seed_round_trip(seed: Seq<u8>, key: PrivateKeyView, read: Result<Vec<u8>, MlDsaError>)
    requires
        key.seed == Some(seed),
        seed_bytes_post(key, read),
    ensures
        read matches Ok(v) ==> v@ == seed,
        read is Err ==> read matches Err(MlDsaError::SeedNotAvailable),
{
}

/// Importing the seed that a key gives back makes a key with the same seed
/// and public key.
pub proof fn lemma_seed_reimport(
    key: &MlDsa65PrivateKey,
    read: Result<Vec<u8>, MlDsaError>,
    again: Result<MlDsa65PrivateKey, MlDsaError>,
)
    requires
        seed_bytes_post(key@, read),
        read matches Ok(v) && from_seed_post(v@, again),
    ensures
        again matches Ok(k) && k@ == key@,
{
    lemma_private_key_seed(key);
}

/// A public key made from an encoding gives that encoding back.
pub proof fn lemma_public_bytes_round_trip(data: Seq<u8>, key: Seq<u8>, read: Result<Vec<u8>, MlDsaError>)
    requires
        key == data,
        public_bytes_raw_post(key, read),
    ensures
        read matches Ok(v) && v@ == data,
{
}

} // verus!
