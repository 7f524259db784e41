# mldsa65

ML-DSA-65 (FIPS 204) private and public keys on top of OpenSSL, written in
Verus.

- `src/ossl.rs` declares the OpenSSL types, the ML-DSA-65 sizes, names for
  what ML-DSA-65 computes from byte strings (the public key of a seed or of
  an encoded private key, and the verification verdict), and the trusted
  OpenSSL calls made on bare key handles.
- `src/keys.rs` defines the two key types. Each holds an OpenSSL handle and
  the bytes it was imported from; its view is those bytes (for a private
  key: its seed, when it has one, and its public key). The trusted OpenSSL
  calls that build or use a key are stated over these views.
- `src/mldsa65.rs` holds the verified key operations: key generation,
  import from a seed, from raw public bytes or from an OpenSSL handle,
  signing and verification with or without a context string, and the byte
  forms of a key, together with the laws that relate them.
- `src/bytes.rs` builds the buffers handed to OpenSSL.
- `app/lib.rs` exposes the keys to Python through pyo3.
- `tests/` checks the operations against the ML-DSA-65 known-answer vector.
