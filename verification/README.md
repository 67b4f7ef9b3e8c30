# openssl_rsa

RSA keys and the logic around the OpenSSL RSA primitives, verified with Verus.

- `src/` is the verified library:
  - `bn.rs`: `BigNum`, a non-negative integer held as its shortest big-endian
    encoding, with the laws of that encoding (value, uniqueness, byte length).
  - `rsa.rs`: `Rsa`/`RsaRef`, a key held as its eight components, with the
    `RSA_set0_*` rules for setting them, the invariant every key keeps, the
    key size, and the requests for the four RSA primitives.
  - `padding.rs`, `error.rs`, `cvt.rs`, `passwd.rs`: padding identifiers,
    OpenSSL error stacks, the return-value conventions of OpenSSL calls, and
    the password glue for encrypted PEM keys.
- `app/` holds the calls into OpenSSL through `openssl-sys`, which are all
  `unsafe extern` functions: converting keys to and from OpenSSL's `RSA`,
  running the primitives on the checked requests, key generation, and PEM and
  DER input and output.
- `tests/` runs the library on concrete values.
