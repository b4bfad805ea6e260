# kmr_keyblob

Key blobs for a KeyMint keystore service, with their contracts proved by
Verus: key material and its CBOR form, the encryption of key material under
a key-encryption key derived with HKDF, the counter-mode KDF over AES-CMAC,
and the small decisions the service takes when it starts.

Layout:

- `src/cbor.rs`: CBOR data items, their mathematical model, and the
  conversion to and from bytes, done by `ciborium`.
- `src/cose.rs`: the COSE_Encrypt0 structure that holds encrypted key
  material; header and structure encoding done by `coset`.
- `src/keymint.rs`: KeyMint enumerations, key parameters and key
  characteristics, with their CBOR forms.
- `src/crypto.rs`: key material of every algorithm, its CBOR form, and the
  AES interface that a device supplies.
- `src/kdf.rs`: HMAC and AES-CMAC interfaces, HKDF and the counter-mode KDF.
- `src/keyblob.rs`: key-encryption-key derivation, encryption and
  decryption of key blobs, secure-deletion slots.
- `src/init.rs`, `src/startup.rs`: the configured log level and the
  start-up decisions of the service.
- `app/main.rs`: the service's start-up: logging, storage permissions and
  ownership, and its identity.

The central law, `keyblob::lemma_decrypt_recovers_plaintext`, states that a
decryption that succeeds, with the root key, hidden parameters and
secure-deletion data that a blob was made with, gives back the plaintext
blob.  Whether the device's AES, HMAC and secure storage succeed is theirs
to decide; where a device call's result is taken in, a verified function
(`seal_blob`, `plaintext_from_decryption`, `hkdf_absorb`, `ckdf_absorb`,
`ckdf_fit`, `SlotHolder::from_taken`) says what follows for each result.

Key parameters whose tags have no variant of their own are held as
`KeyParam::Other`, their values read as the type in the tag's top bits
says.
