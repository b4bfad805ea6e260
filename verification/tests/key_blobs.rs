use aes_gcm::aead::{Aead, KeyInit, Payload};
use hmac::Mac;
use kmr_keyblob::cbor::{CborError, CborValue};
use kmr_keyblob::keymint::TagValue;
use kmr_keyblob::crypto::{
    AadOperation, Aes, AesKey, AesVariant, CurveType, EcKey, GcmMode, HmacKey, KeyMaterial, MillisecondsSinceEpoch,
    OpaqueKeyMaterial, OpaqueOr, SymmetricOperation, Timestamp,
};
use kmr_keyblob::error::{Error, ErrorCode};
use kmr_keyblob::kdf::{
    ckdf, ckdf_absorb, ckdf_fit, hkdf_absorb, div_ceil, hkdf, hkdf_aes, hmac_hkdf_expand, hmac_hkdf_extract, hmac_sha256, u32_to_be_bytes,
    AccumulatingOperation, AesCmac, Hkdf, Hmac,
};
use kmr_keyblob::keyblob::{
    kek_info_bytes, seal_blob, plaintext_from_decryption, characteristics_at, decrypt, derive_kek, encrypt, requires_secure_deletion, EncryptedKeyBlob,
    PlaintextKeyBlob, Rng, SecureDeletionData, SecureDeletionSecretManager, SecureDeletionSlot,
    SlotHolder, SlotPurpose,
};
use kmr_keyblob::keymint::{
    Digest, EcCurve, KeyCharacteristics, KeyParam, KeyPurpose, SecurityLevel,
};
use kmr_keyblob::crypto::KeyRepr;
use kmr_keyblob::keyblob::SecureDeletionDataModel;
use vstd::seq::Seq;

fn hex(s: &str) -> Vec<u8> {
    (0..s.len()).step_by(2).map(|i| u8::from_str_radix(&s[i..i + 2], 16).unwrap()).collect()
}

/// A MAC computation that collects its input and computes at the end.
struct SoftMacOp {
    key: MacKey,
    data: Vec<u8>,
}

enum MacKey {
    HmacSha256(Vec<u8>),
    Cmac128(Vec<u8>),
    Cmac256(Vec<u8>),
}

impl AccumulatingOperation for SoftMacOp {
    fn spec_input(&self) -> Seq<u8> {
        unreachable!()
    }

    fn spec_result_for(&self, _data: Seq<u8>) -> Seq<u8> {
        unreachable!()
    }

    fn update(&mut self, data: &[u8]) -> Result<(), Error> {
        self.data.extend_from_slice(data);
        Ok(())
    }

    fn finish(self) -> Result<Vec<u8>, Error> {
        Ok(match self.key {
            MacKey::HmacSha256(k) => {
                let mut m = <hmac::Hmac<sha2::Sha256> as Mac>::new_from_slice(&k).unwrap();
                m.update(&self.data);
                m.finalize().into_bytes().to_vec()
            }
            MacKey::Cmac128(k) => {
                let mut m = <cmac::Cmac<aes::Aes128> as Mac>::new_from_slice(&k).unwrap();
                m.update(&self.data);
                m.finalize().into_bytes().to_vec()
            }
            MacKey::Cmac256(k) => {
                let mut m = <cmac::Cmac<aes::Aes256> as Mac>::new_from_slice(&k).unwrap();
                m.update(&self.data);
                m.finalize().into_bytes().to_vec()
            }
        })
    }
}

struct SoftHmac;

impl Hmac for SoftHmac {
    type Op = SoftMacOp;

    fn spec_mac(&self, _key: KeyRepr<Seq<u8>>, _digest: Digest, _data: Seq<u8>) -> Seq<u8> {
        unreachable!()
    }

    fn lemma_sha256_tag_len(&self, _key: KeyRepr<Seq<u8>>, _data: Seq<u8>) {}

    fn begin(&self, key: OpaqueOr<HmacKey>, digest: Digest) -> Result<SoftMacOp, Error> {
        let key = match key {
            OpaqueOr::Explicit(k) => k.0,
            OpaqueOr::Opaque(_) => return Err(Error::Hal(ErrorCode::IncompatibleKeyFormat)),
        };
        assert_eq!(digest, Digest::Sha256);
        Ok(SoftMacOp { key: MacKey::HmacSha256(key), data: Vec::new() })
    }
}

struct SoftCmac;

impl AesCmac for SoftCmac {
    type Op = SoftMacOp;

    fn spec_cmac(&self, _key: KeyRepr<(AesVariant, Seq<u8>)>, _data: Seq<u8>) -> Seq<u8> {
        unreachable!()
    }

    fn lemma_cmac_len(&self, _key: KeyRepr<(AesVariant, Seq<u8>)>, _data: Seq<u8>) {}

    fn begin(&self, key: OpaqueOr<AesKey>) -> Result<SoftMacOp, Error> {
        let key = match key {
            OpaqueOr::Explicit(AesKey::Aes128(k)) => MacKey::Cmac128(k),
            OpaqueOr::Explicit(AesKey::Aes256(k)) => MacKey::Cmac256(k),
            _ => return Err(Error::Hal(ErrorCode::UnsupportedKeySize)),
        };
        Ok(SoftMacOp { key, data: Vec::new() })
    }
}

/// An AES-GCM computation that collects its input and computes at the end.
struct SoftGcmOp {
    key: Vec<u8>,
    nonce: [u8; 12],
    dir: SymmetricOperation,
    aad: Vec<u8>,
    data: Vec<u8>,
}

impl AadOperation for SoftGcmOp {
    fn spec_aad(&self) -> Seq<u8> {
        unreachable!()
    }

    fn spec_input(&self) -> Seq<u8> {
        unreachable!()
    }

    fn spec_emitted(&self) -> Seq<u8> {
        unreachable!()
    }

    fn spec_result_for(&self, _aad: Seq<u8>, _input: Seq<u8>) -> Option<Seq<u8>> {
        unreachable!()
    }

    fn update_aad(&mut self, aad: &[u8]) -> Result<(), Error> {
        self.aad.extend_from_slice(aad);
        Ok(())
    }

    fn update(&mut self, data: &[u8]) -> Result<Vec<u8>, Error> {
        self.data.extend_from_slice(data);
        Ok(Vec::new())
    }

    fn finish(self) -> Result<Vec<u8>, Error> {
        let cipher = aes_gcm::Aes256Gcm::new_from_slice(&self.key).unwrap();
        let payload = Payload { msg: &self.data, aad: &self.aad };
        let nonce = aes_gcm::Nonce::from_slice(&self.nonce);
        match self.dir {
            SymmetricOperation::Encrypt => Ok(cipher.encrypt(nonce, payload).unwrap()),
            SymmetricOperation::Decrypt => {
                cipher.decrypt(nonce, payload).map_err(|_| Error::Hal(ErrorCode::UnknownError))
            }
        }
    }
}

struct SoftAes;

impl Aes for SoftAes {
    type AeadOp = SoftGcmOp;

    fn spec_aead_encrypt(&self, _key: KeyRepr<(AesVariant, Seq<u8>)>, _mode: GcmMode, _aad: Seq<u8>, _pt: Seq<u8>) -> Seq<u8> {
        unreachable!()
    }

    fn spec_aead_decrypt(&self, _key: KeyRepr<(AesVariant, Seq<u8>)>, _mode: GcmMode, _aad: Seq<u8>, _ct: Seq<u8>) -> Option<Seq<u8>> {
        unreachable!()
    }

    fn lemma_aead_decrypt_encrypt(&self, _key: KeyRepr<(AesVariant, Seq<u8>)>, _mode: GcmMode, _aad: Seq<u8>, _pt: Seq<u8>) {}

    fn begin_aead(&self, key: OpaqueOr<AesKey>, mode: GcmMode, dir: SymmetricOperation) -> Result<SoftGcmOp, Error> {
        let key = match key {
            OpaqueOr::Explicit(AesKey::Aes256(k)) => k,
            _ => return Err(Error::Hal(ErrorCode::UnsupportedKeySize)),
        };
        let nonce = match mode {
            GcmMode::GcmTag16 { nonce } => nonce,
            _ => return Err(Error::Hal(ErrorCode::InvalidArgument)),
        };
        Ok(SoftGcmOp { key, nonce, dir, aad: Vec::new(), data: Vec::new() })
    }
}

struct CountingRng(u8);

impl Rng for CountingRng {
    fn spec_drawn(&self) -> Seq<u8> {
        unreachable!()
    }

    fn fill_bytes(&mut self, dest: &mut [u8]) {
        for b in dest.iter_mut() {
            self.0 = self.0.wrapping_add(1);
            *b = self.0;
        }
    }
}

#[derive(Default)]
struct MemorySecrets {
    factory: Option<SecureDeletionData>,
    slots: Vec<Option<SecureDeletionData>>,
}

fn fresh_secret<R: Rng>(rng: &mut R) -> SecureDeletionData {
    let mut factory_reset_secret = [0u8; 32];
    let mut secure_deletion_secret = [0u8; 16];
    rng.fill_bytes(&mut factory_reset_secret);
    rng.fill_bytes(&mut secure_deletion_secret);
    SecureDeletionData { factory_reset_secret, secure_deletion_secret }
}

impl SecureDeletionSecretManager for MemorySecrets {
    fn spec_factory_secret(&self) -> Option<SecureDeletionDataModel> {
        unreachable!()
    }

    fn spec_secret(&self, _slot: SecureDeletionSlot) -> Option<SecureDeletionDataModel> {
        unreachable!()
    }

    fn spec_free_refused(&self, _slot: SecureDeletionSlot) -> bool {
        unreachable!()
    }

    fn spec_slot_purpose(&self, _slot: SecureDeletionSlot) -> Option<SlotPurpose> {
        unreachable!()
    }

    fn spec_secret_error(&self, _slot: SecureDeletionSlot) -> Error {
        unreachable!()
    }

    fn spec_factory_secret_error(&self) -> Error {
        unreachable!()
    }

    fn get_or_create_factory_reset_secret<R: Rng>(&mut self, rng: &mut R) -> Result<SecureDeletionData, Error> {
        if self.factory.is_none() {
            self.factory = Some(fresh_secret(rng));
        }
        Ok(self.factory.clone().unwrap())
    }

    fn get_factory_reset_secret(&self) -> Result<SecureDeletionData, Error> {
        self.factory.clone().ok_or(Error::Hal(ErrorCode::UnknownError))
    }

    fn new_secret<R: Rng>(
        &mut self,
        rng: &mut R,
        _purpose: SlotPurpose,
    ) -> Result<(SecureDeletionSlot, SecureDeletionData), Error> {
        let d = fresh_secret(rng);
        self.slots.push(Some(d.clone()));
        Ok((SecureDeletionSlot((self.slots.len() - 1) as u32), d))
    }

    fn get_secret(&self, slot: SecureDeletionSlot) -> Result<SecureDeletionData, Error> {
        self.slots
            .get(slot.0 as usize)
            .cloned()
            .flatten()
            .ok_or(Error::Hal(ErrorCode::InvalidKeyBlob))
    }

    fn delete_secret(&mut self, slot: SecureDeletionSlot) -> Result<(), Error> {
        match self.slots.get_mut(slot.0 as usize) {
            Some(s) => {
                *s = None;
                Ok(())
            }
            None => Err(Error::Hal(ErrorCode::InvalidArgument)),
        }
    }

    fn delete_all(&mut self) {
        self.factory = None;
        for s in self.slots.iter_mut() {
            *s = None;
        }
    }
}

fn aes_material(seed: u8) -> KeyMaterial {
    KeyMaterial::Aes(OpaqueOr::Explicit(AesKey::new((0..32).map(|i| seed ^ i).collect()).unwrap()))
}

fn chars(extra: Vec<KeyParam>) -> Vec<KeyCharacteristics> {
    let mut params = vec![KeyParam::Purpose(KeyPurpose::Encrypt), KeyParam::KeySize(256)];
    params.extend(extra);
    vec![
        KeyCharacteristics { security_level: SecurityLevel::TrustedEnvironment, authorizations: params },
        KeyCharacteristics {
            security_level: SecurityLevel::Keystore,
            authorizations: vec![KeyParam::CreationDatetime(1_700_000_000_000)],
        },
    ]
}

fn root_key() -> OpaqueOr<HmacKey> {
    OpaqueOr::Explicit(HmacKey(vec![0x42; 32]))
}

fn hidden() -> Vec<KeyParam> {
    vec![KeyParam::ApplicationId(b"app".to_vec())]
}

#[test]
fn hmac_sha256_rfc4231_case_2() {
    let tag = hmac_sha256(&SoftHmac, b"Jefe", b"what do ya want for nothing?").unwrap();
    assert_eq!(tag, hex("5bdcc146bf60754e6a042426089575c75a003f089d2739839dec58b964ec3843"));
}

#[test]
fn hkdf_rfc5869_case_1() {
    let ikm = vec![0x0b; 22];
    let salt = hex("000102030405060708090a0b0c");
    let info = hex("f0f1f2f3f4f5f6f7f8f9");
    let prk = hmac_hkdf_extract(&SoftHmac, &salt, &ikm).unwrap();
    match &prk {
        OpaqueOr::Explicit(k) => {
            assert_eq!(k.0, hex("077709362c2e32df0ddc3f0dc47bba6390b6c73bb50f9c3122ec844ad7c2b3e5"))
        }
        OpaqueOr::Opaque(_) => panic!("opaque"),
    }
    let okm = hmac_hkdf_expand(&SoftHmac, &prk, &info, 42).unwrap();
    assert_eq!(
        okm,
        hex("3cb25f25faacd57a90434f64d0362f2a2d2d0a90cf1a5a4c5db02d56ecc4c5bf34007208d5b887185865")
    );
    assert_eq!(hkdf(&SoftHmac, &salt, &ikm, &info, 42).unwrap(), okm);
}

#[test]
fn hkdf_rfc5869_case_3_empty_salt() {
    let ikm = vec![0x0b; 22];
    let okm = hkdf(&SoftHmac, &[], &ikm, &[], 42).unwrap();
    assert_eq!(
        okm,
        hex("8da4e775a563c18f715f802a063c5a31b8a11f5c5ee1879ec3454e5f3c738d2d9d201395faa4b61a96c8")
    );
    let prk = SoftHmac.extract(&[], &ikm).unwrap();
    assert_eq!(SoftHmac.expand(&prk, &[], 42).unwrap(), okm);
}

#[test]
fn hkdf_expand_limits() {
    let prk = OpaqueOr::Explicit(HmacKey(vec![1; 32]));
    assert_eq!(
        hmac_hkdf_expand(&SoftHmac, &prk, &[], 256 * 32 + 1),
        Err(Error::Hal(ErrorCode::InvalidArgument))
    );
    // At most 255 blocks are computed: the block number is carried in a byte.
    assert_eq!(hmac_hkdf_expand(&SoftHmac, &prk, &[], 256 * 32), Err(Error::Hal(ErrorCode::InvalidArgument)));
    assert_eq!(hmac_hkdf_expand(&SoftHmac, &prk, &[], 255 * 32 + 1), Err(Error::Hal(ErrorCode::InvalidArgument)));
    assert_eq!(hmac_hkdf_expand(&SoftHmac, &prk, &[], 255 * 32).unwrap().len(), 255 * 32);
    assert_eq!(hmac_hkdf_expand(&SoftHmac, &prk, &[], 0).unwrap(), Vec::<u8>::new());
    let opaque: OpaqueOr<HmacKey> = OpaqueOr::Opaque(OpaqueKeyMaterial(vec![1]));
    assert_eq!(
        hmac_hkdf_expand(&SoftHmac, &opaque, &[], 16),
        Err(Error::Hal(ErrorCode::IncompatibleKeyFormat))
    );
    assert_eq!(SoftHmac.expand(&opaque, &[], 16), Err(Error::Hal(ErrorCode::IncompatibleKeyFormat)));
    assert_eq!(SoftHmac.expand(&prk, &[], 256 * 32 + 1), Err(Error::Hal(ErrorCode::InvalidArgument)));
}

#[test]
fn hkdf_gives_aes_keys() {
    match hkdf_aes(&SoftHmac, &[], &[7; 16], b"info", AesVariant::Aes128).unwrap() {
        OpaqueOr::Explicit(AesKey::Aes128(k)) => assert_eq!(k, hkdf(&SoftHmac, &[], &[7; 16], b"info", 16).unwrap()),
        _ => panic!("wrong key size"),
    }
}

#[test]
fn helper_arithmetic() {
    assert_eq!(div_ceil(0, 32), 0);
    assert_eq!(div_ceil(1, 32), 1);
    assert_eq!(div_ceil(64, 32), 2);
    assert_eq!(div_ceil(65, 32), 3);
    assert_eq!(u32_to_be_bytes(0x01020304), vec![1, 2, 3, 4]);
}

fn reference_ckdf(key: &[u8], label: &[u8], context: &[u8], out_len: usize) -> Vec<u8> {
    let l = ((out_len * 8) as u32).to_be_bytes();
    let mut out = Vec::new();
    let mut i: u32 = 1;
    while out.len() < out_len {
        let mut m = <cmac::Cmac<aes::Aes256> as Mac>::new_from_slice(key).unwrap();
        m.update(&i.to_be_bytes());
        m.update(label);
        m.update(&[0]);
        m.update(context);
        m.update(&l);
        out.extend_from_slice(&m.finalize().into_bytes());
        i += 1;
    }
    out.truncate(out_len);
    out
}

#[test]
fn ckdf_counter_mode() {
    let key_bytes = vec![0x11; 32];
    let key = OpaqueOr::Explicit(AesKey::new(key_bytes.clone()).unwrap());
    let chunks: Vec<&[u8]> = vec![b"ab", b"", b"cde"];
    for out_len in [0usize, 1, 16, 17, 40] {
        let out = ckdf(&SoftCmac, &key, b"label", &chunks, out_len).unwrap();
        assert_eq!(out, reference_ckdf(&key_bytes, b"label", b"abcde", out_len));
    }
    let opaque: OpaqueOr<AesKey> = OpaqueOr::Opaque(OpaqueKeyMaterial(vec![1]));
    assert_eq!(ckdf(&SoftCmac, &opaque, b"x", &chunks, 16), Err(Error::Hal(ErrorCode::IncompatibleKeyFormat)));
    assert_eq!(ckdf(&SoftCmac, &opaque, b"x", &chunks, usize::MAX), Err(Error::Hal(ErrorCode::IncompatibleKeyFormat)));
}

#[test]
fn characteristics_at_one_level() {
    let cs = chars(vec![]);
    assert_eq!(characteristics_at(&cs, SecurityLevel::Keystore).unwrap(), &[KeyParam::CreationDatetime(1_700_000_000_000)][..]);
    assert_eq!(characteristics_at(&cs, SecurityLevel::Strongbox), Err(Error::Hal(ErrorCode::InvalidKeyBlob)));
    let mut twice = chars(vec![]);
    twice.push(KeyCharacteristics { security_level: SecurityLevel::Keystore, authorizations: vec![] });
    assert_eq!(characteristics_at(&twice, SecurityLevel::Keystore), Err(Error::Hal(ErrorCode::InvalidKeyBlob)));
}

#[test]
fn suitability_for_purposes() {
    let pkb = PlaintextKeyBlob { characteristics: chars(vec![]), key_material: aes_material(1) };
    assert_eq!(pkb.suitable_for(KeyPurpose::Encrypt, SecurityLevel::TrustedEnvironment), Ok(()));
    assert_eq!(
        pkb.suitable_for(KeyPurpose::Sign, SecurityLevel::TrustedEnvironment),
        Err(Error::Hal(ErrorCode::IncompatiblePurpose))
    );
    assert_eq!(
        pkb.suitable_for(KeyPurpose::Encrypt, SecurityLevel::Strongbox),
        Err(Error::Hal(ErrorCode::InvalidKeyBlob))
    );
}

#[test]
fn secure_deletion_needs() {
    assert!(requires_secure_deletion(&[KeyParam::RollbackResistance]));
    assert!(requires_secure_deletion(&[KeyParam::KeySize(128), KeyParam::UsageCountLimit(1)]));
    assert!(!requires_secure_deletion(&[KeyParam::UsageCountLimit(2)]));
    assert!(!requires_secure_deletion(&[]));
}

#[test]
fn kek_depends_on_secure_deletion_data() {
    let kdi = [9u8; 32];
    let a = derive_kek(&SoftHmac, &root_key(), &kdi, chars(vec![]), hidden(), None).unwrap();
    let b = derive_kek(&SoftHmac, &root_key(), &kdi, chars(vec![]), hidden(), None).unwrap();
    assert!(a == b);
    let sdd = SecureDeletionData { factory_reset_secret: [1; 32], secure_deletion_secret: [2; 16] };
    let c = derive_kek(&SoftHmac, &root_key(), &kdi, chars(vec![]), hidden(), Some(sdd)).unwrap();
    assert!(a != c);
    assert!(matches!(a, OpaqueOr::Explicit(AesKey::Aes256(_))));
    let opaque_root: OpaqueOr<HmacKey> = OpaqueOr::Opaque(OpaqueKeyMaterial(vec![1]));
    assert!(matches!(
        derive_kek(&SoftHmac, &opaque_root, &kdi, chars(vec![]), hidden(), None),
        Err(Error::Hal(ErrorCode::IncompatibleKeyFormat))
    ));
}

#[test]
fn encrypt_then_decrypt_without_secure_storage() {
    let mut rng = CountingRng(0);
    let pkb = PlaintextKeyBlob { characteristics: chars(vec![]), key_material: aes_material(7) };
    let blob = encrypt::<MemorySecrets, _, _, _>(
        SecurityLevel::TrustedEnvironment,
        None,
        &SoftAes,
        &SoftHmac,
        &mut rng,
        &root_key(),
        b"ctx",
        pkb,
        hidden(),
        SlotPurpose::KeyGeneration,
    )
    .unwrap();
    assert_eq!(blob.secure_deletion_slot(), None);
    assert_eq!(blob.kek_context(), b"ctx");
    let data = blob.into_vec().unwrap();
    let parsed = EncryptedKeyBlob::new(&data).unwrap();
    let out = decrypt::<MemorySecrets, _, _>(None, &SoftAes, &SoftHmac, &root_key(), parsed, hidden()).unwrap();
    assert!(out.key_material == aes_material(7));
    assert_eq!(out.characteristics, chars(vec![]));
}

#[test]
fn decrypt_needs_the_same_hidden_parameters() {
    let mut rng = CountingRng(3);
    let pkb = PlaintextKeyBlob { characteristics: chars(vec![]), key_material: aes_material(7) };
    let blob = encrypt::<MemorySecrets, _, _, _>(
        SecurityLevel::TrustedEnvironment, None, &SoftAes, &SoftHmac, &mut rng, &root_key(), b"", pkb,
        hidden(), SlotPurpose::KeyImport,
    )
    .unwrap();
    let other = vec![KeyParam::ApplicationId(b"other".to_vec())];
    assert!(matches!(
        decrypt::<MemorySecrets, _, _>(None, &SoftAes, &SoftHmac, &root_key(), blob, other),
        Err(Error::Hal(ErrorCode::InvalidKeyBlob))
    ));
}

/// An AES implementation whose operations cannot be started.
struct RefusingAes;

impl Aes for RefusingAes {
    type AeadOp = SoftGcmOp;

    fn spec_aead_encrypt(&self, _key: KeyRepr<(AesVariant, Seq<u8>)>, _mode: GcmMode, _aad: Seq<u8>, _pt: Seq<u8>) -> Seq<u8> {
        unreachable!()
    }

    fn spec_aead_decrypt(&self, _key: KeyRepr<(AesVariant, Seq<u8>)>, _mode: GcmMode, _aad: Seq<u8>, _ct: Seq<u8>) -> Option<Seq<u8>> {
        unreachable!()
    }

    fn lemma_aead_decrypt_encrypt(&self, _key: KeyRepr<(AesVariant, Seq<u8>)>, _mode: GcmMode, _aad: Seq<u8>, _pt: Seq<u8>) {}

    fn begin_aead(&self, _key: OpaqueOr<AesKey>, _mode: GcmMode, _dir: SymmetricOperation) -> Result<SoftGcmOp, Error> {
        Err(Error::Hal(ErrorCode::UnknownError))
    }
}

#[test]
fn only_a_failed_tag_check_means_an_invalid_blob() {
    let mut rng = CountingRng(4);
    let pkb = PlaintextKeyBlob { characteristics: chars(vec![]), key_material: aes_material(9) };
    let blob = encrypt::<MemorySecrets, _, _, _>(
        SecurityLevel::TrustedEnvironment, None, &SoftAes, &SoftHmac, &mut rng, &root_key(), b"", pkb,
        hidden(), SlotPurpose::KeyImport,
    )
    .unwrap();
    assert!(matches!(
        decrypt::<MemorySecrets, _, _>(None, &RefusingAes, &SoftHmac, &root_key(), blob, hidden()),
        Err(Error::Hal(ErrorCode::UnknownError))
    ));
    let pkb = PlaintextKeyBlob { characteristics: chars(vec![]), key_material: aes_material(9) };
    assert!(matches!(
        encrypt::<MemorySecrets, _, _, _>(
            SecurityLevel::TrustedEnvironment, None, &RefusingAes, &SoftHmac, &mut rng, &root_key(), b"",
            pkb, hidden(), SlotPurpose::KeyImport,
        ),
        Err(Error::Hal(ErrorCode::UnknownError))
    ));
}

#[test]
fn encrypt_then_decrypt_with_factory_secret() {
    let mut rng = CountingRng(10);
    let mut mgr = MemorySecrets::default();
    let pkb = PlaintextKeyBlob {
        characteristics: chars(vec![]),
        key_material: KeyMaterial::Ec(EcCurve::Curve25519, CurveType::EdDsa, OpaqueOr::Explicit(EcKey::Ed25519(vec![5; 32]))),
    };
    let blob = encrypt(
        SecurityLevel::TrustedEnvironment, Some(&mut mgr), &SoftAes, &SoftHmac, &mut rng, &root_key(),
        b"", pkb, hidden(), SlotPurpose::KeyGeneration,
    )
    .unwrap();
    assert!(mgr.factory.is_some());
    assert_eq!(blob.secure_deletion_slot(), None);
    let out = decrypt(Some(&mgr), &SoftAes, &SoftHmac, &root_key(), blob, hidden()).unwrap();
    assert!(
        out.key_material
            == KeyMaterial::Ec(EcCurve::Curve25519, CurveType::EdDsa, OpaqueOr::Explicit(EcKey::Ed25519(vec![5; 32])))
    );
}

#[test]
fn rollback_resistant_keys_take_a_slot() {
    let mut rng = CountingRng(20);
    let mut mgr = MemorySecrets::default();
    let pkb = PlaintextKeyBlob { characteristics: chars(vec![KeyParam::RollbackResistance]), key_material: aes_material(2) };
    let blob = encrypt(
        SecurityLevel::TrustedEnvironment, Some(&mut mgr), &SoftAes, &SoftHmac, &mut rng, &root_key(),
        b"", pkb, hidden(), SlotPurpose::KeyGeneration,
    )
    .unwrap();
    assert_eq!(blob.secure_deletion_slot(), Some(SecureDeletionSlot(0)));
    let data = blob.into_vec().unwrap();
    let out = decrypt(Some(&mgr), &SoftAes, &SoftHmac, &root_key(), EncryptedKeyBlob::new(&data).unwrap(), hidden()).unwrap();
    assert!(out.key_material == aes_material(2));
    // Once the slot's secret is destroyed the blob cannot be decrypted.
    mgr.delete_secret(SecureDeletionSlot(0)).unwrap();
    assert!(matches!(
        decrypt(Some(&mgr), &SoftAes, &SoftHmac, &root_key(), EncryptedKeyBlob::new(&data).unwrap(), hidden()),
        Err(Error::Hal(ErrorCode::InvalidKeyBlob))
    ));
    // Without secure storage a blob with a slot is refused.
    assert!(matches!(
        decrypt::<MemorySecrets, _, _>(None, &SoftAes, &SoftHmac, &root_key(), EncryptedKeyBlob::new(&data).unwrap(), hidden()),
        Err(Error::Hal(ErrorCode::InvalidKeyBlob))
    ));
}

#[test]
fn rollback_resistance_needs_secure_storage() {
    let mut rng = CountingRng(0);
    let pkb = PlaintextKeyBlob { characteristics: chars(vec![KeyParam::UsageCountLimit(1)]), key_material: aes_material(2) };
    assert_eq!(
        encrypt::<MemorySecrets, _, _, _>(
            SecurityLevel::TrustedEnvironment, None, &SoftAes, &SoftHmac, &mut rng, &root_key(), b"", pkb,
            hidden(), SlotPurpose::KeyGeneration,
        ),
        Err(Error::Hal(ErrorCode::RollbackResistanceUnavailable))
    );
    let pkb = PlaintextKeyBlob { characteristics: chars(vec![]), key_material: aes_material(2) };
    assert_eq!(
        encrypt::<MemorySecrets, _, _, _>(
            SecurityLevel::Strongbox, None, &SoftAes, &SoftHmac, &mut rng, &root_key(), b"", pkb,
            hidden(), SlotPurpose::KeyGeneration,
        ),
        Err(Error::Hal(ErrorCode::InvalidKeyBlob))
    );
}

#[test]
fn failed_encryption_gives_the_slot_back() {
    let mut rng = CountingRng(0);
    let mut mgr = MemorySecrets::default();
    let pkb = PlaintextKeyBlob { characteristics: chars(vec![KeyParam::RollbackResistance]), key_material: aes_material(2) };
    let opaque_root: OpaqueOr<HmacKey> = OpaqueOr::Opaque(OpaqueKeyMaterial(vec![1]));
    assert_eq!(
        encrypt(
            SecurityLevel::TrustedEnvironment, Some(&mut mgr), &SoftAes, &SoftHmac, &mut rng, &opaque_root,
            b"", pkb, hidden(), SlotPurpose::KeyGeneration,
        ),
        Err(Error::Hal(ErrorCode::IncompatibleKeyFormat))
    );
    assert_eq!(mgr.slots.len(), 1);
    assert!(mgr.slots[0].is_none());
}

#[test]
fn slot_holder_keeps_or_frees_its_slot() {
    let mut rng = CountingRng(0);
    let mut mgr = MemorySecrets::default();
    let (holder, sdd) = SlotHolder::new(&mut mgr, &mut rng, SlotPurpose::KeyUpgrade).unwrap();
    assert!(mgr.get_secret(SecureDeletionSlot(0)) == Ok(sdd));
    assert_eq!(holder.consume(), SecureDeletionSlot(0));
    let (holder, _) = SlotHolder::new(&mut mgr, &mut rng, SlotPurpose::KeyUpgrade).unwrap();
    assert_eq!(holder.release(&mut mgr), Ok(()));
    assert!(mgr.get_secret(SecureDeletionSlot(1)).is_err());
    mgr.delete_all();
    assert!(mgr.get_secret(SecureDeletionSlot(0)).is_err());
}

#[test]
fn blob_parsing_errors() {
    assert_eq!(EncryptedKeyBlob::new(&[0xff]).unwrap_err(), Error::Hal(ErrorCode::InvalidKeyBlob));
    assert_eq!(EncryptedKeyBlob::from_slice(&[0x80]), Err(CborError::UnexpectedItem("array", "arr len 2")));
    assert_eq!(EncryptedKeyBlob::from_slice(&[0x82, 0x01, 0x80]), Err(CborError::NonEnumValue));
    assert_eq!(EncryptedKeyBlob::from_slice(&[0x82, 0x00, 0x80]), Err(CborError::UnexpectedItem("arr", "arr len 5")));
    assert_eq!(EncryptedKeyBlob::cddl_typename(), "EncryptedKeyBlob");
}

#[test]
fn timestamps_from_milliseconds() {
    assert_eq!(Timestamp::from(MillisecondsSinceEpoch(1234)), Timestamp { milliseconds: 1234 });
}

#[test]
fn secure_deletion_data_cbor_bytes() {
    let sdd = SecureDeletionData { factory_reset_secret: [1; 32], secure_deletion_secret: [2; 16] };
    let mut expected = vec![0x82, 0x58, 0x20];
    expected.extend([1u8; 32]);
    expected.push(0x50);
    expected.extend([2u8; 16]);
    assert_eq!(sdd.into_vec().unwrap(), expected);
}

#[test]
fn decryption_outcomes() {
    let material = aes_material(3).into_vec().unwrap();
    let (head, tail) = material.split_at(4);
    let pkb = plaintext_from_decryption(chars(vec![]), head.to_vec(), Ok(tail.to_vec())).unwrap();
    assert!(pkb.key_material == aes_material(3));
    assert!(matches!(
        plaintext_from_decryption(chars(vec![]), head.to_vec(), Err(Error::Hal(ErrorCode::UnknownError))),
        Err(Error::Hal(ErrorCode::InvalidKeyBlob))
    ));
    assert!(matches!(
        plaintext_from_decryption(chars(vec![]), head.to_vec(), Ok(vec![])),
        Err(Error::Cbor(CborError::DecodeFailed))
    ));
}

#[test]
fn decrypt_needs_the_secret_it_was_made_with() {
    let mut rng = CountingRng(30);
    let mut mgr = MemorySecrets::default();
    let pkb = PlaintextKeyBlob { characteristics: chars(vec![KeyParam::RollbackResistance]), key_material: aes_material(4) };
    let blob = encrypt(
        SecurityLevel::TrustedEnvironment, Some(&mut mgr), &SoftAes, &SoftHmac, &mut rng, &root_key(),
        b"", pkb, hidden(), SlotPurpose::KeyGeneration,
    )
    .unwrap();
    let slot = blob.secure_deletion_slot().unwrap();
    mgr.delete_secret(slot).unwrap();
    assert!(matches!(
        decrypt(Some(&mgr), &SoftAes, &SoftHmac, &root_key(), blob, hidden()),
        Err(Error::Hal(ErrorCode::InvalidKeyBlob))
    ));
    let pkb = PlaintextKeyBlob { characteristics: chars(vec![]), key_material: aes_material(4) };
    let mut other = MemorySecrets::default();
    let blob = encrypt(
        SecurityLevel::TrustedEnvironment, Some(&mut other), &SoftAes, &SoftHmac, &mut rng, &root_key(),
        b"", pkb, hidden(), SlotPurpose::KeyGeneration,
    )
    .unwrap();
    let empty = MemorySecrets::default();
    assert!(matches!(
        decrypt(Some(&empty), &SoftAes, &SoftHmac, &root_key(), blob, hidden()),
        Err(Error::Hal(ErrorCode::UnknownError))
    ));
}

#[test]
fn cose_header_and_aad_bytes() {
    let header = kmr_keyblob::cose::a256gcm_protected_header().unwrap();
    assert_eq!(header, vec![0xa1, 0x01, 0x03]);
    let mut expected = vec![0x83, 0x68];
    expected.extend(b"Encrypt0");
    expected.extend([0x43, 0xa1, 0x01, 0x03, 0x40]);
    assert_eq!(kmr_keyblob::cose::encrypt0_aad(&header), expected);
}

#[test]
fn key_derivation_input_is_drawn_from_the_random_source() {
    let mut rng = CountingRng(3);
    let pkb = PlaintextKeyBlob { characteristics: chars(vec![]), key_material: aes_material(1) };
    let blob = encrypt::<MemorySecrets, _, _, _>(
        SecurityLevel::TrustedEnvironment, None, &SoftAes, &SoftHmac, &mut rng, &root_key(), b"", pkb,
        hidden(), SlotPurpose::KeyImport,
    )
    .unwrap();
    let expected: Vec<u8> = (4u8..36).collect();
    match blob {
        EncryptedKeyBlob::V1(b) => assert_eq!(b.key_derivation_input.to_vec(), expected),
    }
}

#[test]
fn kdf_steps_pass_on_errors_and_collect_blocks() {
    assert_eq!(ckdf_absorb(vec![1], Ok(vec![2, 3])), Ok(vec![1, 2, 3]));
    assert_eq!(ckdf_absorb(vec![1], Err(Error::Alloc)), Err(Error::Alloc));
    assert_eq!(ckdf_fit(vec![1, 2, 3], 2), Ok(vec![1, 2]));
    assert_eq!(ckdf_fit(vec![1, 2, 3], 3), Ok(vec![1, 2, 3]));
    assert_eq!(ckdf_fit(vec![1, 2, 3], 4), Err(Error::Hal(ErrorCode::InvalidArgument)));
    assert_eq!(hkdf_absorb(vec![9], Ok(vec![4, 5])), Ok((vec![4, 5], vec![9, 4, 5])));
    assert_eq!(hkdf_absorb(vec![9], Err(Error::Alloc)), Err(Error::Alloc));
}

#[test]
fn sealing_a_blob() {
    let blob = seal_blob(chars(vec![]), [7; 32], b"ctx", vec![0xa1, 1, 3], vec![1, 2], Ok(vec![3])).unwrap();
    assert_eq!(blob.encrypted_key_material.ciphertext, Some(vec![1, 2, 3]));
    assert_eq!(blob.encrypted_key_material.protected, vec![0xa1, 1, 3]);
    assert_eq!(blob.kek_context, b"ctx".to_vec());
    assert_eq!(blob.secure_deletion_slot, None);
    assert!(matches!(
        seal_blob(chars(vec![]), [7; 32], b"", vec![], vec![], Err(Error::Hal(ErrorCode::UnknownError))),
        Err(Error::Hal(ErrorCode::UnknownError))
    ));
}

#[test]
fn kek_info_layout() {
    let info = kek_info_bytes(&[5; 32], vec![], vec![], None);
    assert_eq!(info[..32], [5u8; 32]);
    assert_eq!(info[32..], [0x80, 0x80]);
    let sdd = SecureDeletionData { factory_reset_secret: [1; 32], secure_deletion_secret: [2; 16] };
    let with_sdd = kek_info_bytes(&[5; 32], vec![], vec![], Some(sdd.clone()));
    assert_eq!(with_sdd[..34], info[..]);
    assert_eq!(with_sdd[34..], sdd.into_vec().unwrap()[..]);
}

#[test]
fn other_tags_are_read_by_their_type() {
    let pair = |tag: i128, v: CborValue| CborValue::Array(vec![CborValue::Integer(tag), v]);
    let cases = vec![
        (pair(536870916, CborValue::Integer(1)), KeyParam::Other(536870916, TagValue::Int(1))),
        (pair(268436158, CborValue::Integer(0)), KeyParam::Other(268436158, TagValue::Int(0))),
        (pair(805306873, CborValue::Integer(300)), KeyParam::Other(805306873, TagValue::Uint(300))),
        (pair(1879048199, CborValue::Bool(true)), KeyParam::Other(1879048199, TagValue::True)),
        (pair(-1879047484, CborValue::Bytes(vec![1, 2])), KeyParam::Other(-1879047484, TagValue::Bytes(vec![1, 2]))),
        (pair(1610613136, CborValue::Integer(-5)), KeyParam::Other(1610613136, TagValue::Int(-5))),
        (pair(0x5000_0001, CborValue::Integer(u64::MAX as i128)), KeyParam::Other(0x5000_0001, TagValue::Uint(u64::MAX))),
    ];
    for (item, want) in cases {
        let got = KeyParam::from_cbor_value(item).unwrap();
        assert_eq!(got, want);
        assert_eq!(KeyParam::from_cbor_value(got.to_cbor_value()), Ok(want));
    }
    assert_eq!(KeyParam::from_cbor_value(pair(5, CborValue::Integer(1))), Err(CborError::NonEnumValue));
    assert_eq!(
        KeyParam::from_cbor_value(pair(805306873, CborValue::Integer(-1))),
        Err(CborError::OutOfRangeIntegerValue)
    );
    assert_eq!(
        KeyParam::from_cbor_value(pair(1879048199, CborValue::Integer(1))),
        Err(CborError::UnexpectedItem("int", "bool"))
    );
}
