//! Key material and the types around it, with the CBOR form in which key
//! material is stored.
use vstd::prelude::*;
use crate::cbor::{
    cbor_type_error, decode_exact, cbor_encoding, from_slice, lemma_terms_of, term_in_range, term_plain,
    term_plain_within,
    terms_of, to_vec, type_error, CborError, CborTerm, CborValue,
};
use crate::error::{Error, ErrorCode};
use crate::keymint::{
    algorithm_code, ec_curve_code, mldsa_variant_code, spec_bytes_from, spec_ec_curve_from,
    spec_i32_from, spec_mldsa_variant_from, bytes_from_cbor, i32_from_cbor, Algorithm, EcCurve,
    MlDsaVariant,
};

verus! {

/// Length of a SHA-256 digest in bytes.
pub const SHA256_DIGEST_LEN: usize = 32;

/// Length of an AES-256 key in bytes.
pub const AES_256_KEY_LENGTH: usize = 32;

/// Length of an ML-DSA-65 private key in bytes.
pub const MLDSA65_PRIVATE_KEY_LEN: usize = 4032;

/// Length of an ML-DSA-87 private key in bytes.
pub const MLDSA87_PRIVATE_KEY_LEN: usize = 4896;

/// Copy a slice into a new vector.
pub fn try_to_vec(s: &[u8]) -> (r: Result<Vec<u8>, CborError>)
    ensures
        r matches Ok(v) && v@ == s@,
{
    Ok(copy_bytes(s))
}

/// Copy a slice into a new vector.
pub fn copy_bytes(s: &[u8]) -> (v: Vec<u8>)
    ensures
        v@ == s@,
{
    let mut v: Vec<u8> = Vec::with_capacity(s.len());
    let mut i: usize = 0;
    while i < s.len()
        invariant
            i <= s@.len(),
            v@ == s@.subrange(0, i as int),
        decreases s@.len() - i,
    {
        v.push(s[i]);
        i = i + 1;
    }
    v
}

/// Append the bytes of a slice to a vector.
pub fn extend_bytes(v: &mut Vec<u8>, s: &[u8])
    ensures
        final(v)@ == old(v)@ + s@,
{
    let ghost start = v@;
    let mut i: usize = 0;
    while i < s.len()
        invariant
            i <= s@.len(),
            v@ == start + s@.subrange(0, i as int),
        decreases s@.len() - i,
    {
        v.push(s[i]);
        i = i + 1;
        proof {
            assert(s@.subrange(0, i as int) =~= s@.subrange(0, i - 1) + seq![s@[i - 1]]);
        }
    }
    proof {
        assert(s@.subrange(0, s@.len() as int) =~= s@);
    }
}

/// A point in time, in milliseconds since the Unix epoch.
#[derive(Clone, Copy, Debug, PartialEq, Eq, Structural)]
pub struct MillisecondsSinceEpoch(pub i64);

/// A secure-clock timestamp.
#[derive(Clone, Copy, Debug, PartialEq, Eq, Structural)]
pub struct Timestamp {
    pub milliseconds: i64,
}

impl From<MillisecondsSinceEpoch> for Timestamp {
    fn from(value: MillisecondsSinceEpoch) -> (r: Timestamp) {
        Timestamp { milliseconds: value.0 }
    }
}

impl vstd::std_specs::convert::FromSpecImpl<MillisecondsSinceEpoch> for Timestamp {
    open spec fn obeys_from_spec() -> bool {
        true
    }

    open spec fn from_spec(v: MillisecondsSinceEpoch) -> Timestamp {
        Timestamp { milliseconds: v.0 }
    }
}

/// The families of elliptic curves.
#[derive(Clone, Copy, Debug, PartialEq, Eq, Structural)]
pub enum CurveType {
    Nist,
    EdDsa,
    Xdh,
}

/// The number that stands for a curve family.
pub open spec fn curve_type_code(c: CurveType) -> int {
    match c {
        CurveType::Nist => 0,
        CurveType::EdDsa => 1,
        CurveType::Xdh => 2,
    }
}

/// The curve family that a number stands for.
pub open spec fn curve_type_from_code(i: int) -> Option<CurveType> {
    if i == 0 {
        Some(CurveType::Nist)
    } else if i == 1 {
        Some(CurveType::EdDsa)
    } else if i == 2 {
        Some(CurveType::Xdh)
    } else {
        None
    }
}

/// What reading a curve family out of a data item gives.
pub open spec fn spec_curve_type_from(t: CborTerm) -> Result<CurveType, CborError> {
    match spec_i32_from(t, "int") {
        Err(e) => Err(e),
        Ok(i) => match curve_type_from_code(i) {
            Some(c) => Ok(c),
            None => Err(CborError::NonEnumValue),
        },
    }
}

impl CurveType {
    /// The number that stands for the curve family.
    pub fn code(self) -> (r: i32)
        ensures
            r == curve_type_code(self),
    {
        match self {
            CurveType::Nist => 0,
            CurveType::EdDsa => 1,
            CurveType::Xdh => 2,
        }
    }

    /// The curve family that a number stands for.
    pub fn n(i: i32) -> (r: Option<CurveType>)
        ensures
            r == curve_type_from_code(i as int),
    {
        if i == 0 {
            Some(CurveType::Nist)
        } else if i == 1 {
            Some(CurveType::EdDsa)
        } else if i == 2 {
            Some(CurveType::Xdh)
        } else {
            None
        }
    }

    /// The data item for the curve family.
    pub fn to_cbor_value(self) -> (r: CborValue)
        ensures
            r@ == CborTerm::Integer(curve_type_code(self)),
    {
        CborValue::Integer(self.code() as i128)
    }

    /// Read a curve family out of a data item.
    pub fn from_cbor_value(v: CborValue) -> (r: Result<CurveType, CborError>)
        ensures
            r == spec_curve_type_from(v@),
    {
        let i = i32_from_cbor(v, "int")?;
        match CurveType::n(i) {
            Some(c) => Ok(c),
            None => Err(CborError::NonEnumValue),
        }
    }
}

/// The direction of a symmetric cipher operation.
#[derive(Clone, Copy, Debug, PartialEq, Eq, Structural)]
pub enum SymmetricOperation {
    Encrypt,
    Decrypt,
}

/// The NIST elliptic curves.
#[derive(Clone, Copy, Debug, PartialEq, Eq, Structural)]
pub enum NistCurve {
    P224,
    P256,
    P384,
    P521,
}

/// What key generation is asked to make: key sizes in bits, and for RSA
/// the public exponent.
#[derive(Clone, Copy, Debug, PartialEq, Eq, Structural)]
pub enum KeyGenInfo {
    Aes(AesVariant),
    TripleDes,
    Hmac(u32),
    Rsa(u32, u64),
    NistEc(NistCurve),
    Ed25519,
    X25519,
    MlDsa(MlDsaVariant),
}

/// The modes of AES-GCM, by tag length in bytes, with the nonce.
#[derive(Clone, Copy, Debug, PartialEq, Eq)]
pub enum GcmMode {
    GcmTag12 { nonce: [u8; 12] },
    GcmTag13 { nonce: [u8; 12] },
    GcmTag14 { nonce: [u8; 12] },
    GcmTag15 { nonce: [u8; 12] },
    GcmTag16 { nonce: [u8; 12] },
}

/// An AEAD computation in progress: additional data, then input, fed a
/// piece at a time; output is given out as it is made.
pub trait AadOperation {
    /// The additional authenticated data fed in so far.
    spec fn spec_aad(&self) -> Seq<u8>;

    /// The input fed in so far.
    spec fn spec_input(&self) -> Seq<u8>;

    /// The output given out so far.
    spec fn spec_emitted(&self) -> Seq<u8>;

    /// The whole output once `aad` and `input` have been fed in, or `None`
    /// where it would be refused (a tag that does not verify).
    spec fn spec_result_for(&self, aad: Seq<u8>, input: Seq<u8>) -> Option<Seq<u8>>;

    /// Feed in more additional data.
    fn update_aad(&mut self, aad: &[u8]) -> (r: Result<(), Error>)
        ensures
            forall|a: Seq<u8>, d: Seq<u8>|
                #[trigger] final(self).spec_result_for(a, d) == old(self).spec_result_for(a, d),
            r is Ok ==> {
                &&& final(self).spec_aad() == old(self).spec_aad() + aad@
                &&& final(self).spec_input() == old(self).spec_input()
                &&& final(self).spec_emitted() == old(self).spec_emitted()
            },
    ;

    /// Feed in more input, giving out the output that is ready.
    fn update(&mut self, data: &[u8]) -> (r: Result<Vec<u8>, Error>)
        ensures
            forall|a: Seq<u8>, d: Seq<u8>|
                #[trigger] final(self).spec_result_for(a, d) == old(self).spec_result_for(a, d),
            r matches Ok(out) ==> {
                &&& final(self).spec_aad() == old(self).spec_aad()
                &&& final(self).spec_input() == old(self).spec_input() + data@
                &&& final(self).spec_emitted() == old(self).spec_emitted() + out@
            },
    ;

    /// Finish, giving out the rest of the output.
    fn finish(self) -> (r: Result<Vec<u8>, Error>)
        ensures
            r matches Ok(out) ==> self.spec_result_for(self.spec_aad(), self.spec_input())
                == Some(self.spec_emitted() + out@),
    ;
}

/// An AES implementation, supplied by the device.
pub trait Aes {
    /// The AEAD operations that this implementation runs.
    type AeadOp: AadOperation;

    /// The ciphertext (with its tag) that AEAD encryption of `pt` makes.
    spec fn spec_aead_encrypt(&self, key: KeyRepr<(AesVariant, Seq<u8>)>, mode: GcmMode, aad: Seq<u8>, pt: Seq<u8>) -> Seq<u8>;

    /// The plaintext that AEAD decryption of `ct` gives, or `None` where the
    /// tag does not verify.
    spec fn spec_aead_decrypt(&self, key: KeyRepr<(AesVariant, Seq<u8>)>, mode: GcmMode, aad: Seq<u8>, ct: Seq<u8>) -> Option<Seq<u8>>;

    /// Start encrypting or decrypting with AES-GCM.
    fn begin_aead(&self, key: OpaqueOr<AesKey>, mode: GcmMode, dir: SymmetricOperation) -> (r: Result<Self::AeadOp, Error>)
        ensures
            r matches Ok(op) ==> {
                &&& op.spec_aad() == Seq::<u8>::empty()
                &&& op.spec_input() == Seq::<u8>::empty()
                &&& op.spec_emitted() == Seq::<u8>::empty()
                &&& forall|a: Seq<u8>, d: Seq<u8>|
                    #[trigger] op.spec_result_for(a, d) == match dir {
                        SymmetricOperation::Encrypt => Some(self.spec_aead_encrypt(key@, mode, a, d)),
                        SymmetricOperation::Decrypt => self.spec_aead_decrypt(key@, mode, a, d),
                    }
            },
    ;

    /// Decryption gives back what encryption was given, under the same key,
    /// mode and additional data.
    proof fn lemma_aead_decrypt_encrypt(&self, key: KeyRepr<(AesVariant, Seq<u8>)>, mode: GcmMode, aad: Seq<u8>, pt: Seq<u8>)
        ensures
            self.spec_aead_decrypt(key, mode, aad, self.spec_aead_encrypt(key, mode, aad, pt)) == Some(pt),
    ;
}

/// Key material in the clear.
#[derive(PartialEq, Eq)]
pub struct RawKeyMaterial(pub Vec<u8>);

/// Key material that only the hardware can use.
#[derive(Clone, PartialEq, Eq)]
pub struct OpaqueKeyMaterial(pub Vec<u8>);

impl View for OpaqueKeyMaterial {
    type V = Seq<u8>;

    open spec fn view(&self) -> Seq<u8> {
        self.0@
    }
}

/// The model of a key that is either held in the clear or opaque.
pub enum KeyRepr<K> {
    Explicit(K),
    Opaque(Seq<u8>),
}

/// A key that is either held in the clear or opaque.
#[derive(Clone, PartialEq, Eq)]
pub enum OpaqueOr<T> {
    Explicit(T),
    Opaque(OpaqueKeyMaterial),
}

impl<T: View> View for OpaqueOr<T> {
    type V = KeyRepr<T::V>;

    open spec fn view(&self) -> KeyRepr<T::V> {
        match self {
            OpaqueOr::Explicit(k) => KeyRepr::Explicit(k@),
            OpaqueOr::Opaque(o) => KeyRepr::Opaque(o@),
        }
    }
}

impl<T> From<OpaqueKeyMaterial> for OpaqueOr<T> {
    fn from(k: OpaqueKeyMaterial) -> (r: OpaqueOr<T>) {
        OpaqueOr::Opaque(k)
    }
}

impl<T> vstd::std_specs::convert::FromSpecImpl<OpaqueKeyMaterial> for OpaqueOr<T> {
    open spec fn obeys_from_spec() -> bool {
        true
    }

    open spec fn from_spec(v: OpaqueKeyMaterial) -> OpaqueOr<T> {
        OpaqueOr::Opaque(v)
    }
}

/// Sizes of AES keys.
#[derive(Clone, Copy, Debug, PartialEq, Eq, Structural)]
pub enum AesVariant {
    Aes128,
    Aes192,
    Aes256,
}

/// The length in bytes of an AES key of the given size.
pub open spec fn aes_key_len(v: AesVariant) -> nat {
    match v {
        AesVariant::Aes128 => 16,
        AesVariant::Aes192 => 24,
        AesVariant::Aes256 => 32,
    }
}

/// The AES key size, if any, whose keys are `len` bytes long.
pub open spec fn aes_variant_for_len(len: nat) -> Option<AesVariant> {
    if len == 16 {
        Some(AesVariant::Aes128)
    } else if len == 24 {
        Some(AesVariant::Aes192)
    } else if len == 32 {
        Some(AesVariant::Aes256)
    } else {
        None
    }
}

impl AesVariant {
    /// The length in bytes of keys of this size.
    pub fn key_size(self) -> (r: usize)
        ensures
            r == aes_key_len(self),
    {
        match self {
            AesVariant::Aes128 => 16,
            AesVariant::Aes192 => 24,
            AesVariant::Aes256 => 32,
        }
    }
}

/// An AES key.
#[derive(Clone, PartialEq, Eq)]
pub enum AesKey {
    Aes128(Vec<u8>),
    Aes192(Vec<u8>),
    Aes256(Vec<u8>),
}

impl View for AesKey {
    type V = (AesVariant, Seq<u8>);

    open spec fn view(&self) -> (AesVariant, Seq<u8>) {
        match self {
            AesKey::Aes128(k) => (AesVariant::Aes128, k@),
            AesKey::Aes192(k) => (AesVariant::Aes192, k@),
            AesKey::Aes256(k) => (AesVariant::Aes256, k@),
        }
    }
}

impl AesKey {
    /// A copy of the key.
    pub fn duplicate(&self) -> (r: AesKey)
        ensures
            r@ == self@,
    {
        match self {
            AesKey::Aes128(k) => AesKey::Aes128(copy_bytes(k.as_slice())),
            AesKey::Aes192(k) => AesKey::Aes192(copy_bytes(k.as_slice())),
            AesKey::Aes256(k) => AesKey::Aes256(copy_bytes(k.as_slice())),
        }
    }

    /// Make an AES key of the size that `data` has.
    pub fn new(data: Vec<u8>) -> (r: Result<AesKey, Error>)
        ensures
            match aes_variant_for_len(data@.len()) {
                Some(v) => r matches Ok(k) && k@ == (v, data@),
                None => r == Err::<AesKey, Error>(Error::Hal(ErrorCode::UnsupportedKeySize)),
            },
    {
        let len = data.len();
        if len == 16 {
            Ok(AesKey::Aes128(data))
        } else if len == 24 {
            Ok(AesKey::Aes192(data))
        } else if len == 32 {
            Ok(AesKey::Aes256(data))
        } else {
            Err(Error::Hal(ErrorCode::UnsupportedKeySize))
        }
    }
}

impl From<AesKey> for OpaqueOr<AesKey> {
    fn from(k: AesKey) -> (r: OpaqueOr<AesKey>) {
        OpaqueOr::Explicit(k)
    }
}

impl vstd::std_specs::convert::FromSpecImpl<AesKey> for OpaqueOr<AesKey> {
    open spec fn obeys_from_spec() -> bool {
        true
    }

    open spec fn from_spec(v: AesKey) -> OpaqueOr<AesKey> {
        OpaqueOr::Explicit(v)
    }
}

/// A triple-DES key.
#[derive(Clone, PartialEq, Eq)]
pub struct DesKey(pub Vec<u8>);

impl View for DesKey {
    type V = Seq<u8>;

    open spec fn view(&self) -> Seq<u8> {
        self.0@
    }
}

impl From<DesKey> for OpaqueOr<DesKey> {
    fn from(k: DesKey) -> (r: OpaqueOr<DesKey>) {
        OpaqueOr::Explicit(k)
    }
}

impl vstd::std_specs::convert::FromSpecImpl<DesKey> for OpaqueOr<DesKey> {
    open spec fn obeys_from_spec() -> bool {
        true
    }

    open spec fn from_spec(v: DesKey) -> OpaqueOr<DesKey> {
        OpaqueOr::Explicit(v)
    }
}

/// An HMAC key.
#[derive(Clone, PartialEq, Eq)]
pub struct HmacKey(pub Vec<u8>);

impl View for HmacKey {
    type V = Seq<u8>;

    open spec fn view(&self) -> Seq<u8> {
        self.0@
    }
}

impl HmacKey {
    /// Make an HMAC key from its bytes.
    pub fn new(data: Vec<u8>) -> (r: HmacKey)
        ensures
            r@ == data@,
    {
        HmacKey(data)
    }
}

impl From<HmacKey> for OpaqueOr<HmacKey> {
    fn from(k: HmacKey) -> (r: OpaqueOr<HmacKey>) {
        OpaqueOr::Explicit(k)
    }
}

impl vstd::std_specs::convert::FromSpecImpl<HmacKey> for OpaqueOr<HmacKey> {
    open spec fn obeys_from_spec() -> bool {
        true
    }

    open spec fn from_spec(v: HmacKey) -> OpaqueOr<HmacKey> {
        OpaqueOr::Explicit(v)
    }
}

/// An RSA private key, DER-encoded.
#[derive(Clone, PartialEq, Eq)]
pub struct RsaKey(pub Vec<u8>);

impl View for RsaKey {
    type V = Seq<u8>;

    open spec fn view(&self) -> Seq<u8> {
        self.0@
    }
}

impl From<RsaKey> for OpaqueOr<RsaKey> {
    fn from(k: RsaKey) -> (r: OpaqueOr<RsaKey>) {
        OpaqueOr::Explicit(k)
    }
}

impl vstd::std_specs::convert::FromSpecImpl<RsaKey> for OpaqueOr<RsaKey> {
    open spec fn obeys_from_spec() -> bool {
        true
    }

    open spec fn from_spec(v: RsaKey) -> OpaqueOr<RsaKey> {
        OpaqueOr::Explicit(v)
    }
}

/// The kinds of elliptic-curve private key.
#[derive(Clone, Copy, Debug, PartialEq, Eq, Structural)]
pub enum EcKeyKind {
    P224,
    P256,
    P384,
    P521,
    Ed25519,
    X25519,
}

/// An elliptic-curve private key.
#[derive(Clone, PartialEq, Eq)]
pub enum EcKey {
    P224(Vec<u8>),
    P256(Vec<u8>),
    P384(Vec<u8>),
    P521(Vec<u8>),
    Ed25519(Vec<u8>),
    X25519(Vec<u8>),
}

impl View for EcKey {
    type V = (EcKeyKind, Seq<u8>);

    open spec fn view(&self) -> (EcKeyKind, Seq<u8>) {
        match self {
            EcKey::P224(k) => (EcKeyKind::P224, k@),
            EcKey::P256(k) => (EcKeyKind::P256, k@),
            EcKey::P384(k) => (EcKeyKind::P384, k@),
            EcKey::P521(k) => (EcKeyKind::P521, k@),
            EcKey::Ed25519(k) => (EcKeyKind::Ed25519, k@),
            EcKey::X25519(k) => (EcKeyKind::X25519, k@),
        }
    }
}

impl EcKey {
    /// The bytes of the private key.
    pub fn private_key_bytes(&self) -> (r: &[u8])
        ensures
            r@ == self@.1,
    {
        match self {
            EcKey::P224(k) => k.as_slice(),
            EcKey::P256(k) => k.as_slice(),
            EcKey::P384(k) => k.as_slice(),
            EcKey::P521(k) => k.as_slice(),
            EcKey::Ed25519(k) => k.as_slice(),
            EcKey::X25519(k) => k.as_slice(),
        }
    }
}

impl From<EcKey> for OpaqueOr<EcKey> {
    fn from(k: EcKey) -> (r: OpaqueOr<EcKey>) {
        OpaqueOr::Explicit(k)
    }
}

impl vstd::std_specs::convert::FromSpecImpl<EcKey> for OpaqueOr<EcKey> {
    open spec fn obeys_from_spec() -> bool {
        true
    }

    open spec fn from_spec(v: EcKey) -> OpaqueOr<EcKey> {
        OpaqueOr::Explicit(v)
    }
}

/// An ML-DSA private key.
#[derive(Clone, PartialEq, Eq)]
pub enum MlDsaKey {
    MlDsa65(Vec<u8>),
    MlDsa87(Vec<u8>),
}

impl View for MlDsaKey {
    type V = (MlDsaVariant, Seq<u8>);

    open spec fn view(&self) -> (MlDsaVariant, Seq<u8>) {
        match self {
            MlDsaKey::MlDsa65(k) => (MlDsaVariant::MlDsa65, k@),
            MlDsaKey::MlDsa87(k) => (MlDsaVariant::MlDsa87, k@),
        }
    }
}

impl MlDsaKey {
    /// The bytes of the private key.
    pub fn private_key_bytes(&self) -> (r: &[u8])
        ensures
            r@ == self@.1,
    {
        match self {
            MlDsaKey::MlDsa65(k) => k.as_slice(),
            MlDsaKey::MlDsa87(k) => k.as_slice(),
        }
    }
}

impl From<MlDsaKey> for OpaqueOr<MlDsaKey> {
    fn from(k: MlDsaKey) -> (r: OpaqueOr<MlDsaKey>) {
        OpaqueOr::Explicit(k)
    }
}

impl vstd::std_specs::convert::FromSpecImpl<MlDsaKey> for OpaqueOr<MlDsaKey> {
    open spec fn obeys_from_spec() -> bool {
        true
    }

    open spec fn from_spec(v: MlDsaKey) -> OpaqueOr<MlDsaKey> {
        OpaqueOr::Explicit(v)
    }
}

/// The length of a private key of an ML-DSA parameter set.
pub open spec fn mldsa_key_len(v: MlDsaVariant) -> nat {
    match v {
        MlDsaVariant::MlDsa65 => MLDSA65_PRIVATE_KEY_LEN as nat,
        MlDsaVariant::MlDsa87 => MLDSA87_PRIVATE_KEY_LEN as nat,
    }
}

/// The model of key material.
pub enum KeyMaterialModel {
    Aes(KeyRepr<(AesVariant, Seq<u8>)>),
    TripleDes(KeyRepr<Seq<u8>>),
    Hmac(KeyRepr<Seq<u8>>),
    Rsa(KeyRepr<Seq<u8>>),
    Ec(EcCurve, CurveType, KeyRepr<(EcKeyKind, Seq<u8>)>),
    MlDsa(MlDsaVariant, KeyRepr<(MlDsaVariant, Seq<u8>)>),
}

/// Key material of any algorithm.
#[derive(Clone, PartialEq, Eq)]
pub enum KeyMaterial {
    Aes(OpaqueOr<AesKey>),
    TripleDes(OpaqueOr<DesKey>),
    Hmac(OpaqueOr<HmacKey>),
    Rsa(OpaqueOr<RsaKey>),
    Ec(EcCurve, CurveType, OpaqueOr<EcKey>),
    MlDsa(MlDsaVariant, OpaqueOr<MlDsaKey>),
}

impl View for KeyMaterial {
    type V = KeyMaterialModel;

    open spec fn view(&self) -> KeyMaterialModel {
        match self {
            KeyMaterial::Aes(k) => KeyMaterialModel::Aes(k@),
            KeyMaterial::TripleDes(k) => KeyMaterialModel::TripleDes(k@),
            KeyMaterial::Hmac(k) => KeyMaterialModel::Hmac(k@),
            KeyMaterial::Rsa(k) => KeyMaterialModel::Rsa(k@),
            KeyMaterial::Ec(c, t, k) => KeyMaterialModel::Ec(*c, *t, k@),
            KeyMaterial::MlDsa(v, k) => KeyMaterialModel::MlDsa(*v, k@),
        }
    }
}

/// Whether key material of this model is for an asymmetric algorithm.
pub open spec fn spec_is_asymmetric(m: KeyMaterialModel) -> bool {
    match m {
        KeyMaterialModel::Aes(_) | KeyMaterialModel::TripleDes(_) | KeyMaterialModel::Hmac(_) => false,
        _ => true,
    }
}

/// The kind of explicit EC key that a curve of a family holds, if the pair
/// is one that keys exist for.
pub open spec fn ec_key_kind_for(curve: EcCurve, curve_type: CurveType) -> Option<EcKeyKind> {
    match (curve, curve_type) {
        (EcCurve::P224, CurveType::Nist) => Some(EcKeyKind::P224),
        (EcCurve::P256, CurveType::Nist) => Some(EcKeyKind::P256),
        (EcCurve::P384, CurveType::Nist) => Some(EcKeyKind::P384),
        (EcCurve::P521, CurveType::Nist) => Some(EcKeyKind::P521),
        (EcCurve::Curve25519, CurveType::EdDsa) => Some(EcKeyKind::Ed25519),
        (EcCurve::Curve25519, CurveType::Xdh) => Some(EcKeyKind::X25519),
        _ => None,
    }
}

/// Whether an explicit EC key is one that its curve and family can hold.
pub open spec fn ec_key_valid(curve: EcCurve, curve_type: CurveType, k: (EcKeyKind, Seq<u8>)) -> bool {
    &&& ec_key_kind_for(curve, curve_type) == Some(k.0)
    &&& (k.0 == EcKeyKind::Ed25519 || k.0 == EcKeyKind::X25519) ==> k.1.len() == 32
}

/// Whether key material is well formed: every key held in the clear has
/// the length its algorithm asks for and agrees with the curve or
/// parameter set stored beside it.
pub open spec fn key_material_valid(m: KeyMaterialModel) -> bool {
    match m {
        KeyMaterialModel::Aes(KeyRepr::Explicit(k)) => k.1.len() == aes_key_len(k.0),
        KeyMaterialModel::TripleDes(KeyRepr::Explicit(k)) => k.len() == 24,
        KeyMaterialModel::Ec(c, t, KeyRepr::Explicit(k)) => ec_key_valid(c, t, k),
        KeyMaterialModel::MlDsa(v, KeyRepr::Explicit(k)) => k.0 == v && k.1.len() == mldsa_key_len(v),
        _ => true,
    }
}

/// Whether a key is opaque.
pub open spec fn repr_is_opaque<K>(r: KeyRepr<K>) -> bool {
    r is Opaque
}

/// The three-item array in which key material is stored.
pub open spec fn key_item(algo: Algorithm, opaque: bool, inner: CborTerm) -> CborTerm {
    CborTerm::Array(seq![CborTerm::Integer(algorithm_code(algo)), CborTerm::Bool(opaque), inner])
}

/// The bytes stored for a key that has no further structure.
pub open spec fn repr_bytes<K>(r: KeyRepr<K>, key_bytes: spec_fn(K) -> Seq<u8>) -> Seq<u8> {
    match r {
        KeyRepr::Explicit(k) => key_bytes(k),
        KeyRepr::Opaque(b) => b,
    }
}

/// The data item in which key material is stored.
pub open spec fn key_material_term(m: KeyMaterialModel) -> CborTerm {
    match m {
        KeyMaterialModel::Aes(r) => key_item(
            Algorithm::Aes,
            repr_is_opaque(r),
            CborTerm::Bytes(repr_bytes(r, |k: (AesVariant, Seq<u8>)| k.1)),
        ),
        KeyMaterialModel::TripleDes(r) => key_item(
            Algorithm::TripleDes,
            repr_is_opaque(r),
            CborTerm::Bytes(repr_bytes(r, |k: Seq<u8>| k)),
        ),
        KeyMaterialModel::Hmac(r) => key_item(
            Algorithm::Hmac,
            repr_is_opaque(r),
            CborTerm::Bytes(repr_bytes(r, |k: Seq<u8>| k)),
        ),
        KeyMaterialModel::Rsa(r) => key_item(
            Algorithm::Rsa,
            repr_is_opaque(r),
            CborTerm::Bytes(repr_bytes(r, |k: Seq<u8>| k)),
        ),
        KeyMaterialModel::Ec(c, t, r) => key_item(
            Algorithm::Ec,
            repr_is_opaque(r),
            CborTerm::Array(
                seq![
                    CborTerm::Integer(ec_curve_code(c)),
                    CborTerm::Integer(curve_type_code(t)),
                    CborTerm::Bytes(repr_bytes(r, |k: (EcKeyKind, Seq<u8>)| k.1)),
                ],
            ),
        ),
        KeyMaterialModel::MlDsa(v, r) => key_item(
            Algorithm::MlDsa,
            repr_is_opaque(r),
            CborTerm::Array(
                seq![
                    CborTerm::Integer(mldsa_variant_code(v)),
                    CborTerm::Bytes(repr_bytes(r, |k: (MlDsaVariant, Seq<u8>)| k.1)),
                ],
            ),
        ),
    }
}

/// The explicit EC key of a curve and family, read from its bytes.
pub open spec fn spec_ec_key_from(curve: EcCurve, curve_type: CurveType, raw: Seq<u8>) -> Result<(EcKeyKind, Seq<u8>), CborError> {
    match ec_key_kind_for(curve, curve_type) {
        None => Err(CborError::NonEnumValue),
        Some(kind) => if (kind == EcKeyKind::Ed25519 || kind == EcKeyKind::X25519) && raw.len() != 32 {
            Err(CborError::OutOfRangeIntegerValue)
        } else {
            Ok((kind, raw))
        },
    }
}

/// What reading the key of an EC key item out of its inner data item gives.
pub open spec fn spec_ec_material_from(opaque: bool, inner: CborTerm) -> Result<KeyMaterialModel, CborError> {
    match inner {
        CborTerm::Array(b) if b.len() == 3 => match spec_bytes_from(b[2]) {
            Err(e) => Err(e),
            Ok(raw) => match spec_curve_type_from(b[1]) {
                Err(e) => Err(e),
                Ok(t) => match spec_ec_curve_from(b[0]) {
                    Err(e) => Err(e),
                    Ok(c) => if opaque {
                        Ok(KeyMaterialModel::Ec(c, t, KeyRepr::Opaque(raw)))
                    } else {
                        match spec_ec_key_from(c, t, raw) {
                            Err(e) => Err(e),
                            Ok(k) => Ok(KeyMaterialModel::Ec(c, t, KeyRepr::Explicit(k))),
                        }
                    },
                },
            },
        },
        _ => Err(type_error(inner, "arr len 3")),
    }
}

/// What reading the key of an ML-DSA key item out of its inner data item
/// gives.
pub open spec fn spec_mldsa_material_from(opaque: bool, inner: CborTerm) -> Result<KeyMaterialModel, CborError> {
    match inner {
        CborTerm::Array(b) if b.len() == 2 => match spec_bytes_from(b[1]) {
            Err(e) => Err(e),
            Ok(raw) => match spec_mldsa_variant_from(b[0]) {
                Err(e) => Err(e),
                Ok(v) => if opaque {
                    Ok(KeyMaterialModel::MlDsa(v, KeyRepr::Opaque(raw)))
                } else if raw.len() == mldsa_key_len(v) {
                    Ok(KeyMaterialModel::MlDsa(v, KeyRepr::Explicit((v, raw))))
                } else {
                    Err(CborError::InvalidValue)
                },
            },
        },
        _ => Err(type_error(inner, "arr len 2")),
    }
}

/// What reading key material of the given algorithm number out of the
/// third item of its array gives.
pub open spec fn spec_material_from(algo: int, opaque: bool, inner: CborTerm) -> Result<KeyMaterialModel, CborError> {
    if algo == algorithm_code(Algorithm::Aes) {
        match spec_bytes_from(inner) {
            Err(e) => Err(e),
            Ok(raw) => if opaque {
                Ok(KeyMaterialModel::Aes(KeyRepr::Opaque(raw)))
            } else {
                match aes_variant_for_len(raw.len()) {
                    Some(v) => Ok(KeyMaterialModel::Aes(KeyRepr::Explicit((v, raw)))),
                    None => Err(CborError::UnexpectedItem("bstr", "bstr len 16/24/32")),
                }
            },
        }
    } else if algo == algorithm_code(Algorithm::TripleDes) {
        match spec_bytes_from(inner) {
            Err(e) => Err(e),
            Ok(raw) => if opaque {
                Ok(KeyMaterialModel::TripleDes(KeyRepr::Opaque(raw)))
            } else if raw.len() == 24 {
                Ok(KeyMaterialModel::TripleDes(KeyRepr::Explicit(raw)))
            } else {
                Err(CborError::UnexpectedItem("bstr", "bstr len 24"))
            },
        }
    } else if algo == algorithm_code(Algorithm::Hmac) {
        match spec_bytes_from(inner) {
            Err(e) => Err(e),
            Ok(raw) => Ok(KeyMaterialModel::Hmac(
                if opaque { KeyRepr::Opaque(raw) } else { KeyRepr::Explicit(raw) },
            )),
        }
    } else if algo == algorithm_code(Algorithm::Rsa) {
        match spec_bytes_from(inner) {
            Err(e) => Err(e),
            Ok(raw) => Ok(KeyMaterialModel::Rsa(
                if opaque { KeyRepr::Opaque(raw) } else { KeyRepr::Explicit(raw) },
            )),
        }
    } else if algo == algorithm_code(Algorithm::Ec) {
        spec_ec_material_from(opaque, inner)
    } else if algo == algorithm_code(Algorithm::MlDsa) {
        spec_mldsa_material_from(opaque, inner)
    } else {
        Err(CborError::UnexpectedItem("unknown enum", "algo enum"))
    }
}

/// What reading key material out of a data item gives.
pub open spec fn spec_key_material_from(t: CborTerm) -> Result<KeyMaterialModel, CborError> {
    match t {
        CborTerm::Array(a) if a.len() == 3 => match a[1] {
            CborTerm::Bool(opaque) => match spec_i32_from(a[0], "uint") {
                Err(e) => Err(e),
                Ok(algo) => spec_material_from(algo, opaque, a[2]),
            },
            _ => Err(type_error(a[1], "bool")),
        },
        _ => Err(type_error(t, "arr len 3")),
    }
}

/// Whether key material is held opaque.
pub open spec fn material_opaque(m: KeyMaterialModel) -> bool {
    match m {
        KeyMaterialModel::Aes(r) => r is Opaque,
        KeyMaterialModel::TripleDes(r) => r is Opaque,
        KeyMaterialModel::Hmac(r) => r is Opaque,
        KeyMaterialModel::Rsa(r) => r is Opaque,
        KeyMaterialModel::Ec(_, _, r) => r is Opaque,
        KeyMaterialModel::MlDsa(_, r) => r is Opaque,
    }
}

/// The KeyMint number of the algorithm of key material.
pub open spec fn material_algorithm_number(m: KeyMaterialModel) -> int {
    match m {
        KeyMaterialModel::Aes(_) => 32,
        KeyMaterialModel::TripleDes(_) => 33,
        KeyMaterialModel::Hmac(_) => 128,
        KeyMaterialModel::Rsa(_) => 1,
        KeyMaterialModel::Ec(_, _, _) => 3,
        KeyMaterialModel::MlDsa(_, _) => 4,
    }
}

/// Key material is stored as an array of three items: the number of its
/// algorithm, `true` exactly when the key is opaque, and the key.
pub proof fn lemma_key_material_layout(m: KeyMaterialModel)
    ensures
        key_material_term(m) matches CborTerm::Array(a) && a.len() == 3
            && a[0] == CborTerm::Integer(material_algorithm_number(m))
            && a[1] == CborTerm::Bool(material_opaque(m)),
{
}

/// The key item in which key material is stored: its key bytes (for an
/// opaque key, the bytes that only the hardware can use); EC keys after
/// their curve and curve type, ML-DSA keys after their variant.
pub open spec fn stored_key_item(m: KeyMaterialModel) -> CborTerm {
    match m {
        KeyMaterialModel::Aes(r) => CborTerm::Bytes(
            match r {
                KeyRepr::Explicit(k) => k.1,
                KeyRepr::Opaque(b) => b,
            },
        ),
        KeyMaterialModel::TripleDes(r) => CborTerm::Bytes(
            match r {
                KeyRepr::Explicit(k) => k,
                KeyRepr::Opaque(b) => b,
            },
        ),
        KeyMaterialModel::Hmac(r) => CborTerm::Bytes(
            match r {
                KeyRepr::Explicit(k) => k,
                KeyRepr::Opaque(b) => b,
            },
        ),
        KeyMaterialModel::Rsa(r) => CborTerm::Bytes(
            match r {
                KeyRepr::Explicit(k) => k,
                KeyRepr::Opaque(b) => b,
            },
        ),
        KeyMaterialModel::Ec(c, t, r) => CborTerm::Array(
            seq![
                CborTerm::Integer(ec_curve_code(c)),
                CborTerm::Integer(curve_type_code(t)),
                CborTerm::Bytes(
                    match r {
                        KeyRepr::Explicit(k) => k.1,
                        KeyRepr::Opaque(b) => b,
                    },
                ),
            ],
        ),
        KeyMaterialModel::MlDsa(v, r) => CborTerm::Array(
            seq![
                CborTerm::Integer(mldsa_variant_code(v)),
                CborTerm::Bytes(
                    match r {
                        KeyRepr::Explicit(k) => k.1,
                        KeyRepr::Opaque(b) => b,
                    },
                ),
            ],
        ),
    }
}

/// The third item in which key material is stored holds its key bytes
/// (for an opaque key, the bytes that only the hardware can use); EC keys
/// come after their curve and curve type, ML-DSA keys after their variant.
pub proof fn lemma_key_material_key_item(m: KeyMaterialModel)
    ensures
        key_material_term(m) matches CborTerm::Array(a) && a.len() == 3 && a[2] == stored_key_item(m),
{
    match m {
        KeyMaterialModel::Aes(r) => {
            assert(repr_bytes(r, |k: (AesVariant, Seq<u8>)| k.1) == match r {
                KeyRepr::Explicit(k) => k.1,
                KeyRepr::Opaque(b) => b,
            });
            assert(key_material_term(m) matches CborTerm::Array(a) && a.len() == 3 && a[2] == stored_key_item(m));
        },
        KeyMaterialModel::TripleDes(r) => {
            assert(repr_bytes(r, |k: Seq<u8>| k) == match r {
                KeyRepr::Explicit(k) => k,
                KeyRepr::Opaque(b) => b,
            });
        },
        KeyMaterialModel::Hmac(r) => {
            assert(repr_bytes(r, |k: Seq<u8>| k) == match r {
                KeyRepr::Explicit(k) => k,
                KeyRepr::Opaque(b) => b,
            });
        },
        KeyMaterialModel::Rsa(r) => {
            assert(repr_bytes(r, |k: Seq<u8>| k) == match r {
                KeyRepr::Explicit(k) => k,
                KeyRepr::Opaque(b) => b,
            });
        },
        KeyMaterialModel::Ec(c, t, r) => {
            let bytes = match r {
                KeyRepr::Explicit(k) => k.1,
                KeyRepr::Opaque(b) => b,
            };
            assert(repr_bytes(r, |k: (EcKeyKind, Seq<u8>)| k.1) == bytes);
            assert(stored_key_item(m)->Array_0 =~= seq![
                CborTerm::Integer(ec_curve_code(c)),
                CborTerm::Integer(curve_type_code(t)),
                CborTerm::Bytes(bytes),
            ]);
            assert(stored_key_item(m) == CborTerm::Array(seq![
                CborTerm::Integer(ec_curve_code(c)),
                CborTerm::Integer(curve_type_code(t)),
                CborTerm::Bytes(bytes),
            ]));
            assert(key_material_term(m) == key_item(
                Algorithm::Ec,
                repr_is_opaque(r),
                CborTerm::Array(seq![
                    CborTerm::Integer(ec_curve_code(c)),
                    CborTerm::Integer(curve_type_code(t)),
                    CborTerm::Bytes(bytes),
                ]),
            ));
            assert(key_material_term(m) matches CborTerm::Array(a) && a.len() == 3 && a[2] == stored_key_item(m));
        },
        KeyMaterialModel::MlDsa(v, r) => {
            let bytes = match r {
                KeyRepr::Explicit(k) => k.1,
                KeyRepr::Opaque(b) => b,
            };
            assert(repr_bytes(r, |k: (MlDsaVariant, Seq<u8>)| k.1) == bytes);
            assert(stored_key_item(m)->Array_0 =~= seq![CborTerm::Integer(mldsa_variant_code(v)), CborTerm::Bytes(bytes)]);
            assert(stored_key_item(m) == CborTerm::Array(seq![
                CborTerm::Integer(mldsa_variant_code(v)),
                CborTerm::Bytes(bytes),
            ]));
            assert(key_material_term(m) == key_item(
                Algorithm::MlDsa,
                repr_is_opaque(r),
                CborTerm::Array(seq![CborTerm::Integer(mldsa_variant_code(v)), CborTerm::Bytes(bytes)]),
            ));
            assert(key_material_term(m) matches CborTerm::Array(a) && a.len() == 3 && a[2] == stored_key_item(m));
        },
    }
}

/// Key material read out of a data item is opaque exactly when the second
/// item is `true`, and is of the algorithm that the first item numbers.
pub proof fn lemma_key_material_read_flag(t: CborTerm, m: KeyMaterialModel)
    requires
        spec_key_material_from(t) == Ok::<KeyMaterialModel, CborError>(m),
    ensures
        t matches CborTerm::Array(a) && a.len() == 3
            && a[0] == CborTerm::Integer(material_algorithm_number(m))
            && a[1] == CborTerm::Bool(material_opaque(m)),
{
}

/// What reading key material out of the bytes in which it is stored gives.
pub open spec fn spec_key_material_from_bytes(data: Seq<u8>) -> Result<KeyMaterialModel, CborError> {
    match decode_exact(data) {
        Err(e) => Err(e),
        Ok(t) => spec_key_material_from(t),
    }
}

/// Turn a sequence of exactly two or three data items into an array item.
fn array_of(items: Vec<CborValue>) -> (r: CborValue)
    ensures
        r@ == CborTerm::Array(terms_of(items@)),
{
    CborValue::Array(items)
}

/// The array item of three data items.
fn array3(a: CborValue, b: CborValue, c: CborValue) -> (r: CborValue)
    ensures
        r@ == CborTerm::Array(seq![a@, b@, c@]),
{
    let ghost (ta, tb, tc) = (a@, b@, c@);
    let mut v: Vec<CborValue> = Vec::new();
    v.push(a);
    v.push(b);
    v.push(c);
    proof {
        lemma_terms_of(v@);
        assert(terms_of(v@) =~= seq![ta, tb, tc]);
    }
    array_of(v)
}

/// The array item of two data items.
fn array2(a: CborValue, b: CborValue) -> (r: CborValue)
    ensures
        r@ == CborTerm::Array(seq![a@, b@]),
{
    let ghost (ta, tb) = (a@, b@);
    let mut v: Vec<CborValue> = Vec::new();
    v.push(a);
    v.push(b);
    proof {
        lemma_terms_of(v@);
        assert(terms_of(v@) =~= seq![ta, tb]);
    }
    array_of(v)
}

/// Split a data item into its three items, if it is an array of three.
fn split3(v: CborValue) -> (r: Result<(CborValue, CborValue, CborValue), CborValue>)
    ensures
        match r {
            Ok((a, b, c)) => v@ == CborTerm::Array(seq![a@, b@, c@]),
            Err(w) => w == v && !(v@ matches CborTerm::Array(s) && s.len() == 3),
        },
{
    match v {
        CborValue::Array(mut items) => {
            let ghost s = items@;
            proof {
                lemma_terms_of(s);
            }
            if items.len() == 3 {
                let c = items.remove(2);
                let b = items.remove(1);
                let a = items.remove(0);
                proof {
                    assert(terms_of(s) =~= seq![a@, b@, c@]);
                }
                Ok((a, b, c))
            } else {
                Err(CborValue::Array(items))
            }
        },
        _ => Err(v),
    }
}

/// Split a data item into its two items, if it is an array of two.
fn split2(v: CborValue) -> (r: Result<(CborValue, CborValue), CborValue>)
    ensures
        match r {
            Ok((a, b)) => v@ == CborTerm::Array(seq![a@, b@]),
            Err(w) => w == v && !(v@ matches CborTerm::Array(s) && s.len() == 2),
        },
{
    match v {
        CborValue::Array(mut items) => {
            let ghost s = items@;
            proof {
                lemma_terms_of(s);
            }
            if items.len() == 2 {
                let b = items.remove(1);
                let a = items.remove(0);
                proof {
                    assert(terms_of(s) =~= seq![a@, b@]);
                }
                Ok((a, b))
            } else {
                Err(CborValue::Array(items))
            }
        },
        _ => Err(v),
    }
}

/// The data item of key material is plain: `ciborium` reads back what it
/// writes for it.
pub proof fn lemma_key_material_term_plain(m: KeyMaterialModel)
    ensures
        term_plain(key_material_term(m)),
{
    reveal_with_fuel(term_plain_within, 3);
}

/// Every integer in the data item of key material lies in CBOR's range.
pub proof fn lemma_key_material_term_in_range(m: KeyMaterialModel)
    ensures
        term_in_range(key_material_term(m)),
{
    reveal_with_fuel(term_in_range, 3);
}

/// Reading back the data item in which well-formed key material is stored
/// gives that key material.
pub proof fn lemma_key_material_roundtrip(m: KeyMaterialModel)
    requires
        key_material_valid(m),
    ensures
        spec_key_material_from(key_material_term(m)) == Ok::<KeyMaterialModel, CborError>(m),
{
    match m {
        KeyMaterialModel::Aes(r) => {
            match r {
                KeyRepr::Explicit(k) => {
                    assert(aes_variant_for_len(k.1.len()) == Some(k.0));
                },
                _ => {},
            }
        },
        KeyMaterialModel::Ec(c, ct, r) => {
            let inner = CborTerm::Array(
                seq![
                    CborTerm::Integer(ec_curve_code(c)),
                    CborTerm::Integer(curve_type_code(ct)),
                    CborTerm::Bytes(repr_bytes(r, |k: (EcKeyKind, Seq<u8>)| k.1)),
                ],
            );
            assert(spec_ec_curve_from(CborTerm::Integer(ec_curve_code(c))) == Ok::<EcCurve, CborError>(c));
            assert(spec_curve_type_from(CborTerm::Integer(curve_type_code(ct))) == Ok::<CurveType, CborError>(ct));
            match r {
                KeyRepr::Explicit(k) => {
                    assert(spec_ec_key_from(c, ct, k.1) == Ok::<(EcKeyKind, Seq<u8>), CborError>(k));
                },
                _ => {},
            }
            assert(spec_ec_material_from(repr_is_opaque(r), inner) == Ok::<KeyMaterialModel, CborError>(m));
        },
        KeyMaterialModel::MlDsa(v, r) => {
            assert(spec_mldsa_variant_from(CborTerm::Integer(mldsa_variant_code(v))) == Ok::<MlDsaVariant, CborError>(v));
        },
        _ => {},
    }
}

/// The text by which key material is shown in logs, which holds no key
/// bytes.
pub open spec fn key_material_label(m: KeyMaterialModel) -> &'static str {
    match m {
        KeyMaterialModel::Aes(KeyRepr::Explicit((AesVariant::Aes128, _))) => "Aes128(...)",
        KeyMaterialModel::Aes(KeyRepr::Explicit((AesVariant::Aes192, _))) => "Aes192(...)",
        KeyMaterialModel::Aes(KeyRepr::Explicit((AesVariant::Aes256, _))) => "Aes256(...)",
        KeyMaterialModel::Aes(KeyRepr::Opaque(_)) => "Aes(opaque)",
        KeyMaterialModel::TripleDes(_) => "TripleDes(...)",
        KeyMaterialModel::Hmac(_) => "Hmac(...)",
        KeyMaterialModel::Rsa(_) => "Rsa(...)",
        KeyMaterialModel::Ec(EcCurve::P224, _, _) => "Ec(P224, ...)",
        KeyMaterialModel::Ec(EcCurve::P256, _, _) => "Ec(P256, ...)",
        KeyMaterialModel::Ec(EcCurve::P384, _, _) => "Ec(P384, ...)",
        KeyMaterialModel::Ec(EcCurve::P521, _, _) => "Ec(P521, ...)",
        KeyMaterialModel::Ec(EcCurve::Curve25519, _, _) => "Ec(Curve25519, ...)",
        KeyMaterialModel::MlDsa(MlDsaVariant::MlDsa65, _) => "MlDsa(MlDsa65, ...)",
        KeyMaterialModel::MlDsa(MlDsaVariant::MlDsa87, _) => "MlDsa(MlDsa87, ...)",
    }
}

/// The CDDL schema of the CBOR form of key material.
pub open spec fn key_material_cddl() -> &'static str {
    "&(\n  [32, bool, bstr], ; Algorithm_Aes\n  [33, bool, bstr], ; Algorithm_TripleDes\n  [128, bool, bstr], ; Algorithm_Hmac\n  [1, bool, bstr], ; Algorithm_Rsa\n  [3, bool, [EcCurve, CurveType, bstr]], ; Algorithm_Ec\n  [4, bool, [MlDsaVariant, bstr]], ; Algorithm_MlDsa\n)"
}

impl KeyMaterial {
    /// The text by which the key material is shown in logs.
    pub fn debug_label(&self) -> (r: &'static str)
        ensures
            r == key_material_label(self@),
    {
        match self {
            KeyMaterial::Aes(k) => match k {
                OpaqueOr::Explicit(AesKey::Aes128(_)) => "Aes128(...)",
                OpaqueOr::Explicit(AesKey::Aes192(_)) => "Aes192(...)",
                OpaqueOr::Explicit(AesKey::Aes256(_)) => "Aes256(...)",
                OpaqueOr::Opaque(_) => "Aes(opaque)",
            },
            KeyMaterial::TripleDes(_) => "TripleDes(...)",
            KeyMaterial::Hmac(_) => "Hmac(...)",
            KeyMaterial::Rsa(_) => "Rsa(...)",
            KeyMaterial::Ec(c, _, _) => match c {
                EcCurve::P224 => "Ec(P224, ...)",
                EcCurve::P256 => "Ec(P256, ...)",
                EcCurve::P384 => "Ec(P384, ...)",
                EcCurve::P521 => "Ec(P521, ...)",
                EcCurve::Curve25519 => "Ec(Curve25519, ...)",
            },
            KeyMaterial::MlDsa(v, _) => match v {
                MlDsaVariant::MlDsa65 => "MlDsa(MlDsa65, ...)",
                MlDsaVariant::MlDsa87 => "MlDsa(MlDsa87, ...)",
            },
        }
    }

    /// The CDDL name of the CBOR form of key material.
    pub fn cddl_typename() -> (r: &'static str)
        ensures
            r == "KeyMaterial",
    {
        "KeyMaterial"
    }

    /// The CDDL schema of the CBOR form of key material.
    pub fn cddl_schema() -> (r: &'static str)
        ensures
            r == key_material_cddl(),
    {
        "&(\n  [32, bool, bstr], ; Algorithm_Aes\n  [33, bool, bstr], ; Algorithm_TripleDes\n  [128, bool, bstr], ; Algorithm_Hmac\n  [1, bool, bstr], ; Algorithm_Rsa\n  [3, bool, [EcCurve, CurveType, bstr]], ; Algorithm_Ec\n  [4, bool, [MlDsaVariant, bstr]], ; Algorithm_MlDsa\n)"
    }

    /// Whether the key is for an asymmetric algorithm.
    pub fn is_asymmetric(&self) -> (r: bool)
        ensures
            r == spec_is_asymmetric(self@),
    {
        match self {
            KeyMaterial::Aes(_) | KeyMaterial::TripleDes(_) | KeyMaterial::Hmac(_) => false,
            KeyMaterial::Ec(_, _, _) | KeyMaterial::Rsa(_) | KeyMaterial::MlDsa(_, _) => true,
        }
    }

    /// Whether the key is for a symmetric algorithm.
    pub fn is_symmetric(&self) -> (r: bool)
        ensures
            r == !spec_is_asymmetric(self@),
    {
        !self.is_asymmetric()
    }

    /// The data item in which the key material is stored.
    pub fn to_cbor_value(self) -> (r: Result<CborValue, CborError>)
        ensures
            r matches Ok(v) && v@ == key_material_term(self@),
    {
        let ghost m = self@;
        let item = match self {
            KeyMaterial::Aes(k) => {
                let (opaque, raw) = match k {
                    OpaqueOr::Opaque(OpaqueKeyMaterial(b)) => (true, b),
                    OpaqueOr::Explicit(AesKey::Aes128(b)) => (false, b),
                    OpaqueOr::Explicit(AesKey::Aes192(b)) => (false, b),
                    OpaqueOr::Explicit(AesKey::Aes256(b)) => (false, b),
                };
                array3(
                    CborValue::Integer(Algorithm::Aes.code() as i128),
                    CborValue::Bool(opaque),
                    CborValue::Bytes(raw),
                )
            },
            KeyMaterial::TripleDes(k) => {
                let (opaque, raw) = match k {
                    OpaqueOr::Opaque(OpaqueKeyMaterial(b)) => (true, b),
                    OpaqueOr::Explicit(DesKey(b)) => (false, b),
                };
                array3(
                    CborValue::Integer(Algorithm::TripleDes.code() as i128),
                    CborValue::Bool(opaque),
                    CborValue::Bytes(raw),
                )
            },
            KeyMaterial::Hmac(k) => {
                let (opaque, raw) = match k {
                    OpaqueOr::Opaque(OpaqueKeyMaterial(b)) => (true, b),
                    OpaqueOr::Explicit(HmacKey(b)) => (false, b),
                };
                array3(
                    CborValue::Integer(Algorithm::Hmac.code() as i128),
                    CborValue::Bool(opaque),
                    CborValue::Bytes(raw),
                )
            },
            KeyMaterial::Rsa(k) => {
                let (opaque, raw) = match k {
                    OpaqueOr::Opaque(OpaqueKeyMaterial(b)) => (true, b),
                    OpaqueOr::Explicit(RsaKey(b)) => (false, b),
                };
                array3(
                    CborValue::Integer(Algorithm::Rsa.code() as i128),
                    CborValue::Bool(opaque),
                    CborValue::Bytes(raw),
                )
            },
            KeyMaterial::Ec(curve, curve_type, k) => {
                let (opaque, raw) = match k {
                    OpaqueOr::Opaque(OpaqueKeyMaterial(b)) => (true, b),
                    OpaqueOr::Explicit(EcKey::P224(b)) => (false, b),
                    OpaqueOr::Explicit(EcKey::P256(b)) => (false, b),
                    OpaqueOr::Explicit(EcKey::P384(b)) => (false, b),
                    OpaqueOr::Explicit(EcKey::P521(b)) => (false, b),
                    OpaqueOr::Explicit(EcKey::Ed25519(b)) => (false, b),
                    OpaqueOr::Explicit(EcKey::X25519(b)) => (false, b),
                };
                let inner = array3(curve.to_cbor_value(), curve_type.to_cbor_value(), CborValue::Bytes(raw));
                array3(
                    CborValue::Integer(Algorithm::Ec.code() as i128),
                    CborValue::Bool(opaque),
                    inner,
                )
            },
            KeyMaterial::MlDsa(variant, k) => {
                let (opaque, raw) = match k {
                    OpaqueOr::Opaque(OpaqueKeyMaterial(b)) => (true, b),
                    OpaqueOr::Explicit(MlDsaKey::MlDsa65(b)) => (false, b),
                    OpaqueOr::Explicit(MlDsaKey::MlDsa87(b)) => (false, b),
                };
                let inner = array2(variant.to_cbor_value(), CborValue::Bytes(raw));
                array3(
                    CborValue::Integer(Algorithm::MlDsa.code() as i128),
                    CborValue::Bool(opaque),
                    inner,
                )
            },
        };
        Ok(item)
    }

    /// Read key material out of a data item.
    pub fn from_cbor_value(value: CborValue) -> (r: Result<KeyMaterial, CborError>)
        ensures
            match r {
                Ok(k) => spec_key_material_from(value@) == Ok::<KeyMaterialModel, CborError>(k@),
                Err(e) => spec_key_material_from(value@) == Err::<KeyMaterialModel, CborError>(e),
            },
    {
        let (algo_value, opaque_value, raw_key_value) = match split3(value) {
            Ok(parts) => parts,
            Err(v) => return cbor_type_error(&v, "arr len 3"),
        };
        let opaque = match opaque_value {
            CborValue::Bool(b) => b,
            v => return cbor_type_error(&v, "bool"),
        };
        let algo = i32_from_cbor(algo_value, "uint")?;
        if algo == Algorithm::Aes.code() {
            let raw_key = bytes_from_cbor(raw_key_value)?;
            if opaque {
                Ok(KeyMaterial::Aes(OpaqueOr::Opaque(OpaqueKeyMaterial(raw_key))))
            } else {
                match AesKey::new(raw_key) {
                    Ok(k) => Ok(KeyMaterial::Aes(OpaqueOr::Explicit(k))),
                    Err(_e) => Err(CborError::UnexpectedItem("bstr", "bstr len 16/24/32")),
                }
            }
        } else if algo == Algorithm::TripleDes.code() {
            let raw_key = bytes_from_cbor(raw_key_value)?;
            if opaque {
                Ok(KeyMaterial::TripleDes(OpaqueOr::Opaque(OpaqueKeyMaterial(raw_key))))
            } else if raw_key.len() == 24 {
                Ok(KeyMaterial::TripleDes(OpaqueOr::Explicit(DesKey(raw_key))))
            } else {
                Err(CborError::UnexpectedItem("bstr", "bstr len 24"))
            }
        } else if algo == Algorithm::Hmac.code() {
            let raw_key = bytes_from_cbor(raw_key_value)?;
            if opaque {
                Ok(KeyMaterial::Hmac(OpaqueOr::Opaque(OpaqueKeyMaterial(raw_key))))
            } else {
                Ok(KeyMaterial::Hmac(OpaqueOr::Explicit(HmacKey(raw_key))))
            }
        } else if algo == Algorithm::Rsa.code() {
            let raw_key = bytes_from_cbor(raw_key_value)?;
            if opaque {
                Ok(KeyMaterial::Rsa(OpaqueOr::Opaque(OpaqueKeyMaterial(raw_key))))
            } else {
                Ok(KeyMaterial::Rsa(OpaqueOr::Explicit(RsaKey(raw_key))))
            }
        } else if algo == Algorithm::Ec.code() {
            Self::ec_from_cbor_value(opaque, raw_key_value)
        } else if algo == Algorithm::MlDsa.code() {
            Self::mldsa_from_cbor_value(opaque, raw_key_value)
        } else {
            Err(CborError::UnexpectedItem("unknown enum", "algo enum"))
        }
    }

    /// The bytes in which the key material is stored.
    pub fn into_vec(self) -> (r: Result<Vec<u8>, CborError>)
        ensures
            r matches Ok(b) && b@ == cbor_encoding(key_material_term(self@)),
    {
        let ghost m = self@;
        let v = self.to_cbor_value()?;
        proof {
            lemma_key_material_term_in_range(m);
        }
        to_vec(&v)
    }

    /// Read key material out of the bytes in which it is stored.
    pub fn from_slice(data: &[u8]) -> (r: Result<KeyMaterial, CborError>)
        ensures
            match r {
                Ok(k) => spec_key_material_from_bytes(data@) == Ok::<KeyMaterialModel, CborError>(k@),
                Err(e) => spec_key_material_from_bytes(data@) == Err::<KeyMaterialModel, CborError>(e),
            },
            forall|t: CborTerm|
                #![trigger cbor_encoding(t)]
                term_plain(t) && cbor_encoding(t) == data@ ==> decode_exact(data@) == Ok::<CborTerm, CborError>(t),
    {
        let v = from_slice(data)?;
        Self::from_cbor_value(v)
    }

    /// Read EC key material out of the inner item of its array.
    fn ec_from_cbor_value(opaque: bool, inner: CborValue) -> (r: Result<KeyMaterial, CborError>)
        ensures
            match r {
                Ok(k) => spec_ec_material_from(opaque, inner@) == Ok::<KeyMaterialModel, CborError>(k@),
                Err(e) => spec_ec_material_from(opaque, inner@) == Err::<KeyMaterialModel, CborError>(e),
            },
    {
        let (curve_value, curve_type_value, raw_value) = match split3(inner) {
            Ok(parts) => parts,
            Err(v) => return cbor_type_error(&v, "arr len 3"),
        };
        let raw_key = bytes_from_cbor(raw_value)?;
        let curve_type = CurveType::from_cbor_value(curve_type_value)?;
        let curve = EcCurve::from_cbor_value(curve_value)?;
        if opaque {
            return Ok(KeyMaterial::Ec(curve, curve_type, OpaqueOr::Opaque(OpaqueKeyMaterial(raw_key))));
        }
        let key = match (curve, curve_type) {
            (EcCurve::P224, CurveType::Nist) => EcKey::P224(raw_key),
            (EcCurve::P256, CurveType::Nist) => EcKey::P256(raw_key),
            (EcCurve::P384, CurveType::Nist) => EcKey::P384(raw_key),
            (EcCurve::P521, CurveType::Nist) => EcKey::P521(raw_key),
            (EcCurve::Curve25519, CurveType::EdDsa) => {
                if raw_key.len() != 32 {
                    return Err(CborError::OutOfRangeIntegerValue);
                }
                EcKey::Ed25519(raw_key)
            },
            (EcCurve::Curve25519, CurveType::Xdh) => {
                if raw_key.len() != 32 {
                    return Err(CborError::OutOfRangeIntegerValue);
                }
                EcKey::X25519(raw_key)
            },
            (_, _) => return Err(CborError::NonEnumValue),
        };
        Ok(KeyMaterial::Ec(curve, curve_type, OpaqueOr::Explicit(key)))
    }

    /// Read ML-DSA key material out of the inner item of its array.
    fn mldsa_from_cbor_value(opaque: bool, inner: CborValue) -> (r: Result<KeyMaterial, CborError>)
        ensures
            match r {
                Ok(k) => spec_mldsa_material_from(opaque, inner@) == Ok::<KeyMaterialModel, CborError>(k@),
                Err(e) => spec_mldsa_material_from(opaque, inner@) == Err::<KeyMaterialModel, CborError>(e),
            },
    {
        let (variant_value, raw_value) = match split2(inner) {
            Ok(parts) => parts,
            Err(v) => return cbor_type_error(&v, "arr len 2"),
        };
        let raw_key = bytes_from_cbor(raw_value)?;
        let variant = MlDsaVariant::from_cbor_value(variant_value)?;
        if opaque {
            return Ok(KeyMaterial::MlDsa(variant, OpaqueOr::Opaque(OpaqueKeyMaterial(raw_key))));
        }
        let key = match variant {
            MlDsaVariant::MlDsa65 => {
                if raw_key.len() != MLDSA65_PRIVATE_KEY_LEN {
                    return Err(CborError::InvalidValue);
                }
                MlDsaKey::MlDsa65(raw_key)
            },
            MlDsaVariant::MlDsa87 => {
                if raw_key.len() != MLDSA87_PRIVATE_KEY_LEN {
                    return Err(CborError::InvalidValue);
                }
                MlDsaKey::MlDsa87(raw_key)
            },
        };
        Ok(KeyMaterial::MlDsa(variant, OpaqueOr::Explicit(key)))
    }
}

} // verus!
