//! KeyMint enumerations and key parameters that key blobs carry, with
//! their CBOR forms.
use vstd::prelude::*;
use crate::cbor::{
    cbor_type_error, int_in_range, lemma_terms_of, term_in_range, term_plain, term_plain_within,
    terms_of, type_error, CborError, CborTerm, CborValue,
};

verus! {

/// Read an `i32` out of an integer data item; `want` names what was
/// expected where the item is no integer.
pub open spec fn spec_i32_from(t: CborTerm, want: &'static str) -> Result<int, CborError> {
    match t {
        CborTerm::Integer(i) => if i32::MIN <= i <= i32::MAX {
            Ok(i)
        } else {
            Err(CborError::OutOfRangeIntegerValue)
        },
        _ => Err(type_error(t, want)),
    }
}

/// Read an `i32` out of an integer data item.
pub fn i32_from_cbor(v: CborValue, want: &'static str) -> (r: Result<i32, CborError>)
    ensures
        match r {
            Ok(i) => spec_i32_from(v@, want) == Ok::<int, CborError>(i as int),
            Err(e) => spec_i32_from(v@, want) == Err::<int, CborError>(e),
        },
{
    match v {
        CborValue::Integer(i) => {
            if i >= -2147483648i128 && i <= 2147483647i128 {
                Ok(i as i32)
            } else {
                Err(CborError::OutOfRangeIntegerValue)
            }
        },
        _ => cbor_type_error(&v, want),
    }
}

/// Read a byte string out of a data item.
pub open spec fn spec_bytes_from(t: CborTerm) -> Result<Seq<u8>, CborError> {
    match t {
        CborTerm::Bytes(b) => Ok(b),
        _ => Err(type_error(t, "bstr")),
    }
}

/// Read a byte string out of a data item.
pub fn bytes_from_cbor(v: CborValue) -> (r: Result<Vec<u8>, CborError>)
    ensures
        match r {
            Ok(b) => spec_bytes_from(v@) == Ok::<Seq<u8>, CborError>(b@),
            Err(e) => spec_bytes_from(v@) == Err::<Seq<u8>, CborError>(e),
        },
{
    match v {
        CborValue::Bytes(b) => Ok(b),
        _ => cbor_type_error(&v, "bstr"),
    }
}

/// Cryptographic algorithms of KeyMint.
#[derive(Clone, Copy, Debug, PartialEq, Eq, Structural)]
pub enum Algorithm {
    Rsa,
    Ec,
    MlDsa,
    Aes,
    TripleDes,
    Hmac,
}

/// The number that stands for an algorithm.
pub open spec fn algorithm_code(a: Algorithm) -> int {
    match a {
        Algorithm::Rsa => 1,
        Algorithm::Ec => 3,
        Algorithm::MlDsa => 4,
        Algorithm::Aes => 32,
        Algorithm::TripleDes => 33,
        Algorithm::Hmac => 128,
    }
}

/// The algorithm that a number stands for.
pub open spec fn algorithm_from_code(i: int) -> Option<Algorithm> {
    if i == 1 {
        Some(Algorithm::Rsa)
    } else if i == 3 {
        Some(Algorithm::Ec)
    } else if i == 4 {
        Some(Algorithm::MlDsa)
    } else if i == 32 {
        Some(Algorithm::Aes)
    } else if i == 33 {
        Some(Algorithm::TripleDes)
    } else if i == 128 {
        Some(Algorithm::Hmac)
    } else {
        None
    }
}

impl Algorithm {
    /// The algorithm that a number stands for.
    pub fn n(i: i32) -> (r: Option<Algorithm>)
        ensures
            r == algorithm_from_code(i as int),
    {
        if i == 1 {
            Some(Algorithm::Rsa)
        } else if i == 3 {
            Some(Algorithm::Ec)
        } else if i == 4 {
            Some(Algorithm::MlDsa)
        } else if i == 32 {
            Some(Algorithm::Aes)
        } else if i == 33 {
            Some(Algorithm::TripleDes)
        } else if i == 128 {
            Some(Algorithm::Hmac)
        } else {
            None
        }
    }

    /// The number that stands for the algorithm.
    pub fn code(self) -> (r: i32)
        ensures
            r == algorithm_code(self),
    {
        match self {
            Algorithm::Rsa => 1,
            Algorithm::Ec => 3,
            Algorithm::MlDsa => 4,
            Algorithm::Aes => 32,
            Algorithm::TripleDes => 33,
            Algorithm::Hmac => 128,
        }
    }
}

/// Elliptic curves of KeyMint.
#[derive(Clone, Copy, Debug, PartialEq, Eq, Structural)]
pub enum EcCurve {
    P224,
    P256,
    P384,
    P521,
    Curve25519,
}

/// The number that stands for a curve.
pub open spec fn ec_curve_code(c: EcCurve) -> int {
    match c {
        EcCurve::P224 => 0,
        EcCurve::P256 => 1,
        EcCurve::P384 => 2,
        EcCurve::P521 => 3,
        EcCurve::Curve25519 => 4,
    }
}

/// The curve that a number stands for.
pub open spec fn ec_curve_from_code(i: int) -> Option<EcCurve> {
    if i == 0 {
        Some(EcCurve::P224)
    } else if i == 1 {
        Some(EcCurve::P256)
    } else if i == 2 {
        Some(EcCurve::P384)
    } else if i == 3 {
        Some(EcCurve::P521)
    } else if i == 4 {
        Some(EcCurve::Curve25519)
    } else {
        None
    }
}

/// What reading a curve out of a data item gives.
pub open spec fn spec_ec_curve_from(t: CborTerm) -> Result<EcCurve, CborError> {
    match spec_i32_from(t, "int") {
        Err(e) => Err(e),
        Ok(i) => match ec_curve_from_code(i) {
            Some(c) => Ok(c),
            None => Err(CborError::NonEnumValue),
        },
    }
}

impl EcCurve {
    /// The number that stands for the curve.
    pub fn code(self) -> (r: i32)
        ensures
            r == ec_curve_code(self),
    {
        match self {
            EcCurve::P224 => 0,
            EcCurve::P256 => 1,
            EcCurve::P384 => 2,
            EcCurve::P521 => 3,
            EcCurve::Curve25519 => 4,
        }
    }

    /// The curve that a number stands for.
    pub fn n(i: i32) -> (r: Option<EcCurve>)
        ensures
            r == ec_curve_from_code(i as int),
    {
        if i == 0 {
            Some(EcCurve::P224)
        } else if i == 1 {
            Some(EcCurve::P256)
        } else if i == 2 {
            Some(EcCurve::P384)
        } else if i == 3 {
            Some(EcCurve::P521)
        } else if i == 4 {
            Some(EcCurve::Curve25519)
        } else {
            None
        }
    }

    /// The data item for the curve.
    pub fn to_cbor_value(self) -> (r: CborValue)
        ensures
            r@ == CborTerm::Integer(ec_curve_code(self)),
    {
        CborValue::Integer(self.code() as i128)
    }

    /// Read a curve out of a data item.
    pub fn from_cbor_value(v: CborValue) -> (r: Result<EcCurve, CborError>)
        ensures
            r == spec_ec_curve_from(v@),
    {
        let i = i32_from_cbor(v, "int")?;
        match EcCurve::n(i) {
            Some(c) => Ok(c),
            None => Err(CborError::NonEnumValue),
        }
    }
}

/// Parameter sets of ML-DSA.
#[derive(Clone, Copy, Debug, PartialEq, Eq, Structural)]
pub enum MlDsaVariant {
    MlDsa65,
    MlDsa87,
}

/// The number that stands for an ML-DSA parameter set.
pub open spec fn mldsa_variant_code(v: MlDsaVariant) -> int {
    match v {
        MlDsaVariant::MlDsa65 => 1,
        MlDsaVariant::MlDsa87 => 2,
    }
}

/// The parameter set that a number stands for.
pub open spec fn mldsa_variant_from_code(i: int) -> Option<MlDsaVariant> {
    if i == 1 {
        Some(MlDsaVariant::MlDsa65)
    } else if i == 2 {
        Some(MlDsaVariant::MlDsa87)
    } else {
        None
    }
}

/// What reading an ML-DSA parameter set out of a data item gives.
pub open spec fn spec_mldsa_variant_from(t: CborTerm) -> Result<MlDsaVariant, CborError> {
    match spec_i32_from(t, "int") {
        Err(e) => Err(e),
        Ok(i) => match mldsa_variant_from_code(i) {
            Some(c) => Ok(c),
            None => Err(CborError::NonEnumValue),
        },
    }
}

impl MlDsaVariant {
    /// The number that stands for the parameter set.
    pub fn code(self) -> (r: i32)
        ensures
            r == mldsa_variant_code(self),
    {
        match self {
            MlDsaVariant::MlDsa65 => 1,
            MlDsaVariant::MlDsa87 => 2,
        }
    }

    /// The parameter set that a number stands for.
    pub fn n(i: i32) -> (r: Option<MlDsaVariant>)
        ensures
            r == mldsa_variant_from_code(i as int),
    {
        if i == 1 {
            Some(MlDsaVariant::MlDsa65)
        } else if i == 2 {
            Some(MlDsaVariant::MlDsa87)
        } else {
            None
        }
    }

    /// The data item for the parameter set.
    pub fn to_cbor_value(self) -> (r: CborValue)
        ensures
            r@ == CborTerm::Integer(mldsa_variant_code(self)),
    {
        CborValue::Integer(self.code() as i128)
    }

    /// Read a parameter set out of a data item.
    pub fn from_cbor_value(v: CborValue) -> (r: Result<MlDsaVariant, CborError>)
        ensures
            r == spec_mldsa_variant_from(v@),
    {
        let i = i32_from_cbor(v, "int")?;
        match MlDsaVariant::n(i) {
            Some(c) => Ok(c),
            None => Err(CborError::NonEnumValue),
        }
    }
}

/// Message digests of KeyMint.
#[derive(Clone, Copy, Debug, PartialEq, Eq, Structural)]
pub enum Digest {
    NoDigest,
    Md5,
    Sha1,
    Sha224,
    Sha256,
    Sha384,
    Sha512,
}

/// The number that stands for a digest.
pub open spec fn digest_code(d: Digest) -> int {
    match d {
        Digest::NoDigest => 0,
        Digest::Md5 => 1,
        Digest::Sha1 => 2,
        Digest::Sha224 => 3,
        Digest::Sha256 => 4,
        Digest::Sha384 => 5,
        Digest::Sha512 => 6,
    }
}

/// The digest that a number stands for.
pub open spec fn digest_from_code(i: int) -> Option<Digest> {
    if i == 0 {
        Some(Digest::NoDigest)
    } else if i == 1 {
        Some(Digest::Md5)
    } else if i == 2 {
        Some(Digest::Sha1)
    } else if i == 3 {
        Some(Digest::Sha224)
    } else if i == 4 {
        Some(Digest::Sha256)
    } else if i == 5 {
        Some(Digest::Sha384)
    } else if i == 6 {
        Some(Digest::Sha512)
    } else {
        None
    }
}

impl Digest {
    /// The number that stands for the digest.
    pub fn code(self) -> (r: i32)
        ensures
            r == digest_code(self),
    {
        match self {
            Digest::NoDigest => 0,
            Digest::Md5 => 1,
            Digest::Sha1 => 2,
            Digest::Sha224 => 3,
            Digest::Sha256 => 4,
            Digest::Sha384 => 5,
            Digest::Sha512 => 6,
        }
    }

    /// The digest that a number stands for.
    pub fn n(i: i32) -> (r: Option<Digest>)
        ensures
            r == digest_from_code(i as int),
    {
        if i == 0 {
            Some(Digest::NoDigest)
        } else if i == 1 {
            Some(Digest::Md5)
        } else if i == 2 {
            Some(Digest::Sha1)
        } else if i == 3 {
            Some(Digest::Sha224)
        } else if i == 4 {
            Some(Digest::Sha256)
        } else if i == 5 {
            Some(Digest::Sha384)
        } else if i == 6 {
            Some(Digest::Sha512)
        } else {
            None
        }
    }
}

/// What a key may be used for.
#[derive(Clone, Copy, Debug, PartialEq, Eq, Structural)]
pub enum KeyPurpose {
    Encrypt,
    Decrypt,
    Sign,
    Verify,
    WrapKey,
    AgreeKey,
    AttestKey,
}

/// The number that stands for a key purpose.
pub open spec fn key_purpose_code(p: KeyPurpose) -> int {
    match p {
        KeyPurpose::Encrypt => 0,
        KeyPurpose::Decrypt => 1,
        KeyPurpose::Sign => 2,
        KeyPurpose::Verify => 3,
        KeyPurpose::WrapKey => 5,
        KeyPurpose::AgreeKey => 6,
        KeyPurpose::AttestKey => 7,
    }
}

/// The key purpose that a number stands for.
pub open spec fn key_purpose_from_code(i: int) -> Option<KeyPurpose> {
    if i == 0 {
        Some(KeyPurpose::Encrypt)
    } else if i == 1 {
        Some(KeyPurpose::Decrypt)
    } else if i == 2 {
        Some(KeyPurpose::Sign)
    } else if i == 3 {
        Some(KeyPurpose::Verify)
    } else if i == 5 {
        Some(KeyPurpose::WrapKey)
    } else if i == 6 {
        Some(KeyPurpose::AgreeKey)
    } else if i == 7 {
        Some(KeyPurpose::AttestKey)
    } else {
        None
    }
}

impl KeyPurpose {
    /// The number that stands for the key purpose.
    pub fn code(self) -> (r: i32)
        ensures
            r == key_purpose_code(self),
    {
        match self {
            KeyPurpose::Encrypt => 0,
            KeyPurpose::Decrypt => 1,
            KeyPurpose::Sign => 2,
            KeyPurpose::Verify => 3,
            KeyPurpose::WrapKey => 5,
            KeyPurpose::AgreeKey => 6,
            KeyPurpose::AttestKey => 7,
        }
    }

    /// The key purpose that a number stands for.
    pub fn n(i: i32) -> (r: Option<KeyPurpose>)
        ensures
            r == key_purpose_from_code(i as int),
    {
        if i == 0 {
            Some(KeyPurpose::Encrypt)
        } else if i == 1 {
            Some(KeyPurpose::Decrypt)
        } else if i == 2 {
            Some(KeyPurpose::Sign)
        } else if i == 3 {
            Some(KeyPurpose::Verify)
        } else if i == 5 {
            Some(KeyPurpose::WrapKey)
        } else if i == 6 {
            Some(KeyPurpose::AgreeKey)
        } else if i == 7 {
            Some(KeyPurpose::AttestKey)
        } else {
            None
        }
    }
}

/// Where a key's security is enforced.
#[derive(Clone, Copy, Debug, PartialEq, Eq, Structural)]
pub enum SecurityLevel {
    Software,
    TrustedEnvironment,
    Strongbox,
    Keystore,
}

/// The number that stands for a security level.
pub open spec fn security_level_code(l: SecurityLevel) -> int {
    match l {
        SecurityLevel::Software => 0,
        SecurityLevel::TrustedEnvironment => 1,
        SecurityLevel::Strongbox => 2,
        SecurityLevel::Keystore => 100,
    }
}

/// The security level that a number stands for.
pub open spec fn security_level_from_code(i: int) -> Option<SecurityLevel> {
    if i == 0 {
        Some(SecurityLevel::Software)
    } else if i == 1 {
        Some(SecurityLevel::TrustedEnvironment)
    } else if i == 2 {
        Some(SecurityLevel::Strongbox)
    } else if i == 100 {
        Some(SecurityLevel::Keystore)
    } else {
        None
    }
}

impl SecurityLevel {
    /// The number that stands for the security level.
    pub fn code(self) -> (r: i32)
        ensures
            r == security_level_code(self),
    {
        match self {
            SecurityLevel::Software => 0,
            SecurityLevel::TrustedEnvironment => 1,
            SecurityLevel::Strongbox => 2,
            SecurityLevel::Keystore => 100,
        }
    }

    /// The security level that a number stands for.
    pub fn n(i: i32) -> (r: Option<SecurityLevel>)
        ensures
            r == security_level_from_code(i as int),
    {
        if i == 0 {
            Some(SecurityLevel::Software)
        } else if i == 1 {
            Some(SecurityLevel::TrustedEnvironment)
        } else if i == 2 {
            Some(SecurityLevel::Strongbox)
        } else if i == 100 {
            Some(SecurityLevel::Keystore)
        } else {
            None
        }
    }
}

/// Read a number of an enum out of a data item.
pub open spec fn spec_enum_from<E>(t: CborTerm, from_code: spec_fn(int) -> Option<E>) -> Result<E, CborError> {
    match spec_i32_from(t, "int") {
        Err(e) => Err(e),
        Ok(i) => match from_code(i) {
            Some(x) => Ok(x),
            None => Err(CborError::NonEnumValue),
        },
    }
}

/// Read an integer between `lo` and `hi` out of a data item.
pub open spec fn spec_int_in(t: CborTerm, lo: int, hi: int) -> Result<int, CborError> {
    match t {
        CborTerm::Integer(i) => if lo <= i <= hi {
            Ok(i)
        } else {
            Err(CborError::OutOfRangeIntegerValue)
        },
        _ => Err(type_error(t, "int")),
    }
}

/// Read the `true` that a boolean parameter carries out of a data item.
pub open spec fn spec_true_from(t: CborTerm) -> Result<(), CborError> {
    match t {
        CborTerm::Bool(true) => Ok(()),
        CborTerm::Bool(false) => Err(CborError::InvalidValue),
        _ => Err(type_error(t, "bool")),
    }
}

/// Read an integer between `lo` and `hi` out of a data item.
fn int_in_from_cbor(v: CborValue, lo: i128, hi: i128) -> (r: Result<i128, CborError>)
    ensures
        match r {
            Ok(i) => spec_int_in(v@, lo as int, hi as int) == Ok::<int, CborError>(i as int),
            Err(e) => spec_int_in(v@, lo as int, hi as int) == Err::<int, CborError>(e),
        },
{
    match v {
        CborValue::Integer(i) => if lo <= i && i <= hi {
            Ok(i)
        } else {
            Err(CborError::OutOfRangeIntegerValue)
        },
        _ => cbor_type_error(&v, "int"),
    }
}

/// Read the `true` that a boolean parameter carries out of a data item.
fn true_from_cbor(v: CborValue) -> (r: Result<(), CborError>)
    ensures
        r == spec_true_from(v@),
{
    match v {
        CborValue::Bool(b) => if b {
            Ok(())
        } else {
            Err(CborError::InvalidValue)
        },
        _ => cbor_type_error(&v, "bool"),
    }
}

/// The model of the value of a parameter whose tag the library does not
/// name.
pub enum TagValueModel {
    Int(i64),
    Uint(u64),
    True,
    Bytes(Seq<u8>),
}

/// The value of a parameter whose tag the library does not name: a signed
/// number (enumerations and dates), an unsigned number, the `true` of a
/// boolean tag, or bytes.
#[derive(Clone, Debug, PartialEq, Eq)]
pub enum TagValue {
    Int(i64),
    Uint(u64),
    True,
    Bytes(Vec<u8>),
}

impl View for TagValue {
    type V = TagValueModel;

    open spec fn view(&self) -> TagValueModel {
        match self {
            TagValue::Int(x) => TagValueModel::Int(*x),
            TagValue::Uint(x) => TagValueModel::Uint(*x),
            TagValue::True => TagValueModel::True,
            TagValue::Bytes(b) => TagValueModel::Bytes(b@),
        }
    }
}

/// The model of a key parameter.
pub enum KeyParamModel {
    Purpose(KeyPurpose),
    Algorithm(Algorithm),
    KeySize(u32),
    Digest(Digest),
    EcCurve(EcCurve),
    RsaPublicExponent(u64),
    RollbackResistance,
    UsageCountLimit(u32),
    UserSecureId(u64),
    NoAuthRequired,
    ApplicationId(Seq<u8>),
    ApplicationData(Seq<u8>),
    CreationDatetime(i64),
    OsVersion(u32),
    OsPatchlevel(u32),
    Other(i32, TagValueModel),
}

/// A key parameter: a tag with its value.  The tags that the library reads
/// or builds have variants of their own; any other tag is held with its
/// value as `Other`.
#[derive(Clone, Debug, PartialEq, Eq)]
pub enum KeyParam {
    Purpose(KeyPurpose),
    Algorithm(Algorithm),
    KeySize(u32),
    Digest(Digest),
    EcCurve(EcCurve),
    RsaPublicExponent(u64),
    RollbackResistance,
    UsageCountLimit(u32),
    UserSecureId(u64),
    NoAuthRequired,
    ApplicationId(Vec<u8>),
    ApplicationData(Vec<u8>),
    CreationDatetime(i64),
    OsVersion(u32),
    OsPatchlevel(u32),
    Other(i32, TagValue),
}

impl View for KeyParam {
    type V = KeyParamModel;

    open spec fn view(&self) -> KeyParamModel {
        match self {
            KeyParam::Purpose(x) => KeyParamModel::Purpose(*x),
            KeyParam::Algorithm(x) => KeyParamModel::Algorithm(*x),
            KeyParam::KeySize(x) => KeyParamModel::KeySize(*x),
            KeyParam::Digest(x) => KeyParamModel::Digest(*x),
            KeyParam::EcCurve(x) => KeyParamModel::EcCurve(*x),
            KeyParam::RsaPublicExponent(x) => KeyParamModel::RsaPublicExponent(*x),
            KeyParam::RollbackResistance => KeyParamModel::RollbackResistance,
            KeyParam::UsageCountLimit(x) => KeyParamModel::UsageCountLimit(*x),
            KeyParam::UserSecureId(x) => KeyParamModel::UserSecureId(*x),
            KeyParam::NoAuthRequired => KeyParamModel::NoAuthRequired,
            KeyParam::ApplicationId(x) => KeyParamModel::ApplicationId(x@),
            KeyParam::ApplicationData(x) => KeyParamModel::ApplicationData(x@),
            KeyParam::CreationDatetime(x) => KeyParamModel::CreationDatetime(*x),
            KeyParam::OsVersion(x) => KeyParamModel::OsVersion(*x),
            KeyParam::OsPatchlevel(x) => KeyParamModel::OsPatchlevel(*x),
            KeyParam::Other(t, v) => KeyParamModel::Other(*t, v@),
        }
    }
}

pub const TAG_PURPOSE: i32 = 536870913;
pub const TAG_ALGORITHM: i32 = 268435458;
pub const TAG_KEY_SIZE: i32 = 805306371;
pub const TAG_DIGEST: i32 = 536870917;
pub const TAG_EC_CURVE: i32 = 268435466;
pub const TAG_RSA_PUBLIC_EXPONENT: i32 = 1342177480;
pub const TAG_ROLLBACK_RESISTANCE: i32 = 1879048495;
pub const TAG_USAGE_COUNT_LIMIT: i32 = 805306773;
pub const TAG_USER_SECURE_ID: i32 = -1610612234;
pub const TAG_NO_AUTH_REQUIRED: i32 = 1879048695;
pub const TAG_APPLICATION_ID: i32 = -1879047591;
pub const TAG_APPLICATION_DATA: i32 = -1879047492;
pub const TAG_CREATION_DATETIME: i32 = 1610613437;
pub const TAG_OS_VERSION: i32 = 805307073;
pub const TAG_OS_PATCHLEVEL: i32 = 805307074;

/// The type of a tag, held in its top four bits: 1 and 2 enumerations
/// (single and repeated), 3 and 4 32-bit numbers, 5 and 10 64-bit numbers,
/// 6 dates, 7 booleans, 8 big numbers, 9 bytes.
pub open spec fn tag_type(tag: int) -> int {
    (if tag < 0 { tag + 0x1_0000_0000 } else { tag }) / 0x1000_0000
}

/// Whether a tag has a variant of its own.
pub open spec fn named_tag(tag: int) -> bool {
    tag == TAG_PURPOSE || tag == TAG_ALGORITHM || tag == TAG_KEY_SIZE || tag == TAG_DIGEST || tag
        == TAG_EC_CURVE || tag == TAG_RSA_PUBLIC_EXPONENT || tag == TAG_ROLLBACK_RESISTANCE || tag
        == TAG_USAGE_COUNT_LIMIT || tag == TAG_USER_SECURE_ID || tag == TAG_NO_AUTH_REQUIRED || tag
        == TAG_APPLICATION_ID || tag == TAG_APPLICATION_DATA || tag == TAG_CREATION_DATETIME || tag
        == TAG_OS_VERSION || tag == TAG_OS_PATCHLEVEL
}

/// The data item of the value of a parameter with another tag.
pub open spec fn tag_value_term(v: TagValueModel) -> CborTerm {
    match v {
        TagValueModel::Int(x) => CborTerm::Integer(x as int),
        TagValueModel::Uint(x) => CborTerm::Integer(x as int),
        TagValueModel::True => CborTerm::Bool(true),
        TagValueModel::Bytes(b) => CborTerm::Bytes(b),
    }
}

/// Read the value of a parameter with another tag out of a data item, as
/// the type of the tag says.
pub open spec fn spec_tag_value_from(tag: int, v: CborTerm) -> Result<TagValueModel, CborError> {
    let ty = tag_type(tag);
    if ty == 1 || ty == 2 {
        match spec_int_in(v, i32::MIN as int, i32::MAX as int) {
            Err(e) => Err(e),
            Ok(x) => Ok(TagValueModel::Int(x as i64)),
        }
    } else if ty == 3 || ty == 4 {
        match spec_int_in(v, 0, u32::MAX as int) {
            Err(e) => Err(e),
            Ok(x) => Ok(TagValueModel::Uint(x as u64)),
        }
    } else if ty == 5 || ty == 10 {
        match spec_int_in(v, 0, u64::MAX as int) {
            Err(e) => Err(e),
            Ok(x) => Ok(TagValueModel::Uint(x as u64)),
        }
    } else if ty == 6 {
        match spec_int_in(v, i64::MIN as int, i64::MAX as int) {
            Err(e) => Err(e),
            Ok(x) => Ok(TagValueModel::Int(x as i64)),
        }
    } else if ty == 7 {
        match spec_true_from(v) {
            Err(e) => Err(e),
            Ok(_) => Ok(TagValueModel::True),
        }
    } else if ty == 8 || ty == 9 {
        match spec_bytes_from(v) {
            Err(e) => Err(e),
            Ok(b) => Ok(TagValueModel::Bytes(b)),
        }
    } else {
        Err(CborError::NonEnumValue)
    }
}

/// Whether a value is one that the type of a tag reads back.
pub open spec fn tag_value_fits(tag: int, v: TagValueModel) -> bool {
    let ty = tag_type(tag);
    match v {
        TagValueModel::Int(x) => ((ty == 1 || ty == 2) && i32::MIN <= x <= i32::MAX) || ty == 6,
        TagValueModel::Uint(x) => ((ty == 3 || ty == 4) && x <= u32::MAX) || ty == 5 || ty == 10,
        TagValueModel::True => ty == 7,
        TagValueModel::Bytes(_) => ty == 8 || ty == 9,
    }
}

/// A parameter reads back as itself: one held as `Other` has a tag without
/// a variant of its own and a value that fits the tag's type.
pub open spec fn key_param_valid(p: KeyParamModel) -> bool {
    match p {
        KeyParamModel::Other(tag, v) => !named_tag(tag as int) && tag_value_fits(tag as int, v),
        _ => true,
    }
}

/// Every parameter of a list reads back as itself.
pub open spec fn key_params_valid(ps: Seq<KeyParamModel>) -> bool {
    forall|i: int| 0 <= i < ps.len() ==> key_param_valid(#[trigger] ps[i])
}

/// The data item of a key parameter: its tag and its value.
pub open spec fn key_param_term(p: KeyParamModel) -> CborTerm {
    let (tag, value) = match p {
        KeyParamModel::Purpose(x) => (TAG_PURPOSE, CborTerm::Integer(key_purpose_code(x))),
        KeyParamModel::Algorithm(x) => (TAG_ALGORITHM, CborTerm::Integer(algorithm_code(x))),
        KeyParamModel::KeySize(x) => (TAG_KEY_SIZE, CborTerm::Integer(x as int)),
        KeyParamModel::Digest(x) => (TAG_DIGEST, CborTerm::Integer(digest_code(x))),
        KeyParamModel::EcCurve(x) => (TAG_EC_CURVE, CborTerm::Integer(ec_curve_code(x))),
        KeyParamModel::RsaPublicExponent(x) => (TAG_RSA_PUBLIC_EXPONENT, CborTerm::Integer(x as int)),
        KeyParamModel::RollbackResistance => (TAG_ROLLBACK_RESISTANCE, CborTerm::Bool(true)),
        KeyParamModel::UsageCountLimit(x) => (TAG_USAGE_COUNT_LIMIT, CborTerm::Integer(x as int)),
        KeyParamModel::UserSecureId(x) => (TAG_USER_SECURE_ID, CborTerm::Integer(x as int)),
        KeyParamModel::NoAuthRequired => (TAG_NO_AUTH_REQUIRED, CborTerm::Bool(true)),
        KeyParamModel::ApplicationId(x) => (TAG_APPLICATION_ID, CborTerm::Bytes(x)),
        KeyParamModel::ApplicationData(x) => (TAG_APPLICATION_DATA, CborTerm::Bytes(x)),
        KeyParamModel::CreationDatetime(x) => (TAG_CREATION_DATETIME, CborTerm::Integer(x as int)),
        KeyParamModel::OsVersion(x) => (TAG_OS_VERSION, CborTerm::Integer(x as int)),
        KeyParamModel::OsPatchlevel(x) => (TAG_OS_PATCHLEVEL, CborTerm::Integer(x as int)),
        KeyParamModel::Other(t, v) => (t, tag_value_term(v)),
    };
    CborTerm::Array(seq![CborTerm::Integer(tag as int), value])
}

/// Read the value of a parameter with the given tag out of a data item.
pub open spec fn spec_key_param_value(tag: int, v: CborTerm) -> Result<KeyParamModel, CborError> {
    if tag == TAG_PURPOSE {
        match spec_enum_from(v, |i: int| key_purpose_from_code(i)) {
            Err(e) => Err(e),
            Ok(x) => Ok(KeyParamModel::Purpose(x)),
        }
    } else if tag == TAG_ALGORITHM {
        match spec_enum_from(v, |i: int| algorithm_from_code(i)) {
            Err(e) => Err(e),
            Ok(x) => Ok(KeyParamModel::Algorithm(x)),
        }
    } else if tag == TAG_DIGEST {
        match spec_enum_from(v, |i: int| digest_from_code(i)) {
            Err(e) => Err(e),
            Ok(x) => Ok(KeyParamModel::Digest(x)),
        }
    } else if tag == TAG_EC_CURVE {
        match spec_enum_from(v, |i: int| ec_curve_from_code(i)) {
            Err(e) => Err(e),
            Ok(x) => Ok(KeyParamModel::EcCurve(x)),
        }
    } else if tag == TAG_KEY_SIZE || tag == TAG_USAGE_COUNT_LIMIT || tag == TAG_OS_VERSION
        || tag == TAG_OS_PATCHLEVEL {
        match spec_int_in(v, 0, u32::MAX as int) {
            Err(e) => Err(e),
            Ok(x) => Ok(
                if tag == TAG_KEY_SIZE {
                    KeyParamModel::KeySize(x as u32)
                } else if tag == TAG_USAGE_COUNT_LIMIT {
                    KeyParamModel::UsageCountLimit(x as u32)
                } else if tag == TAG_OS_VERSION {
                    KeyParamModel::OsVersion(x as u32)
                } else {
                    KeyParamModel::OsPatchlevel(x as u32)
                },
            ),
        }
    } else if tag == TAG_RSA_PUBLIC_EXPONENT || tag == TAG_USER_SECURE_ID {
        match spec_int_in(v, 0, u64::MAX as int) {
            Err(e) => Err(e),
            Ok(x) => Ok(
                if tag == TAG_RSA_PUBLIC_EXPONENT {
                    KeyParamModel::RsaPublicExponent(x as u64)
                } else {
                    KeyParamModel::UserSecureId(x as u64)
                },
            ),
        }
    } else if tag == TAG_CREATION_DATETIME {
        match spec_int_in(v, i64::MIN as int, i64::MAX as int) {
            Err(e) => Err(e),
            Ok(x) => Ok(KeyParamModel::CreationDatetime(x as i64)),
        }
    } else if tag == TAG_ROLLBACK_RESISTANCE || tag == TAG_NO_AUTH_REQUIRED {
        match spec_true_from(v) {
            Err(e) => Err(e),
            Ok(_) => Ok(
                if tag == TAG_ROLLBACK_RESISTANCE {
                    KeyParamModel::RollbackResistance
                } else {
                    KeyParamModel::NoAuthRequired
                },
            ),
        }
    } else if tag == TAG_APPLICATION_ID || tag == TAG_APPLICATION_DATA {
        match spec_bytes_from(v) {
            Err(e) => Err(e),
            Ok(x) => Ok(
                if tag == TAG_APPLICATION_ID {
                    KeyParamModel::ApplicationId(x)
                } else {
                    KeyParamModel::ApplicationData(x)
                },
            ),
        }
    } else {
        match spec_tag_value_from(tag, v) {
            Err(e) => Err(e),
            Ok(x) => Ok(KeyParamModel::Other(tag as i32, x)),
        }
    }
}

/// What reading a key parameter out of a data item gives.
pub open spec fn spec_key_param_from(t: CborTerm) -> Result<KeyParamModel, CborError> {
    match t {
        CborTerm::Array(a) if a.len() == 2 => match spec_i32_from(a[0], "int") {
            Err(e) => Err(e),
            Ok(tag) => spec_key_param_value(tag, a[1]),
        },
        _ => Err(type_error(t, "arr len 2")),
    }
}

/// Reading back the data item of a key parameter gives that parameter.
pub proof fn lemma_key_param_roundtrip(p: KeyParamModel)
    requires
        key_param_valid(p),
    ensures
        spec_key_param_from(key_param_term(p)) == Ok::<KeyParamModel, CborError>(p),
{
    match p {
        KeyParamModel::Purpose(x) => {
            assert(key_purpose_from_code(key_purpose_code(x)) == Some(x));
        },
        KeyParamModel::Algorithm(x) => {
            assert(algorithm_from_code(algorithm_code(x)) == Some(x));
        },
        KeyParamModel::Digest(x) => {
            assert(digest_from_code(digest_code(x)) == Some(x));
        },
        KeyParamModel::EcCurve(x) => {
            assert(ec_curve_from_code(ec_curve_code(x)) == Some(x));
        },
        _ => {},
    }
}

/// Split a data item into its two items, if it is an array of two.
pub fn split_pair(v: CborValue) -> (r: Result<(CborValue, CborValue), CborValue>)
    ensures
        match r {
            Ok((a, b)) => v@ == CborTerm::Array(seq![a@, b@]),
            Err(w) => w == v && !(v@ matches CborTerm::Array(s) && s.len() == 2),
        },
{
    match v {
        CborValue::Array(mut items) => {
            let ghost s = items@;
            proof {
                lemma_terms_of(s);
            }
            if items.len() == 2 {
                let b = items.remove(1);
                let a = items.remove(0);
                proof {
                    assert(terms_of(s) =~= seq![a@, b@]);
                }
                Ok((a, b))
            } else {
                Err(CborValue::Array(items))
            }
        },
        _ => Err(v),
    }
}

/// The array item of two data items.
pub fn pair_item(a: CborValue, b: CborValue) -> (r: CborValue)
    ensures
        r@ == CborTerm::Array(seq![a@, b@]),
{
    let ghost (ta, tb) = (a@, b@);
    let mut v: Vec<CborValue> = Vec::new();
    v.push(a);
    v.push(b);
    proof {
        lemma_terms_of(v@);
        assert(terms_of(v@) =~= seq![ta, tb]);
    }
    CborValue::Array(v)
}

/// A copy of some bytes.
fn copy_vec(s: &Vec<u8>) -> (r: Vec<u8>)
    ensures
        r@ == s@,
{
    crate::crypto::copy_bytes(s.as_slice())
}

impl KeyParam {
    /// A copy of the parameter.
    pub fn duplicate(&self) -> (r: KeyParam)
        ensures
            r@ == self@,
    {
        match self {
            KeyParam::Purpose(x) => KeyParam::Purpose(*x),
            KeyParam::Algorithm(x) => KeyParam::Algorithm(*x),
            KeyParam::KeySize(x) => KeyParam::KeySize(*x),
            KeyParam::Digest(x) => KeyParam::Digest(*x),
            KeyParam::EcCurve(x) => KeyParam::EcCurve(*x),
            KeyParam::RsaPublicExponent(x) => KeyParam::RsaPublicExponent(*x),
            KeyParam::RollbackResistance => KeyParam::RollbackResistance,
            KeyParam::UsageCountLimit(x) => KeyParam::UsageCountLimit(*x),
            KeyParam::UserSecureId(x) => KeyParam::UserSecureId(*x),
            KeyParam::NoAuthRequired => KeyParam::NoAuthRequired,
            KeyParam::ApplicationId(x) => KeyParam::ApplicationId(copy_vec(x)),
            KeyParam::ApplicationData(x) => KeyParam::ApplicationData(copy_vec(x)),
            KeyParam::CreationDatetime(x) => KeyParam::CreationDatetime(*x),
            KeyParam::OsVersion(x) => KeyParam::OsVersion(*x),
            KeyParam::OsPatchlevel(x) => KeyParam::OsPatchlevel(*x),
            KeyParam::Other(t, v) => KeyParam::Other(*t, v.duplicate()),
        }
    }

    /// The data item of the parameter.
    pub fn to_cbor_value(self) -> (r: CborValue)
        ensures
            r@ == key_param_term(self@),
    {
        let (tag, value) = match self {
            KeyParam::Purpose(x) => (TAG_PURPOSE, CborValue::Integer(x.code() as i128)),
            KeyParam::Algorithm(x) => (TAG_ALGORITHM, CborValue::Integer(x.code() as i128)),
            KeyParam::KeySize(x) => (TAG_KEY_SIZE, CborValue::Integer(x as i128)),
            KeyParam::Digest(x) => (TAG_DIGEST, CborValue::Integer(x.code() as i128)),
            KeyParam::EcCurve(x) => (TAG_EC_CURVE, CborValue::Integer(x.code() as i128)),
            KeyParam::RsaPublicExponent(x) => (TAG_RSA_PUBLIC_EXPONENT, CborValue::Integer(x as i128)),
            KeyParam::RollbackResistance => (TAG_ROLLBACK_RESISTANCE, CborValue::Bool(true)),
            KeyParam::UsageCountLimit(x) => (TAG_USAGE_COUNT_LIMIT, CborValue::Integer(x as i128)),
            KeyParam::UserSecureId(x) => (TAG_USER_SECURE_ID, CborValue::Integer(x as i128)),
            KeyParam::NoAuthRequired => (TAG_NO_AUTH_REQUIRED, CborValue::Bool(true)),
            KeyParam::ApplicationId(x) => (TAG_APPLICATION_ID, CborValue::Bytes(x)),
            KeyParam::ApplicationData(x) => (TAG_APPLICATION_DATA, CborValue::Bytes(x)),
            KeyParam::CreationDatetime(x) => (TAG_CREATION_DATETIME, CborValue::Integer(x as i128)),
            KeyParam::OsVersion(x) => (TAG_OS_VERSION, CborValue::Integer(x as i128)),
            KeyParam::OsPatchlevel(x) => (TAG_OS_PATCHLEVEL, CborValue::Integer(x as i128)),
            KeyParam::Other(t, v) => (t, v.to_cbor_value()),
        };
        pair_item(CborValue::Integer(tag as i128), value)
    }

    /// Read a parameter out of a data item.
    pub fn from_cbor_value(v: CborValue) -> (r: Result<KeyParam, CborError>)
        ensures
            match r {
                Ok(p) => spec_key_param_from(v@) == Ok::<KeyParamModel, CborError>(p@),
                Err(e) => spec_key_param_from(v@) == Err::<KeyParamModel, CborError>(e),
            },
    {
        let (tag_value, value) = match split_pair(v) {
            Ok(parts) => parts,
            Err(w) => return cbor_type_error(&w, "arr len 2"),
        };
        let tag = i32_from_cbor(tag_value, "int")?;
        Self::value_from_cbor(tag, value)
    }

    /// Read the value of a parameter with the given tag out of a data item.
    fn value_from_cbor(tag: i32, v: CborValue) -> (r: Result<KeyParam, CborError>)
        ensures
            match r {
                Ok(p) => spec_key_param_value(tag as int, v@) == Ok::<KeyParamModel, CborError>(p@),
                Err(e) => spec_key_param_value(tag as int, v@) == Err::<KeyParamModel, CborError>(e),
            },
    {
        if tag == TAG_PURPOSE {
            let i = i32_from_cbor(v, "int")?;
            match KeyPurpose::n(i) {
                Some(x) => Ok(KeyParam::Purpose(x)),
                None => Err(CborError::NonEnumValue),
            }
        } else if tag == TAG_ALGORITHM {
            let i = i32_from_cbor(v, "int")?;
            match Algorithm::n(i) {
                Some(x) => Ok(KeyParam::Algorithm(x)),
                None => Err(CborError::NonEnumValue),
            }
        } else if tag == TAG_DIGEST {
            let i = i32_from_cbor(v, "int")?;
            match Digest::n(i) {
                Some(x) => Ok(KeyParam::Digest(x)),
                None => Err(CborError::NonEnumValue),
            }
        } else if tag == TAG_EC_CURVE {
            let i = i32_from_cbor(v, "int")?;
            match EcCurve::n(i) {
                Some(x) => Ok(KeyParam::EcCurve(x)),
                None => Err(CborError::NonEnumValue),
            }
        } else if tag == TAG_KEY_SIZE || tag == TAG_USAGE_COUNT_LIMIT || tag == TAG_OS_VERSION
            || tag == TAG_OS_PATCHLEVEL {
            let x = int_in_from_cbor(v, 0, 0xFFFF_FFFF)? as u32;
            if tag == TAG_KEY_SIZE {
                Ok(KeyParam::KeySize(x))
            } else if tag == TAG_USAGE_COUNT_LIMIT {
                Ok(KeyParam::UsageCountLimit(x))
            } else if tag == TAG_OS_VERSION {
                Ok(KeyParam::OsVersion(x))
            } else {
                Ok(KeyParam::OsPatchlevel(x))
            }
        } else if tag == TAG_RSA_PUBLIC_EXPONENT || tag == TAG_USER_SECURE_ID {
            let x = int_in_from_cbor(v, 0, 0xFFFF_FFFF_FFFF_FFFF)? as u64;
            if tag == TAG_RSA_PUBLIC_EXPONENT {
                Ok(KeyParam::RsaPublicExponent(x))
            } else {
                Ok(KeyParam::UserSecureId(x))
            }
        } else if tag == TAG_CREATION_DATETIME {
            let x = int_in_from_cbor(v, -0x8000_0000_0000_0000, 0x7FFF_FFFF_FFFF_FFFF)? as i64;
            Ok(KeyParam::CreationDatetime(x))
        } else if tag == TAG_ROLLBACK_RESISTANCE || tag == TAG_NO_AUTH_REQUIRED {
            true_from_cbor(v)?;
            if tag == TAG_ROLLBACK_RESISTANCE {
                Ok(KeyParam::RollbackResistance)
            } else {
                Ok(KeyParam::NoAuthRequired)
            }
        } else if tag == TAG_APPLICATION_ID || tag == TAG_APPLICATION_DATA {
            let x = bytes_from_cbor(v)?;
            if tag == TAG_APPLICATION_ID {
                Ok(KeyParam::ApplicationId(x))
            } else {
                Ok(KeyParam::ApplicationData(x))
            }
        } else {
            let x = TagValue::from_cbor_value(tag, v)?;
            Ok(KeyParam::Other(tag, x))
        }
    }
}

/// The type of a tag, held in its top four bits.
fn tag_type_of(tag: i32) -> (r: i64)
    ensures
        r == tag_type(tag as int),
{
    let u: i64 = if tag < 0 { tag as i64 + 0x1_0000_0000 } else { tag as i64 };
    u / 0x1000_0000
}

impl TagValue {
    /// A copy of the value.
    pub fn duplicate(&self) -> (r: TagValue)
        ensures
            r@ == self@,
    {
        match self {
            TagValue::Int(x) => TagValue::Int(*x),
            TagValue::Uint(x) => TagValue::Uint(*x),
            TagValue::True => TagValue::True,
            TagValue::Bytes(b) => TagValue::Bytes(copy_vec(b)),
        }
    }

    /// The data item of the value.
    pub fn to_cbor_value(self) -> (r: CborValue)
        ensures
            r@ == tag_value_term(self@),
    {
        match self {
            TagValue::Int(x) => CborValue::Integer(x as i128),
            TagValue::Uint(x) => CborValue::Integer(x as i128),
            TagValue::True => CborValue::Bool(true),
            TagValue::Bytes(b) => CborValue::Bytes(b),
        }
    }

    /// Read the value of a parameter with the given tag out of a data
    /// item, as the type of the tag says.
    pub fn from_cbor_value(tag: i32, v: CborValue) -> (r: Result<TagValue, CborError>)
        ensures
            match r {
                Ok(x) => spec_tag_value_from(tag as int, v@) == Ok::<TagValueModel, CborError>(x@),
                Err(e) => spec_tag_value_from(tag as int, v@) == Err::<TagValueModel, CborError>(e),
            },
    {
        let ty = tag_type_of(tag);
        if ty == 1 || ty == 2 {
            let x = int_in_from_cbor(v, -0x8000_0000, 0x7FFF_FFFF)?;
            Ok(TagValue::Int(x as i64))
        } else if ty == 3 || ty == 4 {
            let x = int_in_from_cbor(v, 0, 0xFFFF_FFFF)?;
            Ok(TagValue::Uint(x as u64))
        } else if ty == 5 || ty == 10 {
            let x = int_in_from_cbor(v, 0, 0xFFFF_FFFF_FFFF_FFFF)?;
            Ok(TagValue::Uint(x as u64))
        } else if ty == 6 {
            let x = int_in_from_cbor(v, -0x8000_0000_0000_0000, 0x7FFF_FFFF_FFFF_FFFF)?;
            Ok(TagValue::Int(x as i64))
        } else if ty == 7 {
            true_from_cbor(v)?;
            Ok(TagValue::True)
        } else if ty == 8 || ty == 9 {
            let b = bytes_from_cbor(v)?;
            Ok(TagValue::Bytes(b))
        } else {
            Err(CborError::NonEnumValue)
        }
    }
}

/// Read the items of an array one after another with `f`; the first item
/// that fails decides the error.
pub open spec fn decode_items<T>(ts: Seq<CborTerm>, f: spec_fn(CborTerm) -> Result<T, CborError>) -> Result<Seq<T>, CborError>
    decreases ts.len(),
{
    if ts.len() == 0 {
        Ok(Seq::empty())
    } else {
        match decode_items(ts.drop_last(), f) {
            Err(e) => Err(e),
            Ok(xs) => match f(ts.last()) {
                Err(e) => Err(e),
                Ok(x) => Ok(xs.push(x)),
            },
        }
    }
}

/// Where `f` reads back every item that `g` writes, reading the items that
/// `g` writes for `xs` gives `xs`.
pub proof fn lemma_decode_items_roundtrip<T>(
    xs: Seq<T>,
    f: spec_fn(CborTerm) -> Result<T, CborError>,
    g: spec_fn(T) -> CborTerm,
)
    requires
        forall|i: int| 0 <= i < xs.len() ==> f(g(#[trigger] xs[i])) == Ok::<T, CborError>(xs[i]),
    ensures
        decode_items(xs.map_values(g), f) == Ok::<Seq<T>, CborError>(xs),
    decreases xs.len(),
{
    let ts = xs.map_values(g);
    if xs.len() > 0 {
        lemma_decode_items_roundtrip(xs.drop_last(), f, g);
        assert(ts.drop_last() =~= xs.drop_last().map_values(g));
        assert(ts.last() == g(xs.last()));
        assert(f(g(xs[xs.len() - 1])) == Ok::<T, CborError>(xs[xs.len() - 1]));
        assert(xs.drop_last().push(xs.last()) =~= xs);
        assert(decode_items(ts, f) == Ok::<Seq<T>, CborError>(xs.drop_last().push(xs.last())));
    } else {
        assert(xs =~= Seq::<T>::empty());
    }
}

/// The models of some key parameters.
pub open spec fn params_model(ps: Seq<KeyParam>) -> Seq<KeyParamModel> {
    ps.map_values(|p: KeyParam| p@)
}

/// Writing a key parameter, as a function.
pub open spec fn key_param_encoder() -> spec_fn(KeyParamModel) -> CborTerm {
    |p: KeyParamModel| key_param_term(p)
}

/// Reading a key parameter, as a function.
pub open spec fn key_param_decoder() -> spec_fn(CborTerm) -> Result<KeyParamModel, CborError> {
    |x: CborTerm| spec_key_param_from(x)
}

/// The array item of a list of key parameters.
pub open spec fn key_params_term(ps: Seq<KeyParamModel>) -> CborTerm {
    CborTerm::Array(ps.map_values(key_param_encoder()))
}

/// What reading a list of key parameters out of a data item gives.
pub open spec fn spec_key_params_from(t: CborTerm) -> Result<Seq<KeyParamModel>, CborError> {
    match t {
        CborTerm::Array(ts) => decode_items(ts, key_param_decoder()),
        _ => Err(type_error(t, "arr")),
    }
}

/// Reading back the data item of a list of key parameters gives the list.
pub proof fn lemma_key_params_roundtrip(ps: Seq<KeyParamModel>)
    requires
        key_params_valid(ps),
    ensures
        spec_key_params_from(key_params_term(ps)) == Ok::<Seq<KeyParamModel>, CborError>(ps),
{
    assert forall|i: int| 0 <= i < ps.len() implies key_param_decoder()(
        key_param_encoder()(#[trigger] ps[i]),
    ) == Ok::<KeyParamModel, CborError>(ps[i]) by {
        lemma_key_param_roundtrip(ps[i]);
    }
    lemma_decode_items_roundtrip(ps, key_param_decoder(), key_param_encoder());
}

/// A copy of a list of key parameters.
pub fn duplicate_params(ps: &[KeyParam]) -> (r: Vec<KeyParam>)
    ensures
        params_model(r@) == params_model(ps@),
{
    let mut r: Vec<KeyParam> = Vec::new();
    let mut i: usize = 0;
    while i < ps.len()
        invariant
            i <= ps@.len(),
            params_model(r@) == params_model(ps@.take(i as int)),
        decreases ps@.len() - i,
    {
        let p = ps[i].duplicate();
        proof {
            assert(params_model(ps@.take(i + 1)) =~= params_model(ps@.take(i as int)).push(ps@[i as int]@));
        }
        r.push(p);
        proof {
            assert(params_model(r@) =~= params_model(ps@.take(i as int)).push(ps@[i as int]@));
        }
        i = i + 1;
    }
    assert(ps@.take(ps@.len() as int) =~= ps@);
    r
}

/// The data item of a list of key parameters.
pub fn params_to_cbor(ps: Vec<KeyParam>) -> (r: CborValue)
    ensures
        r@ == key_params_term(params_model(ps@)),
{
    let ghost orig = ps@;
    let mut ps = ps;
    let _n = ps.len();
    let mut items: Vec<CborValue> = Vec::new();
    let mut i: usize = 0;
    assert(terms_of(items@) =~= params_model(orig.take(0)).map_values(key_param_encoder()));
    while ps.len() > 0
        invariant
            orig.len() <= usize::MAX,
            i + ps@.len() == orig.len(),
            ps@ == orig.skip(i as int),
            terms_of(items@) == params_model(orig.take(i as int)).map_values(key_param_encoder()),
        decreases ps@.len(),
    {
        let p = ps.remove(0);
        let item = p.to_cbor_value();
        let ghost old_items = items@;
        items.push(item);
        proof {
            assert(items@.drop_last() =~= old_items);
            assert(orig[i as int] == p);
            assert(params_model(orig.take(i + 1)) =~= params_model(orig.take(i as int)).push(p@));
            assert(terms_of(items@) =~= params_model(orig.take(i + 1)).map_values(key_param_encoder()));
            assert(ps@ =~= orig.skip(i + 1));
        }
        i = i + 1;
    }
    assert(orig.take(orig.len() as int) =~= orig);
    assert(terms_of(items@) =~= params_model(orig).map_values(key_param_encoder()));
    CborValue::Array(items)
}

/// Read a list of key parameters out of a data item.
pub fn params_from_cbor(v: CborValue) -> (r: Result<Vec<KeyParam>, CborError>)
    ensures
        match r {
            Ok(ps) => spec_key_params_from(v@) == Ok::<Seq<KeyParamModel>, CborError>(params_model(ps@)),
            Err(e) => spec_key_params_from(v@) == Err::<Seq<KeyParamModel>, CborError>(e),
        },
{
    let mut items = match v {
        CborValue::Array(items) => items,
        _ => return cbor_type_error(&v, "arr"),
    };
    let ghost ts = terms_of(items@);
    proof {
        lemma_terms_of(items@);
    }
    assert(v@ == CborTerm::Array(ts));
    let ghost orig = items@;
    let _n = items.len();
    let mut out: Vec<KeyParam> = Vec::new();
    let mut i: usize = 0;
    assert(ts.take(0) =~= Seq::<CborTerm>::empty());
    assert(params_model(out@) =~= Seq::<KeyParamModel>::empty());
    while items.len() > 0
        invariant
            orig.len() <= usize::MAX,
            v@ == CborTerm::Array(ts),
            ts == terms_of(orig),
            ts.len() == orig.len(),
            forall|j: int| 0 <= j < orig.len() ==> #[trigger] ts[j] == orig[j]@,
            i + items@.len() == orig.len(),
            items@ == orig.skip(i as int),
            decode_items(ts.take(i as int), key_param_decoder()) == Ok::<Seq<KeyParamModel>, CborError>(params_model(out@)),
        decreases items@.len(),
    {
        let item = items.remove(0);
        assert(item == orig[i as int]);
        assert(ts.take(i + 1).drop_last() =~= ts.take(i as int));
        assert(ts.take(i + 1).last() == item@);
        let ghost before = out@;
        assert(key_param_decoder()(item@) == spec_key_param_from(item@));
        let p = match KeyParam::from_cbor_value(item) {
            Ok(p) => p,
            Err(e) => {
                proof {
                    assert(decode_items(ts.take(i + 1), key_param_decoder()) == Err::<Seq<KeyParamModel>, CborError>(e));
                    lemma_decode_items_prefix_err(ts, key_param_decoder(), i as int + 1, e);
                    assert(spec_key_params_from(v@) == Err::<Seq<KeyParamModel>, CborError>(e));
                }
                return Err(e);
            },
        };
        out.push(p);
        proof {
            assert(params_model(out@) =~= params_model(before).push(p@));
            assert(items@ =~= orig.skip(i + 1));
        }
        i = i + 1;
    }
    assert(ts.take(i as int) =~= ts);
    Ok(out)
}

/// Where reading a prefix of the items fails, reading all of them fails
/// with the same error.
pub proof fn lemma_decode_items_prefix_err<T>(
    ts: Seq<CborTerm>,
    f: spec_fn(CborTerm) -> Result<T, CborError>,
    n: int,
    e: CborError,
)
    requires
        0 <= n <= ts.len(),
        decode_items(ts.take(n), f) == Err::<Seq<T>, CborError>(e),
    ensures
        decode_items(ts, f) == Err::<Seq<T>, CborError>(e),
    decreases ts.len() - n,
{
    if n < ts.len() {
        assert(ts.take(n + 1).drop_last() =~= ts.take(n));
        lemma_decode_items_prefix_err(ts, f, n + 1, e);
    } else {
        assert(ts.take(n) =~= ts);
    }
}

/// The model of the parameters of a key at one security level.
pub struct KeyCharacteristicsModel {
    pub security_level: SecurityLevel,
    pub authorizations: Seq<KeyParamModel>,
}

/// The parameters of a key that are enforced at one security level.
#[derive(Clone, Debug, PartialEq, Eq)]
pub struct KeyCharacteristics {
    pub security_level: SecurityLevel,
    pub authorizations: Vec<KeyParam>,
}

impl View for KeyCharacteristics {
    type V = KeyCharacteristicsModel;

    open spec fn view(&self) -> KeyCharacteristicsModel {
        KeyCharacteristicsModel {
            security_level: self.security_level,
            authorizations: params_model(self.authorizations@),
        }
    }
}

/// The data item of the characteristics at one security level: the level
/// and the list of parameters.
pub open spec fn key_characteristics_term(c: KeyCharacteristicsModel) -> CborTerm {
    CborTerm::Array(
        seq![CborTerm::Integer(security_level_code(c.security_level)), key_params_term(c.authorizations)],
    )
}

/// What reading the characteristics at one security level out of a data
/// item gives.
pub open spec fn spec_key_characteristics_from(t: CborTerm) -> Result<KeyCharacteristicsModel, CborError> {
    match t {
        CborTerm::Array(a) => if a.len() == 2 {
            match spec_key_params_from(a[1]) {
                Err(e) => Err(e),
                Ok(ps) => match spec_enum_from(a[0], |i: int| security_level_from_code(i)) {
                    Err(e) => Err(e),
                    Ok(l) => Ok(KeyCharacteristicsModel { security_level: l, authorizations: ps }),
                },
            }
        } else {
            Err(CborError::UnexpectedItem("arr", "arr len 2"))
        },
        _ => Err(type_error(t, "arr")),
    }
}

/// Reading back the data item of characteristics gives them.
pub proof fn lemma_key_characteristics_roundtrip(c: KeyCharacteristicsModel)
    requires
        key_params_valid(c.authorizations),
    ensures
        spec_key_characteristics_from(key_characteristics_term(c)) == Ok::<KeyCharacteristicsModel, CborError>(c),
{
    lemma_key_params_roundtrip(c.authorizations);
    assert(security_level_from_code(security_level_code(c.security_level)) == Some(c.security_level));
}

impl KeyCharacteristics {
    /// A copy of the characteristics.
    pub fn duplicate(&self) -> (r: KeyCharacteristics)
        ensures
            r@ == self@,
    {
        KeyCharacteristics {
            security_level: self.security_level,
            authorizations: duplicate_params(self.authorizations.as_slice()),
        }
    }

    /// The data item of the characteristics.
    pub fn to_cbor_value(self) -> (r: CborValue)
        ensures
            r@ == key_characteristics_term(self@),
    {
        let level = CborValue::Integer(self.security_level.code() as i128);
        let params = params_to_cbor(self.authorizations);
        pair_item(level, params)
    }

    /// Read characteristics out of a data item.
    pub fn from_cbor_value(v: CborValue) -> (r: Result<KeyCharacteristics, CborError>)
        ensures
            match r {
                Ok(c) => spec_key_characteristics_from(v@) == Ok::<KeyCharacteristicsModel, CborError>(c@),
                Err(e) => spec_key_characteristics_from(v@) == Err::<KeyCharacteristicsModel, CborError>(e),
            },
    {
        let is_array = match &v {
            CborValue::Array(_) => true,
            _ => false,
        };
        if !is_array {
            return cbor_type_error(&v, "arr");
        }
        let (level_value, params_value) = match split_pair(v) {
            Ok(parts) => parts,
            Err(_w) => return Err(CborError::UnexpectedItem("arr", "arr len 2")),
        };
        let authorizations = params_from_cbor(params_value)?;
        let i = i32_from_cbor(level_value, "int")?;
        match SecurityLevel::n(i) {
            Some(security_level) => Ok(KeyCharacteristics { security_level, authorizations }),
            None => Err(CborError::NonEnumValue),
        }
    }
}

/// The models of a list of characteristics.
pub open spec fn characteristics_model(cs: Seq<KeyCharacteristics>) -> Seq<KeyCharacteristicsModel> {
    cs.map_values(|c: KeyCharacteristics| c@)
}

/// Every parameter of every entry of the characteristics reads back as
/// itself.
pub open spec fn characteristics_valid(cs: Seq<KeyCharacteristicsModel>) -> bool {
    forall|i: int| 0 <= i < cs.len() ==> key_params_valid(#[trigger] cs[i].authorizations)
}

/// Writing characteristics, as a function.
pub open spec fn characteristics_encoder() -> spec_fn(KeyCharacteristicsModel) -> CborTerm {
    |c: KeyCharacteristicsModel| key_characteristics_term(c)
}

/// Reading characteristics, as a function.
pub open spec fn characteristics_decoder() -> spec_fn(CborTerm) -> Result<KeyCharacteristicsModel, CborError> {
    |x: CborTerm| spec_key_characteristics_from(x)
}

/// The array item of a list of characteristics.
pub open spec fn characteristics_list_term(cs: Seq<KeyCharacteristicsModel>) -> CborTerm {
    CborTerm::Array(cs.map_values(characteristics_encoder()))
}

/// The data item of a key parameter can be written.
pub proof fn lemma_key_param_term_in_range(p: KeyParamModel)
    ensures
        term_in_range(key_param_term(p)),
{
    let t = key_param_term(p);
    if let CborTerm::Array(a) = t {
        assert(int_in_range(key_purpose_code(KeyPurpose::Encrypt)));
        assert forall|i: int| 0 <= i < a.len() implies term_in_range(#[trigger] a[i]) by {
            match p {
                KeyParamModel::Purpose(x) => { assert(0 <= key_purpose_code(x) <= 7); },
                KeyParamModel::Algorithm(x) => { assert(0 <= algorithm_code(x) <= 128); },
                KeyParamModel::Digest(x) => { assert(0 <= digest_code(x) <= 6); },
                KeyParamModel::EcCurve(x) => { assert(0 <= ec_curve_code(x) <= 4); },
                _ => {},
            }
        }
    }
}

/// The data item of a list of key parameters can be written.
pub proof fn lemma_key_params_term_in_range(ps: Seq<KeyParamModel>)
    ensures
        term_in_range(key_params_term(ps)),
{
    let ts = ps.map_values(key_param_encoder());
    assert forall|i: int| 0 <= i < ts.len() implies term_in_range(#[trigger] ts[i]) by {
        lemma_key_param_term_in_range(ps[i]);
    }
}

/// The data item of a list of characteristics can be written.
pub proof fn lemma_characteristics_list_term_in_range(cs: Seq<KeyCharacteristicsModel>)
    ensures
        term_in_range(characteristics_list_term(cs)),
{
    let ts = cs.map_values(characteristics_encoder());
    assert forall|i: int| 0 <= i < ts.len() implies term_in_range(#[trigger] ts[i]) by {
        let c = cs[i];
        lemma_key_params_term_in_range(c.authorizations);
        let t = key_characteristics_term(c);
        if let CborTerm::Array(a) = t {
            assert forall|j: int| 0 <= j < a.len() implies term_in_range(#[trigger] a[j]) by {
                assert(0 <= security_level_code(c.security_level) <= 100);
            }
        }
    }
}

/// The data item of a key parameter holds no tag, only writable integers,
/// and nests one deep.
pub proof fn lemma_key_param_term_plain(p: KeyParamModel, depth: nat)
    requires
        depth >= 1,
    ensures
        term_plain_within(key_param_term(p), depth),
{
    lemma_key_param_term_in_range(p);
    let t = key_param_term(p);
    if let CborTerm::Array(a) = t {
        assert forall|i: int| 0 <= i < a.len() implies term_plain_within(#[trigger] a[i], (depth - 1) as nat) by {
            assert(term_in_range(a[i]));
        }
    }
}

/// The data item of a list of key parameters nests two deep.
pub proof fn lemma_key_params_term_plain(ps: Seq<KeyParamModel>, depth: nat)
    requires
        depth >= 2,
    ensures
        term_plain_within(key_params_term(ps), depth),
{
    let ts = ps.map_values(key_param_encoder());
    assert forall|i: int| 0 <= i < ts.len() implies term_plain_within(#[trigger] ts[i], (depth - 1) as nat) by {
        lemma_key_param_term_plain(ps[i], (depth - 1) as nat);
    }
}

/// The data item of a list of characteristics is plain: it nests four deep.
pub proof fn lemma_characteristics_list_term_plain(cs: Seq<KeyCharacteristicsModel>)
    ensures
        term_plain(characteristics_list_term(cs)),
{
    let ts = cs.map_values(characteristics_encoder());
    assert forall|i: int| 0 <= i < ts.len() implies term_plain_within(#[trigger] ts[i], 63) by {
        let c = cs[i];
        lemma_key_params_term_plain(c.authorizations, 62);
        let t = key_characteristics_term(c);
        if let CborTerm::Array(a) = t {
            assert forall|j: int| 0 <= j < a.len() implies term_plain_within(#[trigger] a[j], 62) by {
                assert(0 <= security_level_code(c.security_level) <= 100);
            }
        }
    }
}

/// The data item of a list of key parameters is plain.
pub proof fn lemma_key_params_list_plain(ps: Seq<KeyParamModel>)
    ensures
        term_plain(key_params_term(ps)),
{
    lemma_key_params_term_plain(ps, 64);
}

/// The parameters that key blobs act on are stored as their KeyMint tag
/// numbers with their values: a purpose under tag 536870913 with its
/// number, rollback resistance under tag 1879048495 with `true`, a usage
/// count limit under tag 805306773 with the count.
pub proof fn lemma_key_param_layout(p: KeyParamModel)
    ensures
        p matches KeyParamModel::Purpose(x) ==> key_param_term(p) == CborTerm::Array(
            seq![
                CborTerm::Integer(536870913),
                CborTerm::Integer(
                    match x {
                        KeyPurpose::Encrypt => 0,
                        KeyPurpose::Decrypt => 1,
                        KeyPurpose::Sign => 2,
                        KeyPurpose::Verify => 3,
                        KeyPurpose::WrapKey => 5,
                        KeyPurpose::AgreeKey => 6,
                        KeyPurpose::AttestKey => 7,
                    },
                ),
            ],
        ),
        p is RollbackResistance ==> key_param_term(p) == CborTerm::Array(
            seq![CborTerm::Integer(1879048495), CborTerm::Bool(true)],
        ),
        p matches KeyParamModel::UsageCountLimit(n) ==> key_param_term(p) == CborTerm::Array(
            seq![CborTerm::Integer(805306773), CborTerm::Integer(n as int)],
        ),
{
}

/// The characteristics at one security level are stored as the level's
/// KeyMint number (0 software, 1 trusted environment, 2 StrongBox, 100
/// keystore) followed by the list of their parameters, each in turn.
pub proof fn lemma_key_characteristics_layout(c: KeyCharacteristicsModel)
    ensures
        key_characteristics_term(c) == CborTerm::Array(
            seq![
                CborTerm::Integer(
                    match c.security_level {
                        SecurityLevel::Software => 0,
                        SecurityLevel::TrustedEnvironment => 1,
                        SecurityLevel::Strongbox => 2,
                        SecurityLevel::Keystore => 100,
                    },
                ),
                key_params_term(c.authorizations),
            ],
        ),
        key_params_term(c.authorizations) matches CborTerm::Array(ts) && ts.len() == c.authorizations.len()
            && forall|i: int| 0 <= i < ts.len() ==> #[trigger] ts[i] == key_param_term(c.authorizations[i]),
{
}

/// What reading a list of characteristics out of a data item gives.
pub open spec fn spec_characteristics_list_from(t: CborTerm) -> Result<Seq<KeyCharacteristicsModel>, CborError> {
    match t {
        CborTerm::Array(ts) => decode_items(ts, characteristics_decoder()),
        _ => Err(type_error(t, "arr")),
    }
}

/// Reading back the data item of a list of characteristics gives the list.
pub proof fn lemma_characteristics_list_roundtrip(cs: Seq<KeyCharacteristicsModel>)
    requires
        characteristics_valid(cs),
    ensures
        spec_characteristics_list_from(characteristics_list_term(cs)) == Ok::<Seq<KeyCharacteristicsModel>, CborError>(cs),
{
    assert forall|i: int| 0 <= i < cs.len() implies characteristics_decoder()(
        characteristics_encoder()(#[trigger] cs[i]),
    ) == Ok::<KeyCharacteristicsModel, CborError>(cs[i]) by {
        lemma_key_characteristics_roundtrip(cs[i]);
    }
    lemma_decode_items_roundtrip(cs, characteristics_decoder(), characteristics_encoder());
}

/// A copy of a list of characteristics.
pub fn duplicate_characteristics(cs: &[KeyCharacteristics]) -> (r: Vec<KeyCharacteristics>)
    ensures
        characteristics_model(r@) == characteristics_model(cs@),
{
    let mut r: Vec<KeyCharacteristics> = Vec::new();
    let mut i: usize = 0;
    while i < cs.len()
        invariant
            i <= cs@.len(),
            characteristics_model(r@) == characteristics_model(cs@.take(i as int)),
        decreases cs@.len() - i,
    {
        let c = cs[i].duplicate();
        let ghost before = r@;
        r.push(c);
        proof {
            assert(characteristics_model(cs@.take(i + 1)) =~= characteristics_model(cs@.take(i as int)).push(cs@[i as int]@));
            assert(characteristics_model(r@) =~= characteristics_model(before).push(c@));
        }
        i = i + 1;
    }
    assert(cs@.take(cs@.len() as int) =~= cs@);
    r
}

/// The data item of a list of characteristics.
pub fn characteristics_to_cbor(cs: Vec<KeyCharacteristics>) -> (r: CborValue)
    ensures
        r@ == characteristics_list_term(characteristics_model(cs@)),
{
    let ghost orig = cs@;
    let mut cs = cs;
    let _n = cs.len();
    let mut items: Vec<CborValue> = Vec::new();
    let mut i: usize = 0;
    assert(terms_of(items@) =~= characteristics_model(orig.take(0)).map_values(characteristics_encoder()));
    while cs.len() > 0
        invariant
            orig.len() <= usize::MAX,
            i + cs@.len() == orig.len(),
            cs@ == orig.skip(i as int),
            terms_of(items@) == characteristics_model(orig.take(i as int)).map_values(characteristics_encoder()),
        decreases cs@.len(),
    {
        let c = cs.remove(0);
        let ghost cm = c@;
        let item = c.to_cbor_value();
        let ghost old_items = items@;
        items.push(item);
        proof {
            assert(items@.drop_last() =~= old_items);
            assert(orig[i as int]@ == cm);
            assert(characteristics_model(orig.take(i + 1)) =~= characteristics_model(orig.take(i as int)).push(cm));
            assert(terms_of(items@) =~= characteristics_model(orig.take(i + 1)).map_values(characteristics_encoder()));
            assert(cs@ =~= orig.skip(i + 1));
        }
        i = i + 1;
    }
    assert(orig.take(orig.len() as int) =~= orig);
    assert(terms_of(items@) =~= characteristics_model(orig).map_values(characteristics_encoder()));
    CborValue::Array(items)
}

/// Read a list of characteristics out of a data item.
pub fn characteristics_from_cbor(v: CborValue) -> (r: Result<Vec<KeyCharacteristics>, CborError>)
    ensures
        match r {
            Ok(cs) => spec_characteristics_list_from(v@) == Ok::<Seq<KeyCharacteristicsModel>, CborError>(characteristics_model(cs@)),
            Err(e) => spec_characteristics_list_from(v@) == Err::<Seq<KeyCharacteristicsModel>, CborError>(e),
        },
{
    let mut items = match v {
        CborValue::Array(items) => items,
        _ => return cbor_type_error(&v, "arr"),
    };
    let ghost ts = terms_of(items@);
    proof {
        lemma_terms_of(items@);
    }
    assert(v@ == CborTerm::Array(ts));
    let ghost orig = items@;
    let _n = items.len();
    let mut out: Vec<KeyCharacteristics> = Vec::new();
    let mut i: usize = 0;
    assert(ts.take(0) =~= Seq::<CborTerm>::empty());
    assert(characteristics_model(out@) =~= Seq::<KeyCharacteristicsModel>::empty());
    while items.len() > 0
        invariant
            orig.len() <= usize::MAX,
            v@ == CborTerm::Array(ts),
            ts == terms_of(orig),
            ts.len() == orig.len(),
            forall|j: int| 0 <= j < orig.len() ==> #[trigger] ts[j] == orig[j]@,
            i + items@.len() == orig.len(),
            items@ == orig.skip(i as int),
            decode_items(ts.take(i as int), characteristics_decoder()) == Ok::<Seq<KeyCharacteristicsModel>, CborError>(characteristics_model(out@)),
        decreases items@.len(),
    {
        let item = items.remove(0);
        assert(item == orig[i as int]);
        assert(ts.take(i + 1).drop_last() =~= ts.take(i as int));
        assert(ts.take(i + 1).last() == item@);
        let ghost before = out@;
        assert(characteristics_decoder()(item@) == spec_key_characteristics_from(item@));
        let c = match KeyCharacteristics::from_cbor_value(item) {
            Ok(c) => c,
            Err(e) => {
                proof {
                    assert(decode_items(ts.take(i + 1), characteristics_decoder()) == Err::<Seq<KeyCharacteristicsModel>, CborError>(e));
                    lemma_decode_items_prefix_err(ts, characteristics_decoder(), i as int + 1, e);
                }
                return Err(e);
            },
        };
        let ghost cm = c@;
        out.push(c);
        proof {
            assert(characteristics_model(out@) =~= characteristics_model(before).push(cm));
            assert(items@ =~= orig.skip(i + 1));
        }
        i = i + 1;
    }
    assert(ts.take(i as int) =~= ts);
    Ok(out)
}

} // verus!
