use kmr_keyblob::cbor::{from_slice, to_vec, CborError, CborValue};
use kmr_keyblob::crypto::{
    try_to_vec, AesKey, CurveType, DesKey, EcKey, HmacKey, KeyMaterial, MlDsaKey,
    OpaqueKeyMaterial, OpaqueOr, RsaKey, MLDSA65_PRIVATE_KEY_LEN,
};
use kmr_keyblob::error::{Error, ErrorCode};
use kmr_keyblob::keymint::{EcCurve, MlDsaVariant};

fn bytes(n: usize, seed: u8) -> Vec<u8> {
    (0..n).map(|i| seed.wrapping_add(i as u8)).collect()
}

fn roundtrip(km: KeyMaterial) -> KeyMaterial {
    let value = km.to_cbor_value().unwrap();
    KeyMaterial::from_cbor_value(value).unwrap()
}

fn roundtrip_bytes(km: KeyMaterial) -> KeyMaterial {
    let data = km.into_vec().unwrap();
    KeyMaterial::from_slice(&data).unwrap()
}

#[test]
fn aes_key_material_cbor_bytes() {
    let km = KeyMaterial::Aes(OpaqueOr::Explicit(AesKey::new(bytes(16, 0)).unwrap()));
    let data = km.into_vec().unwrap();
    let mut expected = vec![0x83, 0x18, 0x20, 0xf4, 0x50];
    expected.extend(bytes(16, 0));
    assert_eq!(data, expected);
}

#[test]
fn opaque_hmac_key_material_cbor_bytes() {
    let km = KeyMaterial::Hmac(OpaqueOr::Opaque(OpaqueKeyMaterial(vec![1, 2, 3])));
    let data = km.into_vec().unwrap();
    assert_eq!(data, vec![0x83, 0x18, 0x80, 0xf5, 0x43, 1, 2, 3]);
}

#[test]
fn key_material_roundtrips_every_kind() {
    let kinds = vec![
        KeyMaterial::Aes(OpaqueOr::Explicit(AesKey::new(bytes(24, 3)).unwrap())),
        KeyMaterial::Aes(OpaqueOr::Opaque(OpaqueKeyMaterial(bytes(7, 1)))),
        KeyMaterial::TripleDes(OpaqueOr::Explicit(DesKey(bytes(24, 9)))),
        KeyMaterial::Hmac(OpaqueOr::Explicit(HmacKey(bytes(40, 2)))),
        KeyMaterial::Rsa(OpaqueOr::Explicit(RsaKey(bytes(100, 5)))),
        KeyMaterial::Ec(EcCurve::P256, CurveType::Nist, OpaqueOr::Explicit(EcKey::P256(bytes(121, 4)))),
        KeyMaterial::Ec(EcCurve::Curve25519, CurveType::EdDsa, OpaqueOr::Explicit(EcKey::Ed25519(bytes(32, 8)))),
        KeyMaterial::Ec(EcCurve::Curve25519, CurveType::Xdh, OpaqueOr::Explicit(EcKey::X25519(bytes(32, 6)))),
        KeyMaterial::Ec(EcCurve::P384, CurveType::Nist, OpaqueOr::Opaque(OpaqueKeyMaterial(bytes(5, 0)))),
        KeyMaterial::MlDsa(MlDsaVariant::MlDsa65, OpaqueOr::Explicit(MlDsaKey::MlDsa65(bytes(MLDSA65_PRIVATE_KEY_LEN, 1)))),
        KeyMaterial::MlDsa(MlDsaVariant::MlDsa87, OpaqueOr::Opaque(OpaqueKeyMaterial(bytes(3, 1)))),
    ];
    for km in kinds {
        let copy = roundtrip(km.clone());
        assert!(copy == km);
        let copy = roundtrip_bytes(km.clone());
        assert!(copy == km);
    }
}

fn read_error(value: CborValue) -> Option<CborError> {
    KeyMaterial::from_cbor_value(value).err()
}

fn slice_error(data: &[u8]) -> Option<CborError> {
    KeyMaterial::from_slice(data).err()
}

fn item(algo: i128, opaque: CborValue, inner: CborValue) -> CborValue {
    CborValue::Array(vec![CborValue::Integer(algo), opaque, inner])
}

#[test]
fn key_material_read_errors() {
    assert_eq!(
        read_error(CborValue::Array(vec![CborValue::Integer(32)])),
        Some(CborError::UnexpectedItem("array", "arr len 3"))
    );
    assert_eq!(
        read_error(CborValue::Null),
        Some(CborError::UnexpectedItem("null", "arr len 3"))
    );
    assert_eq!(
        read_error(item(32, CborValue::Integer(1), CborValue::Bytes(bytes(16, 0)))),
        Some(CborError::UnexpectedItem("int", "bool"))
    );
    assert_eq!(
        read_error(item(99, CborValue::Bool(false), CborValue::Bytes(vec![]))),
        Some(CborError::UnexpectedItem("unknown enum", "algo enum"))
    );
    assert_eq!(
        read_error(item(0x1_0000_0000, CborValue::Bool(false), CborValue::Bytes(vec![]))),
        Some(CborError::OutOfRangeIntegerValue)
    );
    assert_eq!(
        read_error(item(32, CborValue::Bool(false), CborValue::Bytes(bytes(15, 0)))),
        Some(CborError::UnexpectedItem("bstr", "bstr len 16/24/32"))
    );
    assert_eq!(
        read_error(item(33, CborValue::Bool(false), CborValue::Bytes(bytes(16, 0)))),
        Some(CborError::UnexpectedItem("bstr", "bstr len 24"))
    );
    assert_eq!(
        read_error(item(128, CborValue::Bool(false), CborValue::Integer(3))),
        Some(CborError::UnexpectedItem("int", "bstr"))
    );
    let ec = |curve: i128, ty: i128, n: usize| {
        item(3, CborValue::Bool(false), CborValue::Array(vec![
            CborValue::Integer(curve),
            CborValue::Integer(ty),
            CborValue::Bytes(bytes(n, 0)),
        ]))
    };
    assert_eq!(read_error(ec(4, 1, 31)), Some(CborError::OutOfRangeIntegerValue));
    assert_eq!(read_error(ec(4, 0, 32)), Some(CborError::NonEnumValue));
    assert_eq!(read_error(ec(9, 0, 32)), Some(CborError::NonEnumValue));
    assert_eq!(read_error(ec(1, 7, 32)), Some(CborError::NonEnumValue));
    assert_eq!(
        read_error(item(3, CborValue::Bool(false), CborValue::Bytes(vec![]))),
        Some(CborError::UnexpectedItem("bstr", "arr len 3"))
    );
    let mldsa = item(4, CborValue::Bool(false), CborValue::Array(vec![
        CborValue::Integer(1),
        CborValue::Bytes(bytes(10, 0)),
    ]));
    assert_eq!(read_error(mldsa), Some(CborError::InvalidValue));
}

#[test]
fn key_material_bytes_errors() {
    assert_eq!(slice_error(&[0x83, 0x18]), Some(CborError::DecodeFailed));
    let mut data = KeyMaterial::Hmac(OpaqueOr::Explicit(HmacKey(vec![1]))).into_vec().unwrap();
    data.push(0);
    assert_eq!(slice_error(&data), Some(CborError::ExtraneousData));
}

#[test]
fn symmetry_of_key_kinds() {
    let aes = KeyMaterial::Aes(OpaqueOr::Opaque(OpaqueKeyMaterial(vec![])));
    assert!(aes.is_symmetric());
    assert!(!aes.is_asymmetric());
    let rsa = KeyMaterial::Rsa(OpaqueOr::Explicit(RsaKey(vec![1])));
    assert!(rsa.is_asymmetric());
    assert!(!rsa.is_symmetric());
}

#[test]
fn debug_labels_hide_key_bytes() {
    let aes = KeyMaterial::Aes(OpaqueOr::Explicit(AesKey::new(bytes(32, 0)).unwrap()));
    assert_eq!(aes.debug_label(), "Aes256(...)");
    let ec = KeyMaterial::Ec(EcCurve::P521, CurveType::Nist, OpaqueOr::Opaque(OpaqueKeyMaterial(vec![])));
    assert_eq!(ec.debug_label(), "Ec(P521, ...)");
    assert_eq!(KeyMaterial::cddl_typename(), "KeyMaterial");
    assert!(KeyMaterial::cddl_schema().contains("[32, bool, bstr], ; Algorithm_Aes"));
}

#[test]
fn aes_key_sizes() {
    assert!(matches!(AesKey::new(bytes(16, 0)), Ok(AesKey::Aes128(_))));
    assert!(matches!(AesKey::new(bytes(24, 0)), Ok(AesKey::Aes192(_))));
    assert!(matches!(AesKey::new(bytes(32, 0)), Ok(AesKey::Aes256(_))));
    assert!(matches!(AesKey::new(bytes(20, 0)), Err(Error::Hal(ErrorCode::UnsupportedKeySize))));
}

#[test]
fn copying_slices() {
    assert_eq!(try_to_vec(&[5, 6, 7]), Ok(vec![5, 6, 7]));
}

#[test]
fn cbor_values_roundtrip_through_bytes() {
    let v = CborValue::Array(vec![
        CborValue::Integer(-5),
        CborValue::Text("abc".to_string()),
        CborValue::Mapping(vec![(CborValue::Integer(1), CborValue::Null)]),
        CborValue::Tag(24, Box::new(CborValue::Bytes(vec![1, 2]))),
        CborValue::Integer(u64::MAX as i128),
    ]);
    let data = to_vec(&v).unwrap();
    assert_eq!(from_slice(&data).unwrap(), v);
    assert_eq!(to_vec(&CborValue::Integer(1i128 << 70)), Err(CborError::EncodeFailed));
    assert_eq!(from_slice(&[0xf9, 0x3c, 0x00]), Ok(CborValue::Float));
    assert_eq!(to_vec(&CborValue::Float), Err(CborError::EncodeFailed));
    assert_eq!(from_slice(&[0xf9, 0x3c]), Err(CborError::DecodeFailed));
    assert_eq!(slice_error(&[0xf9, 0x3c, 0x00]), Some(CborError::UnexpectedItem("float", "arr len 3")));
}

#[test]
fn wrapping_keys_in_opaque_or() {
    let k: OpaqueOr<HmacKey> = HmacKey(vec![1, 2]).into();
    assert!(k == OpaqueOr::Explicit(HmacKey(vec![1, 2])));
    let o: OpaqueOr<RsaKey> = OpaqueKeyMaterial(vec![3]).into();
    assert!(o == OpaqueOr::Opaque(OpaqueKeyMaterial(vec![3])));
}
