//! The COSE_Encrypt0 structure (RFC 8152) in which encrypted key material
//! is kept, with the pieces of it that `coset` computes.
use vstd::prelude::*;
use crate::cbor::{
    cbor_encoding, cbor_type_error, lemma_terms_of, terms_of, to_ciborium, type_error, CborError, CborTerm,
    CborValue,
};

verus! {

/// The COSE number of the AES-256-GCM algorithm.
pub const COSE_ALG_A256GCM: i64 = 3;

/// What `coset` reports when it reads a data item as a COSE_Encrypt0
/// structure: `None` where it accepts the item, else the error.
pub uninterp spec fn cose_encrypt0_error(t: CborTerm) -> Option<CborError>;

/// The header map that holds only the given algorithm: `{1: alg}`.
pub open spec fn alg_header_term(alg: int) -> CborTerm {
    CborTerm::Mapping(seq![(CborTerm::Integer(1), CborTerm::Integer(alg))])
}

/// The bytes of a protected header that holds only the given algorithm.
pub open spec fn cose_protected_header(alg: int) -> Seq<u8> {
    cbor_encoding(alg_header_term(alg))
}

/// The additional authenticated data of a COSE_Encrypt0 structure: the
/// bytes of the Enc_structure `["Encrypt0", protected, external_aad]`, for a
/// protected header (as its bytes) and external additional data.
pub open spec fn cose_enc_structure(protected: Seq<u8>, external_aad: Seq<u8>) -> Seq<u8> {
    cbor_encoding(
        CborTerm::Array(
            seq![
                CborTerm::Text(seq!['E', 'n', 'c', 'r', 'y', 'p', 't', '0']),
                CborTerm::Bytes(protected),
                CborTerm::Bytes(external_aad),
            ],
        ),
    )
}

#[verifier::external_type_specification]
#[verifier::external_body]
pub struct ExCoseError(coset::CoseError);

/// The error that a `coset` error becomes.
#[verifier::external_body]
fn from_cose_error(e: coset::CoseError) -> CborError {
    match e {
        coset::CoseError::DecodeFailed(_) => CborError::DecodeFailed,
        coset::CoseError::DuplicateMapKey => CborError::InvalidValue,
        coset::CoseError::EncodeFailed => CborError::EncodeFailed,
        coset::CoseError::ExtraneousData => CborError::ExtraneousData,
        coset::CoseError::OutOfRangeIntegerValue => CborError::OutOfRangeIntegerValue,
        coset::CoseError::UnexpectedItem(got, want) => CborError::UnexpectedItem(got, want),
        coset::CoseError::UnregisteredIanaValue => CborError::NonEnumValue,
        coset::CoseError::UnregisteredIanaNonPrivateValue => CborError::NonEnumValue,
    }
}

/// Ask `coset::CoseEncrypt0::from_cbor_value` whether it accepts a data
/// item.
#[verifier::external_body]
fn cose_encrypt0_check(v: &CborValue) -> (r: Result<(), CborError>)
    ensures
        r == match cose_encrypt0_error(v@) {
            Some(e) => Err::<(), CborError>(e),
            None => Ok::<(), CborError>(()),
        },
{
    let c = to_ciborium(v).ok_or(CborError::OutOfRangeIntegerValue)?;
    <coset::CoseEncrypt0 as coset::AsCborValue>::from_cbor_value(c).map_err(from_cose_error)?;
    Ok(())
}

/// The bytes of a protected header that holds only the given algorithm,
/// written by `coset::ProtectedHeader::cbor_bstr`: the map `{1: alg}` as
/// `ciborium` writes it.  A registered algorithm, AES-256-GCM among them,
/// always encodes.
#[verifier::external_body]
fn protected_header_bytes(alg: i64) -> (r: Result<Vec<u8>, CborError>)
    ensures
        r matches Ok(b) ==> b@ == cose_protected_header(alg as int),
        alg == 3 ==> r is Ok,
{
    let alg = <coset::iana::Algorithm as coset::iana::EnumI64>::from_i64(alg).ok_or(CborError::InvalidValue)?;
    let header = coset::HeaderBuilder::new().algorithm(alg).build();
    let ph = coset::ProtectedHeader { original_data: None, header };
    match ph.cbor_bstr().map_err(from_cose_error)? {
        ciborium::value::Value::Bytes(b) => Ok(b),
        _ => Err(CborError::EncodeFailed),
    }
}

/// The Enc_structure of a COSE_Encrypt0 structure, written by
/// `coset::enc_structure_data`: the array `["Encrypt0", protected,
/// external_aad]` as `ciborium` writes it.
#[verifier::external_body]
fn enc_structure(protected: &[u8], external_aad: &[u8]) -> (r: Vec<u8>)
    ensures
        r@ == cose_enc_structure(protected@, external_aad@),
{
    let ph = coset::ProtectedHeader { original_data: Some(protected.to_vec()), header: coset::Header::default() };
    coset::enc_structure_data(coset::EncryptionContext::CoseEncrypt0, ph, external_aad)
}

/// The model of a COSE_Encrypt0 structure.
pub struct CoseEncrypt0Model {
    pub protected: Seq<u8>,
    pub unprotected: CborTerm,
    pub ciphertext: Option<Seq<u8>>,
}

/// A COSE_Encrypt0 structure: the protected header as the bytes it is
/// carried in, the unprotected header map, and the ciphertext.
#[derive(Debug, PartialEq, Eq)]
pub struct CoseEncrypt0 {
    pub protected: Vec<u8>,
    pub unprotected: CborValue,
    pub ciphertext: Option<Vec<u8>>,
}

impl View for CoseEncrypt0 {
    type V = CoseEncrypt0Model;

    open spec fn view(&self) -> CoseEncrypt0Model {
        CoseEncrypt0Model {
            protected: self.protected@,
            unprotected: self.unprotected@,
            ciphertext: match self.ciphertext {
                Some(c) => Some(c@),
                None => None,
            },
        }
    }
}

/// The data item of a COSE_Encrypt0 structure.
pub open spec fn cose_encrypt0_term(c: CoseEncrypt0Model) -> CborTerm {
    CborTerm::Array(
        seq![
            CborTerm::Bytes(c.protected),
            c.unprotected,
            match c.ciphertext {
                Some(b) => CborTerm::Bytes(b),
                None => CborTerm::Null,
            },
        ],
    )
}

/// What reading a COSE_Encrypt0 structure out of a data item gives: what
/// `coset` reports, and where it accepts the item, its three parts.
pub open spec fn spec_cose_encrypt0_from(t: CborTerm) -> Result<CoseEncrypt0Model, CborError> {
    match cose_encrypt0_error(t) {
        Some(e) => Err(e),
        None => match t {
            CborTerm::Array(a) if a.len() == 3 => match (a[0], a[2]) {
                (CborTerm::Bytes(p), CborTerm::Bytes(c)) => Ok(
                    CoseEncrypt0Model { protected: p, unprotected: a[1], ciphertext: Some(c) },
                ),
                (CborTerm::Bytes(p), CborTerm::Null) => Ok(
                    CoseEncrypt0Model { protected: p, unprotected: a[1], ciphertext: None },
                ),
                _ => Err(CborError::DecodeFailed),
            },
            _ => Err(CborError::DecodeFailed),
        },
    }
}

/// Where `coset` accepts the data item of a COSE_Encrypt0 structure,
/// reading it back gives the structure.
pub proof fn lemma_cose_encrypt0_roundtrip(c: CoseEncrypt0Model)
    requires
        cose_encrypt0_error(cose_encrypt0_term(c)) is None,
    ensures
        spec_cose_encrypt0_from(cose_encrypt0_term(c)) == Ok::<CoseEncrypt0Model, CborError>(c),
{
}

impl CoseEncrypt0 {
    /// The data item of the structure.
    pub fn to_cbor_value(self) -> (r: CborValue)
        ensures
            r@ == cose_encrypt0_term(self@),
    {
        let ghost m = self@;
        let ct = match self.ciphertext {
            Some(b) => CborValue::Bytes(b),
            None => CborValue::Null,
        };
        assert(ct@ == match m.ciphertext {
            Some(b) => CborTerm::Bytes(b),
            None => CborTerm::Null,
        });
        let a = CborValue::Bytes(self.protected);
        let b = self.unprotected;
        let ghost (ta, tb, tc) = (a@, b@, ct@);
        let mut v: Vec<CborValue> = Vec::new();
        v.push(a);
        v.push(b);
        v.push(ct);
        proof {
            lemma_terms_of(v@);
            assert(terms_of(v@) =~= seq![ta, tb, tc]);
        }
        let r = CborValue::Array(v);
        assert(ta == CborTerm::Bytes(m.protected));
        assert(tb == m.unprotected);
        assert(seq![ta, tb, tc] =~= seq![
            CborTerm::Bytes(m.protected),
            m.unprotected,
            match m.ciphertext {
                Some(b) => CborTerm::Bytes(b),
                None => CborTerm::Null,
            },
        ]);
        r
    }

    /// Read the structure out of a data item.
    pub fn from_cbor_value(v: CborValue) -> (r: Result<CoseEncrypt0, CborError>)
        ensures
            match r {
                Ok(c) => spec_cose_encrypt0_from(v@) == Ok::<CoseEncrypt0Model, CborError>(c@),
                Err(e) => spec_cose_encrypt0_from(v@) == Err::<CoseEncrypt0Model, CborError>(e),
            },
    {
        cose_encrypt0_check(&v)?;
        let mut items = match v {
            CborValue::Array(items) => items,
            _ => return Err(CborError::DecodeFailed),
        };
        let ghost s = items@;
        proof {
            lemma_terms_of(s);
        }
        if items.len() != 3 {
            return Err(CborError::DecodeFailed);
        }
        let c = items.remove(2);
        let u = items.remove(1);
        let p = items.remove(0);
        assert(terms_of(s) =~= seq![p@, u@, c@]);
        let protected = match p {
            CborValue::Bytes(b) => b,
            _ => return Err(CborError::DecodeFailed),
        };
        let ciphertext = match c {
            CborValue::Bytes(b) => Some(b),
            CborValue::Null => None,
            _ => return Err(CborError::DecodeFailed),
        };
        Ok(CoseEncrypt0 { protected, unprotected: u, ciphertext })
    }
}

/// The bytes of the protected header that holds the algorithm AES-256-GCM.
pub fn a256gcm_protected_header() -> (r: Result<Vec<u8>, CborError>)
    ensures
        r matches Ok(b) && b@ == cose_protected_header(COSE_ALG_A256GCM as int),
{
    protected_header_bytes(COSE_ALG_A256GCM)
}

/// The additional authenticated data for the ciphertext of a COSE_Encrypt0
/// structure with the given protected header and no external data.
pub fn encrypt0_aad(protected: &[u8]) -> (r: Vec<u8>)
    ensures
        r@ == cose_enc_structure(protected@, Seq::empty()),
{
    let empty: Vec<u8> = Vec::new();
    assert(empty@ =~= Seq::<u8>::empty());
    enc_structure(protected, empty.as_slice())
}

} // verus!
