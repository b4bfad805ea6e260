//! Key blobs: key material encrypted under a key-encryption key that is
//! derived from a root key, the key's characteristics, hidden parameters
//! and, where the device has secure storage, a secure-deletion secret.
use vstd::prelude::*;
use crate::cbor::{
    cbor_decoding, cbor_encoding, cbor_type_error, decode_exact, from_slice, lemma_terms_of, reads_back_from_front,
    term_in_range, term_plain, term_plain_within, terms_of,
    to_vec, type_error, CborError, CborTerm, CborValue,
};
use crate::cose::{
    a256gcm_protected_header, cose_enc_structure, cose_encrypt0_error, cose_encrypt0_term, cose_protected_header,
    encrypt0_aad, spec_cose_encrypt0_from, CoseEncrypt0, CoseEncrypt0Model, COSE_ALG_A256GCM,
};
use crate::crypto::{
    copy_bytes, extend_bytes, key_material_term, key_material_valid, AadOperation,
    lemma_key_material_roundtrip, lemma_key_material_term_plain, spec_key_material_from,
    spec_key_material_from_bytes, Aes, AesKey, AesVariant, GcmMode, HmacKey, KeyMaterial,
    KeyMaterialModel, KeyRepr, OpaqueOr, SymmetricOperation,
};
use crate::error::{cbor_error, Error, ErrorCode};
use crate::kdf::{aes_key_from_bytes, expand_aes, hkdf_aes, hkdf_default_salt, hkdf_okm, spec_hkdf, Hkdf, Hmac};
use crate::keymint::{
    characteristics_from_cbor, characteristics_list_term, characteristics_model, characteristics_valid,
    duplicate_characteristics, key_params_term, key_params_valid, params_model, params_to_cbor,
    spec_key_params_from,
    spec_characteristics_list_from, spec_i32_from, KeyCharacteristics, KeyCharacteristicsModel,
    Digest, KeyParam, KeyParamModel, KeyPurpose, SecurityLevel,
};

verus! {

/// The number of a slot in secure storage that holds a secure-deletion
/// secret.
#[derive(Clone, Copy, Debug, PartialEq, Eq, Structural, PartialOrd, Ord)]
pub struct SecureDeletionSlot(pub u32);

/// The data item of an optional slot number.
pub open spec fn slot_term(s: Option<SecureDeletionSlot>) -> CborTerm {
    match s {
        Some(slot) => CborTerm::Integer(slot.0 as int),
        None => CborTerm::Null,
    }
}

/// What reading an optional slot number out of a data item gives.
pub open spec fn spec_slot_from(t: CborTerm) -> Result<Option<SecureDeletionSlot>, CborError> {
    match t {
        CborTerm::Null => Ok(None),
        CborTerm::Integer(i) => if 0 <= i <= u32::MAX {
            Ok(Some(SecureDeletionSlot(i as u32)))
        } else {
            Err(CborError::OutOfRangeIntegerValue)
        },
        _ => Err(type_error(t, "int")),
    }
}

/// The data item of an optional slot number.
fn slot_to_cbor(s: Option<SecureDeletionSlot>) -> (r: CborValue)
    ensures
        r@ == slot_term(s),
{
    match s {
        Some(slot) => CborValue::Integer(slot.0 as i128),
        None => CborValue::Null,
    }
}

/// Read an optional slot number out of a data item.
fn slot_from_cbor(v: CborValue) -> (r: Result<Option<SecureDeletionSlot>, CborError>)
    ensures
        r == spec_slot_from(v@),
{
    match v {
        CborValue::Null => Ok(None),
        CborValue::Integer(i) => if 0 <= i && i <= 0xFFFF_FFFF {
            Ok(Some(SecureDeletionSlot(i as u32)))
        } else {
            Err(CborError::OutOfRangeIntegerValue)
        },
        _ => cbor_type_error(&v, "int"),
    }
}

/// Versions of the key blob format.
#[derive(Clone, Copy, Debug, PartialEq, Eq, Structural, PartialOrd, Ord)]
pub enum Version {
    V1,
}

/// Secret data mixed into the derivation of key-encryption keys.
#[derive(Clone, PartialEq, Eq)]
pub struct SecureDeletionData {
    pub factory_reset_secret: [u8; 32],
    pub secure_deletion_secret: [u8; 16],
}

/// The model of secure-deletion data: the factory-reset secret and the
/// secure-deletion secret.
pub type SecureDeletionDataModel = (Seq<u8>, Seq<u8>);

impl View for SecureDeletionData {
    type V = SecureDeletionDataModel;

    open spec fn view(&self) -> SecureDeletionDataModel {
        (self.factory_reset_secret@, self.secure_deletion_secret@)
    }
}

/// The data item of secure-deletion data.
pub open spec fn sdd_term(d: SecureDeletionDataModel) -> CborTerm {
    CborTerm::Array(seq![CborTerm::Bytes(d.0), CborTerm::Bytes(d.1)])
}

impl SecureDeletionData {
    /// The bytes in which the data is written.
    pub fn into_vec(self) -> (r: Result<Vec<u8>, CborError>)
        ensures
            r matches Ok(b) && b@ == cbor_encoding(sdd_term(self@)) && b@.len() > 0
                && reads_back_from_front(b@, sdd_term(self@)),
    {
        let a = CborValue::Bytes(copy_bytes(self.factory_reset_secret.as_slice()));
        let b = CborValue::Bytes(copy_bytes(self.secure_deletion_secret.as_slice()));
        let ghost (ta, tb) = (a@, b@);
        let mut items: Vec<CborValue> = Vec::new();
        items.push(a);
        items.push(b);
        proof {
            lemma_terms_of(items@);
            assert(terms_of(items@) =~= seq![ta, tb]);
        }
        let v = CborValue::Array(items);
        proof {
            let t = sdd_term(self@);
            assert(v@ == t);
            if let CborTerm::Array(s) = t {
                assert forall|i: int| 0 <= i < s.len() implies term_in_range(#[trigger] s[i]) by {
                    assert(s[i] is Bytes);
                }
            }
            assert(term_in_range(t));
            if let CborTerm::Array(s) = t {
                assert forall|i: int| 0 <= i < s.len() implies term_plain_within(#[trigger] s[i], 63) by {
                    assert(s[i] is Bytes);
                }
            }
            assert(term_plain(t));
        }
        to_vec(&v)
    }
}

/// The kinds of key operation that need a secure-deletion slot.
#[derive(Clone, Copy, Debug, PartialEq, Eq, Structural)]
pub enum SlotPurpose {
    KeyGeneration,
    KeyImport,
    KeyUpgrade,
}

/// A source of random bytes, supplied by the device.
pub trait Rng {
    /// All the bytes that this source has handed out, in order.
    spec fn spec_drawn(&self) -> Seq<u8>;

    /// Fill `dest` with random bytes.
    fn fill_bytes(&mut self, dest: &mut [u8])
        ensures
            final(dest)@.len() == old(dest)@.len(),
            final(self).spec_drawn() == old(self).spec_drawn() + final(dest)@,
    ;
}

/// Secure storage of secure-deletion secrets, supplied by the device.
pub trait SecureDeletionSecretManager {
    /// The factory-reset secret, where one has been made.
    spec fn spec_factory_secret(&self) -> Option<SecureDeletionDataModel>;

    /// The secret held in a slot, where the slot is in use.
    spec fn spec_secret(&self, slot: SecureDeletionSlot) -> Option<SecureDeletionDataModel>;

    /// Whether the last attempt to free a slot was refused.
    spec fn spec_free_refused(&self, slot: SecureDeletionSlot) -> bool;

    /// The purpose for which the secret in a slot was made.
    spec fn spec_slot_purpose(&self, slot: SecureDeletionSlot) -> Option<SlotPurpose>;

    /// The error that asking for the secret in a slot gives.
    spec fn spec_secret_error(&self, slot: SecureDeletionSlot) -> Error;

    /// The error that asking for the factory-reset secret gives.
    spec fn spec_factory_secret_error(&self) -> Error;

    /// Return the factory-reset secret, making it if there is none.  The
    /// slots are left as they were.
    fn get_or_create_factory_reset_secret<R: Rng>(&mut self, rng: &mut R) -> (r: Result<SecureDeletionData, Error>)
        ensures
            r matches Ok(d) ==> final(self).spec_factory_secret() == Some(d@),
            forall|s: SecureDeletionSlot| #[trigger] final(self).spec_secret(s) == old(self).spec_secret(s),
    ;

    /// Return the factory-reset secret.
    fn get_factory_reset_secret(&self) -> (r: Result<SecureDeletionData, Error>)
        ensures
            r matches Ok(d) ==> self.spec_factory_secret() == Some(d@),
            r matches Err(e) ==> e == self.spec_factory_secret_error(),
    ;

    /// Make a new secret for a purpose in a free slot.  No other slot, and
    /// not the factory-reset secret, changes.
    fn new_secret<R: Rng>(&mut self, rng: &mut R, purpose: SlotPurpose) -> (r: Result<(SecureDeletionSlot, SecureDeletionData), Error>)
        ensures
            r matches Ok((slot, d)) ==> {
                &&& old(self).spec_secret(slot) is None
                &&& final(self).spec_secret(slot) == Some(d@)
                &&& final(self).spec_slot_purpose(slot) == Some(purpose)
            },
            final(self).spec_factory_secret() == old(self).spec_factory_secret(),
            forall|s: SecureDeletionSlot|
                !(r matches Ok((slot, _)) && s == slot) ==> #[trigger] final(self).spec_secret(s) == old(self).spec_secret(s),
    ;

    /// Return the secret held in a slot.
    fn get_secret(&self, slot: SecureDeletionSlot) -> (r: Result<SecureDeletionData, Error>)
        ensures
            r matches Ok(d) ==> self.spec_secret(slot) == Some(d@),
            r matches Err(e) ==> e == self.spec_secret_error(slot),
    ;

    /// Free a slot, destroying its secret.  No other slot, and not the
    /// factory-reset secret, changes.
    fn delete_secret(&mut self, slot: SecureDeletionSlot) -> (r: Result<(), Error>)
        ensures
            final(self).spec_factory_secret() == old(self).spec_factory_secret(),
            r is Ok ==> final(self).spec_secret(slot) is None,
            r is Err ==> final(self).spec_free_refused(slot),
            forall|s: SecureDeletionSlot| s != slot ==> #[trigger] final(self).spec_secret(s) == old(self).spec_secret(s),
    ;

    /// Free every slot and destroy the factory-reset secret.
    fn delete_all(&mut self)
        ensures
            final(self).spec_factory_secret() is None,
            forall|slot: SecureDeletionSlot| final(self).spec_secret(slot) is None,
    ;
}

/// A secure-deletion slot held for a key blob that is being made; the slot
/// is given up unless the blob is finished.
pub struct SlotHolder {
    slot: Option<SecureDeletionSlot>,
}

impl SlotHolder {
    /// The slot held.
    pub closed spec fn held(&self) -> Option<SecureDeletionSlot> {
        self.slot
    }

    /// Hold the slot that the manager gave, with its secret; the manager's
    /// error is passed on.
    pub fn from_taken(taken: Result<(SecureDeletionSlot, SecureDeletionData), Error>) -> (r: Result<(SlotHolder, SecureDeletionData), Error>)
        ensures
            match taken {
                Err(e) => r == Err::<(SlotHolder, SecureDeletionData), Error>(e),
                Ok((slot, d)) => r matches Ok((h, d2)) && h.held() == Some(slot) && d2 == d,
            },
    {
        let (slot, sdd) = taken?;
        Ok((SlotHolder { slot: Some(slot) }, sdd))
    }

    /// Take a new slot and its secret for a purpose from the manager.
    pub fn new<M: SecureDeletionSecretManager, R: Rng>(mgr: &mut M, rng: &mut R, purpose: SlotPurpose) -> (r: Result<(SlotHolder, SecureDeletionData), Error>)
        ensures
            r matches Ok((h, d)) ==> h.held() matches Some(slot) && {
                &&& (*old(mgr)).spec_secret(slot) is None
                &&& final(mgr).spec_secret(slot) == Some(d@)
                &&& final(mgr).spec_slot_purpose(slot) == Some(purpose)
            },
            forall|s: SecureDeletionSlot|
                !(r matches Ok((h, _)) && h.held() == Some(s)) ==> #[trigger] final(mgr).spec_secret(s) == old(mgr).spec_secret(s),
            final(mgr).spec_factory_secret() == old(mgr).spec_factory_secret(),
    {
        let taken = mgr.new_secret(rng, purpose);
        Self::from_taken(taken)
    }

    /// Keep the slot: the blob that uses it is finished.
    pub fn consume(self) -> (r: SecureDeletionSlot)
        requires
            self.held() is Some,
        ensures
            self.held() == Some(r),
    {
        self.slot.unwrap()
    }

    /// Give the slot back to the manager: the blob that would have used it
    /// was not made.  Returns what freeing the slot gave; holding no slot,
    /// there is nothing to free.
    pub fn release<M: SecureDeletionSecretManager>(self, mgr: &mut M) -> (r: Result<(), Error>)
        ensures
            self.held() is None ==> r is Ok && *final(mgr) == *old(mgr),
            r is Ok ==> (self.held() matches Some(slot) ==> final(mgr).spec_secret(slot) is None),
            r is Err ==> (self.held() matches Some(slot) ==> final(mgr).spec_free_refused(slot)),
            forall|s: SecureDeletionSlot|
                self.held() != Some(s) ==> #[trigger] final(mgr).spec_secret(s) == old(mgr).spec_secret(s),
            final(mgr).spec_factory_secret() == old(mgr).spec_factory_secret(),
    {
        match self.slot {
            Some(slot) => mgr.delete_secret(slot),
            None => Ok(()),
        }
    }
}

/// The state of verified boot.
#[derive(Clone, Copy, Debug, PartialEq, Eq, Structural)]
pub enum VerifiedBootState {
    Verified,
    SelfSigned,
    Unverified,
    Failed,
}

/// The model of boot information.
pub struct BootInfoModel {
    pub verified_boot_key: Seq<u8>,
    pub device_boot_locked: bool,
    pub verified_boot_state: VerifiedBootState,
    pub verified_boot_hash: Seq<u8>,
    pub boot_patchlevel: u32,
}

/// Information about how the device booted.
#[derive(Clone, Debug, PartialEq, Eq)]
pub struct BootInfo {
    pub verified_boot_key: Vec<u8>,
    pub device_boot_locked: bool,
    pub verified_boot_state: VerifiedBootState,
    pub verified_boot_hash: Vec<u8>,
    pub boot_patchlevel: u32,
}

impl View for BootInfo {
    type V = BootInfoModel;

    open spec fn view(&self) -> BootInfoModel {
        BootInfoModel {
            verified_boot_key: self.verified_boot_key@,
            device_boot_locked: self.device_boot_locked,
            verified_boot_state: self.verified_boot_state,
            verified_boot_hash: self.verified_boot_hash@,
            boot_patchlevel: self.boot_patchlevel,
        }
    }
}

/// Handling of key blobs in a legacy format,
/// supplied by the device.
pub trait LegacyKeyHandler {
    /// Whether conversion of a blob succeeds.
    spec fn spec_convertible(
        &self,
        keyblob: Seq<u8>,
        params: Seq<KeyParamModel>,
        root_of_trust: BootInfoModel,
        sec_level: SecurityLevel,
    ) -> bool;

    /// Whether a key blob is in the legacy format: whether it converts at
    /// the trusted-environment level.
    fn is_legacy_key(&self, keyblob: &[u8], params: &[KeyParam], root_of_trust: &BootInfo) -> (r: bool)
        ensures
            r == self.spec_convertible(
                keyblob@,
                params_model(params@),
                root_of_trust@,
                SecurityLevel::TrustedEnvironment,
            ),
    {
        match self.convert_legacy_key(keyblob, params, root_of_trust, SecurityLevel::TrustedEnvironment) {
            Ok(_blob) => true,
            Err(_e) => false,
        }
    }

    /// Convert a key blob that may be in the legacy format into a
    /// plaintext blob.
    fn convert_legacy_key(
        &self,
        keyblob: &[u8],
        params: &[KeyParam],
        root_of_trust: &BootInfo,
        sec_level: SecurityLevel,
    ) -> (r: Result<PlaintextKeyBlob, Error>)
        ensures
            r is Ok == self.spec_convertible(keyblob@, params_model(params@), root_of_trust@, sec_level),
    ;

    /// Delete a key blob that may be in the legacy format.
    fn delete_legacy_key(&mut self, keyblob: &[u8]) -> (r: Result<(), Error>);
}

/// Root-of-trust information bound into key blobs.
#[derive(Clone, Debug, PartialEq, Eq)]
pub struct RootOfTrustInfo {
    pub verified_boot_key: Vec<u8>,
    pub device_boot_locked: bool,
    pub verified_boot_state: VerifiedBootState,
}

/// The model of an encrypted key blob.
pub struct EncryptedKeyBlobModel {
    pub characteristics: Seq<KeyCharacteristicsModel>,
    pub key_derivation_input: Seq<u8>,
    pub kek_context: Seq<u8>,
    pub encrypted_key_material: CoseEncrypt0Model,
    pub secure_deletion_slot: Option<SecureDeletionSlot>,
}

/// Encrypted key material with what is needed to decrypt it, in the first
/// version of the format.
#[derive(Debug, PartialEq, Eq)]
pub struct EncryptedKeyBlobV1 {
    /// Characteristics associated with the key.
    pub characteristics: Vec<KeyCharacteristics>,
    /// Nonce used for the key derivation.
    pub key_derivation_input: [u8; 32],
    /// Opaque context data needed for root key-encryption-key retrieval.
    pub kek_context: Vec<u8>,
    /// Key material encrypted with AES-GCM under the key made by
    /// [`derive_kek`], with an all-zero nonce and no external data; the
    /// plaintext is the CBOR form of the key material.
    pub encrypted_key_material: CoseEncrypt0,
    /// The slot in secure storage that holds a further secret needed to
    /// derive the key-encryption key.
    pub secure_deletion_slot: Option<SecureDeletionSlot>,
}

impl View for EncryptedKeyBlobV1 {
    type V = EncryptedKeyBlobModel;

    open spec fn view(&self) -> EncryptedKeyBlobModel {
        EncryptedKeyBlobModel {
            characteristics: characteristics_model(self.characteristics@),
            key_derivation_input: self.key_derivation_input@,
            kek_context: self.kek_context@,
            encrypted_key_material: self.encrypted_key_material@,
            secure_deletion_slot: self.secure_deletion_slot,
        }
    }
}

/// Encrypted key material, of some version of the format.
#[derive(Debug, PartialEq, Eq)]
pub enum EncryptedKeyBlob {
    V1(EncryptedKeyBlobV1),
}

impl View for EncryptedKeyBlob {
    type V = EncryptedKeyBlobModel;

    open spec fn view(&self) -> EncryptedKeyBlobModel {
        match self {
            EncryptedKeyBlob::V1(b) => b@,
        }
    }
}

/// The data item of a first-version key blob: its five fields in order.
pub open spec fn blob_v1_term(b: EncryptedKeyBlobModel) -> CborTerm {
    CborTerm::Array(
        seq![
            characteristics_list_term(b.characteristics),
            CborTerm::Bytes(b.key_derivation_input),
            CborTerm::Bytes(b.kek_context),
            cose_encrypt0_term(b.encrypted_key_material),
            slot_term(b.secure_deletion_slot),
        ],
    )
}

/// The data item of a key blob: the version number and the blob.
pub open spec fn blob_term(b: EncryptedKeyBlobModel) -> CborTerm {
    CborTerm::Array(seq![CborTerm::Integer(0), blob_v1_term(b)])
}

/// Read a key-derivation input of 32 bytes out of a data item.
pub open spec fn spec_kdi_from(t: CborTerm) -> Result<Seq<u8>, CborError> {
    match t {
        CborTerm::Bytes(b) => if b.len() == 32 {
            Ok(b)
        } else {
            Err(CborError::UnexpectedItem("bstr", "bstr len 32"))
        },
        _ => Err(type_error(t, "bstr")),
    }
}

/// What reading a first-version key blob out of a data item gives; the
/// fields are read from the last to the first.
pub open spec fn spec_blob_v1_from(t: CborTerm) -> Result<EncryptedKeyBlobModel, CborError> {
    match t {
        CborTerm::Array(a) => if a.len() != 5 {
            Err(CborError::UnexpectedItem("arr", "arr len 5"))
        } else {
            match spec_slot_from(a[4]) {
                Err(e) => Err(e),
                Ok(slot) => match spec_cose_encrypt0_from(a[3]) {
                    Err(e) => Err(e),
                    Ok(cose) => match a[2] {
                        CborTerm::Bytes(kek_context) => match spec_kdi_from(a[1]) {
                            Err(e) => Err(e),
                            Ok(kdi) => match spec_characteristics_list_from(a[0]) {
                                Err(e) => Err(e),
                                Ok(chars) => Ok(
                                    EncryptedKeyBlobModel {
                                        characteristics: chars,
                                        key_derivation_input: kdi,
                                        kek_context,
                                        encrypted_key_material: cose,
                                        secure_deletion_slot: slot,
                                    },
                                ),
                            },
                        },
                        _ => Err(type_error(a[2], "bstr")),
                    },
                },
            }
        },
        _ => Err(type_error(t, "arr")),
    }
}

/// What reading a key blob out of a data item gives.
pub open spec fn spec_blob_from(t: CborTerm) -> Result<EncryptedKeyBlobModel, CborError> {
    match t {
        CborTerm::Array(a) if a.len() == 2 => match spec_i32_from(a[0], "int") {
            Err(e) => Err(e),
            Ok(v) => if v == 0 {
                spec_blob_v1_from(a[1])
            } else {
                Err(CborError::NonEnumValue)
            },
        },
        _ => Err(type_error(t, "arr len 2")),
    }
}

/// What reading a key blob out of its bytes gives.
pub open spec fn spec_blob_from_bytes(data: Seq<u8>) -> Result<EncryptedKeyBlobModel, CborError> {
    match decode_exact(data) {
        Err(e) => Err(e),
        Ok(t) => spec_blob_from(t),
    }
}

/// Reading back the data item of a key blob gives the blob, where its key
/// derivation input is 32 bytes long and `coset` accepts its COSE_Encrypt0
/// structure.
pub proof fn lemma_blob_roundtrip(b: EncryptedKeyBlobModel)
    requires
        characteristics_valid(b.characteristics),
        b.key_derivation_input.len() == 32,
        cose_encrypt0_error(cose_encrypt0_term(b.encrypted_key_material)) is None,
    ensures
        spec_blob_from(blob_term(b)) == Ok::<EncryptedKeyBlobModel, CborError>(b),
{
    crate::keymint::lemma_characteristics_list_roundtrip(b.characteristics);
    crate::cose::lemma_cose_encrypt0_roundtrip(b.encrypted_key_material);
    assert(spec_slot_from(slot_term(b.secure_deletion_slot)) == Ok::<Option<SecureDeletionSlot>, CborError>(b.secure_deletion_slot));
}

/// The layout of a key blob's data item: the version number 0, then an
/// array of five items in this order: the characteristics, the key
/// derivation input as bytes, the context as bytes, the COSE_Encrypt0
/// structure, and the slot as a number or null.
pub proof fn lemma_blob_layout(b: EncryptedKeyBlobModel)
    ensures
        blob_term(b) matches CborTerm::Array(outer) && outer.len() == 2 && outer[0] == CborTerm::Integer(0)
            && outer[1] == blob_v1_term(b),
        blob_v1_term(b) matches CborTerm::Array(a) && a.len() == 5
            && a[0] == characteristics_list_term(b.characteristics)
            && a[1] == CborTerm::Bytes(b.key_derivation_input)
            && a[2] == CborTerm::Bytes(b.kek_context)
            && a[3] == cose_encrypt0_term(b.encrypted_key_material)
            && a[4] == match b.secure_deletion_slot {
                Some(slot) => CborTerm::Integer(slot.0 as int),
                None => CborTerm::Null,
            },
{
}

/// Reading a first-version blob takes the key derivation input (32 bytes)
/// from the second item and the context from the third, and the slot from
/// the fifth.
pub proof fn lemma_blob_read_positions(a: Seq<CborTerm>, m: EncryptedKeyBlobModel)
    requires
        spec_blob_v1_from(CborTerm::Array(a)) == Ok::<EncryptedKeyBlobModel, CborError>(m),
    ensures
        a.len() == 5,
        a[1] == CborTerm::Bytes(m.key_derivation_input),
        m.key_derivation_input.len() == 32,
        a[2] == CborTerm::Bytes(m.kek_context),
        a[4] == match m.secure_deletion_slot {
            Some(slot) => CborTerm::Integer(slot.0 as int),
            None => CborTerm::Null,
        },
{
}

/// Copy 32 bytes into an array.
fn array32_from(b: &Vec<u8>) -> (r: [u8; 32])
    requires
        b@.len() == 32,
    ensures
        r@ == b@,
{
    let mut r = [0u8; 32];
    let mut i: usize = 0;
    while i < 32
        invariant
            i <= 32,
            b@.len() == 32,
            forall|j: int| 0 <= j < i ==> r@[j] == b@[j],
        decreases 32 - i,
    {
        r[i] = b[i];
        i = i + 1;
    }
    assert(r@ =~= b@);
    r
}

impl EncryptedKeyBlobV1 {
    /// The data item of the blob.
    pub fn to_cbor_value(self) -> (r: CborValue)
        ensures
            r@ == blob_v1_term(self@),
    {
        let ghost m = self@;
        let a = crate::keymint::characteristics_to_cbor(self.characteristics);
        let b = CborValue::Bytes(copy_bytes(self.key_derivation_input.as_slice()));
        let c = CborValue::Bytes(self.kek_context);
        let d = self.encrypted_key_material.to_cbor_value();
        let e = slot_to_cbor(self.secure_deletion_slot);
        let ghost (ta, tb, tc, td, te) = (a@, b@, c@, d@, e@);
        let mut items: Vec<CborValue> = Vec::new();
        items.push(a);
        items.push(b);
        items.push(c);
        items.push(d);
        items.push(e);
        proof {
            lemma_terms_of(items@);
            assert(terms_of(items@) =~= seq![ta, tb, tc, td, te]);
        }
        CborValue::Array(items)
    }

    /// Read the blob out of a data item.
    pub fn from_cbor_value(v: CborValue) -> (r: Result<EncryptedKeyBlobV1, CborError>)
        ensures
            match r {
                Ok(b) => spec_blob_v1_from(v@) == Ok::<EncryptedKeyBlobModel, CborError>(b@),
                Err(e) => spec_blob_v1_from(v@) == Err::<EncryptedKeyBlobModel, CborError>(e),
            },
    {
        let mut items = match v {
            CborValue::Array(items) => items,
            _ => return cbor_type_error(&v, "arr"),
        };
        let ghost s = items@;
        proof {
            lemma_terms_of(s);
        }
        if items.len() != 5 {
            return Err(CborError::UnexpectedItem("arr", "arr len 5"));
        }
        let slot_value = items.remove(4);
        let cose_value = items.remove(3);
        let kek_context_value = items.remove(2);
        let kdi_value = items.remove(1);
        let chars_value = items.remove(0);
        assert(terms_of(s) =~= seq![chars_value@, kdi_value@, kek_context_value@, cose_value@, slot_value@]);
        let secure_deletion_slot = slot_from_cbor(slot_value)?;
        let encrypted_key_material = CoseEncrypt0::from_cbor_value(cose_value)?;
        let kek_context = match kek_context_value {
            CborValue::Bytes(b) => b,
            w => return cbor_type_error(&w, "bstr"),
        };
        let kdi_bytes = match kdi_value {
            CborValue::Bytes(b) => b,
            w => return cbor_type_error(&w, "bstr"),
        };
        if kdi_bytes.len() != 32 {
            return Err(CborError::UnexpectedItem("bstr", "bstr len 32"));
        }
        let key_derivation_input = array32_from(&kdi_bytes);
        let characteristics = characteristics_from_cbor(chars_value)?;
        Ok(EncryptedKeyBlobV1 {
            characteristics,
            key_derivation_input,
            kek_context,
            encrypted_key_material,
            secure_deletion_slot,
        })
    }
}

impl EncryptedKeyBlob {
    /// Read a key blob out of its bytes; any failure is reported as an
    /// invalid key blob.
    pub fn new(data: &[u8]) -> (r: Result<EncryptedKeyBlob, Error>)
        ensures
            match r {
                Ok(b) => spec_blob_from_bytes(data@) == Ok::<EncryptedKeyBlobModel, CborError>(b@),
                Err(e) => spec_blob_from_bytes(data@) is Err && e == Error::Hal(ErrorCode::InvalidKeyBlob),
            },
    {
        match Self::from_slice(data) {
            Ok(b) => Ok(b),
            Err(_e) => Err(Error::Hal(ErrorCode::InvalidKeyBlob)),
        }
    }

    /// Read a key blob out of its bytes.
    pub fn from_slice(data: &[u8]) -> (r: Result<EncryptedKeyBlob, CborError>)
        ensures
            match r {
                Ok(b) => spec_blob_from_bytes(data@) == Ok::<EncryptedKeyBlobModel, CborError>(b@),
                Err(e) => spec_blob_from_bytes(data@) == Err::<EncryptedKeyBlobModel, CborError>(e),
            },
    {
        let v = from_slice(data)?;
        Self::from_cbor_value(v)
    }

    /// The CDDL name of the CBOR form of key blobs.
    pub fn cddl_typename() -> (r: &'static str)
        ensures
            r == "EncryptedKeyBlob",
    {
        "EncryptedKeyBlob"
    }

    /// The CDDL schema of the CBOR form of key blobs.
    pub fn cddl_schema() -> (r: &'static str)
        ensures
            r == "&(\n    [0, EncryptedKeyBlobV1] ; Version::V1\n)",
    {
        "&(\n    [0, EncryptedKeyBlobV1] ; Version::V1\n)"
    }

    /// The bytes in which the key blob is written.
    pub fn into_vec(self) -> (r: Result<Vec<u8>, CborError>)
        ensures
            r matches Ok(b) ==> b@ == cbor_encoding(blob_term(self@)),
            term_in_range(blob_term(self@)) ==> r is Ok,
    {
        let v = self.to_cbor_value();
        to_vec(&v)
    }

    /// The secure-deletion slot of the key, if any.
    pub fn secure_deletion_slot(&self) -> (r: Option<SecureDeletionSlot>)
        ensures
            r == self@.secure_deletion_slot,
    {
        match self {
            EncryptedKeyBlob::V1(blob) => blob.secure_deletion_slot,
        }
    }

    /// The context data for retrieving the root key-encryption key.
    pub fn kek_context(&self) -> (r: &[u8])
        ensures
            r@ == self@.kek_context,
    {
        match self {
            EncryptedKeyBlob::V1(blob) => blob.kek_context.as_slice(),
        }
    }

    /// The data item of the key blob.
    pub fn to_cbor_value(self) -> (r: CborValue)
        ensures
            r@ == blob_term(self@),
    {
        let inner = match self {
            EncryptedKeyBlob::V1(blob) => blob.to_cbor_value(),
        };
        crate::keymint::pair_item(CborValue::Integer(0), inner)
    }

    /// Read a key blob out of a data item.
    pub fn from_cbor_value(v: CborValue) -> (r: Result<EncryptedKeyBlob, CborError>)
        ensures
            match r {
                Ok(b) => spec_blob_from(v@) == Ok::<EncryptedKeyBlobModel, CborError>(b@),
                Err(e) => spec_blob_from(v@) == Err::<EncryptedKeyBlobModel, CborError>(e),
            },
    {
        let (version_value, inner) = match crate::keymint::split_pair(v) {
            Ok(parts) => parts,
            Err(w) => return cbor_type_error(&w, "arr len 2"),
        };
        let version = crate::keymint::i32_from_cbor(version_value, "int")?;
        if version != 0 {
            return Err(CborError::NonEnumValue);
        }
        let blob = EncryptedKeyBlobV1::from_cbor_value(inner)?;
        Ok(EncryptedKeyBlob::V1(blob))
    }
}

/// The parameter lists of the characteristics at a security level, in
/// order.
pub open spec fn auths_at(cs: Seq<KeyCharacteristicsModel>, level: SecurityLevel) -> Seq<Seq<KeyParamModel>>
    decreases cs.len(),
{
    if cs.len() == 0 {
        Seq::empty()
    } else {
        let rest = auths_at(cs.drop_last(), level);
        if cs.last().security_level == level {
            rest.push(cs.last().authorizations)
        } else {
            rest
        }
    }
}

/// The parameters at a security level, where exactly one entry of the
/// characteristics is at that level.
pub open spec fn spec_characteristics_at(cs: Seq<KeyCharacteristicsModel>, level: SecurityLevel) -> Option<Seq<KeyParamModel>> {
    let m = auths_at(cs, level);
    if m.len() == 1 {
        Some(m[0])
    } else {
        None
    }
}

/// Where no entry is at a level, nothing is found there.
proof fn lemma_auths_at_none(cs: Seq<KeyCharacteristicsModel>, level: SecurityLevel)
    requires
        forall|k: int| 0 <= k < cs.len() ==> #[trigger] cs[k].security_level != level,
    ensures
        auths_at(cs, level).len() == 0,
    decreases cs.len(),
{
    if cs.len() > 0 {
        assert forall|k: int| 0 <= k < cs.drop_last().len() implies #[trigger] cs.drop_last()[k].security_level != level by {
            assert(cs.drop_last()[k] == cs[k]);
        }
        lemma_auths_at_none(cs.drop_last(), level);
        assert(cs.last() == cs[cs.len() - 1]);
    }
}

/// Where an entry is at a level, something is found there.
proof fn lemma_auths_at_some(cs: Seq<KeyCharacteristicsModel>, level: SecurityLevel, i: int)
    requires
        0 <= i < cs.len(),
        cs[i].security_level == level,
    ensures
        auths_at(cs, level).len() >= 1,
    decreases cs.len(),
{
    if i < cs.len() - 1 {
        assert(cs.drop_last()[i] == cs[i]);
        lemma_auths_at_some(cs.drop_last(), level, i);
    }
}

/// Where two entries are at a level, two lists are found there.
proof fn lemma_auths_at_two(cs: Seq<KeyCharacteristicsModel>, level: SecurityLevel, i: int, j: int)
    requires
        0 <= i < j < cs.len(),
        cs[i].security_level == level,
        cs[j].security_level == level,
    ensures
        auths_at(cs, level).len() >= 2,
    decreases cs.len(),
{
    assert(cs.drop_last()[i] == cs[i]);
    if j == cs.len() - 1 {
        lemma_auths_at_some(cs.drop_last(), level, i);
    } else {
        assert(cs.drop_last()[j] == cs[j]);
        lemma_auths_at_two(cs.drop_last(), level, i, j);
    }
}

/// Where exactly one entry is at a level, its list is all that is found
/// there.
proof fn lemma_auths_at_unique(cs: Seq<KeyCharacteristicsModel>, level: SecurityLevel, i: int)
    requires
        0 <= i < cs.len(),
        cs[i].security_level == level,
        forall|k: int| 0 <= k < cs.len() && k != i ==> #[trigger] cs[k].security_level != level,
    ensures
        auths_at(cs, level) == seq![cs[i].authorizations],
    decreases cs.len(),
{
    let d = cs.drop_last();
    if i == cs.len() - 1 {
        assert forall|k: int| 0 <= k < d.len() implies #[trigger] d[k].security_level != level by {
            assert(d[k] == cs[k]);
        }
        lemma_auths_at_none(d, level);
        assert(auths_at(d, level) =~= Seq::<Seq<KeyParamModel>>::empty());
        assert(auths_at(cs, level) =~= seq![cs[i].authorizations]);
    } else {
        assert(d[i] == cs[i]);
        assert forall|k: int| 0 <= k < d.len() && k != i implies #[trigger] d[k].security_level != level by {
            assert(d[k] == cs[k]);
        }
        lemma_auths_at_unique(d, level, i);
        assert(cs.last() == cs[cs.len() - 1]);
    }
}

/// The parameters at a security level are those of the one entry of the
/// characteristics at that level.
pub proof fn lemma_characteristics_at_one_entry(cs: Seq<KeyCharacteristicsModel>, level: SecurityLevel, i: int)
    requires
        0 <= i < cs.len(),
        cs[i].security_level == level,
        forall|k: int| 0 <= k < cs.len() && k != i ==> #[trigger] cs[k].security_level != level,
    ensures
        spec_characteristics_at(cs, level) == Some(cs[i].authorizations),
{
    lemma_auths_at_unique(cs, level, i);
}

/// Where no entry of the characteristics is at a security level, there are
/// no parameters at that level.
pub proof fn lemma_characteristics_at_no_entry(cs: Seq<KeyCharacteristicsModel>, level: SecurityLevel)
    requires
        forall|k: int| 0 <= k < cs.len() ==> #[trigger] cs[k].security_level != level,
    ensures
        spec_characteristics_at(cs, level) is None,
{
    lemma_auths_at_none(cs, level);
}

/// Where two entries of the characteristics are at a security level, there
/// are no parameters at that level.
pub proof fn lemma_characteristics_at_two_entries(
    cs: Seq<KeyCharacteristicsModel>,
    level: SecurityLevel,
    i: int,
    j: int,
)
    requires
        0 <= i < j < cs.len(),
        cs[i].security_level == level,
        cs[j].security_level == level,
    ensures
        spec_characteristics_at(cs, level) is None,
{
    lemma_auths_at_two(cs, level, i, j);
}

/// What is found at a level in a prefix of the characteristics begins what
/// is found in all of them.
proof fn lemma_auths_at_prefix(cs: Seq<KeyCharacteristicsModel>, k: int, level: SecurityLevel)
    requires
        0 <= k <= cs.len(),
    ensures
        auths_at(cs.take(k), level).len() <= auths_at(cs, level).len(),
        auths_at(cs.take(k), level).len() >= 1 ==> auths_at(cs, level)[0] == auths_at(cs.take(k), level)[0],
    decreases cs.len() - k,
{
    if k < cs.len() {
        lemma_auths_at_prefix(cs, k + 1, level);
        assert(cs.take(k + 1).drop_last() =~= cs.take(k));
    } else {
        assert(cs.take(k) =~= cs);
    }
}

/// The parameters of the key at one security level.  Exactly one entry of
/// the characteristics must be at that level.
pub fn characteristics_at(chars: &[KeyCharacteristics], sec_level: SecurityLevel) -> (r: Result<&[KeyParam], Error>)
    ensures
        match spec_characteristics_at(characteristics_model(chars@), sec_level) {
            Some(ps) => r matches Ok(s) && params_model(s@) == ps,
            None => r == Err::<&[KeyParam], Error>(Error::Hal(ErrorCode::InvalidKeyBlob)),
        },
{
    let ghost cs = characteristics_model(chars@);
    let mut found: Option<usize> = None;
    let mut i: usize = 0;
    while i < chars.len()
        invariant
            i <= chars@.len(),
            cs == characteristics_model(chars@),
            auths_at(cs.take(i as int), sec_level).len() == if found is Some { 1int } else { 0int },
            found matches Some(j) ==> j < i && auths_at(cs.take(i as int), sec_level)[0] == cs[j as int].authorizations,
        decreases chars@.len() - i,
    {
        assert(cs.take(i + 1).drop_last() =~= cs.take(i as int));
        assert(cs.take(i + 1).last() == cs[i as int]);
        if chars[i].security_level == sec_level {
            if found.is_some() {
                proof {
                    lemma_auths_at_prefix(cs, i + 1, sec_level);
                }
                return Err(Error::Hal(ErrorCode::InvalidKeyBlob));
            }
            found = Some(i);
        }
        i = i + 1;
    }
    assert(cs.take(i as int) =~= cs);
    match found {
        Some(j) => Ok(chars[j].authorizations.as_slice()),
        None => Err(Error::Hal(ErrorCode::InvalidKeyBlob)),
    }
}

/// Whether a parameter list allows a purpose.
pub open spec fn allows_purpose(ps: Seq<KeyParamModel>, purpose: KeyPurpose) -> bool {
    exists|i: int| 0 <= i < ps.len() && ps[i] == KeyParamModel::Purpose(purpose)
}

/// Whether a key with these parameters needs a secure-deletion slot: it is
/// rollback resistant or may be used only once.
pub open spec fn needs_secure_deletion(ps: Seq<KeyParamModel>) -> bool {
    exists|i: int|
        0 <= i < ps.len() && (ps[i] == KeyParamModel::RollbackResistance || ps[i]
            == KeyParamModel::UsageCountLimit(1))
}

/// A purpose is allowed wherever it stands in the list, whatever other
/// purposes come before or after it.
pub proof fn lemma_allows_purpose_anywhere(ps: Seq<KeyParamModel>, purpose: KeyPurpose)
    ensures
        allows_purpose(ps, purpose) <==> ps.contains(KeyParamModel::Purpose(purpose)),
{
}

/// A key needs a secure-deletion slot exactly when its parameters hold,
/// anywhere in the list, rollback resistance or a usage count limit of one.
pub proof fn lemma_needs_secure_deletion_anywhere(ps: Seq<KeyParamModel>)
    ensures
        needs_secure_deletion(ps) <==> (ps.contains(KeyParamModel::RollbackResistance) || ps.contains(
            KeyParamModel::UsageCountLimit(1),
        )),
{
    if ps.contains(KeyParamModel::RollbackResistance) {
        let i = choose|i: int| 0 <= i < ps.len() && ps[i] == KeyParamModel::RollbackResistance;
        assert(ps[i] == KeyParamModel::RollbackResistance);
    }
    if ps.contains(KeyParamModel::UsageCountLimit(1)) {
        let i = choose|i: int| 0 <= i < ps.len() && ps[i] == KeyParamModel::UsageCountLimit(1);
        assert(ps[i] == KeyParamModel::UsageCountLimit(1));
    }
}

/// Whether a key with these parameters needs a secure-deletion slot.
pub fn requires_secure_deletion(ps: &[KeyParam]) -> (r: bool)
    ensures
        r == needs_secure_deletion(params_model(ps@)),
{
    let ghost m = params_model(ps@);
    let mut i: usize = 0;
    while i < ps.len()
        invariant
            i <= ps@.len(),
            m == params_model(ps@),
            forall|j: int| 0 <= j < i ==> !(m[j] == KeyParamModel::RollbackResistance || m[j] == KeyParamModel::UsageCountLimit(1)),
        decreases ps@.len() - i,
    {
        let hit = match &ps[i] {
            KeyParam::RollbackResistance => true,
            KeyParam::UsageCountLimit(n) => *n == 1,
            _ => false,
        };
        if hit {
            assert(m[i as int] == ps@[i as int]@);
            return true;
        }
        i = i + 1;
    }
    false
}

/// The model of a key blob in the clear.
pub struct PlaintextKeyBlobModel {
    pub characteristics: Seq<KeyCharacteristicsModel>,
    pub key_material: KeyMaterialModel,
}

/// A key blob in the clear: the key's characteristics and its material.
#[derive(Clone, PartialEq, Eq)]
pub struct PlaintextKeyBlob {
    pub characteristics: Vec<KeyCharacteristics>,
    pub key_material: KeyMaterial,
}

impl View for PlaintextKeyBlob {
    type V = PlaintextKeyBlobModel;

    open spec fn view(&self) -> PlaintextKeyBlobModel {
        PlaintextKeyBlobModel {
            characteristics: characteristics_model(self.characteristics@),
            key_material: self.key_material@,
        }
    }
}

impl PlaintextKeyBlob {
    /// The parameters of the key at one security level.
    pub fn characteristics_at(&self, sec_level: SecurityLevel) -> (r: Result<&[KeyParam], Error>)
        ensures
            match spec_characteristics_at(self@.characteristics, sec_level) {
                Some(ps) => r matches Ok(s) && params_model(s@) == ps,
                None => r == Err::<&[KeyParam], Error>(Error::Hal(ErrorCode::InvalidKeyBlob)),
            },
    {
        characteristics_at(self.characteristics.as_slice(), sec_level)
    }

    /// Check that the key may be used for a purpose at a security level.
    pub fn suitable_for(&self, purpose: KeyPurpose, sec_level: SecurityLevel) -> (r: Result<(), Error>)
        ensures
            match spec_characteristics_at(self@.characteristics, sec_level) {
                Some(ps) => if allows_purpose(ps, purpose) {
                    r is Ok
                } else {
                    r == Err::<(), Error>(Error::Hal(ErrorCode::IncompatiblePurpose))
                },
                None => r == Err::<(), Error>(Error::Hal(ErrorCode::InvalidKeyBlob)),
            },
    {
        let params = self.characteristics_at(sec_level)?;
        let ghost m = params_model(params@);
        let mut i: usize = 0;
        while i < params.len()
            invariant
                i <= params@.len(),
                m == params_model(params@),
                spec_characteristics_at(self@.characteristics, sec_level) == Some(m),
                forall|j: int| 0 <= j < i ==> m[j] != KeyParamModel::Purpose(purpose),
            decreases params@.len() - i,
        {
            let hit = match &params[i] {
                KeyParam::Purpose(p) => *p == purpose,
                _ => false,
            };
            if hit {
                assert(m[i as int] == params@[i as int]@);
                assert(m[i as int] == KeyParamModel::Purpose(purpose));
                return Ok(());
            }
            i = i + 1;
        }
        Err(Error::Hal(ErrorCode::IncompatiblePurpose))
    }
}

/// The model of optional secure-deletion data.
pub open spec fn sdd_model(d: Option<SecureDeletionData>) -> Option<SecureDeletionDataModel> {
    match d {
        Some(x) => Some(x@),
        None => None,
    }
}

/// The info from which the key-encryption key is derived: the key
/// derivation input, then the CBOR forms of the characteristics, of the
/// hidden parameters and, where there is one, of the secure-deletion data.
pub open spec fn kek_info(
    kdi: Seq<u8>,
    chars: Seq<KeyCharacteristicsModel>,
    hidden: Seq<KeyParamModel>,
    sdd: Option<SecureDeletionDataModel>,
) -> Seq<u8> {
    kdi + cbor_encoding(characteristics_list_term(chars)) + cbor_encoding(key_params_term(hidden)) + match sdd {
        Some(d) => cbor_encoding(sdd_term(d)),
        None => Seq::empty(),
    }
}

/// The bytes of the key-encryption key: HKDF with an empty salt over a
/// root key held in the clear, or HKDF-Expand with an opaque root key.
pub open spec fn kek_bytes<K: Hkdf>(kdf: K, root_key: KeyRepr<Seq<u8>>, info: Seq<u8>) -> Seq<u8> {
    match root_key {
        KeyRepr::Explicit(k) => spec_hkdf(kdf, Seq::empty(), k, info, 32),
        KeyRepr::Opaque(_) => kdf.spec_expand(root_key, info, 32),
    }
}

/// The key-encryption key for a key blob.
pub open spec fn spec_kek<K: Hkdf>(
    kdf: K,
    root_key: KeyRepr<Seq<u8>>,
    kdi: Seq<u8>,
    chars: Seq<KeyCharacteristicsModel>,
    hidden: Seq<KeyParamModel>,
    sdd: Option<SecureDeletionDataModel>,
) -> KeyRepr<(AesVariant, Seq<u8>)> {
    aes_key_from_bytes(kek_bytes(kdf, root_key, kek_info(kdi, chars, hidden, sdd)))
}

/// Read secure-deletion data out of a data item.
pub open spec fn spec_sdd_from(t: CborTerm) -> Option<SecureDeletionDataModel> {
    match t {
        CborTerm::Array(a) => if a.len() == 2 {
            match (a[0], a[1]) {
                (CborTerm::Bytes(x), CborTerm::Bytes(y)) => Some((x, y)),
                _ => None,
            }
        } else {
            None
        },
        _ => None,
    }
}

/// The inputs read back out of the info from which a key-encryption key is
/// derived: the key derivation input, then the characteristics, the hidden
/// parameters and, where bytes remain, the secure-deletion data, each read
/// from the front of what is left.
pub open spec fn spec_kek_info_parts(info: Seq<u8>) -> Option<
    (Seq<u8>, Seq<KeyCharacteristicsModel>, Seq<KeyParamModel>, Option<SecureDeletionDataModel>),
> {
    if info.len() < 32 {
        None
    } else {
        let rest1 = info.skip(32);
        match cbor_decoding(rest1) {
            Some((t1, n1)) => match spec_characteristics_list_from(t1) {
                Ok(cs) => {
                    let rest2 = rest1.skip(n1 as int);
                    match cbor_decoding(rest2) {
                        Some((t2, n2)) => match spec_key_params_from(t2) {
                            Ok(hs) => {
                                let rest3 = rest2.skip(n2 as int);
                                if rest3.len() == 0 {
                                    Some((info.take(32), cs, hs, None))
                                } else {
                                    match cbor_decoding(rest3) {
                                        Some((t3, n3)) => if n3 == rest3.len() {
                                            match spec_sdd_from(t3) {
                                                Some(d) => Some((info.take(32), cs, hs, Some(d))),
                                                None => None,
                                            }
                                        } else {
                                            None
                                        },
                                        None => None,
                                    }
                                }
                            },
                            Err(_) => None,
                        },
                        None => None,
                    }
                },
                Err(_) => None,
            },
            None => None,
        }
    }
}

/// Infos that read back as different inputs differ: with
/// [`kek_info_bytes`], the key-encryption key is bound to every input.
pub proof fn lemma_kek_info_binds_inputs(
    info1: Seq<u8>,
    info2: Seq<u8>,
    inputs1: (Seq<u8>, Seq<KeyCharacteristicsModel>, Seq<KeyParamModel>, Option<SecureDeletionDataModel>),
    inputs2: (Seq<u8>, Seq<KeyCharacteristicsModel>, Seq<KeyParamModel>, Option<SecureDeletionDataModel>),
)
    requires
        spec_kek_info_parts(info1) == Some(inputs1),
        spec_kek_info_parts(info2) == Some(inputs2),
        inputs1 != inputs2,
    ensures
        info1 != info2,
{
}

/// The bytes of the info from which the key-encryption key is derived; the
/// CBOR forms in it can always be written.  Read back, the info gives its
/// inputs, so different inputs give different infos.
pub fn kek_info_bytes(
    key_derivation_input: &[u8; 32],
    characteristics: Vec<KeyCharacteristics>,
    hidden: Vec<KeyParam>,
    sdd: Option<SecureDeletionData>,
) -> (r: Vec<u8>)
    ensures
        r@ == kek_info(
            key_derivation_input@,
            characteristics_model(characteristics@),
            params_model(hidden@),
            sdd_model(sdd),
        ),
        characteristics_valid(characteristics_model(characteristics@)) && key_params_valid(params_model(hidden@))
            ==> spec_kek_info_parts(r@) == Some((
                key_derivation_input@,
                characteristics_model(characteristics@),
                params_model(hidden@),
                sdd_model(sdd),
            )),
{
    let ghost cm = characteristics_model(characteristics@);
    let ghost hm = params_model(hidden@);
    let ghost info_spec = kek_info(key_derivation_input@, cm, hm, sdd_model(sdd));
    proof {
        crate::keymint::lemma_characteristics_list_term_in_range(cm);
        crate::keymint::lemma_key_params_term_in_range(hm);
        crate::keymint::lemma_characteristics_list_term_plain(cm);
        crate::keymint::lemma_key_params_list_plain(hm);
    }
    let chars_data = match to_vec(&crate::keymint::characteristics_to_cbor(characteristics)) {
        Ok(b) => b,
        Err(_e) => {
            proof {
                assert(false);
            }
            Vec::new()
        },
    };
    let hidden_data = match to_vec(&params_to_cbor(hidden)) {
        Ok(b) => b,
        Err(_e) => {
            proof {
                assert(false);
            }
            Vec::new()
        },
    };
    let mut info: Vec<u8> = Vec::new();
    extend_bytes(&mut info, key_derivation_input.as_slice());
    extend_bytes(&mut info, chars_data.as_slice());
    extend_bytes(&mut info, hidden_data.as_slice());
    let ghost mut sdd_bytes: Seq<u8> = Seq::empty();
    let ghost sdd_m = sdd_model(sdd);
    match sdd {
        Some(d) => {
            let ghost dm = d@;
            let sdd_data = match d.into_vec() {
                Ok(b) => b,
                Err(_e) => {
                    proof {
                        assert(false);
                    }
                    Vec::new()
                },
            };
            proof {
                sdd_bytes = sdd_data@;
                assert(sdd_bytes.len() > 0);
                assert(reads_back_from_front(sdd_bytes, sdd_term(dm)));
                assert(spec_sdd_from(sdd_term(dm)) == Some(dm));
            }
            extend_bytes(&mut info, sdd_data.as_slice());
        },
        None => {},
    }
    assert(info@ =~= info_spec);
    proof {
        let cb = chars_data@;
        let hb = hidden_data@;
        let sb = sdd_bytes;
        assert(info@ =~= key_derivation_input@ + cb + hb + sb);
        if characteristics_valid(cm) && key_params_valid(hm) {
            crate::keymint::lemma_characteristics_list_roundtrip(cm);
            crate::keymint::lemma_key_params_roundtrip(hm);
            let rest1 = info@.skip(32);
            assert(rest1 =~= cb + (hb + sb));
            assert(cbor_decoding(cb + (hb + sb)) == Some((characteristics_list_term(cm), cb.len())));
            let rest2 = rest1.skip(cb.len() as int);
            assert(rest2 =~= hb + sb);
            assert(cbor_decoding(hb + sb) == Some((key_params_term(hm), hb.len())));
            let rest3 = rest2.skip(hb.len() as int);
            assert(rest3 =~= sb);
            assert(info@.take(32) =~= key_derivation_input@);
            match sdd_m {
                Some(d) => {
                    assert(sb + Seq::<u8>::empty() =~= sb);
                    assert(cbor_decoding(sb + Seq::<u8>::empty()) == Some((sdd_term(d), sb.len())));
                },
                None => {},
            }
        }
    }
    info
}

/// For a root key held in the clear, the key-encryption key is AES-256 of
/// the 32 bytes that HKDF-Expand makes from the key that HKDF-Extract makes
/// out of the root key with an empty salt, over the info; for an opaque
/// root key, those that HKDF-Expand makes from the root key itself.
pub proof fn lemma_kek_is_hkdf<K: Hkdf>(
    kdf: K,
    root_key: KeyRepr<Seq<u8>>,
    kdi: Seq<u8>,
    chars: Seq<KeyCharacteristicsModel>,
    hidden: Seq<KeyParamModel>,
    sdd: Option<SecureDeletionDataModel>,
)
    ensures
        spec_kek(kdf, root_key, kdi, chars, hidden, sdd) == aes_key_from_bytes(
            match root_key {
                KeyRepr::Explicit(k) => kdf.spec_expand(
                    kdf.spec_extract(Seq::empty(), k),
                    kek_info(kdi, chars, hidden, sdd),
                    32,
                ),
                KeyRepr::Opaque(_) => kdf.spec_expand(root_key, kek_info(kdi, chars, hidden, sdd), 32),
            },
        ),
{
}

/// With HMAC-SHA256 as the key derivation's MAC and a root key held in the
/// clear, the key-encryption key is AES-256 of HKDF-Expand over the HMAC,
/// under the 32 zero bytes, of the root key.
pub proof fn lemma_kek_is_hmac_hkdf<H: Hmac>(
    h: H,
    root: Seq<u8>,
    kdi: Seq<u8>,
    chars: Seq<KeyCharacteristicsModel>,
    hidden: Seq<KeyParamModel>,
    sdd: Option<SecureDeletionDataModel>,
)
    ensures
        spec_kek(h, KeyRepr::Explicit(root), kdi, chars, hidden, sdd) == aes_key_from_bytes(
            hkdf_okm(
                h,
                h.spec_mac(KeyRepr::Explicit(Seq::new(32, |i: int| 0u8)), Digest::Sha256, root),
                kek_info(kdi, chars, hidden, sdd),
                32,
            ),
        ),
{
    assert(hkdf_default_salt() =~= Seq::new(32, |i: int| 0u8));
}

/// Derive the AES-256 key-encryption key for a key blob: HKDF with an empty
/// salt over a root key held in the clear, HKDF-Expand with an opaque one,
/// over the info of [`kek_info_bytes`].  Only the key derivation can fail.
pub fn derive_kek<K: Hkdf>(
    kdf: &K,
    root_key: &OpaqueOr<HmacKey>,
    key_derivation_input: &[u8; 32],
    characteristics: Vec<KeyCharacteristics>,
    hidden: Vec<KeyParam>,
    sdd: Option<SecureDeletionData>,
) -> (r: Result<OpaqueOr<AesKey>, Error>)
    ensures
        r matches Ok(k) ==> k@ == spec_kek(
            *kdf,
            root_key@,
            key_derivation_input@,
            characteristics_model(characteristics@),
            params_model(hidden@),
            sdd_model(sdd),
        ),
{
    let info = kek_info_bytes(key_derivation_input, characteristics, hidden, sdd);
    match root_key {
        OpaqueOr::Explicit(key_material) => {
            let salt: Vec<u8> = Vec::new();
            assert(salt@ =~= Seq::<u8>::empty());
            hkdf_aes(kdf, salt.as_slice(), key_material.0.as_slice(), info.as_slice(), AesVariant::Aes256)
        },
        OpaqueOr::Opaque(_) => expand_aes(kdf, root_key, info.as_slice(), AesVariant::Aes256),
    }
}

/// The mode in which key material is encrypted: AES-GCM with a 16-byte tag
/// and an all-zero nonce (each key-encryption key is used once).
pub open spec fn zero_nonce_mode() -> GcmMode {
    GcmMode::GcmTag16 { nonce: vstd::array::spec_array_fill_for_copy_type::<u8, 12>(0u8) }
}

/// Key material is encrypted with AES-GCM with a 16-byte tag and a nonce of
/// twelve zero bytes.
pub proof fn lemma_zero_nonce_mode()
    ensures
        zero_nonce_mode() matches GcmMode::GcmTag16 { nonce } && nonce@ == Seq::new(12, |i: int| 0u8),
{
    assert(zero_nonce_mode()->GcmTag16_nonce@ =~= Seq::new(12, |i: int| 0u8));
}

/// A blob made by encryption carries, as its protected header, the bytes of
/// the map `{1: 3}` (algorithm AES-256-GCM), an empty unprotected header,
/// and the ciphertext of the CBOR bytes of the key material under the
/// key-encryption key, with the Enc_structure of that header as additional
/// data; its characteristics and context are those it was given.
pub proof fn lemma_encrypted_blob_contents<A: Aes, K: Hkdf>(
    aes: A,
    kdf: K,
    root_key: KeyRepr<Seq<u8>>,
    hidden: Seq<KeyParamModel>,
    sdd: Option<SecureDeletionDataModel>,
    pkb: PlaintextKeyBlobModel,
    kek_context: Seq<u8>,
    blob: EncryptedKeyBlobModel,
)
    requires
        encrypted_under(aes, kdf, root_key, hidden, sdd, pkb, kek_context, blob),
    ensures
        blob.encrypted_key_material.protected == cbor_encoding(
            CborTerm::Mapping(seq![(CborTerm::Integer(1), CborTerm::Integer(3))]),
        ),
        blob.encrypted_key_material.unprotected == CborTerm::Mapping(Seq::empty()),
        blob.encrypted_key_material.ciphertext == Some(
            aes.spec_aead_encrypt(
                spec_kek(kdf, root_key, blob.key_derivation_input, pkb.characteristics, hidden, sdd),
                zero_nonce_mode(),
                cose_enc_structure(blob.encrypted_key_material.protected, Seq::empty()),
                cbor_encoding(key_material_term(pkb.key_material)),
            ),
        ),
        blob.characteristics == pkb.characteristics,
        blob.kek_context == kek_context,
        blob.key_derivation_input.len() == 32,
{
}

/// The secure-deletion data that a manager holds for a blob: the secret in
/// the blob's slot, or where the blob has no slot, the factory-reset secret.
pub open spec fn blob_secret<M: SecureDeletionSecretManager>(mgr: Option<M>, slot: Option<SecureDeletionSlot>) -> Option<SecureDeletionDataModel> {
    match (slot, mgr) {
        (Some(s), Some(m)) => m.spec_secret(s),
        (None, Some(m)) => m.spec_factory_secret(),
        _ => None,
    }
}

/// `blob` is what encrypting the plaintext blob `pkb` makes, under the
/// key-encryption key derived with the given root key, hidden parameters
/// and secure-deletion data, from the blob's key derivation input.
pub open spec fn encrypted_under<A: Aes, K: Hkdf>(
    aes: A,
    kdf: K,
    root_key: KeyRepr<Seq<u8>>,
    hidden: Seq<KeyParamModel>,
    sdd: Option<SecureDeletionDataModel>,
    pkb: PlaintextKeyBlobModel,
    kek_context: Seq<u8>,
    blob: EncryptedKeyBlobModel,
) -> bool {
    let protected = cose_protected_header(COSE_ALG_A256GCM as int);
    let kek = spec_kek(kdf, root_key, blob.key_derivation_input, pkb.characteristics, hidden, sdd);
    let aad = cose_enc_structure(protected, Seq::empty());
    let plaintext = cbor_encoding(key_material_term(pkb.key_material));
    &&& blob.characteristics == pkb.characteristics
    &&& blob.key_derivation_input.len() == 32
    &&& blob.kek_context == kek_context
    &&& blob.encrypted_key_material == CoseEncrypt0Model {
        protected,
        unprotected: CborTerm::Mapping(Seq::empty()),
        ciphertext: Some(aes.spec_aead_encrypt(kek, zero_nonce_mode(), aad, plaintext)),
    }
}

/// `pkb` is what decrypting `blob` gives, under the key-encryption key
/// derived with the given root key, hidden parameters and secure-deletion
/// data: the blob's characteristics, and the key material read from the
/// decrypted bytes (bytes that `ciborium` wrote for a plain data item being
/// read back as that item).
pub open spec fn decrypted_from<A: Aes, K: Hkdf>(
    aes: A,
    kdf: K,
    root_key: KeyRepr<Seq<u8>>,
    hidden: Seq<KeyParamModel>,
    sdd: Option<SecureDeletionDataModel>,
    blob: EncryptedKeyBlobModel,
    pkb: PlaintextKeyBlobModel,
) -> bool {
    let kek = spec_kek(kdf, root_key, blob.key_derivation_input, blob.characteristics, hidden, sdd);
    let aad = cose_enc_structure(blob.encrypted_key_material.protected, Seq::empty());
    let ct = match blob.encrypted_key_material.ciphertext {
        Some(c) => c,
        None => Seq::empty(),
    };
    &&& pkb.characteristics == blob.characteristics
    &&& aes.spec_aead_decrypt(kek, zero_nonce_mode(), aad, ct) matches Some(pt) && {
        &&& spec_key_material_from_bytes(pt) == Ok::<KeyMaterialModel, CborError>(pkb.key_material)
        &&& forall|t: CborTerm|
            #![trigger cbor_encoding(t)]
            term_plain(t) && cbor_encoding(t) == pt ==> decode_exact(pt) == Ok::<CborTerm, CborError>(t)
    }
}

/// Decrypting a key blob, with the root key, hidden parameters and
/// secure-deletion data it was encrypted with, gives back the plaintext
/// blob it was made from.
pub proof fn lemma_decrypt_recovers_plaintext<A: Aes, K: Hkdf>(
    aes: A,
    kdf: K,
    root_key: KeyRepr<Seq<u8>>,
    hidden: Seq<KeyParamModel>,
    sdd: Option<SecureDeletionDataModel>,
    pkb: PlaintextKeyBlobModel,
    kek_context: Seq<u8>,
    blob: EncryptedKeyBlobModel,
    out: PlaintextKeyBlobModel,
)
    requires
        key_material_valid(pkb.key_material),
        encrypted_under(aes, kdf, root_key, hidden, sdd, pkb, kek_context, blob),
        decrypted_from(aes, kdf, root_key, hidden, sdd, blob, out),
    ensures
        out == pkb,
{
    let protected = cose_protected_header(COSE_ALG_A256GCM as int);
    let kek = spec_kek(kdf, root_key, blob.key_derivation_input, pkb.characteristics, hidden, sdd);
    let aad = cose_enc_structure(protected, Seq::empty());
    let t = key_material_term(pkb.key_material);
    let plaintext = cbor_encoding(t);
    aes.lemma_aead_decrypt_encrypt(kek, zero_nonce_mode(), aad, plaintext);
    lemma_key_material_term_plain(pkb.key_material);
    lemma_key_material_roundtrip(pkb.key_material);
    assert(decode_exact(plaintext) == Ok::<CborTerm, CborError>(t));
    assert(spec_key_material_from_bytes(plaintext) == Ok::<KeyMaterialModel, CborError>(pkb.key_material));
}

/// Whether `bytes` are the last ones in what a random source handed out.
pub open spec fn drawn_last(drawn: Seq<u8>, bytes: Seq<u8>) -> bool {
    drawn.len() >= bytes.len() && drawn.subrange(drawn.len() - bytes.len(), drawn.len() as int) == bytes
}

/// A first-version blob made from what AEAD encryption of its key material
/// gave: the output given out by the updates, and what finishing gave.  A
/// failure to finish is passed on; otherwise the ciphertext is that output
/// followed by what finishing gave, under the given protected header and an
/// empty unprotected header, and the blob has no slot.
pub fn seal_blob(
    characteristics: Vec<KeyCharacteristics>,
    key_derivation_input: [u8; 32],
    kek_context: &[u8],
    protected: Vec<u8>,
    emitted: Vec<u8>,
    finished: Result<Vec<u8>, Error>,
) -> (r: Result<EncryptedKeyBlobV1, Error>)
    ensures
        match finished {
            Err(e) => r == Err::<EncryptedKeyBlobV1, Error>(e),
            Ok(tag) => r matches Ok(blob) && blob@ == EncryptedKeyBlobModel {
                characteristics: characteristics_model(characteristics@),
                key_derivation_input: key_derivation_input@,
                kek_context: kek_context@,
                encrypted_key_material: CoseEncrypt0Model {
                    protected: protected@,
                    unprotected: CborTerm::Mapping(Seq::empty()),
                    ciphertext: Some(emitted@ + tag@),
                },
                secure_deletion_slot: None,
            },
        },
{
    let tag = finished?;
    let mut ciphertext = emitted;
    extend_bytes(&mut ciphertext, tag.as_slice());
    let unprotected = CborValue::Mapping(Vec::new());
    let ghost um = unprotected@;
    proof {
        crate::cbor::lemma_entries_of(Seq::<(CborValue, CborValue)>::empty());
        assert(um == CborTerm::Mapping(Seq::empty()));
    }
    let blob = EncryptedKeyBlobV1 {
        characteristics,
        key_derivation_input,
        kek_context: copy_bytes(kek_context),
        encrypted_key_material: CoseEncrypt0 { protected, unprotected, ciphertext: Some(ciphertext) },
        secure_deletion_slot: None,
    };
    assert(blob@.encrypted_key_material =~= CoseEncrypt0Model {
        protected: protected@,
        unprotected: CborTerm::Mapping(Seq::empty()),
        ciphertext: Some(emitted@ + tag@),
    });
    Ok(blob)
}

/// The parts of an encrypted blob that do not depend on its
/// secure-deletion slot.
fn encrypt_with<A: Aes, K: Hkdf, R: Rng>(
    aes: &A,
    kdf: &K,
    rng: &mut R,
    root_key: &OpaqueOr<HmacKey>,
    kek_context: &[u8],
    plaintext_keyblob: PlaintextKeyBlob,
    hidden: Vec<KeyParam>,
    sdd: Option<SecureDeletionData>,
) -> (r: Result<EncryptedKeyBlobV1, Error>)
    ensures
        r matches Ok(blob) ==> {
            &&& blob.secure_deletion_slot is None
            &&& final(rng).spec_drawn() == old(rng).spec_drawn() + blob@.key_derivation_input
            &&& drawn_last(final(rng).spec_drawn(), blob@.key_derivation_input)
            &&& encrypted_under(*aes, *kdf, root_key@, params_model(hidden@), sdd_model(sdd), plaintext_keyblob@, kek_context@, blob@)
        },
{
    let ghost pkb = plaintext_keyblob@;
    let PlaintextKeyBlob { characteristics, key_material } = plaintext_keyblob;
    let mut key_derivation_input = [0u8; 32];
    let ghost drawn_before = rng.spec_drawn();
    rng.fill_bytes(&mut key_derivation_input);
    assert((drawn_before + key_derivation_input@).subrange(
        drawn_before.len() as int,
        (drawn_before + key_derivation_input@).len() as int,
    ) =~= key_derivation_input@);
    let kek = derive_kek(
        kdf,
        root_key,
        &key_derivation_input,
        duplicate_characteristics(characteristics.as_slice()),
        hidden,
        sdd,
    )?;
    let protected = match a256gcm_protected_header() {
        Ok(p) => p,
        Err(_e) => {
            proof {
                assert(false);
            }
            Vec::new()
        },
    };
    let aad = encrypt0_aad(protected.as_slice());
    let plaintext = match key_material.into_vec() {
        Ok(b) => b,
        Err(_e) => {
            proof {
                assert(false);
            }
            Vec::new()
        },
    };
    let mut op = aes.begin_aead(kek, GcmMode::GcmTag16 { nonce: [0u8; 12] }, SymmetricOperation::Encrypt)?;
    op.update_aad(aad.as_slice())?;
    let ciphertext = op.update(plaintext.as_slice())?;
    let ghost (op_aad, op_input, op_emitted) = (op.spec_aad(), op.spec_input(), op.spec_emitted());
    assert(op_aad =~= aad@);
    assert(op_input =~= plaintext@);
    assert(op_emitted =~= ciphertext@);
    let finished = op.finish();
    let blob = seal_blob(characteristics, key_derivation_input, kek_context, protected, ciphertext, finished)?;
    assert(blob@.encrypted_key_material =~= CoseEncrypt0Model {
        protected: cose_protected_header(COSE_ALG_A256GCM as int),
        unprotected: CborTerm::Mapping(Seq::empty()),
        ciphertext: Some(
            aes.spec_aead_encrypt(
                spec_kek(*kdf, root_key@, blob@.key_derivation_input, pkb.characteristics, params_model(hidden@), sdd_model(sdd)),
                zero_nonce_mode(),
                cose_enc_structure(cose_protected_header(COSE_ALG_A256GCM as int), Seq::empty()),
                cbor_encoding(key_material_term(pkb.key_material)),
            ),
        ),
    });
    Ok(blob)
}

/// Encrypt a plaintext key blob.  Where the key is rollback resistant or
/// may be used only once, a new secure-deletion slot is taken (and given
/// back if encryption then fails); otherwise, where there is a
/// secure-deletion manager, its factory-reset secret is mixed in.  The key
/// derivation input is the last 32 bytes drawn from `rng`.  On failure, no
/// slot of the manager holds a secret that it did not hold before, unless
/// freeing that slot was refused.
#[verifier::rlimit(50)]
pub fn encrypt<M: SecureDeletionSecretManager, A: Aes, K: Hkdf, R: Rng>(
    sec_level: SecurityLevel,
    sdd_mgr: Option<&mut M>,
    aes: &A,
    kdf: &K,
    rng: &mut R,
    root_key: &OpaqueOr<HmacKey>,
    kek_context: &[u8],
    plaintext_keyblob: PlaintextKeyBlob,
    hidden: Vec<KeyParam>,
    purpose: SlotPurpose,
) -> (r: Result<EncryptedKeyBlob, Error>)
    ensures
        spec_characteristics_at(plaintext_keyblob@.characteristics, sec_level) is None ==> {
            &&& r == Err::<EncryptedKeyBlob, Error>(Error::Hal(ErrorCode::InvalidKeyBlob))
            &&& *final(rng) == *old(rng)
            &&& (sdd_mgr matches Some(m) ==> *final(m) == *m)
        },
        spec_characteristics_at(plaintext_keyblob@.characteristics, sec_level) matches Some(ps)
            && needs_secure_deletion(ps) && sdd_mgr is None ==> {
            &&& r == Err::<EncryptedKeyBlob, Error>(Error::Hal(ErrorCode::RollbackResistanceUnavailable))
            &&& *final(rng) == *old(rng)
        },
        r matches Ok(blob) ==> {
            &&& spec_characteristics_at(plaintext_keyblob@.characteristics, sec_level) matches Some(ps)
                && (blob@.secure_deletion_slot is Some <==> needs_secure_deletion(ps))
            &&& encrypted_under(
                *aes,
                *kdf,
                root_key@,
                params_model(hidden@),
                match (blob@.secure_deletion_slot, sdd_mgr) {
                    (Some(s), Some(m)) => final(m).spec_secret(s),
                    (None, Some(m)) => final(m).spec_factory_secret(),
                    _ => None,
                },
                plaintext_keyblob@,
                kek_context@,
                blob@,
            )
            &&& drawn_last(final(rng).spec_drawn(), blob@.key_derivation_input)
            &&& (sdd_mgr matches Some(m) ==> {
                &&& forall|s: SecureDeletionSlot|
                    blob@.secure_deletion_slot != Some(s) ==> #[trigger] final(m).spec_secret(s) == (*m).spec_secret(s)
                &&& (blob@.secure_deletion_slot matches Some(s) ==> {
                    &&& (*m).spec_secret(s) is None
                    &&& final(m).spec_slot_purpose(s) == Some(purpose)
                    &&& final(m).spec_factory_secret() == (*m).spec_factory_secret()
                })
            })
        },
        r is Err ==> match sdd_mgr {
            Some(m) => forall|s: SecureDeletionSlot|
                #[trigger] final(m).spec_secret(s) is Some && (*m).spec_secret(s) is None ==> final(m).spec_free_refused(s),
            None => true,
        },
{
    let params = plaintext_keyblob.characteristics_at(sec_level)?;
    let requires_sdd = requires_secure_deletion(params);
    match sdd_mgr {
        Some(mgr) => {
            if requires_sdd {
                let (holder, sdd) = SlotHolder::new(mgr, rng, purpose)?;
                match encrypt_with(aes, kdf, rng, root_key, kek_context, plaintext_keyblob, hidden, Some(sdd)) {
                    Ok(mut blob) => {
                        blob.secure_deletion_slot = Some(holder.consume());
                        Ok(EncryptedKeyBlob::V1(blob))
                    },
                    Err(e) => {
                        let _freed = holder.release(mgr);
                        Err(e)
                    },
                }
            } else {
                let sdd = mgr.get_or_create_factory_reset_secret(rng)?;
                let blob = encrypt_with(aes, kdf, rng, root_key, kek_context, plaintext_keyblob, hidden, Some(sdd))?;
                Ok(EncryptedKeyBlob::V1(blob))
            }
        },
        None => {
            if requires_sdd {
                return Err(Error::Hal(ErrorCode::RollbackResistanceUnavailable));
            }
            let blob = encrypt_with(aes, kdf, rng, root_key, kek_context, plaintext_keyblob, hidden, None)?;
            Ok(EncryptedKeyBlob::V1(blob))
        },
    }
}

/// Decrypt an encrypted key blob.  The secure-deletion data mixed into the
/// key-encryption key is the secret in the blob's slot, or where the blob
/// has no slot and there is a manager, the factory-reset secret; where that
/// secret cannot be had, decryption fails.  A tag that does not verify
/// makes the blob invalid (see [`plaintext_from_decryption`]).
pub fn decrypt<M: SecureDeletionSecretManager, A: Aes, K: Hkdf>(
    sdd_mgr: Option<&M>,
    aes: &A,
    kdf: &K,
    root_key: &OpaqueOr<HmacKey>,
    encrypted_keyblob: EncryptedKeyBlob,
    hidden: Vec<KeyParam>,
) -> (r: Result<PlaintextKeyBlob, Error>)
    ensures
        encrypted_keyblob@.secure_deletion_slot is Some && sdd_mgr is None
            ==> r == Err::<PlaintextKeyBlob, Error>(Error::Hal(ErrorCode::InvalidKeyBlob)),
        match (encrypted_keyblob@.secure_deletion_slot, sdd_mgr) {
            (Some(slot), Some(m)) => m.spec_secret(slot) is None
                ==> r == Err::<PlaintextKeyBlob, Error>(m.spec_secret_error(slot)),
            (None, Some(m)) => m.spec_factory_secret() is None
                ==> r == Err::<PlaintextKeyBlob, Error>(m.spec_factory_secret_error()),
            _ => true,
        },
        r matches Ok(pkb) ==> decrypted_from(
            *aes,
            *kdf,
            root_key@,
            params_model(hidden@),
            blob_secret(
                match sdd_mgr {
                    Some(m) => Some(*m),
                    None => None,
                },
                encrypted_keyblob@.secure_deletion_slot,
            ),
            encrypted_keyblob@,
            pkb@,
        ),
{
    let ghost bm = encrypted_keyblob@;
    let EncryptedKeyBlob::V1(blob) = encrypted_keyblob;
    let sdd = match (blob.secure_deletion_slot, sdd_mgr) {
        (Some(slot), Some(mgr)) => Some(mgr.get_secret(slot)?),
        (Some(_slot), None) => return Err(Error::Hal(ErrorCode::InvalidKeyBlob)),
        (None, Some(mgr)) => Some(mgr.get_factory_reset_secret()?),
        (None, None) => None,
    };
    let EncryptedKeyBlobV1 {
        characteristics,
        key_derivation_input,
        kek_context: _,
        encrypted_key_material,
        secure_deletion_slot: _,
    } = blob;
    let kek = derive_kek(
        kdf,
        root_key,
        &key_derivation_input,
        duplicate_characteristics(characteristics.as_slice()),
        hidden,
        sdd,
    )?;
    let CoseEncrypt0 { protected, unprotected: _, ciphertext } = encrypted_key_material;
    let aad = encrypt0_aad(protected.as_slice());
    let ct = match ciphertext {
        Some(c) => c,
        None => Vec::new(),
    };
    assert(ct@ == match bm.encrypted_key_material.ciphertext {
        Some(c) => c,
        None => Seq::<u8>::empty(),
    });
    let mut op = aes.begin_aead(kek, GcmMode::GcmTag16 { nonce: [0u8; 12] }, SymmetricOperation::Decrypt)?;
    op.update_aad(aad.as_slice())?;
    let mut pt = op.update(ct.as_slice())?;
    let ghost (op_aad, op_input, op_emitted) = (op.spec_aad(), op.spec_input(), op.spec_emitted());
    assert(op_aad =~= aad@);
    assert(op_input =~= ct@);
    assert(op_emitted =~= pt@);
    let finished = op.finish();
    plaintext_from_decryption(characteristics, pt, finished)
}

/// The plaintext blob made from what decrypting its key material gave: the
/// output given out by the updates, and what finishing gave.  Where
/// finishing failed (the tag does not verify), the blob is invalid;
/// otherwise the key material is read from the whole output.
pub fn plaintext_from_decryption(
    characteristics: Vec<KeyCharacteristics>,
    emitted: Vec<u8>,
    finished: Result<Vec<u8>, Error>,
) -> (r: Result<PlaintextKeyBlob, Error>)
    ensures
        finished is Err ==> r == Err::<PlaintextKeyBlob, Error>(Error::Hal(ErrorCode::InvalidKeyBlob)),
        finished matches Ok(tail) ==> {
            &&& forall|t: CborTerm|
                #![trigger cbor_encoding(t)]
                term_plain(t) && cbor_encoding(t) == emitted@ + tail@
                    ==> decode_exact(emitted@ + tail@) == Ok::<CborTerm, CborError>(t)
            &&& match spec_key_material_from_bytes(emitted@ + tail@) {
                Ok(km) => r matches Ok(pkb) && pkb@ == PlaintextKeyBlobModel {
                    characteristics: characteristics_model(characteristics@),
                    key_material: km,
                },
                Err(e) => r == Err::<PlaintextKeyBlob, Error>(Error::Cbor(e)),
            }
        },
{
    let tail = match finished {
        Ok(tail) => tail,
        Err(_e) => return Err(Error::Hal(ErrorCode::InvalidKeyBlob)),
    };
    let mut pt = emitted;
    extend_bytes(&mut pt, tail.as_slice());
    let key_material = KeyMaterial::from_slice(pt.as_slice()).map_err(cbor_error)?;
    Ok(PlaintextKeyBlob { characteristics, key_material })
}

} // verus!
