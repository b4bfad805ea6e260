//! Key derivation: HKDF (RFC 5869) over an HMAC implementation, and the
//! counter-mode KDF of NIST SP 800-108 over AES-CMAC.
use vstd::prelude::*;
use crate::crypto::{
    aes_variant_for_len, copy_bytes, extend_bytes, AesKey, AesVariant, HmacKey, KeyRepr,
    OpaqueOr, SHA256_DIGEST_LEN,
};
use crate::error::{Error, ErrorCode};
use crate::keymint::Digest;

verus! {

/// A MAC computation in progress, fed its input a piece at a time.
pub trait AccumulatingOperation {
    /// The input fed in so far.
    spec fn spec_input(&self) -> Seq<u8>;

    /// The MAC that finishing gives once `data` is the whole input.
    spec fn spec_result_for(&self, data: Seq<u8>) -> Seq<u8>;

    /// Feed in more input.
    fn update(&mut self, data: &[u8]) -> (r: Result<(), Error>)
        ensures
            forall|d: Seq<u8>| #[trigger] final(self).spec_result_for(d) == old(self).spec_result_for(d),
            r is Ok ==> final(self).spec_input() == old(self).spec_input() + data@,
    ;

    /// Finish, giving the MAC of the whole input.
    fn finish(self) -> (r: Result<Vec<u8>, Error>)
        ensures
            r matches Ok(t) ==> t@ == self.spec_result_for(self.spec_input()),
    ;
}

/// An HMAC implementation, supplied by the device.
pub trait Hmac {
    /// The operations that this implementation runs.
    type Op: AccumulatingOperation;

    /// The MAC that this implementation computes over `data` with the given
    /// key and digest.
    spec fn spec_mac(&self, key: KeyRepr<Seq<u8>>, digest: Digest, data: Seq<u8>) -> Seq<u8>;

    /// Start computing a MAC with the given key and digest.
    fn begin(&self, key: OpaqueOr<HmacKey>, digest: Digest) -> (r: Result<Self::Op, Error>)
        ensures
            r matches Ok(op) ==> {
                &&& op.spec_input() == Seq::<u8>::empty()
                &&& forall|d: Seq<u8>| #[trigger] op.spec_result_for(d) == self.spec_mac(key@, digest, d)
            },
    ;

    /// An HMAC-SHA256 tag is the length of a SHA-256 digest.
    proof fn lemma_sha256_tag_len(&self, key: KeyRepr<Seq<u8>>, data: Seq<u8>)
        ensures
            self.spec_mac(key, Digest::Sha256, data).len() == SHA256_DIGEST_LEN,
    ;
}

/// An AES-CMAC implementation, supplied by the device.
pub trait AesCmac {
    /// The operations that this implementation runs.
    type Op: AccumulatingOperation;

    /// The CMAC that this implementation computes over `data` with the given
    /// key.
    spec fn spec_cmac(&self, key: KeyRepr<(AesVariant, Seq<u8>)>, data: Seq<u8>) -> Seq<u8>;

    /// Start computing a CMAC with the given key.
    fn begin(&self, key: OpaqueOr<AesKey>) -> (r: Result<Self::Op, Error>)
        ensures
            r matches Ok(op) ==> {
                &&& op.spec_input() == Seq::<u8>::empty()
                &&& forall|d: Seq<u8>| #[trigger] op.spec_result_for(d) == self.spec_cmac(key@, d)
            },
    ;

    /// A CMAC is an AES block long.
    proof fn lemma_cmac_len(&self, key: KeyRepr<(AesVariant, Seq<u8>)>, data: Seq<u8>)
        ensures
            self.spec_cmac(key, data).len() == AES_BLOCK_SIZE,
    ;
}

/// HMAC-SHA256 of `data` under the key `key`.
pub open spec fn hmac_sha256_of<H: Hmac>(h: H, key: Seq<u8>, data: Seq<u8>) -> Seq<u8> {
    h.spec_mac(KeyRepr::Explicit(key), Digest::Sha256, data)
}

/// Compute HMAC-SHA256 of `data` under the key `key`.
pub fn hmac_sha256<H: Hmac>(hmac: &H, key: &[u8], data: &[u8]) -> (r: Result<Vec<u8>, Error>)
    ensures
        r matches Ok(t) ==> t@ == hmac_sha256_of(*hmac, key@, data@),
{
    let mut op = hmac.begin(OpaqueOr::Explicit(HmacKey(copy_bytes(key))), Digest::Sha256)?;
    op.update(data)?;
    assert(op.spec_input() =~= data@);
    op.finish()
}

/// The salt used in place of an empty one: a digest length of zeros.
pub open spec fn hkdf_default_salt() -> Seq<u8> {
    Seq::new(SHA256_DIGEST_LEN as nat, |i: int| 0u8)
}

/// HKDF-Extract: the pseudo-random key made from a salt and input keying
/// material.
pub open spec fn hkdf_prk<H: Hmac>(h: H, salt: Seq<u8>, ikm: Seq<u8>) -> Seq<u8> {
    hmac_sha256_of(h, if salt.len() == 0 { hkdf_default_salt() } else { salt }, ikm)
}

/// The block T(i) of HKDF-Expand: T(0) is empty, and T(i) is the HMAC of
/// T(i-1) followed by the info and the byte i.
pub open spec fn hkdf_block<H: Hmac>(h: H, prk: Seq<u8>, info: Seq<u8>, i: nat) -> Seq<u8>
    decreases i,
{
    if i == 0 {
        Seq::empty()
    } else {
        hmac_sha256_of(h, prk, hkdf_block(h, prk, info, (i - 1) as nat) + info + seq![i as u8])
    }
}

/// The blocks T(1) .. T(count) of HKDF-Expand, one after another.
pub open spec fn hkdf_stream<H: Hmac>(h: H, prk: Seq<u8>, info: Seq<u8>, count: nat) -> Seq<u8>
    decreases count,
{
    if count == 0 {
        Seq::empty()
    } else {
        hkdf_stream(h, prk, info, (count - 1) as nat) + hkdf_block(h, prk, info, count)
    }
}

/// The number of `block`-byte blocks that `len` bytes take up.
pub open spec fn blocks_for(len: nat, block: nat) -> nat {
    if block == 0 {
        0
    } else {
        ((len + block - 1) as nat) / block
    }
}

/// A sequence cut to at most `len` items.
pub open spec fn truncated<A>(s: Seq<A>, len: nat) -> Seq<A> {
    if len <= s.len() {
        s.take(len as int)
    } else {
        s
    }
}

/// The greatest number of blocks HKDF-Expand computes: the block number
/// is carried in a byte.
pub const HKDF_MAX_BLOCKS: usize = 255;

/// HKDF-Expand: `out_len` bytes of output keying material.
pub open spec fn hkdf_okm<H: Hmac>(h: H, prk: Seq<u8>, info: Seq<u8>, out_len: nat) -> Seq<u8> {
    truncated(hkdf_stream(h, prk, info, blocks_for(out_len, SHA256_DIGEST_LEN as nat)), out_len)
}

/// The blocks of HKDF-Expand computed for a smaller count begin those
/// computed for a larger one.
proof fn lemma_hkdf_stream_prefix<H: Hmac>(h: H, prk: Seq<u8>, info: Seq<u8>, c1: nat, c2: nat)
    requires
        c1 <= c2,
    ensures
        hkdf_stream(h, prk, info, c1).len() <= hkdf_stream(h, prk, info, c2).len(),
        hkdf_stream(h, prk, info, c1) =~= hkdf_stream(h, prk, info, c2).take(
            hkdf_stream(h, prk, info, c1).len() as int,
        ),
    decreases c2,
{
    if c1 < c2 {
        lemma_hkdf_stream_prefix(h, prk, info, c1, (c2 - 1) as nat);
    }
}

/// The blocks T(1) .. T(count) of HKDF-Expand take up a digest length each.
proof fn lemma_hkdf_stream_len<H: Hmac>(h: H, prk: Seq<u8>, info: Seq<u8>, count: nat)
    ensures
        hkdf_stream(h, prk, info, count).len() == count * SHA256_DIGEST_LEN,
    decreases count,
{
    if count > 0 {
        lemma_hkdf_stream_len(h, prk, info, (count - 1) as nat);
        let prev = hkdf_block(h, prk, info, (count - 1) as nat);
        h.lemma_sha256_tag_len(KeyRepr::Explicit(prk), prev + info + seq![count as u8]);
    }
}

/// HKDF-Expand gives exactly the length asked for.
pub proof fn lemma_hkdf_okm_len<H: Hmac>(h: H, prk: Seq<u8>, info: Seq<u8>, out_len: nat)
    ensures
        hkdf_okm(h, prk, info, out_len).len() == out_len,
{
    let b = blocks_for(out_len, SHA256_DIGEST_LEN as nat);
    lemma_hkdf_stream_len(h, prk, info, b);
    assert(b * 32 >= out_len) by (nonlinear_arith)
        requires
            b == ((out_len + 32 - 1) as nat) / 32,
    {
    }
}

/// HKDF-Expand output asked for at a shorter length is the start of the
/// output asked for at a longer one.
pub proof fn lemma_hkdf_okm_prefix<H: Hmac>(h: H, prk: Seq<u8>, info: Seq<u8>, l1: nat, l2: nat)
    requires
        l1 <= l2,
    ensures
        hkdf_okm(h, prk, info, l1).len() == l1,
        hkdf_okm(h, prk, info, l2).len() == l2,
        hkdf_okm(h, prk, info, l1) == hkdf_okm(h, prk, info, l2).take(l1 as int),
{
    lemma_hkdf_okm_len(h, prk, info, l2);
    lemma_hkdf_okm_len(h, prk, info, l1);
    let b1 = blocks_for(l1, SHA256_DIGEST_LEN as nat);
    let b2 = blocks_for(l2, SHA256_DIGEST_LEN as nat);
    assert(b1 <= b2) by (nonlinear_arith)
        requires
            l1 <= l2,
            b1 == ((l1 + 32 - 1) as nat) / 32,
            b2 == ((l2 + 32 - 1) as nat) / 32,
    {
    }
    lemma_hkdf_stream_prefix(h, prk, info, b1, b2);
    let s1 = hkdf_stream(h, prk, info, b1);
    let s2 = hkdf_stream(h, prk, info, b2);
    assert(hkdf_okm(h, prk, info, l1) =~= hkdf_okm(h, prk, info, l2).take(hkdf_okm(h, prk, info, l1).len() as int));
}

/// HKDF-Extract is HMAC-SHA256 of the input keying material under the
/// salt, or under 32 zero bytes where the salt is empty.
pub proof fn lemma_hkdf_prk_is_hmac<H: Hmac>(h: H, salt: Seq<u8>, ikm: Seq<u8>)
    ensures
        hkdf_prk(h, salt, ikm) == h.spec_mac(
            KeyRepr::Explicit(if salt.len() == 0 { Seq::new(32, |i: int| 0u8) } else { salt }),
            Digest::Sha256,
            ikm,
        ),
{
    assert(hkdf_default_salt() =~= Seq::new(32, |i: int| 0u8));
}

/// Each HKDF-Expand block is HMAC-SHA256, under the pseudo-random key, of
/// the block before it, the info and the block's number.
pub proof fn lemma_hkdf_block_chain<H: Hmac>(h: H, prk: Seq<u8>, info: Seq<u8>, i: nat)
    ensures
        hkdf_block(h, prk, info, i + 1) == h.spec_mac(
            KeyRepr::Explicit(prk),
            Digest::Sha256,
            hkdf_block(h, prk, info, i) + info + seq![(i + 1) as u8],
        ),
{
}

/// The first 32 bytes of HKDF-Expand output are HMAC-SHA256, under the
/// pseudo-random key, of the info followed by the byte 1.
pub proof fn lemma_hkdf_first_block<H: Hmac>(h: H, prk: Seq<u8>, info: Seq<u8>, out_len: nat)
    requires
        out_len >= 32,
    ensures
        hkdf_okm(h, prk, info, out_len).subrange(0, 32) == h.spec_mac(
            KeyRepr::Explicit(prk),
            Digest::Sha256,
            info + seq![1u8],
        ),
{
    let b = blocks_for(out_len, SHA256_DIGEST_LEN as nat);
    assert(b >= 1) by (nonlinear_arith)
        requires
            out_len >= 32,
            b == ((out_len + 32 - 1) as nat) / 32,
    {
    }
    lemma_hkdf_stream_prefix(h, prk, info, 1, b);
    lemma_hkdf_okm_len(h, prk, info, out_len);
    h.lemma_sha256_tag_len(KeyRepr::Explicit(prk), Seq::<u8>::empty() + info + seq![1u8]);
    assert(Seq::<u8>::empty() + info + seq![1u8] =~= info + seq![1u8]);
    let s1 = hkdf_stream(h, prk, info, 1);
    assert(hkdf_block(h, prk, info, 0) == Seq::<u8>::empty());
    assert(hkdf_stream(h, prk, info, 0) == Seq::<u8>::empty());
    assert(hkdf_block(h, prk, info, 1) == hmac_sha256_of(h, prk, Seq::<u8>::empty() + info + seq![1u8]));
    assert(s1 == Seq::<u8>::empty() + hkdf_block(h, prk, info, 1));
    assert(s1 =~= h.spec_mac(KeyRepr::Explicit(prk), Digest::Sha256, info + seq![1u8]));
    lemma_hkdf_stream_len(h, prk, info, b);
    assert(hkdf_okm(h, prk, info, out_len).subrange(0, 32) =~= s1);
}

/// The number of `block`-byte blocks that `len` bytes take up.
pub fn div_ceil(len: usize, block: usize) -> (r: usize)
    requires
        block > 0,
    ensures
        r == blocks_for(len as nat, block as nat),
{
    let q = len / block;
    if len % block != 0 {
        assert(q < usize::MAX) by (nonlinear_arith)
            requires
                block > 0,
                q == len / block,
                len % block != 0,
                len <= usize::MAX,
        {
        }
    }
    let r = if len % block != 0 { q + 1 } else { q };
    proof {
        assert(r == blocks_for(len as nat, block as nat)) by (nonlinear_arith)
            requires
                block > 0,
                q == len / block,
                r == if len % block != 0 { q + 1 } else { q as int },
        {
        }
    }
    r
}

/// HKDF-Extract with HMAC-SHA256.
pub fn hmac_hkdf_extract<H: Hmac>(hmac: &H, salt: &[u8], ikm: &[u8]) -> (r: Result<OpaqueOr<HmacKey>, Error>)
    ensures
        r matches Ok(k) ==> k@ == KeyRepr::<Seq<u8>>::Explicit(hkdf_prk(*hmac, salt@, ikm@)),
{
    let prk = if salt.len() == 0 {
        let zeros: Vec<u8> = vec![0u8; SHA256_DIGEST_LEN];
        proof {
            assert(zeros@ =~= hkdf_default_salt());
        }
        hmac_sha256(hmac, zeros.as_slice(), ikm)?
    } else {
        hmac_sha256(hmac, salt, ikm)?
    };
    Ok(OpaqueOr::Explicit(HmacKey::new(prk)))
}

/// The input to HMAC for block `i` of HKDF-Expand: the previous block, the
/// info and the byte `i`.
fn hkdf_block_input(t: &[u8], info: &[u8], i: u8) -> (r: Vec<u8>)
    ensures
        r@ == t@ + info@ + seq![i],
{
    let mut input: Vec<u8> = Vec::new();
    extend_bytes(&mut input, t);
    extend_bytes(&mut input, info);
    input.push(i);
    assert(input@ =~= t@ + info@ + seq![i]);
    input
}

/// Take in what HMAC gave for one block of HKDF-Expand: its error is passed
/// on; a block is appended to the output so far, and is the block that the
/// next one chains from.
pub fn hkdf_absorb(okm: Vec<u8>, block: Result<Vec<u8>, Error>) -> (r: Result<(Vec<u8>, Vec<u8>), Error>)
    ensures
        match block {
            Err(e) => r == Err::<(Vec<u8>, Vec<u8>), Error>(e),
            Ok(t) => r matches Ok((t2, out)) && t2@ == t@ && out@ == okm@ + t@,
        },
{
    let t = block?;
    let mut out = okm;
    extend_bytes(&mut out, t.as_slice());
    Ok((t, out))
}

/// HKDF-Expand with HMAC-SHA256.  The key must be held in the clear, and
/// at most 255 blocks may be asked for.
pub fn hmac_hkdf_expand<H: Hmac>(hmac: &H, prk: &OpaqueOr<HmacKey>, info: &[u8], out_len: usize) -> (r: Result<Vec<u8>, Error>)
    ensures
        prk@ is Opaque ==> r == Err::<Vec<u8>, Error>(Error::Hal(ErrorCode::IncompatibleKeyFormat)),
        prk@ is Explicit && blocks_for(out_len as nat, SHA256_DIGEST_LEN as nat) > HKDF_MAX_BLOCKS
            ==> r == Err::<Vec<u8>, Error>(Error::Hal(ErrorCode::InvalidArgument)),
        prk@ is Explicit && out_len == 0 ==> (r matches Ok(okm) && okm@.len() == 0),
        r matches Ok(okm) ==> {
            &&& prk@ matches KeyRepr::Explicit(k)
            &&& blocks_for(out_len as nat, SHA256_DIGEST_LEN as nat) <= HKDF_MAX_BLOCKS
            &&& okm@ == hkdf_okm(*hmac, k, info@, out_len as nat)
            &&& okm@.len() == out_len
        },
{
    let prk_bytes = match prk {
        OpaqueOr::Explicit(k) => &k.0,
        OpaqueOr::Opaque(_) => return Err(Error::Hal(ErrorCode::IncompatibleKeyFormat)),
    };
    let n = div_ceil(out_len, SHA256_DIGEST_LEN);
    if n > HKDF_MAX_BLOCKS {
        return Err(Error::Hal(ErrorCode::InvalidArgument));
    }
    let rounds: u8 = n as u8;
    let mut t: Vec<u8> = Vec::new();
    let mut okm: Vec<u8> = Vec::new();
    let mut idx: u8 = 0;
    while idx < rounds
        invariant
            idx <= rounds,
            prk@ == KeyRepr::<Seq<u8>>::Explicit(prk_bytes@),
            rounds == blocks_for(out_len as nat, SHA256_DIGEST_LEN as nat),
            rounds <= HKDF_MAX_BLOCKS,
            t@ == hkdf_block(*hmac, prk_bytes@, info@, idx as nat),
            okm@ == hkdf_stream(*hmac, prk_bytes@, info@, idx as nat),
        decreases rounds - idx,
    {
        let input = hkdf_block_input(t.as_slice(), info, idx + 1);
        let block = hmac_sha256(hmac, prk_bytes.as_slice(), input.as_slice());
        let (next, out) = hkdf_absorb(okm, block)?;
        t = next;
        okm = out;
        idx = idx + 1;
    }
    okm.truncate(out_len);
    proof {
        lemma_hkdf_okm_len(*hmac, prk_bytes@, info@, out_len as nat);
    }
    Ok(okm)
}

/// A key derivation function of the HKDF shape.
pub trait Hkdf {
    /// The pseudo-random key that extraction makes from a salt and input
    /// keying material.
    spec fn spec_extract(&self, salt: Seq<u8>, ikm: Seq<u8>) -> KeyRepr<Seq<u8>>;

    /// The output keying material that expansion makes.
    spec fn spec_expand(&self, prk: KeyRepr<Seq<u8>>, info: Seq<u8>, out_len: nat) -> Seq<u8>;

    /// HKDF-Extract.
    fn extract(&self, salt: &[u8], ikm: &[u8]) -> (r: Result<OpaqueOr<HmacKey>, Error>)
        ensures
            r matches Ok(k) ==> k@ == self.spec_extract(salt@, ikm@),
    ;

    /// HKDF-Expand.
    fn expand(&self, prk: &OpaqueOr<HmacKey>, info: &[u8], out_len: usize) -> (r: Result<Vec<u8>, Error>)
        ensures
            r matches Ok(okm) ==> okm@ == self.spec_expand(prk@, info@, out_len as nat) && okm@.len() == out_len,
    ;
}

impl<T: Hmac> Hkdf for T {
    open spec fn spec_extract(&self, salt: Seq<u8>, ikm: Seq<u8>) -> KeyRepr<Seq<u8>> {
        KeyRepr::Explicit(hkdf_prk(*self, salt, ikm))
    }

    open spec fn spec_expand(&self, prk: KeyRepr<Seq<u8>>, info: Seq<u8>, out_len: nat) -> Seq<u8> {
        match prk {
            KeyRepr::Explicit(k) => hkdf_okm(*self, k, info, out_len),
            KeyRepr::Opaque(_) => Seq::empty(),
        }
    }

    fn extract(&self, salt: &[u8], ikm: &[u8]) -> (r: Result<OpaqueOr<HmacKey>, Error>) {
        hmac_hkdf_extract(self, salt, ikm)
    }

    fn expand(&self, prk: &OpaqueOr<HmacKey>, info: &[u8], out_len: usize) -> (r: Result<Vec<u8>, Error>)
        ensures
            prk@ is Opaque ==> r == Err::<Vec<u8>, Error>(Error::Hal(ErrorCode::IncompatibleKeyFormat)),
            prk@ is Explicit && blocks_for(out_len as nat, SHA256_DIGEST_LEN as nat) > HKDF_MAX_BLOCKS
                ==> r == Err::<Vec<u8>, Error>(Error::Hal(ErrorCode::InvalidArgument)),
            prk@ is Explicit && out_len == 0 ==> (r matches Ok(okm) && okm@.len() == 0),
    {
        hmac_hkdf_expand(self, prk, info, out_len)
    }
}

/// Extract then expand.
pub open spec fn spec_hkdf<K: Hkdf>(kdf: K, salt: Seq<u8>, ikm: Seq<u8>, info: Seq<u8>, out_len: nat) -> Seq<u8> {
    kdf.spec_expand(kdf.spec_extract(salt, ikm), info, out_len)
}

/// The AES key held in the clear whose bytes are `data`.
pub open spec fn aes_key_from_bytes(data: Seq<u8>) -> KeyRepr<(AesVariant, Seq<u8>)> {
    KeyRepr::Explicit((aes_variant_for_len(data.len()).unwrap(), data))
}

/// HKDF: extract a key from `salt` and `ikm`, then expand it with `info`.
pub fn hkdf<K: Hkdf>(kdf: &K, salt: &[u8], ikm: &[u8], info: &[u8], out_len: usize) -> (r: Result<Vec<u8>, Error>)
    ensures
        r matches Ok(okm) ==> okm@ == spec_hkdf(*kdf, salt@, ikm@, info@, out_len as nat) && okm@.len() == out_len,
{
    let prk = kdf.extract(salt, ikm)?;
    kdf.expand(&prk, info, out_len)
}

/// The AES key made from derived bytes: an error of the derivation is passed
/// on; bytes of an AES key size make a key held in the clear.
pub fn aes_key_from_derived(derived: Result<Vec<u8>, Error>) -> (r: Result<OpaqueOr<AesKey>, Error>)
    ensures
        match derived {
            Err(e) => r == Err::<OpaqueOr<AesKey>, Error>(e),
            Ok(d) => match aes_variant_for_len(d@.len()) {
                Some(_) => r matches Ok(k) && k@ == aes_key_from_bytes(d@),
                None => r == Err::<OpaqueOr<AesKey>, Error>(Error::Hal(ErrorCode::UnsupportedKeySize)),
            },
        },
{
    let data = derived?;
    let key = AesKey::new(data)?;
    Ok(OpaqueOr::Explicit(key))
}

/// HKDF giving an AES key of the given size.
pub fn hkdf_aes<K: Hkdf>(kdf: &K, salt: &[u8], ikm: &[u8], info: &[u8], variant: AesVariant) -> (r: Result<OpaqueOr<AesKey>, Error>)
    ensures
        r matches Ok(k) ==> {
            let data = spec_hkdf(*kdf, salt@, ikm@, info@, crate::crypto::aes_key_len(variant));
            &&& aes_variant_for_len(data.len()) is Some
            &&& k@ == aes_key_from_bytes(data)
        },
{
    let derived = hkdf(kdf, salt, ikm, info, variant.key_size());
    aes_key_from_derived(derived)
}

/// HKDF-Expand giving an AES key of the given size.
pub fn expand_aes<K: Hkdf>(kdf: &K, prk: &OpaqueOr<HmacKey>, info: &[u8], variant: AesVariant) -> (r: Result<OpaqueOr<AesKey>, Error>)
    ensures
        r matches Ok(k) ==> {
            let data = kdf.spec_expand(prk@, info@, crate::crypto::aes_key_len(variant));
            &&& aes_variant_for_len(data.len()) is Some
            &&& k@ == aes_key_from_bytes(data)
        },
{
    let derived = kdf.expand(prk, info, variant.key_size());
    aes_key_from_derived(derived)
}

/// The length of an AES block in bytes.
pub const AES_BLOCK_SIZE: usize = 16;

/// The four big-endian bytes of a 32-bit number.
pub open spec fn be32(x: nat) -> Seq<u8> {
    seq![
        ((x / 0x100_0000) % 256) as u8,
        ((x / 0x1_0000) % 256) as u8,
        ((x / 0x100) % 256) as u8,
        (x % 256) as u8,
    ]
}

/// The four big-endian bytes of a 32-bit number.
pub fn u32_to_be_bytes(x: u32) -> (r: Vec<u8>)
    ensures
        r@ == be32(x as nat),
{
    let mut r: Vec<u8> = Vec::new();
    r.push((x / 0x100_0000) as u8);
    r.push(((x / 0x1_0000) % 256) as u8);
    r.push(((x / 0x100) % 256) as u8);
    r.push((x % 256) as u8);
    assert(r@ =~= be32(x as nat));
    r
}

/// The four bytes of a 32-bit number, read big-endian, give the number back.
pub proof fn lemma_be32_value(x: nat)
    requires
        x < 0x1_0000_0000,
    ensures
        be32(x).len() == 4,
        be32(x)[0] * 0x100_0000 + be32(x)[1] * 0x1_0000 + be32(x)[2] * 0x100 + be32(x)[3] == x,
{
    let b0 = (x / 0x100_0000) % 256;
    let b1 = (x / 0x1_0000) % 256;
    let b2 = (x / 0x100) % 256;
    let b3 = x % 256;
    assert(b0 * 0x100_0000 + b1 * 0x1_0000 + b2 * 0x100 + b3 == x) by (nonlinear_arith)
        requires
            x < 0x1_0000_0000,
            b0 == (x / 0x100_0000) % 256,
            b1 == (x / 0x1_0000) % 256,
            b2 == (x / 0x100) % 256,
            b3 == x % 256,
    {
    }
}

/// A block's message of the counter-mode KDF begins with the block's
/// number in four big-endian bytes, has a zero byte right after the label,
/// and ends with the output length in bits in four big-endian bytes.
pub proof fn lemma_ckdf_message_layout(i: nat, label: Seq<u8>, context: Seq<u8>, length_bits: nat)
    ensures
        ckdf_message(i, label, context, length_bits).len() == 4 + label.len() + 1 + context.len() + 4,
        ckdf_message(i, label, context, length_bits).subrange(0, 4) == be32(i),
        ckdf_message(i, label, context, length_bits).subrange(4, (4 + label.len()) as int) == label,
        ckdf_message(i, label, context, length_bits)[(4 + label.len()) as int] == 0u8,
        ckdf_message(i, label, context, length_bits).subrange(
            (5 + label.len()) as int,
            (5 + label.len() + context.len()) as int,
        ) == context,
        ckdf_message(i, label, context, length_bits).subrange(
            (5 + label.len() + context.len()) as int,
            (9 + label.len() + context.len()) as int,
        ) == be32(length_bits),
{
    let m = ckdf_message(i, label, context, length_bits);
    assert(m.subrange(0, 4) =~= be32(i));
    assert(m.subrange(4, (4 + label.len()) as int) =~= label);
    assert(m.subrange((5 + label.len()) as int, (5 + label.len() + context.len()) as int) =~= context);
    assert(m.subrange((5 + label.len() + context.len()) as int, (9 + label.len() + context.len()) as int) =~= be32(length_bits));
}

/// The byte strings that some slices hold.
pub open spec fn slice_views(chunks: Seq<&[u8]>) -> Seq<Seq<u8>> {
    chunks.map_values(|c: &[u8]| c@)
}

/// Byte strings one after another.
pub open spec fn concat_all(cs: Seq<Seq<u8>>) -> Seq<u8>
    decreases cs.len(),
{
    if cs.len() == 0 {
        Seq::empty()
    } else {
        concat_all(cs.drop_last()) + cs.last()
    }
}

/// The number of blocks the counter-mode KDF computes for `out_len` bytes:
/// the count is carried in 32 bits.
pub open spec fn ckdf_block_count(out_len: nat) -> nat {
    blocks_for(out_len, AES_BLOCK_SIZE as nat) % 0x1_0000_0000
}

/// The output length in bits, as carried in 32 bits.
pub open spec fn ckdf_length_bits(out_len: nat) -> nat {
    (out_len * 8) % 0x1_0000_0000
}

/// The message whose CMAC is block `i` of the counter-mode KDF: the counter,
/// the label, a zero byte, the context and the output length in bits.
pub open spec fn ckdf_message(i: nat, label: Seq<u8>, context: Seq<u8>, length_bits: nat) -> Seq<u8> {
    be32(i) + label + seq![0u8] + context + be32(length_bits)
}

/// Blocks 1 .. count of the counter-mode KDF, one after another.
pub open spec fn ckdf_stream<C: AesCmac>(
    c: C,
    key: (AesVariant, Seq<u8>),
    label: Seq<u8>,
    context: Seq<u8>,
    length_bits: nat,
    count: nat,
) -> Seq<u8>
    decreases count,
{
    if count == 0 {
        Seq::empty()
    } else {
        ckdf_stream(c, key, label, context, length_bits, (count - 1) as nat) + c.spec_cmac(
            KeyRepr::Explicit(key),
            ckdf_message(count, label, context, length_bits),
        )
    }
}

/// All the blocks that the counter-mode KDF computes for `out_len` bytes.
pub open spec fn ckdf_output<C: AesCmac>(
    c: C,
    key: (AesVariant, Seq<u8>),
    label: Seq<u8>,
    context: Seq<u8>,
    out_len: nat,
) -> Seq<u8> {
    ckdf_stream(c, key, label, context, ckdf_length_bits(out_len), ckdf_block_count(out_len))
}

/// Block `i` of the counter-mode KDF: the CMAC of the counter, the label, a
/// zero byte, the chunks and the output length in bits, fed in one after
/// another.
fn ckdf_block<C: AesCmac>(
    cmac: &C,
    key: &AesKey,
    i: u32,
    label: &[u8],
    chunks: &[&[u8]],
    length_bits: u32,
) -> (r: Result<Vec<u8>, Error>)
    ensures
        r matches Ok(t) ==> t@ == cmac.spec_cmac(
            KeyRepr::Explicit(key@),
            ckdf_message(i as nat, label@, concat_all(slice_views(chunks@)), length_bits as nat),
        ),
{
    let mut op = cmac.begin(OpaqueOr::Explicit(key.duplicate()))?;
    let counter = u32_to_be_bytes(i);
    op.update(counter.as_slice())?;
    op.update(label)?;
    let zero: Vec<u8> = vec![0u8];
    op.update(zero.as_slice())?;
    let ghost head = be32(i as nat) + label@ + seq![0u8];
    assert(op.spec_input() =~= head);
    let mut c: usize = 0;
    while c < chunks.len()
        invariant
            c <= chunks@.len(),
            op.spec_input() == head + concat_all(slice_views(chunks@.take(c as int))),
            forall|d: Seq<u8>| #[trigger] op.spec_result_for(d) == cmac.spec_cmac(KeyRepr::Explicit(key@), d),
        decreases chunks@.len() - c,
    {
        op.update(chunks[c])?;
        proof {
            assert(slice_views(chunks@.take(c + 1)).drop_last() =~= slice_views(chunks@.take(c as int)));
            assert(op.spec_input() =~= head + concat_all(slice_views(chunks@.take(c + 1))));
        }
        c = c + 1;
    }
    assert(chunks@.take(chunks@.len() as int) =~= chunks@);
    let length = u32_to_be_bytes(length_bits);
    op.update(length.as_slice())?;
    assert(op.spec_input() =~= ckdf_message(i as nat, label@, concat_all(slice_views(chunks@)), length_bits as nat));
    op.finish()
}

/// Take in a block of the counter-mode KDF, given what the CMAC gave: its
/// error is passed on; otherwise the block is appended to the blocks so far.
pub fn ckdf_absorb(produced: Vec<u8>, block: Result<Vec<u8>, Error>) -> (r: Result<Vec<u8>, Error>)
    ensures
        match block {
            Err(e) => r == Err::<Vec<u8>, Error>(e),
            Ok(t) => r matches Ok(out) && out@ == produced@ + t@,
        },
{
    let t = block?;
    let mut out = produced;
    extend_bytes(&mut out, t.as_slice());
    Ok(out)
}

/// The output of the counter-mode KDF from all its blocks: their first
/// `out_len` bytes, where the blocks fill them; `InvalidArgument` where
/// they do not.
pub fn ckdf_fit(produced: Vec<u8>, out_len: usize) -> (r: Result<Vec<u8>, Error>)
    ensures
        produced@.len() >= out_len ==> (r matches Ok(out) && out@ == produced@.take(out_len as int)),
        produced@.len() < out_len ==> r == Err::<Vec<u8>, Error>(Error::Hal(ErrorCode::InvalidArgument)),
{
    if produced.len() < out_len {
        return Err(Error::Hal(ErrorCode::InvalidArgument));
    }
    let mut out = produced;
    out.truncate(out_len);
    Ok(out)
}

/// The blocks of the counter-mode KDF take up an AES block each.
proof fn lemma_ckdf_stream_len<C: AesCmac>(
    c: C,
    key: (AesVariant, Seq<u8>),
    label: Seq<u8>,
    context: Seq<u8>,
    length_bits: nat,
    count: nat,
)
    ensures
        ckdf_stream(c, key, label, context, length_bits, count).len() == count * AES_BLOCK_SIZE,
    decreases count,
{
    if count > 0 {
        lemma_ckdf_stream_len(c, key, label, context, length_bits, (count - 1) as nat);
        c.lemma_cmac_len(KeyRepr::Explicit(key), ckdf_message(count, label, context, length_bits));
    }
}

/// The blocks of the counter-mode KDF fill the output asked for, as long as
/// their count fits in 32 bits.
pub proof fn lemma_ckdf_output_fills<C: AesCmac>(
    c: C,
    key: (AesVariant, Seq<u8>),
    label: Seq<u8>,
    context: Seq<u8>,
    out_len: nat,
)
    requires
        blocks_for(out_len, AES_BLOCK_SIZE as nat) < 0x1_0000_0000,
    ensures
        ckdf_output(c, key, label, context, out_len).len() >= out_len,
{
    let b = blocks_for(out_len, AES_BLOCK_SIZE as nat);
    assert(ckdf_block_count(out_len) == b);
    lemma_ckdf_stream_len(c, key, label, context, ckdf_length_bits(out_len), b);
    assert(b * 16 >= out_len) by (nonlinear_arith)
        requires
            b == ((out_len + 16 - 1) as nat) / 16,
    {
    }
}

/// The blocks of the counter-mode KDF for a smaller count begin those for a
/// larger one.
proof fn lemma_ckdf_stream_prefix<C: AesCmac>(
    c: C,
    key: (AesVariant, Seq<u8>),
    label: Seq<u8>,
    context: Seq<u8>,
    length_bits: nat,
    c1: nat,
    c2: nat,
)
    requires
        c1 <= c2,
    ensures
        ckdf_stream(c, key, label, context, length_bits, c1) =~= ckdf_stream(c, key, label, context, length_bits, c2).take(
            ckdf_stream(c, key, label, context, length_bits, c1).len() as int,
        ),
        ckdf_stream(c, key, label, context, length_bits, c1).len() <= ckdf_stream(c, key, label, context, length_bits, c2).len(),
    decreases c2,
{
    if c1 < c2 {
        lemma_ckdf_stream_prefix(c, key, label, context, length_bits, c1, (c2 - 1) as nat);
    }
}

/// The first 16 bytes of the counter-mode KDF's output are the CMAC of the
/// message of block number 1, which carries the output length in bits.
pub proof fn lemma_ckdf_first_block<C: AesCmac>(
    c: C,
    key: (AesVariant, Seq<u8>),
    label: Seq<u8>,
    context: Seq<u8>,
    out_len: nat,
)
    requires
        16 <= out_len,
        blocks_for(out_len, AES_BLOCK_SIZE as nat) < 0x1_0000_0000,
    ensures
        ckdf_output(c, key, label, context, out_len).subrange(0, 16) == c.spec_cmac(
            KeyRepr::Explicit(key),
            ckdf_message(1, label, context, (out_len * 8) % 0x1_0000_0000),
        ),
{
    let b = blocks_for(out_len, AES_BLOCK_SIZE as nat);
    assert(b >= 1) by (nonlinear_arith)
        requires
            out_len >= 16,
            b == ((out_len + 16 - 1) as nat) / 16,
    {
    }
    assert(ckdf_block_count(out_len) == b);
    let l = ckdf_length_bits(out_len);
    lemma_ckdf_stream_prefix(c, key, label, context, l, 1, b);
    let m1 = ckdf_message(1, label, context, l);
    c.lemma_cmac_len(KeyRepr::Explicit(key), m1);
    let s1 = ckdf_stream(c, key, label, context, l, 1);
    assert(ckdf_stream(c, key, label, context, l, 0) == Seq::<u8>::empty());
    assert(s1 =~= c.spec_cmac(KeyRepr::Explicit(key), m1));
    assert(ckdf_output(c, key, label, context, out_len).subrange(0, 16) =~= s1);
}

/// The counter-mode KDF of NIST SP 800-108 with AES-CMAC as its PRF: the
/// context is the chunks one after another.  The key must be held in the
/// clear, and the blocks must fill the output.
pub fn ckdf<C: AesCmac>(cmac: &C, key: &OpaqueOr<AesKey>, label: &[u8], chunks: &[&[u8]], out_len: usize) -> (r: Result<Vec<u8>, Error>)
    requires
        key@ is Explicit ==> out_len * 8 <= usize::MAX,
    ensures
        key@ is Opaque ==> r == Err::<Vec<u8>, Error>(Error::Hal(ErrorCode::IncompatibleKeyFormat)),
        key@ is Explicit && out_len == 0 ==> (r matches Ok(out) && out@.len() == 0),
        r matches Ok(out) ==> {
            &&& key@ matches KeyRepr::Explicit(k)
            &&& ckdf_output(*cmac, k, label@, concat_all(slice_views(chunks@)), out_len as nat).len() >= out_len
            &&& out@ == ckdf_output(*cmac, k, label@, concat_all(slice_views(chunks@)), out_len as nat).take(out_len as int)
        },
{
    let k = match key {
        OpaqueOr::Explicit(k) => k,
        OpaqueOr::Opaque(_) => return Err(Error::Hal(ErrorCode::IncompatibleKeyFormat)),
    };
    let ghost ctx = concat_all(slice_views(chunks@));
    let blocks_full = div_ceil(out_len, AES_BLOCK_SIZE);
    let blocks: u32 = (blocks_full as u64 % 0x1_0000_0000u64) as u32;
    let l: u32 = ((out_len * 8) as u64 % 0x1_0000_0000u64) as u32;
    let mut produced: Vec<u8> = Vec::new();
    let mut idx: u32 = 0;
    while idx < blocks
        invariant
            key@ == KeyRepr::<(AesVariant, Seq<u8>)>::Explicit(k@),
            ctx == concat_all(slice_views(chunks@)),
            blocks == ckdf_block_count(out_len as nat),
            l == ckdf_length_bits(out_len as nat),
            idx <= blocks,
            produced@ == ckdf_stream(*cmac, k@, label@, ctx, l as nat, idx as nat),
        decreases blocks - idx,
    {
        let i: u32 = idx + 1;
        let block = ckdf_block(cmac, k, i, label, chunks, l);
        produced = ckdf_absorb(produced, block)?;
        idx = i;
    }
    ckdf_fit(produced, out_len)
}

} // verus!
