//! CBOR data items as the library sees them, and the conversion of data
//! items to and from bytes (done by `ciborium`).
use vstd::prelude::*;
use ciborium::value::Value as Cv;

verus! {

/// Mathematical model of a CBOR data item.
pub enum CborTerm {
    Integer(int),
    Bytes(Seq<u8>),
    Text(Seq<char>),
    Bool(bool),
    Null,
    Float,
    Array(Seq<CborTerm>),
    Mapping(Seq<(CborTerm, CborTerm)>),
    Tag(u64, Box<CborTerm>),
}

/// A CBOR data item.  Integers are held in the range that CBOR can
/// carry once encoded (see [`CborTerm`] and [`term_in_range`]).  A
/// floating-point item is held without its value: nothing here reads one,
/// so it can only be reported as unexpected.
#[derive(Debug, PartialEq, Eq)]
pub enum CborValue {
    Integer(i128),
    Bytes(Vec<u8>),
    Text(String),
    Bool(bool),
    Null,
    Float,
    Array(Vec<CborValue>),
    Mapping(Vec<(CborValue, CborValue)>),
    Tag(u64, Box<CborValue>),
}

/// The model of a data item.
pub open spec fn term_of(v: CborValue) -> CborTerm
    decreases v,
{
    match v {
        CborValue::Integer(i) => CborTerm::Integer(i as int),
        CborValue::Bytes(b) => CborTerm::Bytes(b@),
        CborValue::Text(t) => CborTerm::Text(t@),
        CborValue::Bool(b) => CborTerm::Bool(b),
        CborValue::Null => CborTerm::Null,
        CborValue::Float => CborTerm::Float,
        CborValue::Array(a) => CborTerm::Array(terms_of(a@)),
        CborValue::Mapping(m) => CborTerm::Mapping(entries_of(m@)),
        CborValue::Tag(t, b) => CborTerm::Tag(t, Box::new(term_of(*b))),
    }
}

/// The models of a sequence of data items.
pub open spec fn terms_of(s: Seq<CborValue>) -> Seq<CborTerm>
    decreases s,
{
    if s.len() == 0 {
        Seq::empty()
    } else {
        terms_of(s.drop_last()).push(term_of(s.last()))
    }
}

/// The models of a sequence of map entries.
pub open spec fn entries_of(s: Seq<(CborValue, CborValue)>) -> Seq<(CborTerm, CborTerm)>
    decreases s,
{
    if s.len() == 0 {
        Seq::empty()
    } else {
        entries_of(s.drop_last()).push((term_of(s.last().0), term_of(s.last().1)))
    }
}

impl View for CborValue {
    type V = CborTerm;

    open spec fn view(&self) -> CborTerm {
        term_of(*self)
    }
}

/// `terms_of` maps each item to its model, one for one.
pub proof fn lemma_terms_of(s: Seq<CborValue>)
    ensures
        terms_of(s).len() == s.len(),
        forall|i: int| 0 <= i < s.len() ==> #[trigger] terms_of(s)[i] == term_of(s[i]),
    decreases s.len(),
{
    if s.len() > 0 {
        lemma_terms_of(s.drop_last());
    }
}

/// `entries_of` maps each entry to its model, one for one.
pub proof fn lemma_entries_of(s: Seq<(CborValue, CborValue)>)
    ensures
        entries_of(s).len() == s.len(),
        forall|i: int|
            0 <= i < s.len() ==> #[trigger] entries_of(s)[i] == (term_of(s[i].0), term_of(s[i].1)),
    decreases s.len(),
{
    if s.len() > 0 {
        lemma_entries_of(s.drop_last());
    }
}

/// Errors met while converting between data items, bytes and the
/// library's own types.
#[derive(Clone, Copy, Debug, PartialEq, Eq)]
pub enum CborError {
    /// The bytes are not a well-formed CBOR item.
    DecodeFailed,
    /// The data item could not be written out.
    EncodeFailed,
    /// Bytes remain after the data item.
    ExtraneousData,
    /// An integer does not fit the type it is read into.
    OutOfRangeIntegerValue,
    /// An integer is not the number of any variant of an enum.
    NonEnumValue,
    /// A data item of the first kind was met where the second was wanted.
    UnexpectedItem(&'static str, &'static str),
    /// A value is not valid for the type it is read into.
    InvalidValue,
    /// Memory could not be allocated.
    AllocationFailed,
}

/// The short name of a data item's major type.
pub open spec fn item_kind_name(t: CborTerm) -> &'static str {
    match t {
        CborTerm::Integer(_) => "int",
        CborTerm::Bytes(_) => "bstr",
        CborTerm::Text(_) => "tstr",
        CborTerm::Array(_) => "array",
        CborTerm::Mapping(_) => "map",
        CborTerm::Tag(_, _) => "tag",
        CborTerm::Bool(_) => "bool",
        CborTerm::Null => "null",
        CborTerm::Float => "float",
    }
}

/// The error for a data item `t` met where an item described by `want`
/// was expected.
pub open spec fn type_error(t: CborTerm, want: &'static str) -> CborError {
    CborError::UnexpectedItem(item_kind_name(t), want)
}

/// Report that `value` is not the data item that was wanted.
pub fn cbor_type_error<T>(value: &CborValue, want: &'static str) -> (r: Result<T, CborError>)
    ensures
        r == Err::<T, CborError>(type_error(value@, want)),
{
    let got = match value {
        CborValue::Integer(_) => "int",
        CborValue::Bytes(_) => "bstr",
        CborValue::Text(_) => "tstr",
        CborValue::Array(_) => "array",
        CborValue::Mapping(_) => "map",
        CborValue::Tag(_, _) => "tag",
        CborValue::Bool(_) => "bool",
        CborValue::Null => "null",
        CborValue::Float => "float",
    };
    Err(CborError::UnexpectedItem(got, want))
}

/// CBOR carries integers from -2^64 to 2^64 - 1.
pub open spec fn int_in_range(i: int) -> bool {
    -0x1_0000_0000_0000_0000 <= i < 0x1_0000_0000_0000_0000
}

/// The data item can be written: every integer in it lies in the range
/// CBOR carries, and it holds no floating-point item (whose value is not
/// kept).
pub open spec fn term_in_range(t: CborTerm) -> bool
    decreases t,
{
    match t {
        CborTerm::Integer(i) => int_in_range(i),
        CborTerm::Array(a) => forall|i: int| 0 <= i < a.len() ==> term_in_range(#[trigger] a[i]),
        CborTerm::Mapping(m) => forall|i: int|
            0 <= i < m.len() ==> term_in_range(#[trigger] m[i].0) && term_in_range(m[i].1),
        CborTerm::Tag(_, b) => term_in_range(*b),
        CborTerm::Float => false,
        _ => true,
    }
}

/// A data item that `ciborium` reads back as it wrote it: no tags, every
/// integer in CBOR's range, and arrays and maps nested at most `depth`
/// deep.
pub open spec fn term_plain_within(t: CborTerm, depth: nat) -> bool
    decreases depth,
{
    match t {
        CborTerm::Integer(i) => int_in_range(i),
        CborTerm::Array(a) => depth > 0 && forall|i: int|
            0 <= i < a.len() ==> term_plain_within(#[trigger] a[i], (depth - 1) as nat),
        CborTerm::Mapping(m) => depth > 0 && forall|i: int|
            0 <= i < m.len() ==> term_plain_within(#[trigger] m[i].0, (depth - 1) as nat)
                && term_plain_within(m[i].1, (depth - 1) as nat),
        CborTerm::Tag(_, _) => false,
        CborTerm::Float => false,
        _ => true,
    }
}

/// A data item with no tags, every integer in CBOR's range, and arrays and
/// maps nested at most 64 deep, well within what `ciborium` reads.
pub open spec fn term_plain(t: CborTerm) -> bool {
    term_plain_within(t, 64)
}

/// The bytes that `ciborium` writes for a data item.
pub uninterp spec fn cbor_encoding(t: CborTerm) -> Seq<u8>;

/// What `ciborium` reads from the front of some bytes: the data item and
/// the number of bytes it took up, or `None` where the bytes do not start
/// with a well-formed item.
pub uninterp spec fn cbor_decoding(data: Seq<u8>) -> Option<(CborTerm, nat)>;

#[verifier::external_type_specification]
#[verifier::external_body]
pub struct ExCiboriumValue(ciborium::value::Value);

/// Convert a data item to `ciborium`'s form; `None` where an integer is
/// out of CBOR's range or a floating-point item (held without its value)
/// is met.
#[verifier::external_body]
pub(crate) fn to_ciborium(v: &CborValue) -> Option<Cv> {
    Some(match v {
        CborValue::Integer(i) => Cv::Integer(ciborium::value::Integer::try_from(*i).ok()?),
        CborValue::Bytes(b) => Cv::Bytes(b.clone()),
        CborValue::Text(t) => Cv::Text(t.clone()),
        CborValue::Bool(b) => Cv::Bool(*b),
        CborValue::Null => Cv::Null,
        CborValue::Float => return None,
        CborValue::Array(a) => Cv::Array(a.iter().map(to_ciborium).collect::<Option<Vec<_>>>()?),
        CborValue::Mapping(m) => Cv::Map(to_ciborium_entries(m)?),
        CborValue::Tag(t, b) => Cv::Tag(*t, Box::new(to_ciborium(b)?)),
    })
}

/// Convert map entries to `ciborium`'s form.
#[verifier::external_body]
fn to_ciborium_entries(m: &Vec<(CborValue, CborValue)>) -> Option<Vec<(Cv, Cv)>> {
    m.iter().map(|(k, x)| Some((to_ciborium(k)?, to_ciborium(x)?))).collect()
}

/// Convert a data item from `ciborium`'s form; a floating-point item keeps
/// only its kind.
#[verifier::external_body]
fn from_ciborium(v: Cv) -> Option<CborValue> {
    Some(match v {
        Cv::Integer(i) => CborValue::Integer(i128::from(i)),
        Cv::Bytes(b) => CborValue::Bytes(b),
        Cv::Text(t) => CborValue::Text(t),
        Cv::Bool(b) => CborValue::Bool(b),
        Cv::Null => CborValue::Null,
        Cv::Float(_) => CborValue::Float,
        Cv::Array(a) => CborValue::Array(a.into_iter().map(from_ciborium).collect::<Option<Vec<_>>>()?),
        Cv::Map(m) => CborValue::Mapping(from_ciborium_entries(m)?),
        Cv::Tag(t, b) => CborValue::Tag(t, Box::new(from_ciborium(*b)?)),
        _ => return None,
    })
}

/// Convert map entries from `ciborium`'s form.
#[verifier::external_body]
fn from_ciborium_entries(m: Vec<(Cv, Cv)>) -> Option<Vec<(CborValue, CborValue)>> {
    m.into_iter().map(|(k, x)| Some((from_ciborium(k)?, from_ciborium(x)?))).collect()
}

/// Whether `ciborium`, reading from the front of `data` followed by any
/// bytes at all, reads the item `t` and takes up exactly `data`.
pub open spec fn reads_back_from_front(data: Seq<u8>, t: CborTerm) -> bool {
    forall|rest: Seq<u8>| #[trigger] cbor_decoding(data + rest) == Some((t, data.len()))
}

/// Write a data item out as bytes with `ciborium::ser::into_writer`.  Every
/// item takes up at least one byte, and what is written for a plain item
/// is read back from the front as that item, whatever follows it.
#[verifier::external_body]
fn ciborium_write(v: &CborValue) -> (r: Result<Vec<u8>, CborError>)
    ensures
        r matches Ok(b) ==> b@ == cbor_encoding(v@),
        term_in_range(v@) ==> r is Ok,
        r matches Ok(b) ==> b@.len() > 0 && (term_plain(v@) ==> reads_back_from_front(b@, v@)),
{
    let c = to_ciborium(v).ok_or(CborError::EncodeFailed)?;
    let mut data = Vec::new();
    ciborium::ser::into_writer(&c, &mut data).map_err(|_e| CborError::EncodeFailed)?;
    Ok(data)
}

/// Read one data item from the front of `data` with
/// `ciborium::de::from_reader`, returning it with the number of bytes read.
/// Bytes that `ciborium` wrote for a plain data item are read back as that
/// item.
#[verifier::external_body]
fn ciborium_read(data: &[u8]) -> (r: Result<(CborValue, usize), CborError>)
    ensures
        match r {
            Ok((v, n)) => cbor_decoding(data@) == Some((v@, n as nat)),
            Err(e) => cbor_decoding(data@) is None && e == CborError::DecodeFailed,
        },
        r is Ok || forall|t: CborTerm| #![trigger cbor_encoding(t)] !(term_plain(t) && cbor_encoding(t) == data@),
        r matches Ok((v, n)) ==> forall|t: CborTerm|
            #![trigger cbor_encoding(t)]
            term_plain(t) && cbor_encoding(t) == data@ ==> v@ == t && n == data@.len(),
{
    let mut rest = data;
    let c: Cv =
        ciborium::de::from_reader(&mut rest).map_err(|_e| CborError::DecodeFailed)?;
    let v = from_ciborium(c).ok_or(CborError::DecodeFailed)?;
    Ok((v, data.len() - rest.len()))
}

/// The bytes of a data item.
pub fn to_vec(v: &CborValue) -> (r: Result<Vec<u8>, CborError>)
    ensures
        r matches Ok(b) ==> b@ == cbor_encoding(v@),
        term_in_range(v@) ==> r is Ok,
        r matches Ok(b) ==> b@.len() > 0 && (term_plain(v@) ==> reads_back_from_front(b@, v@)),
{
    ciborium_write(v)
}

/// What `from_slice` gives for some bytes: the item they hold, if they
/// hold exactly one.
pub open spec fn decode_exact(data: Seq<u8>) -> Result<CborTerm, CborError> {
    match cbor_decoding(data) {
        None => Err(CborError::DecodeFailed),
        Some((t, n)) => if n == data.len() {
            Ok(t)
        } else {
            Err(CborError::ExtraneousData)
        },
    }
}

/// Read the one data item that `data` holds; bytes after it are an error.
pub fn from_slice(data: &[u8]) -> (r: Result<CborValue, CborError>)
    ensures
        match r {
            Ok(v) => decode_exact(data@) == Ok::<CborTerm, CborError>(v@),
            Err(e) => decode_exact(data@) == Err::<CborTerm, CborError>(e),
        },
        forall|t: CborTerm|
            #![trigger cbor_encoding(t)]
            term_plain(t) && cbor_encoding(t) == data@ ==> decode_exact(data@) == Ok::<CborTerm, CborError>(t),
{
    let (v, n) = ciborium_read(data)?;
    if n != data.len() {
        return Err(CborError::ExtraneousData);
    }
    Ok(v)
}

} // verus!
