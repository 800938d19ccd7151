//! Encoding of stored values as CBOR, through ciborium.
use crate::DbError;
use vstd::prelude::*;
use vstd::utf8::encode_utf8;

verus! {

#[verifier::external_type_specification]
#[verifier::external_body]
pub struct ExIoError(std::io::Error);

#[verifier::external_type_specification]
#[verifier::external_body]
#[verifier::reject_recursive_types(T)]
pub struct ExEncodeError<T>(ciborium::ser::Error<T>);

#[verifier::external_type_specification]
#[verifier::external_body]
#[verifier::reject_recursive_types(T)]
pub struct ExDecodeError<T>(ciborium::de::Error<T>);

/// The low `k` bytes of `n`, most significant first.
pub open spec fn be_bytes(n: nat, k: nat) -> Seq<u8>
    decreases k,
{
    if k == 0 {
        Seq::empty()
    } else {
        be_bytes(n / 256, (k - 1) as nat).push((n % 256) as u8)
    }
}

/// The CBOR header of a text string of `n` bytes: major type 3, with the
/// length in the header byte itself or in the fewest bytes that hold it.
pub open spec fn text_header(n: nat) -> Seq<u8> {
    if n <= 23 {
        seq![(0x60 + n) as u8]
    } else if n <= 0xff {
        seq![0x78u8] + be_bytes(n, 1)
    } else if n <= 0xffff {
        seq![0x79u8] + be_bytes(n, 2)
    } else if n <= 0xffff_ffff {
        seq![0x7au8] + be_bytes(n, 4)
    } else {
        seq![0x7bu8] + be_bytes(n, 8)
    }
}

/// The CBOR encoding of a text value: the header, then the UTF-8 bytes.
pub open spec fn cbor_of_text(s: Seq<char>) -> Seq<u8> {
    text_header(encode_utf8(s).len()) + encode_utf8(s)
}

/// The text value that a byte string decodes to, if it decodes to one.
pub uninterp spec fn text_of_cbor(b: Seq<u8>) -> Option<Seq<char>>;

/// Relies on `ciborium::into_writer`: serializes the text as one CBOR text
/// string, a header of the shortest form followed by the UTF-8 bytes,
/// written into a `Vec`, which never fails.
#[verifier::external_body]
fn cbor_encode_text(value: &str) -> (r: Result<Vec<u8>, ciborium::ser::Error<std::io::Error>>)
    ensures
        r is Ok,
        r matches Ok(b) ==> b@ == cbor_of_text(value@),
{
    let mut buf: Vec<u8> = Vec::new();
    ciborium::into_writer(value, &mut buf).map(|()| buf)
}

/// Relies on `ciborium::from_reader`: deserializes one CBOR item as a
/// `String`. What `ciborium::into_writer` wrote for a text reads back as that
/// text.
#[verifier::external_body]
fn cbor_decode_text(bytes: &[u8]) -> (r: Result<String, ciborium::de::Error<std::io::Error>>)
    ensures
        r is Ok <==> text_of_cbor(bytes@) is Some,
        r matches Ok(s) ==> text_of_cbor(bytes@) == Some(s@),
        forall|t: Seq<char>| #[trigger] cbor_of_text(t) == bytes@ ==> (r is Ok && r->Ok_0@ == t),
{
    ciborium::from_reader(bytes)
}

/// Encodes a text value for storage.
pub fn encode(value: &str) -> (r: Result<Vec<u8>, DbError>)
    ensures
        r matches Ok(b) && b@ == cbor_of_text(value@),
{
    match cbor_encode_text(value) {
        Ok(b) => Ok(b),
        Err(e) => Err(DbError::Serialization(e)),
    }
}

/// Decodes a stored value as text. Fails, with a deserialization error,
/// exactly when the bytes do not hold one CBOR text string; what `encode`
/// produced for a text decodes to that text.
pub fn decode(bytes: &[u8]) -> (r: Result<String, DbError>)
    ensures
        r is Ok <==> text_of_cbor(bytes@) is Some,
        r matches Ok(s) ==> text_of_cbor(bytes@) == Some(s@),
        r matches Err(e) ==> e is Deserialization,
        forall|t: Seq<char>| #[trigger] cbor_of_text(t) == bytes@ ==> (r is Ok && r->Ok_0@ == t),
{
    match cbor_decode_text(bytes) {
        Ok(s) => Ok(s),
        Err(e) => Err(DbError::Deserialization(e)),
    }
}

} // verus!
