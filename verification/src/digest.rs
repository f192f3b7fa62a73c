//! Hashes and their text forms, computed by the `md5`, `sha1`, `hex` and
//! `uuid` crates.
use vstd::prelude::*;
use sha1::Digest;

verus! {

/// The MD5 digest of some bytes, as `md5::compute` returns it.
pub uninterp spec fn md5_digest(data: Seq<u8>) -> Seq<u8>;

/// The SHA-1 digest of some bytes, as `sha1::Sha1::digest` returns it.
pub uninterp spec fn sha1_digest(data: Seq<u8>) -> Seq<u8>;

/// Calls `md5::compute`; its 16 bytes are named `md5_digest` of the input.
#[verifier::external_body]
pub(crate) fn md5_compute(data: &[u8]) -> (d: [u8; 16])
    ensures
        d@ == md5_digest(data@),
{
    md5::compute(data).0
}

/// Calls `sha1::Sha1::digest`; the bytes are named `sha1_digest` of the input.
#[verifier::external_body]
pub(crate) fn sha1_compute(data: &[u8]) -> (d: Vec<u8>)
    ensures
        d@ == sha1_digest(data@),
{
    sha1::Sha1::digest(data).to_vec()
}

/// The lower-case hex digit of a value below 16.
pub open spec fn hex_digit(n: u8) -> char {
    if n < 10 {
        ((n + 48) as u8) as char
    } else {
        ((n + 87) as u8) as char
    }
}

/// Two lower-case hex digits per byte, high nibble first.
pub open spec fn hex_lower(b: Seq<u8>) -> Seq<char>
    decreases b.len(),
{
    if b.len() == 0 {
        Seq::empty()
    } else {
        hex_lower(b.drop_last()) + seq![hex_digit(b.last() >> 4), hex_digit(b.last() & 0x0f)]
    }
}

/// Calls `hex::encode`, which writes each byte as two lower-case hex digits,
/// high nibble first.
#[verifier::external_body]
pub(crate) fn hex_encode(data: &[u8]) -> (s: String)
    ensures
        s@ == hex_lower(data@),
{
    hex::encode(data)
}

/// The hyphenated form of 16 bytes: hex groups of 4, 2, 2, 2 and 6 bytes.
pub open spec fn uuid_text(b: Seq<u8>) -> Seq<char> {
    hex_lower(b.subrange(0, 4)) + seq!['-'] + hex_lower(b.subrange(4, 6)) + seq!['-']
        + hex_lower(b.subrange(6, 8)) + seq!['-'] + hex_lower(b.subrange(8, 10)) + seq!['-']
        + hex_lower(b.subrange(10, 16))
}

/// Calls `uuid::Builder::from_bytes(..).into_uuid().to_string()`, whose
/// `Display` writes the hyphenated lower-case form of the 16 bytes.
#[verifier::external_body]
pub(crate) fn uuid_string(bytes: [u8; 16]) -> (s: String)
    ensures
        s@ == uuid_text(bytes@),
{
    uuid::Builder::from_bytes(bytes).into_uuid().to_string()
}

pub proof fn lemma_hex_lower_len(b: Seq<u8>)
    ensures
        hex_lower(b).len() == 2 * b.len(),
    decreases b.len(),
{
    if b.len() > 0 {
        lemma_hex_lower_len(b.drop_last());
    }
}

/// The first character of the hex form of a non-empty byte string is the
/// digit of the first byte's high nibble.
pub proof fn lemma_hex_lower_first(b: Seq<u8>)
    requires
        b.len() > 0,
    ensures
        hex_lower(b)[0] == hex_digit(b[0] >> 4),
    decreases b.len(),
{
    if b.len() > 1 {
        lemma_hex_lower_first(b.drop_last());
        lemma_hex_lower_len(b.drop_last());
        assert(b.drop_last()[0] == b[0]);
        let tail = seq![hex_digit(b.last() >> 4), hex_digit(b.last() & 0x0f)];
        assert(hex_lower(b) == hex_lower(b.drop_last()) + tail);
        assert((hex_lower(b.drop_last()) + tail)[0] == hex_lower(b.drop_last())[0]);
    } else {
        assert(b.drop_last() =~= Seq::<u8>::empty());
        assert(hex_lower(b.drop_last()) =~= Seq::<char>::empty());
        let tail = seq![hex_digit(b.last() >> 4), hex_digit(b.last() & 0x0f)];
        assert(hex_lower(b) =~= tail);
    }
}

} // verus!
