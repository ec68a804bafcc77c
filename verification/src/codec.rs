//! Encodings of a revocation list and of its bytes: DER, Base64, gzip, the
//! SHA-512 digest and its hexadecimal form, and the shared byte buffer.

use bytes::Bytes;
use der::pem::Base64Decoder;
use der::{Decode, Encode};
use flate2::write::GzEncoder;
use flate2::Compression;
use std::io::Write;
use vstd::prelude::*;
use x509_cert::crl::CertificateList;

verus! {

/// `bytes::Bytes`, a shared buffer of bytes that is never changed; what it
/// holds goes by the name [`bytes_of`].
#[verifier::external_type_specification]
#[verifier::external_body]
pub struct ExBytes(Bytes);

/// `x509_cert::crl::CertificateList`, a decoded revocation list, carried as
/// it is.
#[verifier::external_type_specification]
#[verifier::external_body]
pub struct ExCertificateList(CertificateList);

/// `der::Error`, the reason why a list was not decoded or encoded.
#[verifier::external_type_specification]
#[verifier::external_body]
pub struct ExDerError(der::Error);

/// `std::io::Error`, the reason why the compressor failed.
#[verifier::external_type_specification]
#[verifier::external_body]
pub struct ExIoError(std::io::Error);

/// The bytes that a shared buffer holds.
pub uninterp spec fn bytes_of(buffer: Bytes) -> Seq<u8>;

/// The gzip stream that `flate2` writes for `data` at its fastest level, with
/// the header it writes by default (no name, no time stamp), where its
/// encoder does not fail on `data`.
pub uninterp spec fn gzip_fast(data: Seq<u8>) -> Option<Seq<u8>>;

/// The DER encoding of a revocation list, where the encoder of `der` does not
/// fail on the list.
pub uninterp spec fn der_encoding(list: CertificateList) -> Option<Seq<u8>>;

/// The revocation list that `der` is the DER encoding of, where the decoder
/// of `x509_cert` takes it for one.
pub uninterp spec fn crl_of_der(der: Seq<u8>) -> Option<CertificateList>;

/// When a revocation list was issued, by its field `this_update`, in whole
/// seconds since the Unix epoch.
pub uninterp spec fn crl_this_update(list: CertificateList) -> u64;

/// When the issuer will replace a revocation list, by its field
/// `next_update`, in whole seconds since the Unix epoch, where the list has
/// that field.
pub uninterp spec fn crl_next_update(list: CertificateList) -> Option<u64>;

/// The SHA-512 digest of `data`.
pub uninterp spec fn sha512_digest(data: Seq<u8>) -> Seq<u8>;

/// The bytes that `text` stands for in standard, padded Base64 without line
/// breaks, where it is such a text.
pub uninterp spec fn base64_decoded(text: Seq<char>) -> Option<Seq<u8>>;

/// `Bytes::clone` gives a second handle to the same bytes.
pub assume_specification[ <Bytes as Clone>::clone ](buffer: &Bytes) -> (copy: Bytes)
    ensures
        bytes_of(copy) == bytes_of(*buffer),
;

/// `CertificateList::clone`, which the type derives, gives an equal list.
pub assume_specification[ <CertificateList as Clone>::clone ](list: &CertificateList) -> (copy:
    CertificateList)
    ensures
        copy == *list,
;

/// Moves a vector into a shared buffer with `Bytes::from`, which keeps the
/// bytes as they are.
#[verifier::external_body]
pub(crate) fn bytes_from_vec(data: Vec<u8>) -> (buffer: Bytes)
    ensures
        bytes_of(buffer) == data@,
{
    Bytes::from(data)
}

/// Compresses `der` with `flate2`'s `GzEncoder` at `Compression::fast()`,
/// writing into memory. What the encoder does depends on `der` alone: where
/// it succeeds, what it wrote is the gzip stream named [`gzip_fast`], and
/// where it fails there is no such stream.
#[verifier::external_body]
pub fn gzip_der(der: &[u8]) -> (compressed: Result<Vec<u8>, std::io::Error>)
    ensures
        match compressed {
            Ok(stream) => gzip_fast(der@) == Some(stream@),
            Err(_) => gzip_fast(der@) is None,
        },
{
    let mut encoder = GzEncoder::new(Vec::new(), Compression::fast());
    encoder.write_all(der)?;
    encoder.finish()
}

/// Computes the digest with `openssl::sha::sha512`, which returns an array of
/// 64 bytes.
#[verifier::external_body]
fn sha512(data: &[u8]) -> (digest: Vec<u8>)
    ensures
        digest@ == sha512_digest(data@),
        digest@.len() == 64,
{
    openssl::sha::sha512(data).to_vec()
}

/// The lower-case hexadecimal digit of a value below sixteen.
pub open spec fn spec_hex_digit(value: u8) -> char {
    if value < 10 {
        (48 + value) as char
    } else {
        (87 + value) as char
    }
}

/// The lower-case hexadecimal text of `data`: two digits for each byte, the
/// high half first.
pub open spec fn spec_hex_lower(data: Seq<u8>) -> Seq<char> {
    Seq::new(
        2 * data.len(),
        |i: int|
            if i % 2 == 0 {
                spec_hex_digit(data[i / 2] / 16)
            } else {
                spec_hex_digit(data[i / 2] % 16)
            },
    )
}

/// Whether `c` is a lower-case hexadecimal digit.
pub open spec fn spec_is_hex_digit(c: char) -> bool {
    ('0' <= c <= '9') || ('a' <= c <= 'f')
}

/// Hexadecimal text has two digits for each byte and nothing but digits.
pub proof fn lemma_hex_lower_is_digits(data: Seq<u8>)
    ensures
        spec_hex_lower(data).len() == 2 * data.len(),
        forall|i: int|
            0 <= i < spec_hex_lower(data).len() ==> spec_is_hex_digit(
                #[trigger] spec_hex_lower(data)[i],
            ),
{
    assert forall|i: int| 0 <= i < spec_hex_lower(data).len() implies spec_is_hex_digit(
        #[trigger] spec_hex_lower(data)[i],
    ) by {
        let byte = data[i / 2];
        assert(byte / 16 < 16 && byte % 16 < 16);
    }
}

/// Writes `data` in hexadecimal with `hex::encode`, which uses lower-case
/// digits and two of them for each byte.
#[verifier::external_body]
fn hex_encode(data: &[u8]) -> (text: String)
    ensures
        text@ == spec_hex_lower(data@),
{
    hex::encode(data)
}

/// The content hash of a list: the SHA-512 digest of its encoding, in
/// hexadecimal.
pub open spec fn spec_crl_hash(der: Seq<u8>) -> Seq<char> {
    spec_hex_lower(sha512_digest(der))
}

/// Computes the content hash of an encoded list.
pub fn crl_hash(der: &[u8]) -> (hash: String)
    ensures
        hash@ == spec_crl_hash(der@),
        hash@.len() == 128,
{
    let digest = sha512(der);
    hex_encode(digest.as_slice())
}

/// Decodes `text` with `Base64Decoder`, as contiguous standard Base64, and
/// gives all the bytes it stands for, or nothing where the decoder refuses it.
#[verifier::external_body]
pub(crate) fn base64_decode(text: &str) -> (data: Option<Vec<u8>>)
    ensures
        match data {
            Some(bytes) => base64_decoded(text@) == Some(bytes@),
            None => base64_decoded(text@) is None,
        },
{
    let mut buf: Vec<u8> = Vec::new();
    let mut decoder = Base64Decoder::new(text.as_bytes()).ok()?;
    decoder.decode_to_end(&mut buf).ok()?;
    Some(buf)
}

/// Parses a revocation list from its DER encoding with
/// `CertificateList::from_der`, whose answer depends on the bytes alone: the
/// list named [`crl_of_der`], or an error where there is none.
#[verifier::external_body]
pub(crate) fn decode_crl(der: &[u8]) -> (list: Result<CertificateList, der::Error>)
    ensures
        match list {
            Ok(decoded) => crl_of_der(der@) == Some(decoded),
            Err(_) => crl_of_der(der@) is None,
        },
{
    CertificateList::from_der(der)
}

/// Encodes a revocation list with `Encode::to_der`, whose answer depends on
/// the list alone: the bytes named [`der_encoding`], or an error where there
/// are none.
#[verifier::external_body]
pub(crate) fn encode_crl(list: &CertificateList) -> (der: Result<Vec<u8>, der::Error>)
    ensures
        match der {
            Ok(bytes) => der_encoding(*list) == Some(bytes@),
            Err(_) => der_encoding(*list) is None,
        },
{
    list.to_der()
}

/// Reads the two time stamps of a revocation list, `this_update` and
/// `next_update`, each as whole seconds since the Unix epoch, as
/// `Time::to_unix_duration` gives them: the moments named
/// [`crl_this_update`] and [`crl_next_update`].
#[verifier::external_body]
pub(crate) fn crl_times(list: &CertificateList) -> (times: (u64, Option<u64>))
    ensures
        times.0 == crl_this_update(*list),
        times.1 == crl_next_update(*list),
{
    let tbs = &list.tbs_cert_list;
    let next_update = match tbs.next_update {
        Some(t) => Some(t.to_unix_duration().as_secs()),
        None => None,
    };
    (tbs.this_update.to_unix_duration().as_secs(), next_update)
}

} // verus!
