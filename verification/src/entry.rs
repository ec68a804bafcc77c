//! A revocation list as the store hands it over, and the cache entry built
//! from it: the list with its encoding, the compressed encoding and the
//! content hash.

use crate::codec::{
    base64_decode, base64_decoded, bytes_from_vec, bytes_of, crl_hash, crl_next_update,
    crl_of_der, crl_this_update, crl_times, decode_crl, der_encoding, encode_crl, gzip_der,
    gzip_fast, spec_crl_hash,
};
use crate::failure::Failure;
use bytes::Bytes;
use vstd::prelude::*;
use x509_cert::crl::CertificateList;

verus! {

/// A decoded revocation list together with the two time stamps that its
/// issuer declares, in whole seconds since the Unix epoch.
pub struct ParsedCrl {
    list: CertificateList,
    this_update: u64,
    next_update: Option<u64>,
}

impl ParsedCrl {
    /// The time stamps are those of the list.
    #[verifier::type_invariant]
    spec fn read(self) -> bool {
        self.wf()
    }

    /// What holds of every parsed list: the two time stamps are those that
    /// the list itself declares.
    pub open spec fn wf(self) -> bool {
        &&& self.spec_this_update() == crl_this_update(self.spec_list())
        &&& self.spec_next_update() == crl_next_update(self.spec_list())
    }

    /// The decoded list.
    pub closed spec fn spec_list(self) -> CertificateList {
        self.list
    }

    /// When the list was issued.
    pub closed spec fn spec_this_update(self) -> u64 {
        self.this_update
    }

    /// When the issuer will replace the list, where it says so.
    pub closed spec fn spec_next_update(self) -> Option<u64> {
        self.next_update
    }

    /// Takes a decoded list and reads its time stamps.
    pub fn new(list: CertificateList) -> (crl: Self)
        ensures
            crl.spec_list() == list,
            crl.spec_this_update() == crl_this_update(list),
            crl.spec_next_update() == crl_next_update(list),
    {
        let times = crl_times(&list);
        ParsedCrl { list, this_update: times.0, next_update: times.1 }
    }

    /// The decoded list.
    pub fn list(&self) -> (list: &CertificateList)
        ensures
            *list == self.spec_list(),
    {
        &self.list
    }

    /// When the list was issued.
    pub fn this_update(&self) -> (moment: u64)
        ensures
            moment == self.spec_this_update(),
            moment == crl_this_update(self.spec_list()),
    {
        proof {
            use_type_invariant(self);
        }
        self.this_update
    }

    /// When the issuer will replace the list, where it says so.
    pub fn next_update(&self) -> (moment: Option<u64>)
        ensures
            moment == self.spec_next_update(),
            moment == crl_next_update(self.spec_list()),
    {
        proof {
            use_type_invariant(self);
        }
        self.next_update
    }
}

impl Clone for ParsedCrl {
    /// An equal list with the same time stamps.
    fn clone(&self) -> (copy: Self)
        ensures
            copy == *self,
    {
        proof {
            use_type_invariant(self);
        }
        ParsedCrl {
            list: self.list.clone(),
            this_update: self.this_update,
            next_update: self.next_update,
        }
    }
}

/// Why a record of the store is not a revocation list.
#[derive(Clone, Copy, Debug, PartialEq, Eq, Structural)]
pub enum RecordError {
    /// The record is not Base64 text.
    NotBase64,
    /// The bytes of the record are not the encoding of a revocation list.
    NotDer,
}

/// What a decoded record amounts to: the list with its time stamps, or the
/// reason why there is none.
pub fn parsed_record(decoded: Result<CertificateList, der::Error>) -> (record: Result<
    Option<ParsedCrl>,
    RecordError,
>)
    ensures
        match decoded {
            Ok(list) => record matches Ok(Some(crl)) && crl.spec_list() == list && crl.wf(),
            Err(_) => record == Err::<Option<ParsedCrl>, RecordError>(RecordError::NotDer),
        },
{
    match decoded {
        Ok(list) => Ok(Some(ParsedCrl::new(list))),
        Err(_) => Err(RecordError::NotDer),
    }
}

/// Turns what the store holds under a name into a revocation list.
///
/// No record gives no list. A record is the Base64 text of a list's DER
/// encoding: text that is not Base64 is refused as such, bytes that are not
/// the encoding of a list are refused as such, and any other record gives the
/// list that its bytes encode, with the time stamps of that list.
pub fn to_cert_list(raw_crl: Option<String>) -> (record: Result<Option<ParsedCrl>, RecordError>)
    ensures
        match raw_crl {
            None => record matches Ok(None),
            Some(text) => match base64_decoded(text@) {
                None => record == Err::<Option<ParsedCrl>, RecordError>(RecordError::NotBase64),
                Some(bytes) => match crl_of_der(bytes) {
                    None => record == Err::<Option<ParsedCrl>, RecordError>(RecordError::NotDer),
                    Some(list) => record matches Ok(Some(crl)) && crl.spec_list() == list
                        && crl.wf(),
                },
            },
        },
{
    match raw_crl {
        None => Ok(None),
        Some(text) => match base64_decode(text.as_str()) {
            None => Err(RecordError::NotBase64),
            Some(der) => parsed_record(decode_crl(der.as_slice())),
        },
    }
}

/// What a cache entry holds: the list, and the plain values made of it.
pub struct EntryView {
    /// The decoded list.
    pub list: CertificateList,
    /// When the list was issued.
    pub this_update: u64,
    /// When the issuer will replace the list, where it says so.
    pub next_update: Option<u64>,
    /// The canonical encoding of the list.
    pub der: Seq<u8>,
    /// The canonical encoding, compressed.
    pub der_gz: Seq<u8>,
    /// The content hash.
    pub hash: Seq<char>,
}

impl EntryView {
    /// What holds of every entry: the time stamps are those that the list
    /// declares, the canonical bytes are the DER encoding of the list, the
    /// compressed bytes are the gzip stream of the canonical bytes, and the
    /// hash is the digest of the canonical bytes in hexadecimal, 128 digits
    /// long.
    pub open spec fn wf(self) -> bool {
        &&& self.this_update == crl_this_update(self.list)
        &&& self.next_update == crl_next_update(self.list)
        &&& der_encoding(self.list) == Some(self.der)
        &&& gzip_fast(self.der) == Some(self.der_gz)
        &&& self.hash == spec_crl_hash(self.der)
        &&& self.hash.len() == 128
    }
}

/// Whether an entry can be built of a list: the list can be encoded, and its
/// encoding can be compressed.
pub open spec fn spec_buildable(list: CertificateList) -> bool {
    der_encoding(list) matches Some(der) && gzip_fast(der) is Some
}

/// An entry is a function of its list: two entries of equal lists hold the
/// same time stamps, the same bytes and the same hash.
pub proof fn lemma_entry_is_function_of_list(one: EntryView, other: EntryView)
    requires
        one.wf(),
        other.wf(),
        one.list == other.list,
    ensures
        one == other,
{
}

/// There is an entry of a list only where one can be built of it.
pub proof fn lemma_entry_was_buildable(entry: EntryView)
    requires
        entry.wf(),
    ensures
        spec_buildable(entry.list),
{
}

/// A revocation list as the cache holds it. An entry is built once and never
/// changed.
pub struct CrlCacheEntry {
    crl: ParsedCrl,
    der: Bytes,
    der_gz: Bytes,
    hash: String,
}

impl View for CrlCacheEntry {
    type V = EntryView;

    /// The list with its time stamps, the bytes of the two buffers and the
    /// characters of the hash.
    closed spec fn view(&self) -> EntryView {
        EntryView {
            list: self.crl.spec_list(),
            this_update: self.crl.spec_this_update(),
            next_update: self.crl.spec_next_update(),
            der: bytes_of(self.der),
            der_gz: bytes_of(self.der_gz),
            hash: self.hash@,
        }
    }
}

impl Clone for CrlCacheEntry {
    /// A second handle to the same entry: the buffers are shared, not copied.
    fn clone(&self) -> (copy: Self)
        ensures
            copy@ == self@,
            copy.spec_crl() == self.spec_crl(),
    {
        proof {
            use_type_invariant(self);
        }
        CrlCacheEntry {
            crl: self.crl.clone(),
            der: self.der.clone(),
            der_gz: self.der_gz.clone(),
            hash: self.hash.clone(),
        }
    }
}

impl CrlCacheEntry {
    /// Every entry is built as [`EntryView::wf`] says.
    #[verifier::type_invariant]
    spec fn built(self) -> bool {
        self@.wf()
    }

    /// The list that the entry was built from.
    pub closed spec fn spec_crl(self) -> ParsedCrl {
        self.crl
    }

    /// Puts an entry together from a list, its encoding and what the
    /// compressor made of the encoding. There is an entry exactly where the
    /// compressor succeeded.
    pub fn from_parts(crl: ParsedCrl, der: Vec<u8>, compressed: Result<Vec<u8>, std::io::Error>) -> (entry:
        Result<CrlCacheEntry, Failure>)
        requires
            der_encoding(crl.spec_list()) == Some(der@),
            match compressed {
                Ok(stream) => gzip_fast(der@) == Some(stream@),
                Err(_) => gzip_fast(der@) is None,
            },
        ensures
            entry is Ok <==> spec_buildable(crl.spec_list()),
            match compressed {
                Ok(stream) => entry matches Ok(e) && e.spec_crl() == crl && e@ == (EntryView {
                    list: crl.spec_list(),
                    this_update: crl.spec_this_update(),
                    next_update: crl.spec_next_update(),
                    der: der@,
                    der_gz: stream@,
                    hash: spec_crl_hash(der@),
                }),
                Err(_) => entry == Err::<CrlCacheEntry, Failure>(Failure::BuildFailure),
            },
            entry matches Ok(e) ==> e@.wf(),
    {
        proof {
            use_type_invariant(&crl);
        }
        match compressed {
            Ok(stream) => {
                let hash = crl_hash(der.as_slice());
                Ok(
                    CrlCacheEntry {
                        crl,
                        der: bytes_from_vec(der),
                        der_gz: bytes_from_vec(stream),
                        hash,
                    },
                )
            },
            Err(_) => Err(Failure::BuildFailure),
        }
    }

    /// Builds the entry of a list: encodes the list, compresses the
    /// encoding and hashes it. There is an entry exactly where the encoder
    /// and the compressor succeed; it keeps the list as it is given and
    /// holds the list's DER encoding, the gzip stream of that and its hash.
    pub fn from_crl(crl: ParsedCrl) -> (entry: Result<CrlCacheEntry, Failure>)
        ensures
            entry is Ok <==> spec_buildable(crl.spec_list()),
            match entry {
                Ok(e) => e.spec_crl() == crl && e@.list == crl.spec_list() && e@.wf()
                    && e@.this_update == crl.spec_this_update() && e@.next_update
                    == crl.spec_next_update(),
                Err(failure) => failure == Failure::BuildFailure,
            },
    {
        match encode_crl(crl.list()) {
            Ok(der) => {
                let compressed = gzip_der(der.as_slice());
                Self::from_parts(crl, der, compressed)
            },
            Err(_) => Err(Failure::BuildFailure),
        }
    }

    /// Recalls what holds of every entry, this one included.
    pub fn well_formed(&self)
        ensures
            self@.wf(),
    {
        proof {
            use_type_invariant(self);
        }
    }

    /// The list that the entry was built from.
    pub fn crl(&self) -> (crl: &ParsedCrl)
        ensures
            *crl == self.spec_crl(),
            crl.spec_list() == self@.list,
            crl.spec_this_update() == self@.this_update,
            crl.spec_next_update() == self@.next_update,
            self@.wf(),
    {
        proof {
            use_type_invariant(self);
        }
        &self.crl
    }

    /// The canonical encoding of the list.
    pub fn der(&self) -> (der: &Bytes)
        ensures
            bytes_of(*der) == self@.der,
            self@.wf(),
    {
        proof {
            use_type_invariant(self);
        }
        &self.der
    }

    /// The canonical encoding, compressed.
    pub fn der_gz(&self) -> (der_gz: &Bytes)
        ensures
            bytes_of(*der_gz) == self@.der_gz,
            self@.wf(),
    {
        proof {
            use_type_invariant(self);
        }
        &self.der_gz
    }

    /// The content hash.
    pub fn hash(&self) -> (hash: &str)
        ensures
            hash@ == self@.hash,
            self@.wf(),
    {
        proof {
            use_type_invariant(self);
        }
        self.hash.as_str()
    }
}

} // verus!
