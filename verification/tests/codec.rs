use flate2::read::GzDecoder;
use std::io::Read;
use xocsp::codec::{crl_hash, gzip_der};

fn gunzip(stream: &[u8]) -> Vec<u8> {
    let mut plain = Vec::new();
    GzDecoder::new(stream).read_to_end(&mut plain).unwrap();
    plain
}

#[test]
fn hash_of_known_inputs() {
    assert_eq!(
        crl_hash(b"abc"),
        "ddaf35a193617abacc417349ae20413112e6fa4e89a97ea20a9eeee64b55d39a\
         2192992a274fc1a836ba3c23a3feebbd454d4423643ce80e2a9ac94fa54ca49f"
    );
    assert_eq!(
        crl_hash(b""),
        "cf83e1357eefb8bdf1542850d66d8007d620e4050b5715dc83f4a921d36ce9ce\
         47d0d13c5d85f2b0ff8318d2877eec2f63b931bd47417a81a538327af927da3e"
    );
}

#[test]
fn hash_is_lower_case_hexadecimal_of_fixed_length() {
    let hash = crl_hash(&[0xff; 1000]);
    assert_eq!(hash.len(), 128);
    assert!(hash.bytes().all(|b| b.is_ascii_digit() || (b'a'..=b'f').contains(&b)));
}

#[test]
fn hash_tells_inputs_apart() {
    assert_ne!(crl_hash(b"list one"), crl_hash(b"list two"));
    assert_eq!(crl_hash(b"list one"), crl_hash(b"list one"));
}

#[test]
fn gzip_round_trip() {
    let plain: Vec<u8> = (0..5000u32).map(|i| (i % 251) as u8).collect();
    let stream = gzip_der(&plain).unwrap();
    assert_ne!(stream, plain);
    assert_eq!(gunzip(&stream), plain);
}

#[test]
fn gzip_round_trip_of_nothing() {
    let stream = gzip_der(&[]).unwrap();
    assert!(!stream.is_empty());
    assert_eq!(gunzip(&stream), Vec::<u8>::new());
}

#[test]
fn gzip_stream_has_the_magic_number_and_no_time_stamp() {
    let stream = gzip_der(b"some bytes").unwrap();
    assert_eq!(&stream[..3], &[0x1f, 0x8b, 8]);
    assert_eq!(&stream[4..8], &[0, 0, 0, 0]);
}

#[test]
fn gzip_is_a_function_of_its_input() {
    let plain = vec![7u8; 300];
    assert_eq!(gzip_der(&plain).unwrap(), gzip_der(&plain).unwrap());
}

#[test]
fn gzip_shrinks_what_repeats() {
    let plain = vec![0u8; 10_000];
    assert!(gzip_der(&plain).unwrap().len() < 1000);
}
