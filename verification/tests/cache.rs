use der::asn1::{BitString, GeneralizedTime, ObjectIdentifier};
use moka::Expiry;
use std::time::{Duration, Instant};
use x509_cert::crl::{CertificateList, TbsCertList};
use x509_cert::name::Name;
use x509_cert::spki::AlgorithmIdentifierOwned;
use x509_cert::time::Time;
use x509_cert::Version;
use xocsp::cache::CrlCache;
use xocsp::clock::since_epoch;
use xocsp::entry::{CrlCacheEntry, ParsedCrl};
use xocsp::expiry::CrlExpPolicy;

fn time_at(secs: u64) -> Time {
    Time::GeneralTime(GeneralizedTime::from_unix_duration(Duration::from_secs(secs)).unwrap())
}

fn entry_of(serial: u8, next_update: Option<u64>) -> CrlCacheEntry {
    let algorithm = AlgorithmIdentifierOwned {
        oid: ObjectIdentifier::new_unwrap("1.2.840.113549.1.1.11"),
        parameters: None,
    };
    let list = CertificateList {
        tbs_cert_list: TbsCertList {
            version: Version::V2,
            signature: algorithm.clone(),
            issuer: Name::default(),
            this_update: time_at(1_700_000_000),
            next_update: next_update.map(time_at),
            revoked_certificates: None,
            crl_extensions: None,
        },
        signature_algorithm: algorithm,
        signature: BitString::from_bytes(&[serial]).unwrap(),
    };
    CrlCacheEntry::from_crl(ParsedCrl::new(list)).unwrap()
}

fn wait(millis: u64) {
    let started = Instant::now();
    while started.elapsed() < Duration::from_millis(millis) {
        std::hint::spin_loop();
    }
}

/// Waits until the cache is certain to tend to its books at the next lookup,
/// and makes that lookup.
fn settle(cache: &CrlCache) {
    for _ in 0..3 {
        wait(350);
        assert!(cache.get("no such name").is_none());
    }
}

#[test]
fn cache_is_built_with_its_capacity() {
    assert_eq!(CrlCache::new(4, 3600).capacity(), Some(4));
    assert_eq!(CrlCache::new(1000, 1).capacity(), Some(1000));
    assert_eq!(CrlCache::new(u64::MAX, 1).capacity(), Some(u64::MAX));
}

#[test]
fn inserted_entry_is_found() {
    let cache = CrlCache::new(10, 3600);
    assert!(cache.get("ca.crl").is_none());
    let entry = entry_of(1, None);
    cache.insert("ca.crl", entry.clone());
    let found = cache.get("ca.crl").unwrap();
    assert_eq!(found.hash(), entry.hash());
    assert_eq!(found.der(), entry.der());
    assert_eq!(found.der_gz(), entry.der_gz());
    assert!(cache.get("CA.crl").is_none());
}

#[test]
fn entry_is_replaced_under_its_name() {
    let cache = CrlCache::new(10, 3600);
    let old = entry_of(1, None);
    let new = entry_of(2, None);
    cache.insert("ca.crl", old.clone());
    cache.insert("ca.crl", new.clone());
    assert_eq!(cache.get("ca.crl").unwrap().hash(), new.hash());
    assert_ne!(old.hash(), new.hash());
}

#[test]
fn one_entry_leaves_a_full_cache() {
    let capacity = 4;
    let cache = CrlCache::new(capacity, 3600);
    let names: Vec<String> = (0..=capacity).map(|i| format!("ca{}.crl", i)).collect();
    for (i, name) in names.iter().enumerate() {
        cache.insert(name, entry_of(i as u8, None));
    }
    settle(&cache);
    // The name that was put in first has been used least recently.
    assert!(cache.get(&names[0]).is_none());
    for (i, name) in names.iter().enumerate().skip(1) {
        assert_eq!(cache.get(name).unwrap().hash(), entry_of(i as u8, None).hash());
    }
}

#[test]
fn used_entry_stays_in_a_full_cache() {
    let cache = CrlCache::new(2, 3600);
    cache.insert("a", entry_of(1, None));
    cache.insert("b", entry_of(2, None));
    settle(&cache);
    assert!(cache.get("a").is_some());
    settle(&cache);
    cache.insert("c", entry_of(3, None));
    settle(&cache);
    assert!(cache.get("b").is_none());
    assert!(cache.get("a").is_some());
    assert!(cache.get("c").is_some());
}

#[test]
fn overdue_list_is_not_served_from_the_cache() {
    let cache = CrlCache::new(10, 3600);
    cache.insert("ca.crl", entry_of(1, Some(1_700_000_001)));
    assert!(cache.get("ca.crl").is_none());
}

#[test]
fn entry_leaves_when_its_time_is_up() {
    let cache = CrlCache::new(10, 3600);
    let due = since_epoch().secs() + 2;
    cache.insert("ca.crl", entry_of(1, Some(due)));
    assert!(cache.get("ca.crl").is_some());
    wait(2100);
    assert!(cache.get("ca.crl").is_none());
}

#[test]
fn entry_lives_no_longer_than_the_maximum() {
    let cache = CrlCache::new(10, 1);
    cache.insert("ca.crl", entry_of(1, None));
    assert!(cache.get("ca.crl").is_some());
    wait(1100);
    assert!(cache.get("ca.crl").is_none());
}

#[test]
fn replacing_entry_gets_a_life_of_its_own() {
    let cache = CrlCache::new(10, 3600);
    cache.insert("ca.crl", entry_of(1, None));
    cache.insert("ca.crl", entry_of(2, Some(1_700_000_001)));
    assert!(cache.get("ca.crl").is_none());
}

#[test]
fn policy_answers_the_cache() {
    let policy = CrlExpPolicy::new(1000);
    let key = "ca.crl".to_string();
    let now = Instant::now();
    let entry = entry_of(1, None);
    assert_eq!(policy.expire_after_create(&key, &entry, now), Some(Duration::from_secs(1000)));
    assert_eq!(
        policy.expire_after_update(&key, &entry, now, Some(Duration::from_secs(5))),
        Some(Duration::from_secs(1000))
    );
    let overdue = entry_of(1, Some(1_700_000_001));
    assert_eq!(policy.expire_after_create(&key, &overdue, now), Some(Duration::ZERO));
    assert_eq!(policy.expire_after_update(&key, &overdue, now, None), Some(Duration::ZERO));
    assert_eq!(policy.life_of_entry(None, now), Some(Duration::from_secs(1000)));
    assert_eq!(policy.life_of_entry(Some(1), now), Some(Duration::ZERO));
    let at = xocsp::clock::Span::from_secs(1_700_000_000);
    let none = xocsp::clock::Span::zero();
    assert_eq!(
        policy.life_of_entry_at(Some(1_700_000_100), &none, &at),
        Some(Duration::from_secs(95))
    );
    assert_eq!(policy.life_of_entry_at(Some(1_699_999_999), &none, &at), Some(Duration::ZERO));
    assert_eq!(policy.life_of_entry_at(None, &none, &at), Some(Duration::from_secs(1000)));
    let short = CrlExpPolicy::new(7);
    assert_eq!(short.expire_after_create(&key, &entry, now), Some(Duration::from_secs(7)));
    let due = since_epoch().secs() + 100;
    let ttl = policy.expire_after_create(&key, &entry_of(1, Some(due)), now).unwrap();
    assert!(ttl > Duration::from_secs(94));
    assert!(ttl < Duration::from_secs(96));
}
