use tls_fingerprint::cache::Destination;
use tls_fingerprint::cache::SessionCache;

fn dest(n: u8) -> Destination {
    Destination::new(vec![b'h', b'o', b's', b't', n], 443)
}

fn ticket(n: u8) -> Vec<u8> {
    vec![n, n, n]
}

#[test]
fn nine_inserts_keep_the_eight_most_recent() {
    let mut cache = SessionCache::new(true, false);
    for n in 0..9u8 {
        cache.store(dest(n), ticket(n));
    }
    assert!(cache.lookup(&dest(0)).is_none());
    for n in 1..9u8 {
        assert_eq!(cache.lookup(&dest(n)), Some(ticket(n)));
    }
}

#[test]
fn store_without_psk_changes_no_lookup() {
    let mut cache = SessionCache::new(false, false);
    for n in 0..5u8 {
        cache.store(dest(n), ticket(n));
        assert!(cache.lookup(&dest(n)).is_none());
    }
}

#[test]
fn store_overwrites_existing_ticket() {
    let mut cache = SessionCache::new(true, false);
    cache.store(dest(1), ticket(1));
    cache.store(dest(1), ticket(2));
    assert_eq!(cache.lookup(&dest(1)), Some(ticket(2)));
    cache.store(dest(3), ticket(3));
    assert_eq!(cache.lookup(&dest(1)), Some(ticket(2)));
}

#[test]
fn lookup_refreshes_recency() {
    let mut cache = SessionCache::new(true, false);
    for n in 0..8u8 {
        cache.store(dest(n), ticket(n));
    }
    // Destination 0 is now the least recently used; a hit moves it to the
    // front, so the next overflow evicts destination 1 instead.
    assert_eq!(cache.lookup(&dest(0)), Some(ticket(0)));
    cache.store(dest(8), ticket(8));
    assert!(cache.lookup(&dest(1)).is_none());
    assert_eq!(cache.lookup(&dest(0)), Some(ticket(0)));
    assert_eq!(cache.lookup(&dest(8)), Some(ticket(8)));
}

#[test]
fn lookup_of_unknown_destination_is_empty() {
    let mut cache = SessionCache::new(true, true);
    cache.store(dest(1), ticket(1));
    assert!(cache.lookup(&dest(2)).is_none());
}

#[test]
fn same_peer_compares_host_and_port() {
    let a = Destination::new(vec![1, 2, 3], 443);
    let b = Destination::new(vec![1, 2, 3], 443);
    let c = Destination::new(vec![1, 2, 4], 443);
    let d = Destination::new(vec![1, 2, 3], 8443);
    let e = Destination::new(vec![1, 2], 443);
    assert!(a.same_peer(&b));
    assert!(!a.same_peer(&c));
    assert!(!a.same_peer(&d));
    assert!(!a.same_peer(&e));
}
