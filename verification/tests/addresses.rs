use std::collections::HashSet;
use tcp_listen::address::{Address, LOCAL};

fn is_lower_hex(b: u8) -> bool {
    b.is_ascii_digit() || (b'a'..=b'f').contains(&b)
}

#[test]
fn new_keeps_type_and_bytes() {
    let a = Address::new(7, b"remote_friend".to_vec());
    assert_eq!(a.tt, 7);
    assert_eq!(a.inner, b"remote_friend".to_vec());
}

#[test]
fn local_has_the_local_type() {
    let a = Address::local(b"local_friend".to_vec());
    assert_eq!(a.tt, LOCAL);
    assert_eq!(a.tt, 0);
    assert_eq!(a.inner, b"local_friend".to_vec());
}

#[test]
fn equality_reads_type_and_bytes() {
    let a = Address::new(0, b"a".to_vec());
    assert_eq!(a, Address::new(0, b"a".to_vec()));
    assert_ne!(a, Address::new(1, b"a".to_vec()));
    assert_ne!(a, Address::new(0, b"b".to_vec()));
    assert_ne!(a, Address::new(0, b"ab".to_vec()));
    assert_ne!(a, Address::new(0, Vec::new()));
    assert_eq!(Address::new(3, Vec::new()), Address::new(3, Vec::new()));
}

#[test]
fn clone_is_equal() {
    let a = Address::new(2, b"xyz".to_vec());
    let b = a.clone();
    assert_eq!(a, b);
    assert_eq!(b.tt, 2);
    assert_eq!(b.inner, b"xyz".to_vec());
}

#[test]
fn random_tagged_is_local_hex_of_sixteen_bytes() {
    for _ in 0..100 {
        let a = Address::random_tagged("TcpListenProcessor");
        assert_eq!(a.tt, LOCAL);
        assert_eq!(a.inner.len(), 32);
        assert!(a.inner.iter().all(|b| is_lower_hex(*b)));
    }
}

#[test]
fn random_tagged_ignores_the_tag() {
    let a = Address::random_tagged("");
    let b = Address::random_tagged("a tag with spaces and a # sign");
    assert_eq!(a.inner.len(), 32);
    assert_eq!(b.inner.len(), 32);
    assert_eq!(a.tt, 0);
    assert_eq!(b.tt, 0);
}

#[test]
fn random_tagged_does_not_collide_in_ten_thousand_draws() {
    let mut seen: HashSet<Address> = HashSet::new();
    for _ in 0..10_000 {
        assert!(seen.insert(Address::random_tagged("TcpSendWorker_tx_addr")));
    }
    assert_eq!(seen.len(), 10_000);
}
