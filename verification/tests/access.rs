use tcp_listen::access_control::{AccessControl, Envelope};
use tcp_listen::address::Address;

fn named(name: &str) -> Address {
    Address::local(name.as_bytes().to_vec())
}

fn message(from: &str, to: &str) -> Envelope {
    Envelope::new(named(from), named(to))
}

#[test]
fn envelope_keeps_source_and_destination() {
    let m = message("alice", "bob");
    assert_eq!(m.source, named("alice"));
    assert_eq!(m.destination, named("bob"));
}

#[test]
fn deny_all_lets_nothing_pass() {
    assert!(!AccessControl::DenyAll.is_authorized(&message("alice", "bob")));
    assert!(!AccessControl::DenyAll.is_authorized(&message("bob", "bob")));
    assert!(!AccessControl::DenyAll.is_authorized(&message("", "")));
}

#[test]
fn allow_all_lets_everything_pass() {
    assert!(AccessControl::AllowAll.is_authorized(&message("alice", "bob")));
    assert!(AccessControl::AllowAll.is_authorized(&message("", "")));
}

#[test]
fn allow_source_address_lets_pass_what_that_address_sent() {
    let policy = AccessControl::AllowSourceAddress(named("router"));
    assert!(policy.is_authorized(&message("router", "tx")));
    assert!(policy.is_authorized(&message("router", "anything")));
}

#[test]
fn allow_source_address_stops_every_other_sender() {
    let policy = AccessControl::AllowSourceAddress(named("router"));
    assert!(!policy.is_authorized(&message("route", "tx")));
    assert!(!policy.is_authorized(&message("router2", "tx")));
    assert!(!policy.is_authorized(&message("", "tx")));
    assert!(!policy.is_authorized(&message("tx", "router")));
}

#[test]
fn allow_source_address_reads_the_transport_type_too() {
    let policy = AccessControl::AllowSourceAddress(Address::new(0, b"router".to_vec()));
    let same_bytes_other_type = Envelope::new(Address::new(1, b"router".to_vec()), named("tx"));
    assert!(!policy.is_authorized(&same_bytes_other_type));
}

#[test]
fn the_default_policy_denies() {
    assert_eq!(AccessControl::default(), AccessControl::DenyAll);
    assert!(!AccessControl::default().is_authorized(&message("alice", "bob")));
}

#[test]
fn a_policy_clones_to_itself() {
    let policy = AccessControl::AllowSourceAddress(named("router"));
    assert_eq!(policy.clone(), policy);
    assert_eq!(AccessControl::DenyAll.clone(), AccessControl::DenyAll);
    assert_eq!(AccessControl::AllowAll.clone(), AccessControl::AllowAll);
}
