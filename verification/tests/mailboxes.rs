use tcp_listen::access_control::{AccessControl, Envelope};
use tcp_listen::address::Address;
use tcp_listen::mailbox::{Mailbox, Mailboxes};

fn named(name: &str) -> Address {
    Address::local(name.as_bytes().to_vec())
}

fn message(from: &str, to: &str) -> Envelope {
    Envelope::new(named(from), named(to))
}

fn from_only(address: &str, sender: &str) -> Mailbox {
    Mailbox::new(
        named(address),
        AccessControl::AllowSourceAddress(named(sender)),
        AccessControl::DenyAll,
    )
}

#[test]
fn a_mailbox_keeps_what_it_was_made_with() {
    let m = Mailbox::new(
        named("tx"),
        AccessControl::AllowSourceAddress(named("router")),
        AccessControl::AllowAll,
    );
    assert_eq!(m.address(), &named("tx"));
    assert_eq!(
        m.incoming_access_control(),
        &AccessControl::AllowSourceAddress(named("router"))
    );
    assert_eq!(m.outgoing_access_control(), &AccessControl::AllowAll);
    assert_eq!(m.clone(), m);
}

#[test]
fn deny_all_denies_both_ways() {
    let m = Mailbox::deny_all(named("listener"));
    assert_eq!(m.address(), &named("listener"));
    assert_eq!(m.incoming_access_control(), &AccessControl::DenyAll);
    assert_eq!(m.outgoing_access_control(), &AccessControl::DenyAll);
}

#[test]
fn allow_all_allows_both_ways() {
    let m = Mailbox::allow_all(named("echo"));
    assert_eq!(m.address(), &named("echo"));
    assert_eq!(m.incoming_access_control(), &AccessControl::AllowAll);
    assert_eq!(m.outgoing_access_control(), &AccessControl::AllowAll);
}

#[test]
fn mailboxes_keep_main_and_additional_in_order() {
    let boxes = Mailboxes::new(
        from_only("tx", "router"),
        vec![from_only("internal", "rx"), Mailbox::allow_all(named("extra"))],
    );
    assert_eq!(boxes.main_mailbox(), &from_only("tx", "router"));
    assert_eq!(boxes.additional_mailboxes().len(), 2);
    assert_eq!(boxes.additional_mailboxes()[0], from_only("internal", "rx"));
    assert_eq!(boxes.additional_mailboxes()[1], Mailbox::allow_all(named("extra")));
    assert_eq!(boxes.clone(), boxes);
}

#[test]
fn main_only_has_no_additional_mailbox() {
    let boxes = Mailboxes::main_only(Mailbox::deny_all(named("listener")));
    assert_eq!(boxes.main_mailbox(), &Mailbox::deny_all(named("listener")));
    assert!(boxes.additional_mailboxes().is_empty());
    assert_eq!(boxes, Mailboxes::new(Mailbox::deny_all(named("listener")), vec![]));
}

#[test]
fn find_mailbox_looks_at_main_then_at_the_others() {
    let boxes = Mailboxes::new(
        from_only("tx", "router"),
        vec![from_only("internal", "rx"), Mailbox::allow_all(named("extra"))],
    );
    assert_eq!(boxes.find_mailbox(&named("tx")), Some(&from_only("tx", "router")));
    assert_eq!(boxes.find_mailbox(&named("internal")), Some(&from_only("internal", "rx")));
    assert_eq!(boxes.find_mailbox(&named("extra")), Some(&Mailbox::allow_all(named("extra"))));
    assert_eq!(boxes.find_mailbox(&named("nobody")), None);
    assert!(boxes.contains(&named("tx")));
    assert!(boxes.contains(&named("internal")));
    assert!(boxes.contains(&named("extra")));
    assert!(!boxes.contains(&named("nobody")));
    assert!(!boxes.contains(&Address::new(1, b"tx".to_vec())));
}

#[test]
fn find_mailbox_takes_the_first_of_equal_addresses() {
    let boxes = Mailboxes::new(
        from_only("a", "one"),
        vec![from_only("a", "two"), from_only("b", "three"), from_only("b", "four")],
    );
    assert_eq!(boxes.find_mailbox(&named("a")), Some(&from_only("a", "one")));
    assert_eq!(boxes.find_mailbox(&named("b")), Some(&from_only("b", "three")));
    assert!(boxes.is_incoming_authorized(&message("one", "a")));
    assert!(!boxes.is_incoming_authorized(&message("two", "a")));
    assert!(boxes.is_incoming_authorized(&message("three", "b")));
    assert!(!boxes.is_incoming_authorized(&message("four", "b")));
}

#[test]
fn incoming_goes_by_the_policy_of_the_destination() {
    let boxes = Mailboxes::new(from_only("tx", "router"), vec![from_only("internal", "rx")]);
    assert!(boxes.is_incoming_authorized(&message("router", "tx")));
    assert!(!boxes.is_incoming_authorized(&message("rx", "tx")));
    assert!(boxes.is_incoming_authorized(&message("rx", "internal")));
    assert!(!boxes.is_incoming_authorized(&message("router", "internal")));
}

#[test]
fn incoming_to_an_unknown_destination_is_dropped() {
    let boxes = Mailboxes::new(Mailbox::allow_all(named("a")), vec![Mailbox::allow_all(named("b"))]);
    assert!(boxes.is_incoming_authorized(&message("x", "a")));
    assert!(boxes.is_incoming_authorized(&message("x", "b")));
    assert!(!boxes.is_incoming_authorized(&message("x", "c")));
}

#[test]
fn outgoing_goes_by_the_policy_of_the_source() {
    let boxes = Mailboxes::new(
        Mailbox::new(named("a"), AccessControl::DenyAll, AccessControl::AllowAll),
        vec![Mailbox::new(named("b"), AccessControl::AllowAll, AccessControl::DenyAll)],
    );
    assert!(boxes.is_outgoing_authorized(&message("a", "anywhere")));
    assert!(!boxes.is_outgoing_authorized(&message("b", "anywhere")));
    assert!(!boxes.is_outgoing_authorized(&message("c", "anywhere")));
    assert!(!boxes.is_incoming_authorized(&message("anywhere", "a")));
    assert!(boxes.is_incoming_authorized(&message("anywhere", "b")));
}

#[test]
fn a_deny_all_mailbox_is_cut_off() {
    let boxes = Mailboxes::main_only(Mailbox::deny_all(named("listener")));
    assert!(!boxes.is_incoming_authorized(&message("router", "listener")));
    assert!(!boxes.is_incoming_authorized(&message("listener", "listener")));
    assert!(!boxes.is_outgoing_authorized(&message("listener", "router")));
}
