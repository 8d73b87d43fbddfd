//! Mailboxes: addresses under guard.
//!
//! A mailbox ties one address to two policies, one for what comes in and one
//! for what goes out. The delivery mechanism consults them before a message
//! reaches the actor behind the address; a message that is refused is dropped.

use crate::access_control::{AccessControl, AccessControlView, Envelope, EnvelopeView};
use crate::address::{Address, AddressView};
use vstd::prelude::*;

verus! {

pub struct MailboxView {
    pub address: AddressView,
    pub incoming: AccessControlView,
    pub outgoing: AccessControlView,
}

/// One address with its incoming and its outgoing policy. Both are fixed when
/// the mailbox is made.
#[derive(Debug, PartialEq, Eq)]
pub struct Mailbox {
    address: Address,
    incoming: AccessControl,
    outgoing: AccessControl,
}

impl View for Mailbox {
    type V = MailboxView;

    closed spec fn view(&self) -> MailboxView {
        MailboxView {
            address: self.address@,
            incoming: self.incoming@,
            outgoing: self.outgoing@,
        }
    }
}

impl Mailbox {
    pub fn new(address: Address, incoming: AccessControl, outgoing: AccessControl) -> (r: Mailbox)
        ensures
            r@ == (MailboxView { address: address@, incoming: incoming@, outgoing: outgoing@ }),
    {
        Mailbox { address, incoming, outgoing }
    }

    /// A mailbox that neither receives nor sends.
    pub fn deny_all(address: Address) -> (r: Mailbox)
        ensures
            r@ == (MailboxView {
                address: address@,
                incoming: AccessControlView::DenyAll,
                outgoing: AccessControlView::DenyAll,
            }),
    {
        Mailbox { address, incoming: AccessControl::DenyAll, outgoing: AccessControl::DenyAll }
    }

    /// A mailbox without a guard.
    pub fn allow_all(address: Address) -> (r: Mailbox)
        ensures
            r@ == (MailboxView {
                address: address@,
                incoming: AccessControlView::AllowAll,
                outgoing: AccessControlView::AllowAll,
            }),
    {
        Mailbox { address, incoming: AccessControl::AllowAll, outgoing: AccessControl::AllowAll }
    }

    pub fn address(&self) -> (r: &Address)
        ensures
            r@ == self@.address,
    {
        &self.address
    }

    pub fn incoming_access_control(&self) -> (r: &AccessControl)
        ensures
            r@ == self@.incoming,
    {
        &self.incoming
    }

    pub fn outgoing_access_control(&self) -> (r: &AccessControl)
        ensures
            r@ == self@.outgoing,
    {
        &self.outgoing
    }
}

impl Clone for Mailbox {
    fn clone(&self) -> (r: Mailbox)
        ensures
            r@ == self@,
    {
        Mailbox {
            address: self.address.clone(),
            incoming: self.incoming.clone(),
            outgoing: self.outgoing.clone(),
        }
    }
}

/// What a row of mailboxes is, one by one.
pub open spec fn views(boxes: Seq<Mailbox>) -> Seq<MailboxView> {
    boxes.map_values(|mailbox: Mailbox| mailbox@)
}

/// The first mailbox at or after position `from` that has the address.
pub open spec fn first_from(boxes: Seq<MailboxView>, address: AddressView, from: int) -> Option<
    MailboxView,
>
    decreases boxes.len() - from,
{
    if from < 0 || from >= boxes.len() {
        None
    } else if boxes[from].address == address {
        Some(boxes[from])
    } else {
        first_from(boxes, address, from + 1)
    }
}

pub struct MailboxesView {
    pub main: MailboxView,
    pub additional: Seq<MailboxView>,
}

impl MailboxesView {
    /// The mailbox that answers for an address: the main one if it has the
    /// address, else the first additional one that has it.
    pub open spec fn find(self, address: AddressView) -> Option<MailboxView> {
        if self.main.address == address {
            Some(self.main)
        } else {
            first_from(self.additional, address, 0)
        }
    }

    /// Whether the message is delivered to the actor behind these mailboxes:
    /// one of them has the message's destination, and its incoming policy
    /// lets the message pass.
    pub open spec fn is_incoming_authorized(self, message: EnvelopeView) -> bool {
        match self.find(message.destination) {
            Some(mailbox) => mailbox.incoming.authorizes(message),
            None => false,
        }
    }

    /// Whether the actor behind these mailboxes may send the message: one of
    /// them has the message's source, and its outgoing policy lets the
    /// message pass.
    pub open spec fn is_outgoing_authorized(self, message: EnvelopeView) -> bool {
        match self.find(message.source) {
            Some(mailbox) => mailbox.outgoing.authorizes(message),
            None => false,
        }
    }
}

/// All the mailboxes of one actor: a main one, and any number of others.
#[derive(Debug, PartialEq, Eq)]
pub struct Mailboxes {
    main: Mailbox,
    additional: Vec<Mailbox>,
}

impl View for Mailboxes {
    type V = MailboxesView;

    closed spec fn view(&self) -> MailboxesView {
        MailboxesView {
            main: self.main@,
            additional: views(self.additional@),
        }
    }
}

impl Mailboxes {
    pub fn new(main: Mailbox, additional: Vec<Mailbox>) -> (r: Mailboxes)
        ensures
            r@ == (MailboxesView { main: main@, additional: views(additional@) }),
    {
        Mailboxes { main, additional }
    }

    /// The mailboxes of an actor that is reached under one address only.
    pub fn main_only(main: Mailbox) -> (r: Mailboxes)
        ensures
            r@ == (MailboxesView { main: main@, additional: Seq::empty() }),
    {
        let r = Mailboxes { main, additional: Vec::new() };
        assert(r@.additional =~= Seq::empty());
        r
    }

    pub fn main_mailbox(&self) -> (r: &Mailbox)
        ensures
            r@ == self@.main,
    {
        &self.main
    }

    pub fn additional_mailboxes(&self) -> (r: &Vec<Mailbox>)
        ensures
            views(r@) == self@.additional,
    {
        &self.additional
    }

    pub fn find_mailbox(&self, address: &Address) -> (r: Option<&Mailbox>)
        ensures
            r matches Some(mailbox) ==> self@.find(address@) == Some(mailbox@),
            r is None ==> self@.find(address@) is None,
    {
        if self.main.address == *address {
            return Some(&self.main);
        }
        let mut i: usize = 0;
        while i < self.additional.len()
            invariant
                i <= self.additional.len(),
                self@.find(address@) == first_from(self@.additional, address@, i as int),
            decreases self.additional.len() - i,
        {
            if self.additional[i].address == *address {
                return Some(&self.additional[i]);
            }
            i += 1;
        }
        None
    }

    pub fn contains(&self, address: &Address) -> (r: bool)
        ensures
            r == self@.find(address@).is_some(),
    {
        self.find_mailbox(address).is_some()
    }

    pub fn is_incoming_authorized(&self, message: &Envelope) -> (r: bool)
        ensures
            r == self@.is_incoming_authorized(message@),
    {
        match self.find_mailbox(&message.destination) {
            Some(mailbox) => mailbox.incoming.is_authorized(message),
            None => false,
        }
    }

    pub fn is_outgoing_authorized(&self, message: &Envelope) -> (r: bool)
        ensures
            r == self@.is_outgoing_authorized(message@),
    {
        match self.find_mailbox(&message.source) {
            Some(mailbox) => mailbox.outgoing.is_authorized(message),
            None => false,
        }
    }
}

impl Clone for Mailboxes {
    fn clone(&self) -> (r: Mailboxes)
        ensures
            r@ == self@,
    {
        let mut additional: Vec<Mailbox> = Vec::new();
        let mut i: usize = 0;
        while i < self.additional.len()
            invariant
                i <= self.additional.len(),
                additional@.len() == i,
                forall|j: int| 0 <= j < i ==> additional@[j]@ == self.additional@[j]@,
            decreases self.additional.len() - i,
        {
            additional.push(self.additional[i].clone());
            i += 1;
        }
        let r = Mailboxes { main: self.main.clone(), additional };
        assert(r@.additional =~= self@.additional);
        r
    }
}

} // verus!
