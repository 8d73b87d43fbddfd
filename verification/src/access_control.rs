//! Access control: the predicates that decide whether a message may pass.

use crate::address::{Address, AddressView};
use vstd::prelude::*;

verus! {

/// What access control reads off a message in flight.
pub struct EnvelopeView {
    pub source: AddressView,
    pub destination: AddressView,
}

/// The sender and the addressee of a message, as the delivery mechanism sees
/// them. The payload is of no concern to access control.
#[derive(Debug, PartialEq, Eq)]
pub struct Envelope {
    pub source: Address,
    pub destination: Address,
}

impl View for Envelope {
    type V = EnvelopeView;

    open spec fn view(&self) -> EnvelopeView {
        EnvelopeView { source: self.source@, destination: self.destination@ }
    }
}

impl Envelope {
    pub fn new(source: Address, destination: Address) -> (r: Envelope)
        ensures
            r@ == (EnvelopeView { source: source@, destination: destination@ }),
    {
        Envelope { source, destination }
    }
}

pub enum AccessControlView {
    DenyAll,
    AllowAll,
    AllowSourceAddress(AddressView),
}

impl AccessControlView {
    /// Whether the policy lets the message pass.
    pub open spec fn authorizes(self, message: EnvelopeView) -> bool {
        match self {
            AccessControlView::DenyAll => false,
            AccessControlView::AllowAll => true,
            AccessControlView::AllowSourceAddress(allowed) => message.source == allowed,
        }
    }
}

/// A policy for the messages that cross a mailbox in one direction.
#[derive(Debug, PartialEq, Eq)]
pub enum AccessControl {
    /// Lets nothing pass. This is the default.
    DenyAll,
    /// Lets everything pass. For mailboxes that guard no security boundary.
    AllowAll,
    /// Lets pass what was sent from exactly this address.
    AllowSourceAddress(Address),
}

impl View for AccessControl {
    type V = AccessControlView;

    open spec fn view(&self) -> AccessControlView {
        match self {
            AccessControl::DenyAll => AccessControlView::DenyAll,
            AccessControl::AllowAll => AccessControlView::AllowAll,
            AccessControl::AllowSourceAddress(allowed) => AccessControlView::AllowSourceAddress(
                allowed@,
            ),
        }
    }
}

impl AccessControl {
    pub fn is_authorized(&self, message: &Envelope) -> (r: bool)
        ensures
            r == self@.authorizes(message@),
    {
        match self {
            AccessControl::DenyAll => false,
            AccessControl::AllowAll => true,
            AccessControl::AllowSourceAddress(allowed) => message.source == *allowed,
        }
    }
}

impl Clone for AccessControl {
    fn clone(&self) -> (r: AccessControl)
        ensures
            r@ == self@,
    {
        match self {
            AccessControl::DenyAll => AccessControl::DenyAll,
            AccessControl::AllowAll => AccessControl::AllowAll,
            AccessControl::AllowSourceAddress(allowed) => AccessControl::AllowSourceAddress(
                allowed.clone(),
            ),
        }
    }
}

impl Default for AccessControl {
    fn default() -> (r: AccessControl)
        ensures
            r@ == AccessControlView::DenyAll,
    {
        AccessControl::DenyAll
    }
}

} // verus!
