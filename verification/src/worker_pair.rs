//! The addresses of a connection's worker pair, and the mailboxes that guard
//! them.
//!
//! A pair serves one accepted connection. Its sending half is reached under
//! the tx address, by the router, and under the internal address, by its own
//! receiving half, which has the rx address. The stream itself is the
//! business of whoever runs the pair.

use crate::access_control::{AccessControl, AccessControlView, EnvelopeView};
use crate::address::{Address, AddressView};
use crate::endpoint::SocketAddress;
use crate::mailbox::{first_from, Mailbox, MailboxView, Mailboxes, MailboxesView};
use vstd::prelude::*;

verus! {

pub struct WorkerPairView {
    pub peer: SocketAddress,
    pub tx_addr: AddressView,
    pub internal_addr: AddressView,
    pub rx_addr: AddressView,
}

impl WorkerPairView {
    /// The guard on the tx address: only the router may send to it, and
    /// nothing is sent from it.
    pub open spec fn tx_mailbox(self, router_main: AddressView) -> MailboxView {
        MailboxView {
            address: self.tx_addr,
            incoming: AccessControlView::AllowSourceAddress(router_main),
            outgoing: AccessControlView::DenyAll,
        }
    }

    /// The guard on the internal address: only the pair's receiving half may
    /// send to it, and nothing is sent from it.
    pub open spec fn internal_mailbox(self) -> MailboxView {
        MailboxView {
            address: self.internal_addr,
            incoming: AccessControlView::AllowSourceAddress(self.rx_addr),
            outgoing: AccessControlView::DenyAll,
        }
    }

    /// The mailboxes under which the pair's sending half runs.
    pub open spec fn mailboxes(self, router_main: AddressView) -> MailboxesView {
        MailboxesView {
            main: self.tx_mailbox(router_main),
            additional: seq![self.internal_mailbox()],
        }
    }
}

/// The peer of a connection and the three addresses of its worker pair. They
/// stay as they are for as long as the pair lives.
#[derive(Debug, PartialEq, Eq)]
pub struct WorkerPair {
    peer: SocketAddress,
    tx_addr: Address,
    internal_addr: Address,
    rx_addr: Address,
}

impl View for WorkerPair {
    type V = WorkerPairView;

    closed spec fn view(&self) -> WorkerPairView {
        WorkerPairView {
            peer: self.peer,
            tx_addr: self.tx_addr@,
            internal_addr: self.internal_addr@,
            rx_addr: self.rx_addr@,
        }
    }
}

impl WorkerPair {
    /// A pair for the connection to `peer` under addresses of the caller's
    /// choosing.
    pub fn with_addresses(
        peer: SocketAddress,
        tx_addr: Address,
        internal_addr: Address,
        rx_addr: Address,
    ) -> (r: WorkerPair)
        ensures
            r@ == (WorkerPairView {
                peer,
                tx_addr: tx_addr@,
                internal_addr: internal_addr@,
                rx_addr: rx_addr@,
            }),
    {
        WorkerPair { peer, tx_addr, internal_addr, rx_addr }
    }

    /// A pair for the connection to `peer` under three freshly drawn
    /// addresses. That the three differ from each other, and from every
    /// address drawn before, is as good as certain and not guaranteed.
    pub fn new_pair(peer: SocketAddress) -> (r: WorkerPair)
        ensures
            r@.peer == peer,
            r@.tx_addr.is_random_local(),
            r@.internal_addr.is_random_local(),
            r@.rx_addr.is_random_local(),
    {
        let tx_addr = Address::random_tagged("TcpSendWorker_tx_addr");
        let internal_addr = Address::random_tagged("TcpSendWorker_int_addr");
        let rx_addr = Address::random_tagged("TcpRecvProcessor_addr");
        WorkerPair::with_addresses(peer, tx_addr, internal_addr, rx_addr)
    }

    pub fn peer(&self) -> (r: SocketAddress)
        ensures
            r == self@.peer,
    {
        self.peer
    }

    pub fn tx_addr(&self) -> (r: &Address)
        ensures
            r@ == self@.tx_addr,
    {
        &self.tx_addr
    }

    pub fn internal_addr(&self) -> (r: &Address)
        ensures
            r@ == self@.internal_addr,
    {
        &self.internal_addr
    }

    pub fn rx_addr(&self) -> (r: &Address)
        ensures
            r@ == self@.rx_addr,
    {
        &self.rx_addr
    }

    /// Builds the mailboxes under which the pair's sending half is to run,
    /// given the main address of the router that the pair is registered with.
    pub fn mailboxes(&self, router_main: &Address) -> (r: Mailboxes)
        ensures
            r@ == self@.mailboxes(router_main@),
    {
        let tx_mailbox = Mailbox::new(
            self.tx_addr.clone(),
            AccessControl::AllowSourceAddress(router_main.clone()),
            AccessControl::DenyAll,
        );
        let internal_mailbox = Mailbox::new(
            self.internal_addr.clone(),
            AccessControl::AllowSourceAddress(self.rx_addr.clone()),
            AccessControl::DenyAll,
        );
        let mut additional: Vec<Mailbox> = Vec::new();
        additional.push(internal_mailbox);
        let r = Mailboxes::new(tx_mailbox, additional);
        assert(r@.additional =~= seq![self@.internal_mailbox()]);
        r
    }
}

impl Clone for WorkerPair {
    fn clone(&self) -> (r: WorkerPair)
        ensures
            r@ == self@,
    {
        WorkerPair {
            peer: self.peer,
            tx_addr: self.tx_addr.clone(),
            internal_addr: self.internal_addr.clone(),
            rx_addr: self.rx_addr.clone(),
        }
    }
}

/// A message to a pair's tx address is delivered if and only if the router's
/// main address sent it.
pub proof fn lemma_tx_address_admits_only_the_router(
    pair: WorkerPairView,
    router_main: AddressView,
    message: EnvelopeView,
)
    requires
        message.destination == pair.tx_addr,
    ensures
        pair.mailboxes(router_main).is_incoming_authorized(message) <==> message.source
            == router_main,
{
}

/// A message to a pair's internal address is delivered according to the guard
/// on that address, or, should the tx address be the same address, according
/// to the guard on the tx address, which then answers for it.
pub proof fn lemma_internal_address_delivery(
    pair: WorkerPairView,
    router_main: AddressView,
    message: EnvelopeView,
)
    requires
        message.destination == pair.internal_addr,
    ensures
        pair.mailboxes(router_main).is_incoming_authorized(message) <==> (if pair.internal_addr
            == pair.tx_addr {
            message.source == router_main
        } else {
            message.source == pair.rx_addr
        }),
{
    reveal_with_fuel(first_from, 2);
}

/// A message to a pair's internal address that was not sent from the pair's
/// own receiving half is not delivered. The one case left out is that of a
/// pair whose tx and internal address collide, for a message from the router.
pub proof fn lemma_internal_address_rejects_strangers(
    pair: WorkerPairView,
    router_main: AddressView,
    message: EnvelopeView,
)
    requires
        message.destination == pair.internal_addr,
        message.source != pair.rx_addr,
        !(pair.internal_addr == pair.tx_addr && message.source == router_main),
    ensures
        !pair.mailboxes(router_main).is_incoming_authorized(message),
{
    lemma_internal_address_delivery(pair, router_main, message);
}

/// A message to an address that is neither of a pair's two guarded addresses
/// is not delivered to the pair.
pub proof fn lemma_other_addresses_reach_nothing(
    pair: WorkerPairView,
    router_main: AddressView,
    message: EnvelopeView,
)
    requires
        message.destination != pair.tx_addr,
        message.destination != pair.internal_addr,
    ensures
        !pair.mailboxes(router_main).is_incoming_authorized(message),
{
    reveal_with_fuel(first_from, 2);
}

/// A pair's sending half may send nothing under either of its addresses.
pub proof fn lemma_pair_sends_nothing(
    pair: WorkerPairView,
    router_main: AddressView,
    message: EnvelopeView,
)
    ensures
        !pair.mailboxes(router_main).is_outgoing_authorized(message),
{
    reveal_with_fuel(first_from, 2);
}

} // verus!
