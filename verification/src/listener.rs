//! The listener: the actor that accepts connections and, for each, has a
//! worker pair built, registered and started.
//!
//! The listener waits on sockets, on the router and on the actor runtime. None
//! of that waiting happens here. [`TcpListenProcessor`] holds what the listener
//! has decided so far and says what is to be done next; whoever runs it does
//! that and reports back:
//!
//! ```text
//! let mut action = processor.process();
//! loop {
//!     let event = /* perform `action`, or return if it is `Continue` or `Stop` */;
//!     action = processor.step(event);
//! }
//! ```
//!
//! Every failure stops the listener, also one that concerns a single
//! connection only.

use crate::access_control::{AccessControlView, EnvelopeView};
use crate::address::{Address, AddressView};
use crate::endpoint::SocketAddress;
use crate::error::{Fault, IoFailure, ListenError, TransportFailure};
use crate::mailbox::{Mailbox, MailboxView, Mailboxes, MailboxesView};
use crate::worker_pair::{WorkerPair, WorkerPairView};
use vstd::prelude::*;

verus! {

/// The cluster that every listener joins when it is initialized, so that the
/// runtime shuts the transport's actors down together.
pub const CLUSTER_NAME: &'static str = "_internals.transport.tcp";

/// The stretches of a listener's life.
#[derive(Clone, Copy, Debug, PartialEq, Eq, Hash, Structural)]
pub enum Phase {
    /// Started, and not yet a member of its cluster.
    Created,
    /// A member of its cluster, and not yet asked to accept.
    Initialized,
    /// Serving connections, one at a time.
    AcceptLoop,
    /// Stopped by a failure, for good.
    Stopped,
}

/// Where a listener stands.
pub enum ListenerState {
    Created,
    /// Asked to join the cluster.
    JoiningCluster,
    Initialized,
    /// Between two connections.
    Idle,
    /// Waiting for a connection.
    Accepting,
    /// Having the router handle cloned for the connection to this peer.
    CloningHandle(SocketAddress),
    /// Having a worker pair built for the connection to this peer.
    CreatingPair(SocketAddress),
    /// Having this pair registered with the router.
    Registering(WorkerPairView),
    /// Having the registered pair started.
    StartingWorker,
    Stopped(ListenError),
}

impl ListenerState {
    pub open spec fn phase(self) -> Phase {
        match self {
            ListenerState::Created | ListenerState::JoiningCluster => Phase::Created,
            ListenerState::Initialized => Phase::Initialized,
            ListenerState::Stopped(_) => Phase::Stopped,
            _ => Phase::AcceptLoop,
        }
    }
}

/// A listener: the main address of the router it registers with, and where
/// it stands.
pub struct ListenerView {
    pub router_main: AddressView,
    pub state: ListenerState,
}

impl ListenerView {
    /// A listener that was just made for the router with this main address.
    pub open spec fn created(router_main: AddressView) -> ListenerView {
        ListenerView { router_main, state: ListenerState::Created }
    }

    /// The same listener elsewhere in its life.
    pub open spec fn at(self, state: ListenerState) -> ListenerView {
        ListenerView { router_main: self.router_main, state }
    }
}

pub enum EventView {
    Initialize,
    ClusterJoined,
    ClusterFailed(Fault),
    Process,
    Accepted(SocketAddress),
    AcceptFailed(IoFailure),
    HandleCloned,
    HandleCloneFailed(Fault),
    PairCreated(WorkerPairView),
    PairFailed(Fault),
    Registered,
    RegisterFailed(Fault),
    WorkerStarted,
    WorkerStartFailed(Fault),
}

/// What happened outside the listener.
#[derive(Debug, PartialEq, Eq)]
pub enum Event {
    /// The runtime schedules the listener for the first time.
    Initialize,
    /// The listener is a member of its cluster.
    ClusterJoined,
    ClusterFailed(Fault),
    /// The runtime asks the listener to serve one connection.
    Process,
    /// A connection from this peer arrived.
    Accepted(SocketAddress),
    AcceptFailed(IoFailure),
    /// The router handle was cloned.
    HandleCloned,
    HandleCloneFailed(Fault),
    /// This worker pair was built.
    PairCreated(WorkerPair),
    PairFailed(Fault),
    /// The router registered the pair.
    Registered,
    RegisterFailed(Fault),
    /// The runtime runs the pair.
    WorkerStarted,
    WorkerStartFailed(Fault),
}

impl View for Event {
    type V = EventView;

    open spec fn view(&self) -> EventView {
        match self {
            Event::Initialize => EventView::Initialize,
            Event::ClusterJoined => EventView::ClusterJoined,
            Event::ClusterFailed(fault) => EventView::ClusterFailed(*fault),
            Event::Process => EventView::Process,
            Event::Accepted(peer) => EventView::Accepted(*peer),
            Event::AcceptFailed(failure) => EventView::AcceptFailed(*failure),
            Event::HandleCloned => EventView::HandleCloned,
            Event::HandleCloneFailed(fault) => EventView::HandleCloneFailed(*fault),
            Event::PairCreated(pair) => EventView::PairCreated(pair@),
            Event::PairFailed(fault) => EventView::PairFailed(*fault),
            Event::Registered => EventView::Registered,
            Event::RegisterFailed(fault) => EventView::RegisterFailed(*fault),
            Event::WorkerStarted => EventView::WorkerStarted,
            Event::WorkerStartFailed(fault) => EventView::WorkerStartFailed(*fault),
        }
    }
}

impl Clone for Event {
    fn clone(&self) -> (r: Event)
        ensures
            r@ == self@,
    {
        match self {
            Event::Initialize => Event::Initialize,
            Event::ClusterJoined => Event::ClusterJoined,
            Event::ClusterFailed(fault) => Event::ClusterFailed(fault.clone()),
            Event::Process => Event::Process,
            Event::Accepted(peer) => Event::Accepted(*peer),
            Event::AcceptFailed(failure) => Event::AcceptFailed(*failure),
            Event::HandleCloned => Event::HandleCloned,
            Event::HandleCloneFailed(fault) => Event::HandleCloneFailed(fault.clone()),
            Event::PairCreated(pair) => Event::PairCreated(pair.clone()),
            Event::PairFailed(fault) => Event::PairFailed(fault.clone()),
            Event::Registered => Event::Registered,
            Event::RegisterFailed(fault) => Event::RegisterFailed(fault.clone()),
            Event::WorkerStarted => Event::WorkerStarted,
            Event::WorkerStartFailed(fault) => Event::WorkerStartFailed(fault.clone()),
        }
    }
}

pub enum ActionView {
    JoinCluster,
    Ready,
    Accept,
    CloneHandle,
    CreatePair(SocketAddress),
    Register(WorkerPairView),
    StartWorker(MailboxesView),
    Continue,
    Stop(ListenError),
    Nothing,
}

/// What the listener wants done.
#[derive(Debug, PartialEq, Eq)]
pub enum Action {
    /// Join the cluster named [`CLUSTER_NAME`], then report `ClusterJoined`
    /// or `ClusterFailed`.
    JoinCluster,
    /// Initialization is done: tell the runtime so.
    Ready,
    /// Wait for a connection, then report `Accepted` or `AcceptFailed`.
    Accept,
    /// Clone the router handle for the new connection, then report
    /// `HandleCloned` or `HandleCloneFailed`.
    CloneHandle,
    /// Build a worker pair for the connection to this peer, then report
    /// `PairCreated` or `PairFailed`.
    CreatePair(SocketAddress),
    /// Register this pair with the router, once, then report `Registered`
    /// or `RegisterFailed`.
    Register(WorkerPair),
    /// Start the registered pair as an actor of its own under these
    /// mailboxes, then report `WorkerStarted` or `WorkerStartFailed`.
    StartWorker(Mailboxes),
    /// This connection is served: tell the runtime that the listener goes on.
    Continue,
    /// The listener has stopped: hand the error to the runtime.
    Stop(ListenError),
    /// The event answered nothing that the listener had asked for, and was
    /// ignored.
    Nothing,
}

impl View for Action {
    type V = ActionView;

    open spec fn view(&self) -> ActionView {
        match self {
            Action::JoinCluster => ActionView::JoinCluster,
            Action::Ready => ActionView::Ready,
            Action::Accept => ActionView::Accept,
            Action::CloneHandle => ActionView::CloneHandle,
            Action::CreatePair(peer) => ActionView::CreatePair(*peer),
            Action::Register(pair) => ActionView::Register(pair@),
            Action::StartWorker(mailboxes) => ActionView::StartWorker(mailboxes@),
            Action::Continue => ActionView::Continue,
            Action::Stop(error) => ActionView::Stop(*error),
            Action::Nothing => ActionView::Nothing,
        }
    }
}

impl ListenerView {
    /// The listener stops with this error, and hands it to the runtime.
    pub open spec fn stop(self, error: ListenError) -> (ListenerView, ActionView) {
        (self.at(ListenerState::Stopped(error)), ActionView::Stop(error))
    }

    /// The listener after an event, and what it then wants done.
    ///
    /// An event that answers nothing the listener had asked for changes
    /// nothing; among these is every event that reaches a stopped listener,
    /// and a pair that was built for another peer than the one accepted.
    pub open spec fn step(self, event: EventView) -> (ListenerView, ActionView) {
        match (self.state, event) {
            (ListenerState::Created, EventView::Initialize) => (
                self.at(ListenerState::JoiningCluster),
                ActionView::JoinCluster,
            ),
            (ListenerState::JoiningCluster, EventView::ClusterJoined) => (
                self.at(ListenerState::Initialized),
                ActionView::Ready,
            ),
            (ListenerState::JoiningCluster, EventView::ClusterFailed(fault)) => self.stop(
                ListenError::ClusterFailure(fault),
            ),
            (ListenerState::Initialized, EventView::Process) => (
                self.at(ListenerState::Accepting),
                ActionView::Accept,
            ),
            (ListenerState::Idle, EventView::Process) => (
                self.at(ListenerState::Accepting),
                ActionView::Accept,
            ),
            (ListenerState::Accepting, EventView::Accepted(peer)) => (
                self.at(ListenerState::CloningHandle(peer)),
                ActionView::CloneHandle,
            ),
            (ListenerState::Accepting, EventView::AcceptFailed(failure)) => self.stop(
                ListenError::AcceptFailure(TransportFailure::spec_from_io(failure)),
            ),
            (ListenerState::CloningHandle(peer), EventView::HandleCloned) => (
                self.at(ListenerState::CreatingPair(peer)),
                ActionView::CreatePair(peer),
            ),
            (ListenerState::CloningHandle(_), EventView::HandleCloneFailed(fault)) => self.stop(
                ListenError::HandleCloneFailure(fault),
            ),
            (ListenerState::CreatingPair(peer), EventView::PairCreated(pair)) => if pair.peer
                == peer {
                (self.at(ListenerState::Registering(pair)), ActionView::Register(pair))
            } else {
                (self, ActionView::Nothing)
            },
            (ListenerState::CreatingPair(_), EventView::PairFailed(fault)) => self.stop(
                ListenError::WorkerPairFailure(fault),
            ),
            (ListenerState::Registering(pair), EventView::Registered) => (
                self.at(ListenerState::StartingWorker),
                ActionView::StartWorker(pair.mailboxes(self.router_main)),
            ),
            (ListenerState::Registering(_), EventView::RegisterFailed(fault)) => self.stop(
                ListenError::RegistrationFailure(fault),
            ),
            (ListenerState::StartingWorker, EventView::WorkerStarted) => (
                self.at(ListenerState::Idle),
                ActionView::Continue,
            ),
            (ListenerState::StartingWorker, EventView::WorkerStartFailed(fault)) => self.stop(
                ListenError::WorkerStartFailure(fault),
            ),
            _ => (self, ActionView::Nothing),
        }
    }
}

#[derive(Debug)]
enum State {
    Created,
    JoiningCluster,
    Initialized,
    Idle,
    Accepting,
    CloningHandle(SocketAddress),
    CreatingPair(SocketAddress),
    Registering(WorkerPair),
    StartingWorker,
    Stopped(ListenError),
}

impl State {
    spec fn model(self) -> ListenerState {
        match self {
            State::Created => ListenerState::Created,
            State::JoiningCluster => ListenerState::JoiningCluster,
            State::Initialized => ListenerState::Initialized,
            State::Idle => ListenerState::Idle,
            State::Accepting => ListenerState::Accepting,
            State::CloningHandle(peer) => ListenerState::CloningHandle(peer),
            State::CreatingPair(peer) => ListenerState::CreatingPair(peer),
            State::Registering(pair) => ListenerState::Registering(pair@),
            State::StartingWorker => ListenerState::StartingWorker,
            State::Stopped(error) => ListenerState::Stopped(error),
        }
    }
}

/// The listener's decisions. See the head of this file for how it is run.
#[derive(Debug)]
pub struct TcpListenProcessor {
    router_main: Address,
    state: State,
}

impl View for TcpListenProcessor {
    type V = ListenerView;

    closed spec fn view(&self) -> ListenerView {
        ListenerView { router_main: self.router_main@, state: self.state.model() }
    }
}

fn stopped(error: ListenError) -> (r: (State, Action))
    ensures
        r.0.model() == ListenerState::Stopped(error),
        r.1@ == ActionView::Stop(error),
{
    (State::Stopped(error.clone()), Action::Stop(error))
}

fn transition(router_main: &Address, state: State, event: Event) -> (r: (State, Action))
    ensures
        ((ListenerView { router_main: router_main@, state: r.0.model() }), r.1@) == (ListenerView {
            router_main: router_main@,
            state: state.model(),
        }).step(event@),
{
    match state {
        State::Created => match event {
            Event::Initialize => (State::JoiningCluster, Action::JoinCluster),
            _ => (State::Created, Action::Nothing),
        },
        State::JoiningCluster => match event {
            Event::ClusterJoined => (State::Initialized, Action::Ready),
            Event::ClusterFailed(fault) => stopped(ListenError::ClusterFailure(fault)),
            _ => (State::JoiningCluster, Action::Nothing),
        },
        State::Initialized => match event {
            Event::Process => (State::Accepting, Action::Accept),
            _ => (State::Initialized, Action::Nothing),
        },
        State::Idle => match event {
            Event::Process => (State::Accepting, Action::Accept),
            _ => (State::Idle, Action::Nothing),
        },
        State::Accepting => match event {
            Event::Accepted(peer) => (State::CloningHandle(peer), Action::CloneHandle),
            Event::AcceptFailed(failure) => stopped(
                ListenError::AcceptFailure(TransportFailure::from_io(failure)),
            ),
            _ => (State::Accepting, Action::Nothing),
        },
        State::CloningHandle(peer) => match event {
            Event::HandleCloned => (State::CreatingPair(peer), Action::CreatePair(peer)),
            Event::HandleCloneFailed(fault) => stopped(ListenError::HandleCloneFailure(fault)),
            _ => (State::CloningHandle(peer), Action::Nothing),
        },
        State::CreatingPair(peer) => match event {
            Event::PairCreated(pair) => {
                if pair.peer() == peer {
                    let registered = pair.clone();
                    (State::Registering(pair), Action::Register(registered))
                } else {
                    (State::CreatingPair(peer), Action::Nothing)
                }
            },
            Event::PairFailed(fault) => stopped(ListenError::WorkerPairFailure(fault)),
            _ => (State::CreatingPair(peer), Action::Nothing),
        },
        State::Registering(pair) => match event {
            Event::Registered => {
                let mailboxes = pair.mailboxes(router_main);
                (State::StartingWorker, Action::StartWorker(mailboxes))
            },
            Event::RegisterFailed(fault) => stopped(ListenError::RegistrationFailure(fault)),
            _ => (State::Registering(pair), Action::Nothing),
        },
        State::StartingWorker => match event {
            Event::WorkerStarted => (State::Idle, Action::Continue),
            Event::WorkerStartFailed(fault) => stopped(ListenError::WorkerStartFailure(fault)),
            _ => (State::StartingWorker, Action::Nothing),
        },
        State::Stopped(error) => (State::Stopped(error), Action::Nothing),
    }
}

/// A listener that is ready to be handed to the runtime.
#[derive(Debug)]
pub struct Startup {
    pub processor: TcpListenProcessor,
    /// The mailboxes under which the runtime is to run the listener.
    pub mailboxes: Mailboxes,
    /// The address that the socket is bound to, with the port that the socket
    /// layer picked if none was asked for.
    pub local: SocketAddress,
}

/// The mailboxes of a listener: one address, to which nothing is delivered
/// and from which nothing is sent.
pub open spec fn listener_mailboxes(address: AddressView) -> MailboxesView {
    MailboxesView {
        main: MailboxView {
            address,
            incoming: AccessControlView::DenyAll,
            outgoing: AccessControlView::DenyAll,
        },
        additional: Seq::empty(),
    }
}

impl Startup {
    /// Whether this is a listener just made for the router with this main
    /// address, to run under a listener's mailboxes at `address`, on a socket
    /// bound to `local`.
    pub open spec fn is_for(
        self,
        router_main: AddressView,
        address: AddressView,
        local: SocketAddress,
    ) -> bool {
        &&& self.processor@ == ListenerView::created(router_main)
        &&& self.mailboxes@ == listener_mailboxes(address)
        &&& self.local == local
    }
}

impl TcpListenProcessor {
    /// Makes a listener of a bound socket, under an address of the caller's
    /// choosing. `bound` is what binding the socket and reading its local
    /// address came to.
    pub fn start_at(
        router_main: Address,
        bound: Result<SocketAddress, IoFailure>,
        address: Address,
    ) -> (r: Result<Startup, ListenError>)
        ensures
            bound matches Ok(local) ==> (r matches Ok(startup) && startup.is_for(
                router_main@,
                address@,
                local,
            )),
            bound matches Err(failure) ==> r == Err::<Startup, ListenError>(
                ListenError::BindFailure(TransportFailure::spec_from_io(failure)),
            ),
    {
        match bound {
            Ok(local) => Ok(
                Startup {
                    processor: TcpListenProcessor { router_main, state: State::Created },
                    mailboxes: Mailboxes::main_only(Mailbox::deny_all(address)),
                    local,
                },
            ),
            Err(failure) => Err(ListenError::BindFailure(TransportFailure::from_io(failure))),
        }
    }

    /// Makes a listener of a bound socket, under a freshly drawn address.
    /// `bound` is what binding the socket and reading its local address came
    /// to: a failure there is final, and no listener is made.
    pub fn start(router_main: Address, bound: Result<SocketAddress, IoFailure>) -> (r: Result<
        Startup,
        ListenError,
    >)
        ensures
            bound matches Ok(local) ==> (r matches Ok(startup) && startup.is_for(
                router_main@,
                startup.mailboxes@.main.address,
                local,
            ) && startup.mailboxes@.main.address.is_random_local()),
            bound matches Err(failure) ==> r == Err::<Startup, ListenError>(
                ListenError::BindFailure(TransportFailure::spec_from_io(failure)),
            ),
    {
        match bound {
            Ok(local) => TcpListenProcessor::start_at(
                router_main,
                Ok(local),
                Address::random_tagged("TcpListenProcessor"),
            ),
            Err(failure) => Err(ListenError::BindFailure(TransportFailure::from_io(failure))),
        }
    }

    /// What starting a listener comes to, once the runtime has said whether
    /// it runs the listener: the address that the socket is bound to, or the
    /// runtime's refusal.
    pub fn started(local: SocketAddress, outcome: Result<(), Fault>) -> (r: Result<
        SocketAddress,
        ListenError,
    >)
        ensures
            outcome is Ok ==> r == Ok::<SocketAddress, ListenError>(local),
            outcome matches Err(fault) ==> r == Err::<SocketAddress, ListenError>(
                ListenError::ProcessorStartFailure(fault),
            ),
    {
        match outcome {
            Ok(_) => Ok(local),
            Err(fault) => Err(ListenError::ProcessorStartFailure(fault)),
        }
    }

    /// Takes note of an event and says what is to be done next.
    pub fn step(&mut self, event: Event) -> (action: Action)
        ensures
            (final(self)@, action@) == old(self)@.step(event@),
    {
        let mut state = State::Idle;
        core::mem::swap(&mut self.state, &mut state);
        let (next, action) = transition(&self.router_main, state, event);
        self.state = next;
        action
    }

    /// The runtime schedules the listener for the first time.
    pub fn initialize(&mut self) -> (action: Action)
        ensures
            (final(self)@, action@) == old(self)@.step(EventView::Initialize),
    {
        self.step(Event::Initialize)
    }

    /// The runtime asks the listener to serve one connection.
    pub fn process(&mut self) -> (action: Action)
        ensures
            (final(self)@, action@) == old(self)@.step(EventView::Process),
    {
        self.step(Event::Process)
    }

    pub fn router_main(&self) -> (r: &Address)
        ensures
            r@ == self@.router_main,
    {
        &self.router_main
    }

    pub fn phase(&self) -> (r: Phase)
        ensures
            r == self@.state.phase(),
    {
        match &self.state {
            State::Created => Phase::Created,
            State::JoiningCluster => Phase::Created,
            State::Initialized => Phase::Initialized,
            State::Stopped(_) => Phase::Stopped,
            _ => Phase::AcceptLoop,
        }
    }

    /// The failure that stopped the listener, if it has stopped.
    pub fn failure(&self) -> (r: Option<&ListenError>)
        ensures
            r matches Some(error) ==> self@.state == ListenerState::Stopped(*error),
            r is None ==> !(self@.state is Stopped),
    {
        match &self.state {
            State::Stopped(error) => Some(error),
            _ => None,
        }
    }
}

/// Nothing is delivered to a listener and a listener sends nothing, whatever
/// its address.
pub proof fn lemma_listener_is_cut_off(address: AddressView, message: EnvelopeView)
    ensures
        !listener_mailboxes(address).is_incoming_authorized(message),
        !listener_mailboxes(address).is_outgoing_authorized(message),
{
}

/// A listener's life runs one way: from created to initialized, from there
/// into the accept loop, and from anywhere to stopped, where it ends. No
/// event takes a listener back, and none lets it skip initialization.
pub proof fn lemma_life_runs_one_way(listener: ListenerView, event: EventView)
    ensures
        ({
            let before = listener.state.phase();
            let after = listener.step(event).0.state.phase();
            match before {
                Phase::Created => after != Phase::AcceptLoop,
                Phase::Initialized => after == Phase::Initialized || after == Phase::AcceptLoop,
                Phase::AcceptLoop => after == Phase::AcceptLoop || after == Phase::Stopped,
                Phase::Stopped => after == Phase::Stopped,
            }
        }),
        listener.step(event).0.router_main == listener.router_main,
{
}

/// A listener waits for one connection at a time: it asks for a connection
/// only when the runtime tells it to while it is busy with none, and not
/// again until that connection is served.
pub proof fn lemma_one_accept_at_a_time(listener: ListenerView, event: EventView)
    ensures
        listener.step(event).1 is Accept ==> ({
            &&& listener.state is Initialized || listener.state is Idle
            &&& event is Process
            &&& listener.step(event).0.state is Accepting
        }),
        listener.state.phase() == Phase::AcceptLoop && !(listener.state is Idle) ==> !(listener.step(
            event,
        ).1 is Accept),
{
}

/// A listener stops exactly when it hands an error to the runtime, and the
/// error it hands over is the one it has stopped with.
pub proof fn lemma_stops_are_reported(listener: ListenerView, event: EventView)
    requires
        !(listener.state is Stopped),
    ensures
        listener.step(event).1 matches ActionView::Stop(error) ==> listener.step(event).0.state
            == ListenerState::Stopped(error),
        listener.step(event).0.state matches ListenerState::Stopped(error) ==> listener.step(
            event,
        ).1 == ActionView::Stop(error),
{
}

} // verus!
