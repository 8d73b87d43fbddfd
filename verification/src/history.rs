//! What holds of a listener over a whole run of events.

use crate::address::AddressView;
use crate::endpoint::SocketAddress;
use crate::error::{Fault, ListenError};
use crate::listener::{
    Action, ActionView, Event, EventView, ListenerState, ListenerView, TcpListenProcessor,
};
use crate::mailbox::MailboxesView;
use crate::worker_pair::WorkerPairView;
use vstd::prelude::*;

verus! {

impl ListenerView {
    /// The listener after a run of events, and what it wanted done after
    /// each of them.
    pub open spec fn run(self, events: Seq<EventView>) -> (ListenerView, Seq<ActionView>)
        decreases events.len(),
    {
        if events.len() == 0 {
            (self, Seq::empty())
        } else {
            let (before, actions) = self.run(events.drop_last());
            let (after, action) = before.step(events.last());
            (after, actions.push(action))
        }
    }

    /// The peers of the connections that the listener took on during a run
    /// of events, in the order in which they arrived.
    pub open spec fn accepted(self, events: Seq<EventView>) -> Seq<SocketAddress>
        decreases events.len(),
    {
        if events.len() == 0 {
            Seq::empty()
        } else {
            let earlier = self.accepted(events.drop_last());
            match (self.run(events.drop_last()).0.state, events.last()) {
                (ListenerState::Accepting, EventView::Accepted(peer)) => earlier.push(peer),
                _ => earlier,
            }
        }
    }
}

/// What a row of events is, one by one.
pub open spec fn event_views(events: Seq<Event>) -> Seq<EventView> {
    events.map_values(|event: Event| event@)
}

/// What a row of actions is, one by one.
pub open spec fn action_views(actions: Seq<Action>) -> Seq<ActionView> {
    actions.map_values(|action: Action| action@)
}

impl TcpListenProcessor {
    /// Takes note of a run of events, one after the other, and says what was
    /// to be done after each of them.
    pub fn replay(&mut self, events: &Vec<Event>) -> (actions: Vec<Action>)
        ensures
            (final(self)@, action_views(actions@)) == old(self)@.run(event_views(events@)),
    {
        let ghost start = self@;
        let mut actions: Vec<Action> = Vec::new();
        let mut i: usize = 0;
        assert(event_views(events@).subrange(0, 0) =~= Seq::<EventView>::empty());
        assert(action_views(actions@) =~= Seq::<ActionView>::empty());
        while i < events.len()
            invariant
                i <= events.len(),
                (self@, action_views(actions@)) == start.run(
                    event_views(events@).subrange(0, i as int),
                ),
            decreases events.len() - i,
        {
            let ghost before = action_views(actions@);
            let action = self.step(events[i].clone());
            proof {
                lemma_run_push(start, event_views(events@).subrange(0, i as int), events@[i as int]@);
                assert(event_views(events@).subrange(0, i as int).push(events@[i as int]@)
                    =~= event_views(events@).subrange(0, i + 1));
            }
            let ghost added = action@;
            actions.push(action);
            assert(action_views(actions@) =~= before.push(added));
            i += 1;
        }
        assert(event_views(events@).subrange(0, i as int) =~= event_views(events@));
        actions
    }
}

/// The pairs that the router was asked to register, in the order of asking.
pub open spec fn registrations(actions: Seq<ActionView>) -> Seq<WorkerPairView>
    decreases actions.len(),
{
    if actions.len() == 0 {
        Seq::empty()
    } else {
        let earlier = registrations(actions.drop_last());
        match actions.last() {
            ActionView::Register(pair) => earlier.push(pair),
            _ => earlier,
        }
    }
}

/// The mailboxes of the pairs that the runtime was asked to start, in the
/// order of asking.
pub open spec fn started_workers(actions: Seq<ActionView>) -> Seq<MailboxesView>
    decreases actions.len(),
{
    if actions.len() == 0 {
        Seq::empty()
    } else {
        let earlier = started_workers(actions.drop_last());
        match actions.last() {
            ActionView::StartWorker(mailboxes) => earlier.push(mailboxes),
            _ => earlier,
        }
    }
}

/// How often the listener asked to join its cluster.
pub open spec fn cluster_joins(actions: Seq<ActionView>) -> nat
    decreases actions.len(),
{
    if actions.len() == 0 {
        0
    } else {
        let earlier = cluster_joins(actions.drop_last());
        if actions.last() is JoinCluster {
            earlier + 1
        } else {
            earlier
        }
    }
}

/// The events of one connection that is served without a failure.
pub open spec fn connection(pair: WorkerPairView) -> Seq<EventView> {
    seq![
        EventView::Process,
        EventView::Accepted(pair.peer),
        EventView::HandleCloned,
        EventView::PairCreated(pair),
        EventView::Registered,
        EventView::WorkerStarted,
    ]
}

/// The events of connections that are served one after the other without a
/// failure.
pub open spec fn connections(pairs: Seq<WorkerPairView>) -> Seq<EventView>
    decreases pairs.len(),
{
    if pairs.len() == 0 {
        Seq::empty()
    } else {
        connections(pairs.drop_last()) + connection(pairs.last())
    }
}

/// What the listener wants done, step by step, while it serves one connection
/// without a failure.
pub open spec fn service(pair: WorkerPairView, router_main: AddressView) -> Seq<ActionView> {
    seq![
        ActionView::Accept,
        ActionView::CloneHandle,
        ActionView::CreatePair(pair.peer),
        ActionView::Register(pair),
        ActionView::StartWorker(pair.mailboxes(router_main)),
        ActionView::Continue,
    ]
}

/// What the listener wants done while it serves connections one after the
/// other without a failure.
pub open spec fn services(pairs: Seq<WorkerPairView>, router_main: AddressView) -> Seq<ActionView>
    decreases pairs.len(),
{
    if pairs.len() == 0 {
        Seq::empty()
    } else {
        services(pairs.drop_last(), router_main) + service(pairs.last(), router_main)
    }
}

/// One more event takes the listener one step further and adds one action.
pub proof fn lemma_run_push(listener: ListenerView, events: Seq<EventView>, event: EventView)
    ensures
        listener.run(events.push(event)) == ({
            let (before, actions) = listener.run(events);
            let (after, action) = before.step(event);
            (after, actions.push(action))
        }),
{
    assert(events.push(event).drop_last() =~= events);
}

/// One more action adds the pair that it asks to register, the mailboxes that
/// it asks to start, or neither.
pub proof fn lemma_actions_push(actions: Seq<ActionView>, action: ActionView)
    ensures
        registrations(actions.push(action)) == (match action {
            ActionView::Register(pair) => registrations(actions).push(pair),
            _ => registrations(actions),
        }),
        started_workers(actions.push(action)) == (match action {
            ActionView::StartWorker(mailboxes) => started_workers(actions).push(mailboxes),
            _ => started_workers(actions),
        }),
{
    assert(actions.push(action).drop_last() =~= actions);
}

/// A run of events can be cut anywhere: the second part goes on from where
/// the first part left the listener.
pub proof fn lemma_run_concat(listener: ListenerView, first: Seq<EventView>, second: Seq<EventView>)
    ensures
        listener.run(first + second) == ({
            let (between, before) = listener.run(first);
            let (after, since) = between.run(second);
            (after, before + since)
        }),
    decreases second.len(),
{
    let (between, before) = listener.run(first);
    if second.len() == 0 {
        assert(first + second =~= first);
        assert(before + Seq::<ActionView>::empty() =~= before);
    } else {
        lemma_run_concat(listener, first, second.drop_last());
        assert((first + second).drop_last() =~= first + second.drop_last());
        let (middle, since) = between.run(second.drop_last());
        let (after, action) = middle.step(second.last());
        assert((before + since).push(action) =~= before + since.push(action));
    }
}

/// The registrations asked for in two runs of actions, one after the other,
/// are those of the first followed by those of the second.
pub proof fn lemma_registrations_concat(first: Seq<ActionView>, second: Seq<ActionView>)
    ensures
        registrations(first + second) == registrations(first) + registrations(second),
    decreases second.len(),
{
    if second.len() == 0 {
        assert(first + second =~= first);
        assert(registrations(first) + Seq::<WorkerPairView>::empty() =~= registrations(first));
    } else {
        lemma_registrations_concat(first, second.drop_last());
        assert((first + second).drop_last() =~= first + second.drop_last());
        let earlier = registrations(second.drop_last());
        match second.last() {
            ActionView::Register(pair) => {
                assert((registrations(first) + earlier).push(pair) =~= registrations(first)
                    + earlier.push(pair));
            },
            _ => {},
        }
    }
}

/// The workers started in two runs of actions, one after the other, are those
/// of the first followed by those of the second.
pub proof fn lemma_started_workers_concat(first: Seq<ActionView>, second: Seq<ActionView>)
    ensures
        started_workers(first + second) == started_workers(first) + started_workers(second),
    decreases second.len(),
{
    if second.len() == 0 {
        assert(first + second =~= first);
        assert(started_workers(first) + Seq::<MailboxesView>::empty() =~= started_workers(first));
    } else {
        lemma_started_workers_concat(first, second.drop_last());
        assert((first + second).drop_last() =~= first + second.drop_last());
        let earlier = started_workers(second.drop_last());
        match second.last() {
            ActionView::StartWorker(mailboxes) => {
                assert((started_workers(first) + earlier).push(mailboxes) =~= started_workers(first)
                    + earlier.push(mailboxes));
            },
            _ => {},
        }
    }
}

/// A listener that is between two connections, or has served none yet, serves
/// a connection in six steps: it accepts, has the router handle cloned, has a
/// pair built for the peer, has the pair registered, has it started under its
/// mailboxes, and goes on. It is then between two connections again.
pub proof fn lemma_connection_is_served(listener: ListenerView, pair: WorkerPairView)
    requires
        listener.state is Idle || listener.state is Initialized,
    ensures
        listener.run(connection(pair)) == (
            listener.at(ListenerState::Idle),
            service(pair, listener.router_main),
        ),
        registrations(service(pair, listener.router_main)) == seq![pair],
        started_workers(service(pair, listener.router_main)) == seq![
            pair.mailboxes(listener.router_main),
        ],
{
    let e0 = Seq::<EventView>::empty();
    let e1 = e0.push(EventView::Process);
    let e2 = e1.push(EventView::Accepted(pair.peer));
    let e3 = e2.push(EventView::HandleCloned);
    let e4 = e3.push(EventView::PairCreated(pair));
    let e5 = e4.push(EventView::Registered);
    let e6 = e5.push(EventView::WorkerStarted);
    assert(e6 =~= connection(pair));
    lemma_run_push(listener, e0, EventView::Process);
    lemma_run_push(listener, e1, EventView::Accepted(pair.peer));
    lemma_run_push(listener, e2, EventView::HandleCloned);
    lemma_run_push(listener, e3, EventView::PairCreated(pair));
    lemma_run_push(listener, e4, EventView::Registered);
    lemma_run_push(listener, e5, EventView::WorkerStarted);
    assert(listener.run(e6).1 =~= service(pair, listener.router_main));

    let a0 = Seq::<ActionView>::empty();
    let a1 = a0.push(ActionView::Accept);
    let a2 = a1.push(ActionView::CloneHandle);
    let a3 = a2.push(ActionView::CreatePair(pair.peer));
    let a4 = a3.push(ActionView::Register(pair));
    let a5 = a4.push(ActionView::StartWorker(pair.mailboxes(listener.router_main)));
    let a6 = a5.push(ActionView::Continue);
    assert(a6 =~= service(pair, listener.router_main));
    lemma_actions_push(a0, ActionView::Accept);
    lemma_actions_push(a1, ActionView::CloneHandle);
    lemma_actions_push(a2, ActionView::CreatePair(pair.peer));
    lemma_actions_push(a3, ActionView::Register(pair));
    lemma_actions_push(a4, ActionView::StartWorker(pair.mailboxes(listener.router_main)));
    lemma_actions_push(a5, ActionView::Continue);
    assert(registrations(a6) =~= seq![pair]);
    assert(started_workers(a6) =~= seq![pair.mailboxes(listener.router_main)]);
}

/// Connections that are served without a failure leave the listener between
/// two connections, and the listener wants the six steps done for each in
/// turn and nothing else. So for each connection a pair is built once, the
/// router is asked once to register it, and the runtime once to start it
/// under its mailboxes, all in the order in which the connections arrived:
/// the registrations are as many as the connections, and as distinct as
/// their pairs.
pub proof fn lemma_connections_are_served(listener: ListenerView, pairs: Seq<WorkerPairView>)
    requires
        listener.state is Idle || listener.state is Initialized,
    ensures
        ({
            let (after, actions) = listener.run(connections(pairs));
            &&& after == if pairs.len() == 0 {
                listener
            } else {
                listener.at(ListenerState::Idle)
            }
            &&& actions == services(pairs, listener.router_main)
            &&& actions.len() == 6 * pairs.len()
            &&& registrations(actions) == pairs
            &&& started_workers(actions) == pairs.map_values(
                |pair: WorkerPairView| pair.mailboxes(listener.router_main),
            )
        }),
    decreases pairs.len(),
{
    let mailboxes = |pair: WorkerPairView| pair.mailboxes(listener.router_main);
    if pairs.len() == 0 {
        assert(registrations(Seq::<ActionView>::empty()) =~= pairs);
        assert(started_workers(Seq::<ActionView>::empty()) =~= pairs.map_values(mailboxes));
    } else {
        let earlier = pairs.drop_last();
        let last = pairs.last();
        lemma_connections_are_served(listener, earlier);
        let (between, before) = listener.run(connections(earlier));
        lemma_run_concat(listener, connections(earlier), connection(last));
        lemma_connection_is_served(between, last);
        let since = service(last, listener.router_main);
        lemma_registrations_concat(before, since);
        lemma_started_workers_concat(before, since);
        assert(earlier.push(last) =~= pairs);
        assert(registrations(before) + seq![last] =~= pairs);
        assert(started_workers(before) + seq![mailboxes(last)] =~= pairs.map_values(mailboxes));
    }
}

/// Nothing moves a stopped listener, and it wants nothing done.
pub proof fn lemma_stopped_is_final(listener: ListenerView, events: Seq<EventView>)
    requires
        listener.state is Stopped,
    ensures
        ({
            let (after, actions) = listener.run(events);
            &&& after == listener
            &&& actions.len() == events.len()
            &&& forall|i: int| 0 <= i < actions.len() ==> actions[i] == ActionView::Nothing
            &&& registrations(actions) == Seq::<WorkerPairView>::empty()
            &&& started_workers(actions) == Seq::<MailboxesView>::empty()
        }),
    decreases events.len(),
{
    if events.len() > 0 {
        lemma_stopped_is_final(listener, events.drop_last());
        let (before, earlier) = listener.run(events.drop_last());
        assert(earlier.push(ActionView::Nothing).drop_last() =~= earlier);
    }
}

/// A registration that fails stops the listener for good: whatever happens
/// afterwards, the listener asks for nothing more. The registrations that it
/// asked for before stay as they were and none is added; the pair whose
/// registration failed is never started, and no other pair is started either.
pub proof fn lemma_failed_registration_affects_no_other(
    listener: ListenerView,
    history: Seq<EventView>,
    fault: Fault,
    rest: Seq<EventView>,
)
    requires
        listener.run(history).0.state is Registering,
    ensures
        ({
            let before = listener.run(history);
            let after = listener.run(history.push(EventView::RegisterFailed(fault)) + rest);
            &&& after.0 == before.0.at(
                ListenerState::Stopped(ListenError::RegistrationFailure(fault)),
            )
            &&& after.1.len() == before.1.len() + 1 + rest.len()
            &&& after.1[before.1.len() as int] == ActionView::Stop(
                ListenError::RegistrationFailure(fault),
            )
            &&& forall|i: int|
                before.1.len() < i < after.1.len() ==> after.1[i] == ActionView::Nothing
            &&& registrations(after.1) == registrations(before.1)
            &&& started_workers(after.1) == started_workers(before.1)
        }),
{
    let failed = history.push(EventView::RegisterFailed(fault));
    let (at_failure, before) = listener.run(history);
    let stop = ActionView::Stop(ListenError::RegistrationFailure(fault));
    lemma_run_push(listener, history, EventView::RegisterFailed(fault));
    let (stopped, until) = listener.run(failed);
    assert(until == before.push(stop));
    assert(until.drop_last() =~= before);
    lemma_run_concat(listener, failed, rest);
    lemma_stopped_is_final(stopped, rest);
    let since = stopped.run(rest).1;
    lemma_registrations_concat(until, since);
    lemma_started_workers_concat(until, since);
    assert(registrations(until) + Seq::<WorkerPairView>::empty() =~= registrations(until));
    assert(started_workers(until) + Seq::<MailboxesView>::empty() =~= started_workers(until));
}

/// How the peers of the registrations stand to the peers accepted, given
/// where the listener stands: they are the same, but that the latest
/// connection is missing while its pair is not built yet, and may be missing
/// for good once the listener has stopped.
pub open spec fn registrations_keep_pace(
    state: ListenerState,
    registered: Seq<SocketAddress>,
    accepted: Seq<SocketAddress>,
) -> bool {
    match state {
        ListenerState::CloningHandle(peer) => accepted == registered.push(peer),
        ListenerState::CreatingPair(peer) => accepted == registered.push(peer),
        ListenerState::Stopped(_) => registered == accepted || (accepted.len() > 0 && registered
            == accepted.drop_last()),
        _ => registered == accepted,
    }
}

/// The router is asked to register the connections in the order in which
/// they arrived, each of them once and none before its turn: after any run of
/// events, the peers of the registrations asked for are the peers of the
/// connections accepted, the latest left out as long as its pair is not
/// built. This is said of a listener that does not start out in the middle of
/// having a pair built.
pub proof fn lemma_registrations_follow_accepts(listener: ListenerView, events: Seq<EventView>)
    requires
        !(listener.state is CloningHandle),
        !(listener.state is CreatingPair),
    ensures
        registrations_keep_pace(
            listener.run(events).0.state,
            registrations(listener.run(events).1).map_values(|pair: WorkerPairView| pair.peer),
            listener.accepted(events),
        ),
    decreases events.len(),
{
    let peer_of = |pair: WorkerPairView| pair.peer;
    if events.len() == 0 {
        assert(registrations(Seq::<ActionView>::empty()).map_values(peer_of) =~= Seq::<
            SocketAddress,
        >::empty());
    } else {
        lemma_registrations_follow_accepts(listener, events.drop_last());
        let (before, earlier) = listener.run(events.drop_last());
        let (after, action) = before.step(events.last());
        let registered = registrations(earlier).map_values(peer_of);
        let accepted = listener.accepted(events.drop_last());
        lemma_actions_push(earlier, action);
        match action {
            ActionView::Register(pair) => {
                assert(registrations(earlier).push(pair).map_values(peer_of) =~= registered.push(
                    pair.peer,
                ));
            },
            _ => {},
        }
        match before.state {
            ListenerState::CloningHandle(peer) => {
                assert(registered.push(peer).drop_last() =~= registered);
            },
            ListenerState::CreatingPair(peer) => {
                assert(registered.push(peer).drop_last() =~= registered);
            },
            _ => {},
        }
    }
}

/// A listener asks to join its cluster at most once, and only if it starts
/// out as just created.
pub proof fn lemma_cluster_is_joined_once(listener: ListenerView, events: Seq<EventView>)
    ensures
        cluster_joins(listener.run(events).1) <= 1,
        !(listener.state is Created) ==> cluster_joins(listener.run(events).1) == 0,
        listener.run(events).0.state is Created ==> listener.state is Created && cluster_joins(
            listener.run(events).1,
        ) == 0,
    decreases events.len(),
{
    if events.len() > 0 {
        lemma_cluster_is_joined_once(listener, events.drop_last());
        let (before, earlier) = listener.run(events.drop_last());
        let (after, action) = before.step(events.last());
        assert(earlier.push(action).drop_last() =~= earlier);
    }
}

} // verus!
