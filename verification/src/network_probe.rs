//! The walk over all nodes of the network, probing one after the other.

use crate::route::copy_bytes;
use vstd::prelude::*;
use vstd::string::*;

verus! {

/// The pause after each probe, in milliseconds.
pub const PROBE_PAUSE_MILLIS: u64 = 5000;

/// Where the walk stands.
#[derive(Debug, PartialEq, Eq, Structural, Clone, Copy)]
pub enum Phase {
    /// The walk is about to turn to the next node.
    Ready,
    /// A probe is on its way.
    Probing,
    /// The walk pauses.
    Pausing,
    /// The walk is over.
    Over,
}

/// What has happened.
#[derive(Debug, PartialEq, Eq, Structural, Clone, Copy)]
pub enum ProbeEvent {
    /// The walk begins.
    Begin,
    /// The probe of a node is over, whether or not it could be sent, and the walk has been cancelled
    /// by then or not.
    Probed { cancelled: bool },
    /// The pause has passed.
    Paused,
}

/// What is to be done next.
#[derive(Debug)]
pub enum ProbeAction {
    /// Probe this node.
    Probe { node: Vec<u8> },
    /// Pause for so many milliseconds.
    Pause { millis: u64 },
    /// Nothing: the walk was cancelled.
    Stopped,
    /// Nothing: all nodes have been probed.
    Finished,
    /// Wait for what was asked for.
    Wait,
}

/// What a `ProbeAction` says.
#[verifier::ext_equal]
pub enum ProbeActionView {
    Probe { node: Seq<u8> },
    Pause { millis: u64 },
    Stopped,
    Finished,
    Wait,
}

impl View for ProbeAction {
    type V = ProbeActionView;

    open spec fn view(&self) -> ProbeActionView {
        match self {
            ProbeAction::Probe { node } => ProbeActionView::Probe { node: node@ },
            ProbeAction::Pause { millis } => ProbeActionView::Pause { millis: *millis },
            ProbeAction::Stopped => ProbeActionView::Stopped,
            ProbeAction::Finished => ProbeActionView::Finished,
            ProbeAction::Wait => ProbeActionView::Wait,
        }
    }
}

/// A walk over the nodes of the network.
#[derive(Debug)]
pub struct NetworkProbe {
    nodes: Vec<Vec<u8>>,
    next: usize,
    phase: Phase,
}

/// What a `NetworkProbe` holds.
#[verifier::ext_equal]
pub struct WalkView {
    /// The nodes, in the order in which they are probed.
    pub nodes: Seq<Seq<u8>>,
    /// How many of them the walk has turned to.
    pub next: nat,
    pub phase: Phase,
}

impl View for NetworkProbe {
    type V = WalkView;

    closed spec fn view(&self) -> WalkView {
        WalkView {
            nodes: crate::params::byte_strings_view(self.nodes@),
            next: self.next as nat,
            phase: self.phase,
        }
    }
}

/// Turns to the next node.
pub open spec fn turn(w: WalkView) -> (WalkView, ProbeActionView) {
    if w.next < w.nodes.len() {
        (
            WalkView { next: w.next + 1, phase: Phase::Probing, ..w },
            ProbeActionView::Probe { node: w.nodes[w.next as int] },
        )
    } else {
        (WalkView { phase: Phase::Over, ..w }, ProbeActionView::Finished)
    }
}

/// What follows an event.
pub open spec fn walk_transition(w: WalkView, event: ProbeEvent) -> (WalkView, ProbeActionView) {
    match (w.phase, event) {
        (Phase::Ready, ProbeEvent::Begin) => turn(w),
        (Phase::Probing, ProbeEvent::Probed { cancelled }) => if cancelled {
            (WalkView { phase: Phase::Over, ..w }, ProbeActionView::Stopped)
        } else {
            (
                WalkView { phase: Phase::Pausing, ..w },
                ProbeActionView::Pause { millis: 5000 },
            )
        },
        (Phase::Pausing, ProbeEvent::Paused) => turn(w),
        _ => (w, ProbeActionView::Wait),
    }
}

/// The walk after some events.
pub open spec fn walk_after(w: WalkView, events: Seq<ProbeEvent>) -> WalkView
    decreases events.len(),
{
    if events.len() == 0 {
        w
    } else {
        walk_transition(walk_after(w, events.drop_last()), events.last()).0
    }
}

/// The nodes that are probed in the course of some events.
pub open spec fn probed_nodes(w: WalkView, events: Seq<ProbeEvent>) -> Seq<Seq<u8>>
    decreases events.len(),
{
    if events.len() == 0 {
        Seq::empty()
    } else {
        let front = probed_nodes(w, events.drop_last());
        match walk_transition(walk_after(w, events.drop_last()), events.last()).1 {
            ProbeActionView::Probe { node } => front.push(node),
            _ => front,
        }
    }
}

/// A walk that has not begun.
pub open spec fn fresh_walk(nodes: Seq<Seq<u8>>) -> WalkView {
    WalkView { nodes, next: 0, phase: Phase::Ready }
}

/// Whatever happens, the nodes are probed in their order, none twice and none left out in between.
pub proof fn law_nodes_are_probed_in_order(nodes: Seq<Seq<u8>>, events: Seq<ProbeEvent>)
    ensures
        walk_after(fresh_walk(nodes), events).nodes == nodes,
        walk_after(fresh_walk(nodes), events).next <= nodes.len(),
        probed_nodes(fresh_walk(nodes), events) == nodes.take(
            walk_after(fresh_walk(nodes), events).next as int,
        ),
    decreases events.len(),
{
    let w = fresh_walk(nodes);
    if events.len() == 0 {
        assert(nodes.take(0) =~= Seq::<Seq<u8>>::empty());
    } else {
        law_nodes_are_probed_in_order(nodes, events.drop_last());
        let before = walk_after(w, events.drop_last());
        if before.next < nodes.len() {
            assert(nodes.take(before.next as int).push(nodes[before.next as int]) =~= nodes.take(
                before.next as int + 1,
            ));
        }
    }
}

/// A walk that finishes has probed every node.
pub proof fn law_finished_walk_is_complete(
    nodes: Seq<Seq<u8>>,
    events: Seq<ProbeEvent>,
    event: ProbeEvent,
)
    requires
        walk_transition(walk_after(fresh_walk(nodes), events), event).1 is Finished,
    ensures
        probed_nodes(fresh_walk(nodes), events) == nodes,
{
    law_nodes_are_probed_in_order(nodes, events);
    assert(nodes.take(nodes.len() as int) =~= nodes);
}

/// A walk that is over does nothing more.
pub proof fn law_over_is_final(w: WalkView, event: ProbeEvent)
    requires
        w.phase is Over,
    ensures
        walk_transition(w, event) == (w, ProbeActionView::Wait),
{
}

/// A walk that is cancelled while a probe is on its way stops there.
pub proof fn law_cancel_stops_the_walk(w: WalkView)
    requires
        w.phase is Probing,
    ensures
        walk_transition(w, ProbeEvent::Probed { cancelled: true }).0.phase is Over,
        walk_transition(w, ProbeEvent::Probed { cancelled: true }).1 is Stopped,
{
}

/// A walk that begins or has paused turns to the next node, if there is one, and is over else. After
/// a probe it pauses for five seconds, or stops where it was cancelled. The nodes never change, and
/// any other event changes nothing.
pub proof fn law_walk_goes_node_by_node(w: WalkView, event: ProbeEvent)
    ensures
        walk_transition(w, event).0.nodes == w.nodes,
        (w.phase is Ready && event is Begin) || (w.phase is Pausing && event is Paused) ==> {
            &&& w.next < w.nodes.len() ==> {
                &&& walk_transition(w, event).1 == (ProbeActionView::Probe {
                    node: w.nodes[w.next as int],
                })
                &&& walk_transition(w, event).0.next == w.next + 1
                &&& walk_transition(w, event).0.phase is Probing
            }
            &&& w.next >= w.nodes.len() ==> {
                &&& walk_transition(w, event).1 is Finished
                &&& walk_transition(w, event).0.next == w.next
                &&& walk_transition(w, event).0.phase is Over
            }
        },
        w.phase is Probing ==> (event matches ProbeEvent::Probed { cancelled } ==> {
            &&& walk_transition(w, event).0.next == w.next
            &&& !cancelled ==> walk_transition(w, event).1 == (ProbeActionView::Pause {
                millis: 5000,
            }) && walk_transition(w, event).0.phase is Pausing
            &&& cancelled ==> walk_transition(w, event).1 is Stopped && walk_transition(
                w,
                event,
            ).0.phase is Over
        }),
        !((w.phase is Ready && event is Begin) || (w.phase is Pausing && event is Paused) || (
        w.phase is Probing && event is Probed)) ==> walk_transition(w, event) == (
            w,
            ProbeActionView::Wait,
        ),
        fresh_walk(w.nodes).nodes == w.nodes,
        fresh_walk(w.nodes).next == 0,
        fresh_walk(w.nodes).phase is Ready,
{
}

/// What is held of an action is what it says.
pub proof fn law_views_show_probe_actions_as_they_are(n: Vec<u8>, millis: u64)
    ensures
        (ProbeAction::Probe { node: n })@ == (ProbeActionView::Probe { node: n@ }),
        (ProbeAction::Pause { millis })@ == (ProbeActionView::Pause { millis }),
        ProbeAction::Stopped@ == ProbeActionView::Stopped,
        ProbeAction::Finished@ == ProbeActionView::Finished,
        ProbeAction::Wait@ == ProbeActionView::Wait,
{
}

/// Whether events come while the walk is cancelled: the end of every probe finds it so.
pub open spec fn while_cancelled(events: Seq<ProbeEvent>) -> bool {
    forall|i: int|
        0 <= i < events.len() ==> ((#[trigger] events[i]) matches ProbeEvent::Probed { cancelled }
            ==> cancelled)
}

/// Once a walk has been cancelled it probes at most one more node, wherever it stood, and none
/// where a probe was on its way.
pub proof fn law_cancelled_walk_probes_one_more_at_most(w: WalkView, events: Seq<ProbeEvent>)
    requires
        while_cancelled(events),
    ensures
        probed_nodes(w, events).len() <= 1,
        w.phase is Probing || w.phase is Over ==> probed_nodes(w, events).len() == 0,
{
    lemma_cancelled_walk(w, events);
}

proof fn lemma_cancelled_walk(w: WalkView, events: Seq<ProbeEvent>)
    requires
        while_cancelled(events),
    ensures
        ({
            let after = walk_after(w, events);
            let count = probed_nodes(w, events).len();
            if w.phase is Probing || w.phase is Over {
                (after.phase is Probing || after.phase is Over) && count == 0
            } else {
                ||| after.phase == w.phase && count == 0
                ||| (after.phase is Probing || after.phase is Over) && count <= 1
            }
        }),
    decreases events.len(),
{
    if events.len() > 0 {
        let front = events.drop_last();
        assert forall|i: int| 0 <= i < front.len() implies ((
        #[trigger] front[i]) matches ProbeEvent::Probed { cancelled } ==> cancelled) by {
            assert(front[i] == events[i]);
        }
        lemma_cancelled_walk(w, front);
        assert(events.last() == events[events.len() - 1]);
    }
}

/// Whether the walk over the network has been stopped. One switch serves all walks.
#[derive(Debug)]
pub struct ProbeSwitch {
    cancelled: bool,
}

impl View for ProbeSwitch {
    type V = bool;

    closed spec fn view(&self) -> bool {
        self.cancelled
    }
}

/// What is done with the switch.
pub enum SwitchUse {
    /// The walk is stopped.
    Stop,
    /// A walk is asked for; it begins only where the graph could be brought up to date.
    Begin { synced: bool },
}

/// Whether the walk is cancelled after a use of the switch.
pub open spec fn switched(cancelled: bool, u: SwitchUse) -> bool {
    match u {
        SwitchUse::Stop => true,
        SwitchUse::Begin { synced } => if synced {
            false
        } else {
            cancelled
        },
    }
}

/// Whether the walk is cancelled after some uses of the switch.
pub open spec fn switched_by_all(cancelled: bool, uses: Seq<SwitchUse>) -> bool
    decreases uses.len(),
{
    if uses.len() == 0 {
        cancelled
    } else {
        switched(switched_by_all(cancelled, uses.drop_last()), uses.last())
    }
}

/// Whether no walk begins in the course of some uses of the switch.
pub open spec fn no_walk_begins(uses: Seq<SwitchUse>) -> bool {
    forall|i: int|
        0 <= i < uses.len() ==> !((#[trigger] uses[i]) matches SwitchUse::Begin { synced } && synced)
}

/// Whatever was done before, a walk that begins is not cancelled: an earlier stop does not stop it.
/// When its first probe is over, and it has not been stopped since, it goes on.
pub proof fn law_earlier_stop_does_not_stop_a_new_walk(
    cancelled: bool,
    uses: Seq<SwitchUse>,
    w: WalkView,
)
    requires
        w.phase is Probing,
    ensures
        !switched_by_all(cancelled, uses.push(SwitchUse::Begin { synced: true })),
        walk_transition(
            w,
            ProbeEvent::Probed {
                cancelled: switched_by_all(
                    cancelled,
                    uses.push(SwitchUse::Begin { synced: true }),
                ),
            },
        ).1 is Pause,
{
    assert(uses.push(SwitchUse::Begin { synced: true }).drop_last() =~= uses);
}

/// A walk that is refused leaves the switch as it was.
pub proof fn law_refused_walk_leaves_the_switch(cancelled: bool, uses: Seq<SwitchUse>)
    ensures
        switched_by_all(cancelled, uses.push(SwitchUse::Begin { synced: false }))
            == switched_by_all(cancelled, uses),
{
    assert(uses.push(SwitchUse::Begin { synced: false }).drop_last() =~= uses);
}

/// Once stopped, the walk stays cancelled until another one begins, however often it is stopped
/// again or another walk is refused.
pub proof fn law_stop_lasts_until_a_walk_begins(uses: Seq<SwitchUse>)
    requires
        no_walk_begins(uses),
    ensures
        switched_by_all(switched(false, SwitchUse::Stop), uses),
    decreases uses.len(),
{
    if uses.len() > 0 {
        let front = uses.drop_last();
        assert forall|i: int| 0 <= i < front.len() implies !((
        #[trigger] front[i]) matches SwitchUse::Begin { synced } && synced) by {
            assert(front[i] == uses[i]);
        }
        law_stop_lasts_until_a_walk_begins(front);
        assert(uses.last() == uses[uses.len() - 1]);
    }
}

/// A stop cancels, a walk that begins is not cancelled, and one that is refused changes nothing.
pub proof fn law_switch(cancelled: bool)
    ensures
        switched(cancelled, SwitchUse::Stop),
        !switched(cancelled, SwitchUse::Begin { synced: true }),
        switched(cancelled, SwitchUse::Begin { synced: false }) == cancelled,
{
}

impl ProbeSwitch {
    /// A switch that no one has used.
    pub fn new() -> (r: Self)
        ensures
            !r@,
    {
        ProbeSwitch { cancelled: false }
    }

    /// Stops the walk.
    pub fn stop_probe(&mut self)
        ensures
            final(self)@ == switched(old(self)@, SwitchUse::Stop),
    {
        self.cancelled = true;
    }

    /// Begins a walk over the given nodes, which is not cancelled. No nodes are given where the graph
    /// could not be brought up to date: the walk is then refused with an error, and the switch is
    /// left as it was.
    pub fn begin(&mut self, nodes: Option<Vec<Vec<u8>>>) -> (r: Result<NetworkProbe, String>)
        ensures
            final(self)@ == switched(old(self)@, SwitchUse::Begin { synced: nodes is Some }),
            match nodes {
                Some(nodes) => r is Ok && r->Ok_0@ == fresh_walk(
                    crate::params::byte_strings_view(nodes@),
                ),
                None => r is Err && r->Err_0@ == "failed to sync graph"@,
            },
    {
        match nodes {
            Some(nodes) => {
                self.cancelled = false;
                Ok(NetworkProbe::new(nodes))
            },
            None => Err("failed to sync graph".to_owned()),
        }
    }

    /// What a walk is told when a probe is over.
    pub fn probed(&self) -> (r: ProbeEvent)
        ensures
            r == (ProbeEvent::Probed { cancelled: self@ }),
    {
        ProbeEvent::Probed { cancelled: self.cancelled }
    }
}

impl NetworkProbe {
    /// A walk over the given nodes.
    pub fn new(nodes: Vec<Vec<u8>>) -> (r: Self)
        ensures
            r@ == fresh_walk(crate::params::byte_strings_view(nodes@)),
    {
        NetworkProbe { nodes, next: 0, phase: Phase::Ready }
    }

    fn turn_to_next(&mut self) -> (r: ProbeAction)
        ensures
            (final(self)@, r@) == turn(old(self)@),
    {
        if self.next < self.nodes.len() {
            let node = copy_bytes(&self.nodes[self.next]);
            self.next = self.next + 1;
            self.phase = Phase::Probing;
            ProbeAction::Probe { node }
        } else {
            self.phase = Phase::Over;
            ProbeAction::Finished
        }
    }

    /// Decides what is to be done next, given what has happened. One node is probed after the
    /// other, with a pause after each; the walk stops where it was cancelled during a probe.
    pub fn network_probe(&mut self, event: ProbeEvent) -> (r: ProbeAction)
        ensures
            (final(self)@, r@) == walk_transition(old(self)@, event),
    {
        match (self.phase, event) {
            (Phase::Ready, ProbeEvent::Begin) => self.turn_to_next(),
            (Phase::Probing, ProbeEvent::Probed { cancelled }) => {
                if cancelled {
                    self.phase = Phase::Over;
                    ProbeAction::Stopped
                } else {
                    self.phase = Phase::Pausing;
                    ProbeAction::Pause { millis: PROBE_PAUSE_MILLIS }
                }
            },
            (Phase::Pausing, ProbeEvent::Paused) => self.turn_to_next(),
            _ => ProbeAction::Wait,
        }
    }
}

} // verus!
