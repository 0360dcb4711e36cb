//! A network of nodes: each node's coordinator state, and the messages in
//! flight between them, delivered in the order they were sent.

use crate::error::GossipError;
use crate::peer_model::{Effects, NodeAction, PeerMachine, PeerState, PeerStateView};
use crate::round_model::GossipType;
use crate::NodeId;
use std::collections::{BTreeMap, VecDeque};
use vstd::prelude::*;

verus! {

/// The network for one mode: every node runs a coordinator in that mode.
#[derive(Debug)]
pub struct GossipMachine(pub PeerMachine);

/// The nodes and what travels between them.
#[derive(Debug, PartialEq, Eq, Hash)]
pub struct GossipState {
    pub nodes: BTreeMap<NodeId, PeerState>,
    /// Each entry is an addressee and what is to happen there; the front is
    /// delivered next.
    pub inflight: VecDeque<(NodeId, NodeAction)>,
}

/// What can happen in the network.
#[derive(Debug, Clone, Copy, PartialEq, Eq, Hash, Structural)]
pub enum GossipAction {
    /// Something happens at a node.
    NodeAction(NodeId, NodeAction),
    /// The message at the front of the queue is delivered.
    Transmit,
}

/// A network state as contracts speak of it.
pub ghost struct GossipStateView {
    pub nodes: Map<NodeId, PeerStateView>,
    pub inflight: Seq<(NodeId, NodeAction)>,
}

/// The outcome of a network step as contracts speak of it: the next state and
/// whether anything happened.
pub type GossipStep = Result<(GossipStateView, bool), GossipError>;

impl From<(NodeId, NodeAction)> for GossipAction {
    /// An addressee and an action, as that action happening there.
    fn from(addressed: (NodeId, NodeAction)) -> (action: GossipAction) {
        GossipAction::NodeAction(addressed.0, addressed.1)
    }
}

impl vstd::std_specs::convert::FromSpecImpl<(NodeId, NodeAction)> for GossipAction {
    open spec fn obeys_from_spec() -> bool {
        true
    }

    open spec fn from_spec(addressed: (NodeId, NodeAction)) -> GossipAction {
        GossipAction::NodeAction(addressed.0, addressed.1)
    }
}

impl Clone for GossipState {
    /// A copy with the same nodes and the same messages in flight.
    fn clone(&self) -> (copy: GossipState)
        ensures
            copy@ == self@,
    {
        let mut inflight: VecDeque<(NodeId, NodeAction)> = VecDeque::new();
        let mut i: usize = 0;
        while i < self.inflight.len()
            invariant
                i <= self.inflight@.len(),
                inflight@ == self.inflight@.take(i as int),
            decreases self.inflight@.len() - i,
        {
            inflight.push_back(self.inflight[i]);
            proof {
                assert(self.inflight@.take(i + 1) =~= self.inflight@.take(i as int).push(
                    self.inflight@[i as int],
                ));
            }
            i += 1;
        }
        let copy = GossipState { nodes: self.nodes.clone(), inflight };
        proof {
            assert(self.inflight@.take(i as int) =~= self.inflight@);
            assert(copy@.nodes =~= self@.nodes);
        }
        copy
    }
}

impl View for GossipState {
    type V = GossipStateView;

    open spec fn view(&self) -> GossipStateView {
        GossipStateView {
            nodes: Map::new(
                |node: NodeId| self.nodes@.contains_key(node),
                |node: NodeId| self.nodes@[node]@,
            ),
            inflight: self.inflight@,
        }
    }
}

impl GossipStateView {
    /// The network of the given nodes, none of which has done anything yet.
    pub open spec fn fresh(ids: Seq<NodeId>) -> GossipStateView {
        GossipStateView {
            nodes: Map::new(|node: NodeId| ids.contains(node), |node: NodeId| PeerStateView::empty()),
            inflight: seq![],
        }
    }

    /// The messages that `node` sends, as arrivals queued for their addressees.
    pub open spec fn deliveries(node: NodeId, fx: Effects) -> Seq<(NodeId, NodeAction)> {
        Seq::new(fx.len(), |i: int| (fx[i].0, NodeAction::Incoming { from: node, msg: fx[i].1 }))
    }
}

impl GossipState {
    /// The network of the given nodes, none of which has done anything yet
    /// and with nothing in flight.
    pub fn new(ids: &[NodeId]) -> (state: GossipState)
        ensures
            state@ == GossipStateView::fresh(ids@),
    {
        let mut nodes: BTreeMap<NodeId, PeerState> = BTreeMap::new();
        let mut i: usize = 0;
        while i < ids.len()
            invariant
                i <= ids.len(),
                forall|node: NodeId| #[trigger]
                    nodes@.contains_key(node) <==> ids@.take(i as int).contains(node),
                forall|node: NodeId| #[trigger]
                    nodes@.contains_key(node) ==> nodes@[node]@ == PeerStateView::empty(),
            decreases ids.len() - i,
        {
            let ghost before = nodes@;
            nodes.insert(ids[i], PeerState::new());
            proof {
                let done = ids@.take(i as int);
                let more = ids@.take(i + 1);
                assert(more =~= done.push(ids@[i as int]));
                assert forall|node: NodeId| #[trigger]
                    nodes@.contains_key(node) <==> more.contains(node) by {
                    if done.contains(node) {
                        let k = choose|k: int| 0 <= k < done.len() && done[k] == node;
                        assert(more[k] == node);
                    }
                    if node == ids@[i as int] {
                        assert(more[i as int] == node);
                    }
                    if more.contains(node) {
                        let k = choose|k: int| 0 <= k < more.len() && more[k] == node;
                        if k < i {
                            assert(done[k] == node);
                        }
                    }
                }
            }
            i += 1;
        }
        let state = GossipState { nodes, inflight: VecDeque::new() };
        proof {
            assert(ids@.take(i as int) =~= ids@);
            assert(state@.nodes =~= GossipStateView::fresh(ids@).nodes);
            assert(state@.inflight =~= GossipStateView::fresh(ids@).inflight);
        }
        state
    }
}

impl GossipMachine {
    /// The coordinator that every node runs.
    pub open spec fn peer(&self) -> PeerMachine {
        self.0
    }

    /// Something happens at a node. The node must be one of the network's.
    /// Where its coordinator accepts the action, the node takes its new
    /// state and the messages it sends join the back of the queue, in order,
    /// each as an arrival from this node at its addressee.
    pub open spec fn spec_node_action(
        &self,
        state: GossipStateView,
        node: NodeId,
        action: NodeAction,
    ) -> GossipStep {
        if !state.nodes.contains_key(node) {
            Err(GossipError::UnknownNode(node))
        } else {
            match self.peer().spec_transition(state.nodes[node], action) {
                Ok((next, fx)) => Ok(
                    (
                        GossipStateView {
                            nodes: state.nodes.insert(node, next),
                            inflight: state.inflight + GossipStateView::deliveries(node, fx),
                        },
                        true,
                    ),
                ),
                Err(e) => Err(e),
            }
        }
    }

    /// What an action does to the network. `Transmit` takes the arrival at
    /// the front of the queue and lets it happen at its addressee; with an
    /// empty queue it does nothing, and says so.
    pub open spec fn spec_transition(&self, state: GossipStateView, action: GossipAction)
        -> GossipStep {
        match action {
            GossipAction::NodeAction(node, action) => self.spec_node_action(state, node, action),
            GossipAction::Transmit => if state.inflight.len() == 0 {
                Ok((state, false))
            } else {
                self.spec_node_action(
                    GossipStateView { inflight: state.inflight.drop_first(), ..state },
                    state.inflight[0].0,
                    state.inflight[0].1,
                )
            },
        }
    }

    /// What delivering does to the network: messages are delivered from the
    /// front of the queue until none is left or `limit` of them were
    /// delivered; the result is the state then and the number delivered. The
    /// first delivery that fails ends it with its failure.
    pub open spec fn spec_deliver(&self, state: GossipStateView, limit: nat) -> Result<
        (GossipStateView, nat),
        GossipError,
    >
        decreases limit,
    {
        if limit == 0 || state.inflight.len() == 0 {
            Ok((state, 0))
        } else {
            match self.spec_transition(state, GossipAction::Transmit) {
                Ok((next, _)) => Self::counted(self.spec_deliver(next, (limit - 1) as nat), 1),
                Err(e) => Err(e),
            }
        }
    }

    /// The outcome of delivering, with `done` earlier deliveries counted in.
    pub open spec fn counted(r: Result<(GossipStateView, nat), GossipError>, done: nat) -> Result<
        (GossipStateView, nat),
        GossipError,
    > {
        match r {
            Ok((state, n)) => Ok((state, n + done)),
            Err(e) => Err(e),
        }
    }

    /// How an executable outcome reads in contracts.
    pub open spec fn view_step(r: Result<(GossipState, bool), GossipError>) -> GossipStep {
        match r {
            Ok((state, changed)) => Ok((state@, changed)),
            Err(e) => Err(e),
        }
    }

    /// The network in which every node runs a coordinator in the given mode.
    pub fn new(gossip_type: GossipType) -> (machine: GossipMachine)
        ensures
            machine.peer().spec_gossip_type() == gossip_type,
    {
        GossipMachine(PeerMachine::new(gossip_type))
    }

    /// A network never comes to an end.
    pub fn is_terminal(&self, state: &GossipState) -> (b: bool)
        ensures
            !b,
    {
        false
    }

    /// Lets an action happen at a node of the network.
    fn node_action(&self, state: GossipState, node: NodeId, action: NodeAction) -> (r: Result<
        (GossipState, bool),
        GossipError,
    >)
        ensures
            Self::view_step(r) == self.spec_node_action(state@, node, action),
    {
        let ghost before = state@;
        let mut state = state;
        let peer_state = match state.nodes.remove(&node) {
            Some(peer_state) => peer_state,
            None => {
                return Err(GossipError::UnknownNode(node));
            },
        };
        let (next, fx) = self.0.transition(peer_state, action)?;
        let ghost next_view = next@;
        state.nodes.insert(node, next);
        let mut i: usize = 0;
        while i < fx.len()
            invariant
                i <= fx.len(),
                state.nodes@.dom() == before.nodes.dom(),
                forall|other: NodeId| #[trigger] state.nodes@.contains_key(other) ==> state.nodes@[other]@ == before.nodes.insert(node, next_view)[other],
                state.inflight@ == before.inflight + GossipStateView::deliveries(
                    node,
                    fx@.take(i as int),
                ),
            decreases fx.len() - i,
        {
            let (to, msg) = fx[i];
            state.inflight.push_back((to, NodeAction::Incoming { from: node, msg }));
            proof {
                assert(fx@.take(i + 1) =~= fx@.take(i as int).push(fx@[i as int]));
                assert(state.inflight@ =~= before.inflight + GossipStateView::deliveries(
                    node,
                    fx@.take(i + 1),
                ));
            }
            i += 1;
        }
        proof {
            assert(fx@.take(i as int) =~= fx@);
            assert(state@.nodes =~= before.nodes.insert(node, next_view));
        }
        Ok((state, true))
    }

    /// Applies an action to the network: the next state and whether anything
    /// happened, or the failure. Fails where the node is not one of the
    /// network's and where the node's coordinator refuses the action.
    pub fn transition(&self, state: GossipState, action: GossipAction) -> (r: Result<
        (GossipState, bool),
        GossipError,
    >)
        ensures
            Self::view_step(r) == self.spec_transition(state@, action),
    {
        match action {
            GossipAction::NodeAction(node, action) => self.node_action(state, node, action),
            GossipAction::Transmit => {
                let ghost before = state@;
                let mut state = state;
                match state.inflight.pop_front() {
                    Some((node, action)) => {
                        proof {
                            assert(state@.nodes =~= before.nodes);
                            assert(state@.inflight =~= before.inflight.drop_first());
                        }
                        self.node_action(state, node, action)
                    },
                    None => {
                        proof {
                            assert(state@.nodes =~= before.nodes);
                            assert(state@.inflight =~= before.inflight);
                        }
                        Ok((state, false))
                    },
                }
            },
        }
    }

    /// Delivers what is in flight, front first, until the queue runs dry or
    /// `limit` messages were delivered, whichever comes first. Returns the
    /// network as it then stands and the number of messages delivered, or
    /// the failure of the first delivery that fails.
    #[verifier::loop_isolation(false)]
    pub fn deliver(&self, state: GossipState, limit: usize) -> (r: Result<
        (GossipState, usize),
        GossipError,
    >)
        ensures
            match r {
                Ok((last, n)) => self.spec_deliver(state@, limit as nat) == Ok::<_, GossipError>(
                    (last@, n as nat),
                ),
                Err(e) => self.spec_deliver(state@, limit as nat) == Err::<
                    (GossipStateView, nat),
                    _,
                >(e),
            },
    {
        let ghost init = state@;
        let mut state = state;
        let mut done: usize = 0;
        while done < limit && state.inflight.len() > 0
            invariant
                done <= limit,
                self.spec_deliver(init, limit as nat) == Self::counted(
                    self.spec_deliver(state@, (limit - done) as nat),
                    done as nat,
                ),
            decreases limit - done,
        {
            let ghost here = state@;
            match self.transition(state, GossipAction::Transmit) {
                Ok((next, _)) => {
                    state = next;
                    done += 1;
                },
                Err(e) => {
                    proof {
                        assert(self.spec_deliver(here, (limit - done) as nat) == Err::<
                            (GossipStateView, nat),
                            _,
                        >(e));
                    }
                    return Err(e);
                },
            }
        }
        Ok((state, done))
    }
}

} // verus!
