//! The per-node coordinator: one round per remote peer, the node's own
//! outstanding initiation, and the routing of events to rounds.
//!
//! Every entry point is a total function from a state and an event to the next
//! state and the messages to send, or to a failure. A failure concerns the one
//! peer that the event names and leaves the state as it was.

use crate::error::{GossipError, InvariantViolation, ProtocolViolation};
use crate::round_model::{
    map_event as map_frame, GossipType, RoundAction, RoundMachine, RoundMsg, RoundPhase, WireFrame,
};
use crate::NodeId;
use std::collections::BTreeMap;
use vstd::prelude::*;

verus! {

/// A round with one peer: its phase and the mode that governs it. The mode is
/// set when the round is created and never changes.
#[derive(Debug, Clone, Copy, PartialEq, Eq, Hash, Structural)]
pub struct RoundSession {
    pub phase: RoundPhase,
    pub gossip_type: GossipType,
}

/// The peer a node has proposed a round to, held until that round ends.
#[derive(Debug, Clone, Copy, PartialEq, Eq, Hash, Structural)]
pub struct Tgt {
    pub cert: NodeId,
    /// The value this node drew for the case that the peer proposes a round
    /// to it at the same time; the lesser value yields.
    pub tie_break: u32,
}

/// What can happen at a node.
#[derive(Debug, Clone, Copy, PartialEq, Eq, Hash, Structural)]
pub enum NodeAction {
    /// The node decides to propose a round to a peer, with its tie-break value.
    SetInitiate(NodeId, u32),
    /// The node gives up on a peer.
    Timeout(NodeId),
    /// A message arrives from a peer.
    Incoming { from: NodeId, msg: RoundMsg },
    /// The node commits to a full round-trip in its round with a peer.
    MustSend(NodeId),
    /// The node lost the tie-break against a peer and yields to it.
    TieBreakLoser(NodeId),
}

/// What a running node reports of itself, with each peer already known by
/// its identity.
#[derive(Debug, Clone, Copy, PartialEq, Eq, Hash, Structural)]
pub enum GossipEvent {
    /// A frame arrived from a peer.
    Msg(NodeId, WireFrame),
    /// The node proposed a round.
    SetInitiate(Tgt),
    /// The node committed to a full round-trip with a peer.
    MustSend(NodeId),
    /// The node lost the tie-break against a peer.
    TieBreakLoser(NodeId),
}

/// The coordinator's state: the rounds under way and the outstanding initiation.
#[derive(Debug, PartialEq, Eq, Hash)]
pub struct PeerState {
    /// The round with each peer that has one; a peer never has two.
    pub rounds: BTreeMap<NodeId, RoundSession>,
    /// The peer this node has proposed a round to and is still bound to.
    pub initiate_tgt: Option<Tgt>,
}

/// A coordinator state as contracts speak of it.
pub ghost struct PeerStateView {
    pub rounds: Map<NodeId, RoundSession>,
    pub initiate_tgt: Option<Tgt>,
}

/// The messages to send, each with the peer it goes to, in order.
pub type Effects = Seq<(NodeId, RoundMsg)>;

/// The outcome of a coordinator step as contracts speak of it.
pub type PeerStep = Result<(PeerStateView, Effects), GossipError>;

impl View for PeerState {
    type V = PeerStateView;

    open spec fn view(&self) -> PeerStateView {
        PeerStateView { rounds: self.rounds@, initiate_tgt: self.initiate_tgt }
    }
}

impl PeerStateView {
    /// The state of a node that has just started.
    pub open spec fn empty() -> PeerStateView {
        PeerStateView { rounds: Map::empty(), initiate_tgt: None }
    }

    /// Whether the outstanding initiation is with `peer`.
    pub open spec fn targets(self, peer: NodeId) -> bool {
        self.initiate_tgt matches Some(tgt) && tgt.cert == peer
    }

    /// The state without the round with `peer`, and without the outstanding
    /// initiation if that was with `peer`.
    pub open spec fn finish_round(self, peer: NodeId) -> PeerStateView {
        PeerStateView {
            rounds: self.rounds.remove(peer),
            initiate_tgt: if self.targets(peer) {
                None
            } else {
                self.initiate_tgt
            },
        }
    }

    /// The state with the round with `peer` set to `session`.
    pub open spec fn with_round(self, peer: NodeId, session: RoundSession) -> PeerStateView {
        PeerStateView { rounds: self.rounds.insert(peer, session), ..self }
    }

    /// The peer of the outstanding initiation, if there is one, has no round.
    pub open spec fn target_has_no_round(self) -> bool {
        self.initiate_tgt matches Some(tgt) ==> !self.rounds.contains_key(tgt.cert)
    }

    /// No stored round is over: a round that finishes is removed at once.
    pub open spec fn wf(self) -> bool {
        forall|peer: NodeId| #[trigger]
            self.rounds.contains_key(peer) ==> !(self.rounds[peer].phase is Finished)
    }
}

impl PeerState {
    /// The state of a node that has just started: no rounds, no initiation.
    pub fn new() -> (state: PeerState)
        ensures
            state@ == PeerStateView::empty(),
            state@.wf(),
            state@.target_has_no_round(),
    {
        PeerState { rounds: BTreeMap::new(), initiate_tgt: None }
    }

    /// Whether the outstanding initiation is with `peer`.
    pub fn targets(&self, peer: NodeId) -> (b: bool)
        ensures
            b == self@.targets(peer),
    {
        match &self.initiate_tgt {
            Some(tgt) => tgt.cert == peer,
            None => false,
        }
    }

    /// Ends the round with `peer`: removes it, and clears the outstanding
    /// initiation if that was with `peer`.
    pub fn finish_round(&mut self, peer: &NodeId)
        ensures
            final(self)@ == old(self)@.finish_round(*peer),
    {
        if self.targets(*peer) {
            self.initiate_tgt = None;
        }
        self.rounds.remove(peer);
    }
}

impl NodeAction {
    /// The peer the action concerns.
    pub open spec fn spec_node_id(self) -> NodeId {
        match self {
            NodeAction::Incoming { from, .. } => from,
            NodeAction::Timeout(node) => node,
            NodeAction::SetInitiate(node, _) => node,
            NodeAction::MustSend(node) => node,
            NodeAction::TieBreakLoser(node) => node,
        }
    }

    /// What the action means to the round with that peer, if it is one that
    /// a round can take.
    pub open spec fn spec_into_round_action(self) -> Option<RoundAction> {
        match self {
            NodeAction::Incoming { msg, .. } => Some(RoundAction::Msg(msg)),
            NodeAction::MustSend(_) => Some(RoundAction::MustSend),
            _ => None,
        }
    }

    /// The node-level action that hands `action` to the round with `from`.
    pub open spec fn spec_from_round_action(from: NodeId, action: RoundAction) -> NodeAction {
        match action {
            RoundAction::Msg(msg) => NodeAction::Incoming { from, msg },
            RoundAction::MustSend => NodeAction::MustSend(from),
        }
    }

    /// The peer the action concerns.
    pub fn node_id(&self) -> (node: NodeId)
        ensures
            node == self.spec_node_id(),
    {
        match self {
            NodeAction::Incoming { from, .. } => *from,
            NodeAction::Timeout(node) => *node,
            NodeAction::SetInitiate(node, _) => *node,
            NodeAction::MustSend(node) => *node,
            NodeAction::TieBreakLoser(node) => *node,
        }
    }

    /// What the action means to the round with that peer, if it is one that
    /// a round can take.
    pub fn into_round_action(self) -> (action: Option<RoundAction>)
        ensures
            action == self.spec_into_round_action(),
    {
        match self {
            NodeAction::Incoming { msg, .. } => Some(RoundAction::Msg(msg)),
            NodeAction::MustSend(_) => Some(RoundAction::MustSend),
            _ => None,
        }
    }

    /// The node-level action that hands `action` to the round with `from`.
    pub fn from_round_action(from: NodeId, action: RoundAction) -> (node_action: NodeAction)
        ensures
            node_action == Self::spec_from_round_action(from, action),
            node_action.spec_node_id() == from,
            node_action.spec_into_round_action() == Some(action),
    {
        match action {
            RoundAction::Msg(msg) => NodeAction::Incoming { from, msg },
            RoundAction::MustSend => NodeAction::MustSend(from),
        }
    }
}

impl From<(NodeId, RoundMsg)> for NodeAction {
    /// A message with its sender, as the arrival of that message.
    fn from(incoming: (NodeId, RoundMsg)) -> (action: NodeAction) {
        NodeAction::Incoming { from: incoming.0, msg: incoming.1 }
    }
}

impl vstd::std_specs::convert::FromSpecImpl<(NodeId, RoundMsg)> for NodeAction {
    open spec fn obeys_from_spec() -> bool {
        true
    }

    open spec fn from_spec(incoming: (NodeId, RoundMsg)) -> NodeAction {
        NodeAction::Incoming { from: incoming.0, msg: incoming.1 }
    }
}

impl Clone for PeerState {
    /// A copy with the same rounds and the same initiation.
    fn clone(&self) -> (copy: PeerState)
        ensures
            copy@ == self@,
    {
        PeerState { rounds: self.rounds.clone(), initiate_tgt: self.initiate_tgt }
    }
}

impl Default for PeerState {
    /// The state of a node that has just started.
    fn default() -> (state: PeerState)
        ensures
            state@ == PeerStateView::empty(),
    {
        PeerState::new()
    }
}

/// The coordinator for one mode: rounds it creates run in that mode.
#[derive(Debug)]
pub struct PeerMachine(RoundMachine);

impl PeerMachine {
    /// The mode that rounds created by this coordinator run in.
    pub closed spec fn spec_gossip_type(&self) -> GossipType {
        self.0.0
    }

    /// The first diff message of a round in the given mode.
    pub open spec fn first_diff(gossip_type: GossipType) -> RoundMsg {
        match gossip_type {
            GossipType::Recent => RoundMsg::AgentDiff,
            GossipType::Historical => RoundMsg::OpDiff,
        }
    }

    /// A round as it is created in this coordinator's mode.
    pub open spec fn fresh_round(&self, must_send: bool) -> RoundSession {
        RoundSession { phase: RoundPhase::Started(must_send), gossip_type: self.spec_gossip_type() }
    }

    /// Each message addressed to `peer`.
    pub open spec fn addressed(peer: NodeId, msgs: Seq<RoundMsg>) -> Effects {
        Seq::new(msgs.len(), |i: int| (peer, msgs[i]))
    }

    /// The node decides to propose a round to `peer`. Where no initiation is
    /// outstanding, `peer` becomes the target and is sent `Initiate`; where
    /// one is, with whatever peer, nothing happens.
    pub open spec fn spec_request_initiate(state: PeerStateView, peer: NodeId, tie_break: u32) -> (
        PeerStateView,
        Effects,
    ) {
        if state.initiate_tgt is None {
            (
                PeerStateView { initiate_tgt: Some(Tgt { cert: peer, tie_break }), ..state },
                seq![(peer, RoundMsg::Initiate)],
            )
        } else {
            (state, seq![])
        }
    }

    /// The node gives up on `peer`: whatever the phase, the round is gone and
    /// so is an initiation with that peer.
    pub open spec fn spec_on_timeout(state: PeerStateView, peer: NodeId) -> PeerStateView {
        state.finish_round(peer)
    }

    /// The node lost the tie-break against `peer`: it drops its initiation,
    /// which must have been with that peer.
    pub open spec fn spec_on_tie_break_loser(state: PeerStateView, peer: NodeId) -> Result<
        PeerStateView,
        GossipError,
    > {
        match state.initiate_tgt {
            Some(tgt) => if tgt.cert == peer {
                Ok(PeerStateView { initiate_tgt: None, ..state })
            } else {
                Err(GossipError::InvariantViolation(InvariantViolation::NotInitiateTarget(peer)))
            },
            None => Err(GossipError::InvariantViolation(InvariantViolation::NoInitiateTarget)),
        }
    }

    /// An action is handed to the round with `peer`. Without such a round
    /// that fails. Where the round engine accepts the action, a round that
    /// reaches `Finished` ends, any other is stored in its new phase, and the
    /// engine's messages go to `peer`.
    pub open spec fn spec_round_action(state: PeerStateView, peer: NodeId, action: RoundAction)
        -> PeerStep {
        if !state.rounds.contains_key(peer) {
            Err(GossipError::NoActiveRound(peer))
        } else {
            let session = state.rounds[peer];
            match RoundMachine(session.gossip_type).spec_transition(session.phase, action) {
                Ok((phase, msgs)) => Ok(
                    (
                        if phase is Finished {
                            state.finish_round(peer)
                        } else {
                            state.with_round(peer, RoundSession { phase, ..session })
                        },
                        Self::addressed(peer, msgs),
                    ),
                ),
                Err(e) => Err(e),
            }
        }
    }

    /// A message arrives from `from`.
    ///
    /// A handshake message from a peer that has a round changes nothing.
    /// `Initiate` otherwise creates a round that need not send, answered by
    /// `Accept` and the mode's first diff, unless `from` is the peer this
    /// node is itself waiting on. `Accept` otherwise must come from that
    /// peer, and creates a round that must send, answered by the first diff.
    /// `Close` ends whatever there is with `from`. Any other message is for
    /// the round with `from`.
    pub open spec fn spec_on_incoming(&self, state: PeerStateView, from: NodeId, msg: RoundMsg)
        -> PeerStep {
        match msg {
            RoundMsg::Initiate => if state.rounds.contains_key(from) {
                Ok((state, seq![]))
            } else if state.targets(from) {
                Err(GossipError::ProtocolViolation(ProtocolViolation::UnresolvedInitiate(from)))
            } else {
                Ok(
                    (
                        state.with_round(from, self.fresh_round(false)),
                        seq![
                            (from, RoundMsg::Accept),
                            (from, Self::first_diff(self.spec_gossip_type())),
                        ],
                    ),
                )
            },
            RoundMsg::Accept => if state.rounds.contains_key(from) {
                Ok((state, seq![]))
            } else if !state.targets(from) {
                Err(GossipError::UnsolicitedAccept(from))
            } else {
                Ok(
                    (
                        state.with_round(from, self.fresh_round(true)),
                        seq![(from, Self::first_diff(self.spec_gossip_type()))],
                    ),
                )
            },
            RoundMsg::Close => Ok((state.finish_round(from), seq![])),
            _ => Self::spec_round_action(state, from, RoundAction::Msg(msg)),
        }
    }

    /// The node commits to a full round-trip in its round with `peer`.
    pub open spec fn spec_on_must_send(state: PeerStateView, peer: NodeId) -> PeerStep {
        Self::spec_round_action(state, peer, RoundAction::MustSend)
    }

    /// What an action does to a coordinator state.
    pub open spec fn spec_transition(&self, state: PeerStateView, action: NodeAction) -> PeerStep {
        match action {
            NodeAction::SetInitiate(peer, tie_break) => Ok(
                Self::spec_request_initiate(state, peer, tie_break),
            ),
            NodeAction::Timeout(peer) => Ok((Self::spec_on_timeout(state, peer), seq![])),
            NodeAction::TieBreakLoser(peer) => match Self::spec_on_tie_break_loser(state, peer) {
                Ok(next) => Ok((next, seq![])),
                Err(e) => Err(e),
            },
            NodeAction::Incoming { from, msg } => self.spec_on_incoming(state, from, msg),
            NodeAction::MustSend(peer) => Self::spec_on_must_send(state, peer),
        }
    }

    /// What a sequence of actions does to a coordinator state, one action
    /// after the other: the last state and all messages sent, in order. The
    /// first action that fails ends the sequence with its failure.
    pub open spec fn spec_replay(&self, state: PeerStateView, actions: Seq<NodeAction>) -> PeerStep
        decreases actions.len(),
    {
        if actions.len() == 0 {
            Ok((state, seq![]))
        } else {
            match self.spec_replay(state, actions.drop_last()) {
                Ok((mid, fx)) => match self.spec_transition(mid, actions.last()) {
                    Ok((next, more)) => Ok((next, fx + more)),
                    Err(e) => Err(e),
                },
                Err(e) => Err(e),
            }
        }
    }

    /// The notice that goes with a step that succeeds without doing anything:
    /// a handshake message from a peer that already has a round.
    pub open spec fn spec_notice(state: PeerStateView, action: NodeAction) -> Option<GossipError> {
        match action {
            NodeAction::Incoming { from, msg } => if (msg is Initiate || msg is Accept)
                && state.rounds.contains_key(from) {
                Some(GossipError::DuplicateRound(from))
            } else {
                None
            },
            _ => None,
        }
    }

    /// Whether an outcome in place is the one that `step` describes: on
    /// success the state after and the messages are those of `step`; on
    /// failure the failure is that of `step`, and the state is untouched.
    pub open spec fn agrees(
        step: PeerStep,
        before: PeerStateView,
        after: PeerStateView,
        r: Result<Vec<(NodeId, RoundMsg)>, GossipError>,
    ) -> bool {
        match r {
            Ok(fx) => step == Ok::<_, GossipError>((after, fx@)),
            Err(e) => step == Err::<(PeerStateView, Effects), _>(e) && after == before,
        }
    }

    /// How an executable outcome reads in contracts.
    pub open spec fn view_step(
        r: Result<(PeerState, Vec<(NodeId, RoundMsg)>), GossipError>,
    ) -> PeerStep {
        match r {
            Ok((state, fx)) => Ok((state@, fx@)),
            Err(e) => Err(e),
        }
    }

    /// A coordinator whose rounds run in the given mode.
    pub fn new(gossip_type: GossipType) -> (machine: PeerMachine)
        ensures
            machine.spec_gossip_type() == gossip_type,
    {
        PeerMachine(RoundMachine(gossip_type))
    }

    /// The mode that rounds created by this coordinator run in.
    pub fn gossip_type(&self) -> (t: GossipType)
        ensures
            t == self.spec_gossip_type(),
    {
        self.0.gossip_type()
    }

    /// The first diff message of a round in this coordinator's mode.
    fn first_diff_msg(&self) -> (msg: RoundMsg)
        ensures
            msg == Self::first_diff(self.spec_gossip_type()),
    {
        match self.gossip_type() {
            GossipType::Recent => RoundMsg::AgentDiff,
            GossipType::Historical => RoundMsg::OpDiff,
        }
    }

    /// Addresses each of a round's messages to `peer`, keeping their order.
    fn address(peer: NodeId, msgs: Vec<RoundMsg>) -> (fx: Vec<(NodeId, RoundMsg)>)
        ensures
            fx@ == Self::addressed(peer, msgs@),
    {
        let mut fx: Vec<(NodeId, RoundMsg)> = Vec::new();
        let mut i: usize = 0;
        while i < msgs.len()
            invariant
                i <= msgs.len(),
                fx@ == Self::addressed(peer, msgs@.take(i as int)),
            decreases msgs.len() - i,
        {
            fx.push((peer, msgs[i]));
            proof {
                assert(msgs@.take(i + 1) =~= msgs@.take(i as int).push(msgs@[i as int]));
                assert(fx@ =~= Self::addressed(peer, msgs@.take(i + 1)));
            }
            i += 1;
        }
        proof {
            assert(msgs@.take(i as int) =~= msgs@);
        }
        fx
    }

    /// The node decides to propose a round to `peer`, drawing `tie_break`.
    ///
    /// Never fails. Where no initiation is outstanding, `peer` becomes the
    /// target and `Initiate` goes out to it; otherwise nothing changes and
    /// nothing is sent.
    pub fn request_initiate(&self, state: &mut PeerState, peer: NodeId, tie_break: u32) -> (fx: Vec<
        (NodeId, RoundMsg),
    >)
        ensures
            (final(state)@, fx@) == Self::spec_request_initiate(old(state)@, peer, tie_break),
    {
        let mut fx: Vec<(NodeId, RoundMsg)> = Vec::new();
        if state.initiate_tgt.is_none() {
            state.initiate_tgt = Some(Tgt { cert: peer, tie_break });
            fx.push((peer, RoundMsg::Initiate));
        }
        proof {
            assert(fx@ =~= Self::spec_request_initiate(old(state)@, peer, tie_break).1);
        }
        fx
    }

    /// The node gives up on `peer`.
    ///
    /// Never fails, whatever the phase: the round with `peer` is removed, an
    /// initiation with `peer` is cleared, and nothing is sent.
    pub fn on_timeout(&self, state: &mut PeerState, peer: NodeId) -> (fx: Vec<(NodeId, RoundMsg)>)
        ensures
            final(state)@ == Self::spec_on_timeout(old(state)@, peer),
            fx@ == Seq::<(NodeId, RoundMsg)>::empty(),
    {
        state.finish_round(&peer);
        Vec::new()
    }

    /// The node lost the tie-break against `peer` and yields to it.
    ///
    /// Succeeds exactly when the outstanding initiation is with `peer`; it is
    /// then cleared and nothing is sent. A failure leaves the state as it was.
    pub fn on_tie_break_loser(&self, state: &mut PeerState, peer: NodeId) -> (r: Result<
        Vec<(NodeId, RoundMsg)>,
        GossipError,
    >)
        ensures
            match r {
                Ok(fx) => Self::spec_on_tie_break_loser(old(state)@, peer) == Ok::<_, GossipError>(
                    final(state)@,
                ) && fx@ == Seq::<(NodeId, RoundMsg)>::empty(),
                Err(e) => Self::spec_on_tie_break_loser(old(state)@, peer) == Err::<
                    PeerStateView,
                    _,
                >(e) && final(state)@ == old(state)@,
            },
    {
        match state.initiate_tgt {
            Some(tgt) => {
                if tgt.cert == peer {
                    state.initiate_tgt = None;
                    Ok(Vec::new())
                } else {
                    Err(GossipError::InvariantViolation(InvariantViolation::NotInitiateTarget(peer)))
                }
            },
            None => Err(GossipError::InvariantViolation(InvariantViolation::NoInitiateTarget)),
        }
    }

    /// Hands an action to the round with `peer`.
    fn round_action(state: &mut PeerState, peer: NodeId, action: RoundAction) -> (r: Result<
        Vec<(NodeId, RoundMsg)>,
        GossipError,
    >)
        ensures
            Self::agrees(
                Self::spec_round_action(old(state)@, peer, action),
                old(state)@,
                final(state)@,
                r,
            ),
    {
        let session = match state.rounds.get(&peer) {
            Some(session) => *session,
            None => {
                return Err(GossipError::NoActiveRound(peer));
            },
        };
        let (phase, msgs) = RoundMachine(session.gossip_type).transition(session.phase, action)?;
        if matches!(phase, RoundPhase::Finished) {
            state.finish_round(&peer);
        } else {
            state.rounds.insert(peer, RoundSession { phase, gossip_type: session.gossip_type });
        }
        Ok(Self::address(peer, msgs))
    }

    /// A message arrives from `from`.
    ///
    /// Fails exactly on an `Initiate` from the peer this node is itself
    /// waiting on, on an `Accept` from any other peer, on a round message
    /// from a peer without a round, and where the round engine refuses the
    /// message. A failure leaves the state as it was. A handshake message
    /// from a peer that has a round changes nothing and sends nothing.
    pub fn on_incoming(&self, state: &mut PeerState, from: NodeId, msg: RoundMsg) -> (r: Result<
        Vec<(NodeId, RoundMsg)>,
        GossipError,
    >)
        ensures
            Self::agrees(
                self.spec_on_incoming(old(state)@, from, msg),
                old(state)@,
                final(state)@,
                r,
            ),
    {
        match msg {
            RoundMsg::Initiate => {
                if state.rounds.contains_key(&from) {
                    Ok(Vec::new())
                } else if state.targets(from) {
                    Err(GossipError::ProtocolViolation(ProtocolViolation::UnresolvedInitiate(from)))
                } else {
                    state.rounds.insert(
                        from,
                        RoundSession {
                            phase: RoundPhase::Started(false),
                            gossip_type: self.gossip_type(),
                        },
                    );
                    let fx = vec![(from, RoundMsg::Accept), (from, self.first_diff_msg())];
                    proof {
                        assert(fx@ =~= seq![
                            (from, RoundMsg::Accept),
                            (from, Self::first_diff(self.spec_gossip_type())),
                        ]);
                    }
                    Ok(fx)
                }
            },
            RoundMsg::Accept => {
                if state.rounds.contains_key(&from) {
                    Ok(Vec::new())
                } else if !state.targets(from) {
                    Err(GossipError::UnsolicitedAccept(from))
                } else {
                    state.rounds.insert(
                        from,
                        RoundSession {
                            phase: RoundPhase::Started(true),
                            gossip_type: self.gossip_type(),
                        },
                    );
                    let fx = vec![(from, self.first_diff_msg())];
                    proof {
                        assert(fx@ =~= seq![(from, Self::first_diff(self.spec_gossip_type()))]);
                    }
                    Ok(fx)
                }
            },
            RoundMsg::Close => {
                state.finish_round(&from);
                Ok(Vec::new())
            },
            _ => Self::round_action(state, from, RoundAction::Msg(msg)),
        }
    }

    /// The node commits to a full round-trip in its round with `peer`.
    ///
    /// Fails without a round with `peer`, where the flag is already set, and
    /// where the round's phase has no flag to raise. A failure leaves the
    /// state as it was. Sends nothing.
    pub fn on_must_send(&self, state: &mut PeerState, peer: NodeId) -> (r: Result<
        Vec<(NodeId, RoundMsg)>,
        GossipError,
    >)
        ensures
            Self::agrees(
                Self::spec_on_must_send(old(state)@, peer),
                old(state)@,
                final(state)@,
                r,
            ),
    {
        Self::round_action(state, peer, RoundAction::MustSend)
    }

    /// Applies an action to a coordinator state in place, and returns the
    /// messages to send, each with its addressee. A failure leaves the state
    /// as it was: it concerns the one peer that the action names, and the
    /// node goes on as before for all others.
    pub fn apply(&self, state: &mut PeerState, action: NodeAction) -> (r: Result<
        Vec<(NodeId, RoundMsg)>,
        GossipError,
    >)
        ensures
            Self::agrees(
                self.spec_transition(old(state)@, action),
                old(state)@,
                final(state)@,
                r,
            ),
            old(state)@.wf() ==> final(state)@.wf(),
    {
        proof {
            if old(state)@.wf() && self.spec_transition(old(state)@, action) is Ok {
                self.lemma_step_preserves_wf(old(state)@, action);
            }
        }
        match action {
            NodeAction::SetInitiate(with_node, tie_break) => Ok(
                self.request_initiate(state, with_node, tie_break),
            ),
            NodeAction::Timeout(peer) => Ok(self.on_timeout(state, peer)),
            NodeAction::TieBreakLoser(peer) => self.on_tie_break_loser(state, peer),
            NodeAction::Incoming { from, msg } => self.on_incoming(state, from, msg),
            NodeAction::MustSend(peer) => self.on_must_send(state, peer),
        }
    }

    /// Applies an action to a coordinator state: the next state and the
    /// messages to send, each with its addressee, or the failure.
    pub fn transition(&self, state: PeerState, action: NodeAction) -> (r: Result<
        (PeerState, Vec<(NodeId, RoundMsg)>),
        GossipError,
    >)
        ensures
            Self::view_step(r) == self.spec_transition(state@, action),
            state@.wf() ==> (r matches Ok((next, _)) ==> next@.wf()),
    {
        let mut state = state;
        let fx = self.apply(&mut state, action)?;
        Ok((state, fx))
    }

    /// Applies a sequence of actions, one after the other. The result is the
    /// last state with all messages sent, in order, or the failure of the
    /// first action that fails.
    #[verifier::loop_isolation(false)]
    pub fn replay(&self, state: PeerState, actions: &Vec<NodeAction>) -> (r: Result<
        (PeerState, Vec<(NodeId, RoundMsg)>),
        GossipError,
    >)
        ensures
            Self::view_step(r) == self.spec_replay(state@, actions@),
            state@.wf() ==> (r matches Ok((last, _)) ==> last@.wf()),
    {
        let ghost init = state@;
        proof {
            if init.wf() && self.spec_replay(init, actions@) is Ok {
                self.lemma_replay_preserves_wf(init, actions@);
            }
        }
        let mut state = state;
        let mut sent: Vec<(NodeId, RoundMsg)> = Vec::new();
        let mut i: usize = 0;
        while i < actions.len()
            invariant
                i <= actions.len(),
                self.spec_replay(init, actions@.take(i as int)) == Ok::<_, GossipError>(
                    (state@, sent@),
                ),
            decreases actions.len() - i,
        {
            proof {
                assert(actions@.take(i + 1).drop_last() =~= actions@.take(i as int));
            }
            match self.apply(&mut state, actions[i]) {
                Ok(mut more) => {
                    sent.append(&mut more);
                },
                Err(e) => {
                    proof {
                        assert(self.spec_replay(init, actions@.take(i + 1)) is Err);
                        self.lemma_replay_failure_sticks(init, actions@, i + 1);
                    }
                    return Err(e);
                },
            }
            i += 1;
        }
        proof {
            assert(actions@.take(i as int) =~= actions@);
        }
        Ok((state, sent))
    }

    /// The notice that goes with a step that succeeds without doing
    /// anything: `DuplicateRound` for a handshake message from a peer that
    /// already has a round, and none otherwise. A caller that keeps a log
    /// asks this before it applies the action.
    pub fn notice(&self, state: &PeerState, action: &NodeAction) -> (n: Option<GossipError>)
        ensures
            n == Self::spec_notice(state@, *action),
            n is Some ==> self.spec_transition(state@, *action) == Ok::<_, GossipError>(
                (state@, Seq::<(NodeId, RoundMsg)>::empty()),
            ),
    {
        match action {
            NodeAction::Incoming { from, msg } => {
                let handshake = matches!(msg, RoundMsg::Initiate | RoundMsg::Accept);
                if handshake && state.rounds.contains_key(from) {
                    Some(GossipError::DuplicateRound(*from))
                } else {
                    None
                }
            },
            _ => None,
        }
    }

    /// A coordinator never comes to an end.
    pub fn is_terminal(&self, state: &PeerState) -> (b: bool)
        ensures
            !b,
    {
        false
    }
}

/// The action that a node's report amounts to. A frame that stands for no
/// message amounts to none.
pub open spec fn spec_map_event(event: GossipEvent) -> Option<NodeAction> {
    match event {
        GossipEvent::Msg(from, frame) => match crate::round_model::spec_map_event(frame) {
            Some(msg) => Some(NodeAction::Incoming { from, msg }),
            None => None,
        },
        GossipEvent::SetInitiate(tgt) => Some(NodeAction::SetInitiate(tgt.cert, tgt.tie_break)),
        GossipEvent::MustSend(peer) => Some(NodeAction::MustSend(peer)),
        GossipEvent::TieBreakLoser(peer) => Some(NodeAction::TieBreakLoser(peer)),
    }
}

/// The action that a node's report amounts to, if it amounts to one.
pub fn map_event(event: GossipEvent) -> (action: Option<NodeAction>)
    ensures
        action == self::spec_map_event(event),
{
    match event {
        GossipEvent::Msg(from, frame) => match map_frame(frame) {
            Some(msg) => Some(NodeAction::Incoming { from, msg }),
            None => None,
        },
        GossipEvent::SetInitiate(tgt) => Some(NodeAction::SetInitiate(tgt.cert, tgt.tie_break)),
        GossipEvent::MustSend(peer) => Some(NodeAction::MustSend(peer)),
        GossipEvent::TieBreakLoser(peer) => Some(NodeAction::TieBreakLoser(peer)),
    }
}

} // verus!
