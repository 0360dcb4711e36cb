//! What holds of whole rounds as they run through the network: two nodes
//! that nobody disturbs take a round from the proposal to its end.

use crate::error::{GossipError, ProtocolViolation};
use crate::gossip_model::{GossipAction, GossipMachine, GossipStateView};
use crate::peer_model::{NodeAction, PeerStateView, RoundSession, Tgt};
use crate::round_model::{GossipType, RoundAction, RoundMsg, RoundPhase};
use crate::NodeId;
use vstd::prelude::*;

verus! {

/// The arrival of `msg` from `from`, queued for `to`.
pub open spec fn arrival(to: NodeId, from: NodeId, msg: RoundMsg) -> (NodeId, NodeAction) {
    (to, NodeAction::Incoming { from, msg })
}

/// A node whose only round is the one with `peer`, in the given phase and
/// mode, and whose initiation, if it has one, is with that peer too.
pub open spec fn engaged(
    peer: NodeId,
    phase: RoundPhase,
    gossip_type: GossipType,
    tie_break: Option<u32>,
) -> PeerStateView {
    PeerStateView {
        rounds: Map::empty().insert(peer, RoundSession { phase, gossip_type }),
        initiate_tgt: match tie_break {
            Some(tie_break) => Some(Tgt { cert: peer, tie_break }),
            None => None,
        },
    }
}

impl GossipMachine {
    /// What the arrival of `msg` from `peer` makes of a node that is engaged
    /// with that peer alone.
    spec fn after(
        &self,
        peer: NodeId,
        phase: RoundPhase,
        tie_break: Option<u32>,
        msg: RoundMsg,
    ) -> PeerStateView {
        self.peer().spec_transition(
            engaged(peer, phase, self.peer().spec_gossip_type(), tie_break),
            NodeAction::Incoming { from: peer, msg },
        )->Ok_0.0
    }

    /// An undisturbed historical round runs to completion. In a network
    /// whose nodes have done nothing yet, let one node propose a round to
    /// another: six deliveries later both are done with each other, every
    /// node is as it was and nothing is in flight, whatever the two nodes
    /// and whatever the tie-break value.
    pub proof fn lemma_historical_round_completes(
        &self,
        ids: Seq<NodeId>,
        initiator: NodeId,
        acceptor: NodeId,
        tie_break: u32,
        limit: nat,
    )
        requires
            self.peer().spec_gossip_type() == GossipType::Historical,
            ids.contains(initiator),
            ids.contains(acceptor),
            initiator != acceptor,
            limit >= 6,
        ensures
            self.spec_transition(
                GossipStateView::fresh(ids),
                GossipAction::NodeAction(initiator, NodeAction::SetInitiate(acceptor, tie_break)),
            ) matches Ok((proposed, _)) && self.spec_deliver(proposed, limit) == Ok::<
                _,
                GossipError,
            >((GossipStateView::fresh(ids), 6nat)),
    {
        let a = initiator;
        let b = acceptor;
        let mode = GossipType::Historical;
        let mine = Some(tie_break);
        let idle = PeerStateView::empty();
        let fresh = GossipStateView::fresh(ids);
        let waiting = PeerStateView {
            rounds: Map::empty(),
            initiate_tgt: Some(Tgt { cert: b, tie_break }),
        };

        let s0 = self.spec_transition(
            fresh,
            GossipAction::NodeAction(a, NodeAction::SetInitiate(b, tie_break)),
        )->Ok_0.0;
        assert(s0.nodes =~= fresh.nodes.insert(a, waiting));
        assert(s0.inflight =~= seq![arrival(b, a, RoundMsg::Initiate)]);

        // The proposal reaches the acceptor.
        let s1 = self.spec_transition(s0, GossipAction::Transmit)->Ok_0.0;
        assert(s1.nodes =~= s0.nodes.insert(b, engaged(a, RoundPhase::Started(false), mode, None)));
        assert(s1.inflight =~= seq![
            arrival(a, b, RoundMsg::Accept),
            arrival(a, b, RoundMsg::OpDiff),
        ]);

        // The acceptance reaches the proposer.
        let s2 = self.spec_transition(s1, GossipAction::Transmit)->Ok_0.0;
        assert(s2.nodes =~= s1.nodes.insert(a, engaged(b, RoundPhase::Started(true), mode, mine)));
        assert(s2.inflight =~= seq![
            arrival(a, b, RoundMsg::OpDiff),
            arrival(b, a, RoundMsg::OpDiff),
        ]);

        // Each side receives the other's op diff.
        assert(self.after(b, RoundPhase::Started(true), mine, RoundMsg::OpDiff).rounds =~= engaged(
            b,
            RoundPhase::OpDiffReceived,
            mode,
            mine,
        ).rounds);
        let s3 = self.spec_transition(s2, GossipAction::Transmit)->Ok_0.0;
        assert(s3.nodes =~= s2.nodes.insert(a, engaged(b, RoundPhase::OpDiffReceived, mode, mine)));
        assert(s3.inflight =~= seq![
            arrival(b, a, RoundMsg::OpDiff),
            arrival(b, a, RoundMsg::Ops),
        ]);

        assert(self.after(a, RoundPhase::Started(false), None, RoundMsg::OpDiff).rounds =~= engaged(
            a,
            RoundPhase::OpDiffReceived,
            mode,
            None,
        ).rounds);
        let s4 = self.spec_transition(s3, GossipAction::Transmit)->Ok_0.0;
        assert(s4.nodes =~= s3.nodes.insert(b, engaged(a, RoundPhase::OpDiffReceived, mode, None)));
        assert(s4.inflight =~= seq![arrival(b, a, RoundMsg::Ops), arrival(a, b, RoundMsg::Ops)]);

        // Each side receives the other's ops, and is done.
        assert(self.after(a, RoundPhase::OpDiffReceived, None, RoundMsg::Ops).rounds
            =~= idle.rounds);
        let s5 = self.spec_transition(s4, GossipAction::Transmit)->Ok_0.0;
        assert(s5.nodes =~= s4.nodes.insert(b, idle));
        assert(s5.inflight =~= seq![arrival(a, b, RoundMsg::Ops)]);

        assert(self.after(b, RoundPhase::OpDiffReceived, mine, RoundMsg::Ops).rounds
            =~= idle.rounds);
        let s6 = self.spec_transition(s5, GossipAction::Transmit)->Ok_0.0;
        assert(s6.nodes =~= fresh.nodes);
        assert(s6.inflight =~= fresh.inflight);

        assert(self.spec_deliver(s6, (limit - 6) as nat) == Ok::<_, GossipError>((fresh, 0nat)));
        assert(self.spec_deliver(s5, (limit - 5) as nat) == Ok::<_, GossipError>((fresh, 1nat)));
        assert(self.spec_deliver(s4, (limit - 4) as nat) == Ok::<_, GossipError>((fresh, 2nat)));
        assert(self.spec_deliver(s3, (limit - 3) as nat) == Ok::<_, GossipError>((fresh, 3nat)));
        assert(self.spec_deliver(s2, (limit - 2) as nat) == Ok::<_, GossipError>((fresh, 4nat)));
        assert(self.spec_deliver(s1, (limit - 1) as nat) == Ok::<_, GossipError>((fresh, 5nat)));
    }

    /// An undisturbed recent round runs to completion, provided the
    /// accepting node commits to send before the proposer's agent diff
    /// reaches it. In a network whose nodes have done nothing yet, let one
    /// node propose a round to another, let the proposal arrive, and let the
    /// acceptor raise `MustSend`: seven deliveries later both are done with
    /// each other, every node is as it was and nothing is in flight.
    pub proof fn lemma_recent_round_completes(
        &self,
        ids: Seq<NodeId>,
        initiator: NodeId,
        acceptor: NodeId,
        tie_break: u32,
        limit: nat,
    )
        requires
            self.peer().spec_gossip_type() == GossipType::Recent,
            ids.contains(initiator),
            ids.contains(acceptor),
            initiator != acceptor,
            limit >= 7,
        ensures
            self.spec_transition(
                GossipStateView::fresh(ids),
                GossipAction::NodeAction(initiator, NodeAction::SetInitiate(acceptor, tie_break)),
            ) matches Ok((proposed, _)) && self.spec_transition(proposed, GossipAction::Transmit)
                matches Ok((arrived, _)) && self.spec_transition(
                arrived,
                GossipAction::NodeAction(acceptor, NodeAction::MustSend(initiator)),
            ) matches Ok((committed, _)) && self.spec_deliver(committed, limit) == Ok::<
                _,
                GossipError,
            >((GossipStateView::fresh(ids), 7nat)),
    {
        let a = initiator;
        let b = acceptor;
        let mode = GossipType::Recent;
        let mine = Some(tie_break);
        let idle = PeerStateView::empty();
        let fresh = GossipStateView::fresh(ids);
        let waiting = PeerStateView {
            rounds: Map::empty(),
            initiate_tgt: Some(Tgt { cert: b, tie_break }),
        };

        let proposed = self.spec_transition(
            fresh,
            GossipAction::NodeAction(a, NodeAction::SetInitiate(b, tie_break)),
        )->Ok_0.0;
        assert(proposed.nodes =~= fresh.nodes.insert(a, waiting));
        assert(proposed.inflight =~= seq![arrival(b, a, RoundMsg::Initiate)]);

        // The proposal reaches the acceptor, which commits to send.
        let arrived = self.spec_transition(proposed, GossipAction::Transmit)->Ok_0.0;
        assert(arrived.nodes =~= proposed.nodes.insert(
            b,
            engaged(a, RoundPhase::Started(false), mode, None),
        ));
        assert(arrived.inflight =~= seq![
            arrival(a, b, RoundMsg::Accept),
            arrival(a, b, RoundMsg::AgentDiff),
        ]);

        let raised = self.peer().spec_transition(
            engaged(a, RoundPhase::Started(false), mode, None),
            NodeAction::MustSend(a),
        )->Ok_0.0;
        assert(raised.rounds =~= engaged(a, RoundPhase::Started(true), mode, None).rounds);
        let s1 = self.spec_transition(
            arrived,
            GossipAction::NodeAction(b, NodeAction::MustSend(a)),
        )->Ok_0.0;
        assert(s1.nodes =~= arrived.nodes.insert(b, engaged(a, RoundPhase::Started(true), mode, None)));
        assert(s1.inflight =~= arrived.inflight);

        // The acceptance reaches the proposer.
        let s2 = self.spec_transition(s1, GossipAction::Transmit)->Ok_0.0;
        assert(s2.nodes =~= s1.nodes.insert(a, engaged(b, RoundPhase::Started(true), mode, mine)));
        assert(s2.inflight =~= seq![
            arrival(a, b, RoundMsg::AgentDiff),
            arrival(b, a, RoundMsg::AgentDiff),
        ]);

        // Each side receives the other's agent diff.
        assert(self.after(b, RoundPhase::Started(true), mine, RoundMsg::AgentDiff).rounds
            =~= engaged(b, RoundPhase::AgentDiffReceived, mode, mine).rounds);
        let s3 = self.spec_transition(s2, GossipAction::Transmit)->Ok_0.0;
        assert(s3.nodes =~= s2.nodes.insert(
            a,
            engaged(b, RoundPhase::AgentDiffReceived, mode, mine),
        ));
        assert(s3.inflight =~= seq![
            arrival(b, a, RoundMsg::AgentDiff),
            arrival(b, a, RoundMsg::Agents),
        ]);

        assert(self.after(a, RoundPhase::Started(true), None, RoundMsg::AgentDiff).rounds
            =~= engaged(a, RoundPhase::AgentDiffReceived, mode, None).rounds);
        let s4 = self.spec_transition(s3, GossipAction::Transmit)->Ok_0.0;
        assert(s4.nodes =~= s3.nodes.insert(
            b,
            engaged(a, RoundPhase::AgentDiffReceived, mode, None),
        ));
        assert(s4.inflight =~= seq![
            arrival(b, a, RoundMsg::Agents),
            arrival(a, b, RoundMsg::Agents),
        ]);

        // Each side receives the other's agents.
        assert(self.after(a, RoundPhase::AgentDiffReceived, None, RoundMsg::Agents).rounds
            =~= engaged(a, RoundPhase::AgentsReceived(false), mode, None).rounds);
        let s5 = self.spec_transition(s4, GossipAction::Transmit)->Ok_0.0;
        assert(s5.nodes =~= s4.nodes.insert(
            b,
            engaged(a, RoundPhase::AgentsReceived(false), mode, None),
        ));
        assert(s5.inflight =~= seq![
            arrival(a, b, RoundMsg::Agents),
            arrival(a, b, RoundMsg::OpDiff),
        ]);

        assert(self.after(b, RoundPhase::AgentDiffReceived, mine, RoundMsg::Agents).rounds
            =~= engaged(b, RoundPhase::AgentsReceived(false), mode, mine).rounds);
        let s6 = self.spec_transition(s5, GossipAction::Transmit)->Ok_0.0;
        assert(s6.nodes =~= s5.nodes.insert(
            a,
            engaged(b, RoundPhase::AgentsReceived(false), mode, mine),
        ));
        assert(s6.inflight =~= seq![
            arrival(a, b, RoundMsg::OpDiff),
            arrival(b, a, RoundMsg::OpDiff),
        ]);

        // Each side receives the other's op diff, and is done.
        assert(self.after(b, RoundPhase::AgentsReceived(false), mine, RoundMsg::OpDiff).rounds
            =~= idle.rounds);
        let s7 = self.spec_transition(s6, GossipAction::Transmit)->Ok_0.0;
        assert(s7.nodes =~= s6.nodes.insert(a, idle));
        assert(s7.inflight =~= seq![arrival(b, a, RoundMsg::OpDiff)]);

        assert(self.after(a, RoundPhase::AgentsReceived(false), None, RoundMsg::OpDiff).rounds
            =~= idle.rounds);
        let s8 = self.spec_transition(s7, GossipAction::Transmit)->Ok_0.0;
        assert(s8.nodes =~= fresh.nodes);
        assert(s8.inflight =~= fresh.inflight);

        assert(self.spec_deliver(s8, (limit - 7) as nat) == Ok::<_, GossipError>((fresh, 0nat)));
        assert(self.spec_deliver(s7, (limit - 6) as nat) == Ok::<_, GossipError>((fresh, 1nat)));
        assert(self.spec_deliver(s6, (limit - 5) as nat) == Ok::<_, GossipError>((fresh, 2nat)));
        assert(self.spec_deliver(s5, (limit - 4) as nat) == Ok::<_, GossipError>((fresh, 3nat)));
        assert(self.spec_deliver(s4, (limit - 3) as nat) == Ok::<_, GossipError>((fresh, 4nat)));
        assert(self.spec_deliver(s3, (limit - 2) as nat) == Ok::<_, GossipError>((fresh, 5nat)));
        assert(self.spec_deliver(s2, (limit - 1) as nat) == Ok::<_, GossipError>((fresh, 6nat)));
    }

    /// Without that commitment a recent round is cut short. The acceptor,
    /// not committed to send, skips its agents and goes straight on to op
    /// diffs, while the proposer, committed by the acceptance, still sends
    /// its agents: the fifth delivery brings them to an acceptor that is
    /// past them, and is refused.
    pub proof fn lemma_recent_round_needs_commitment(
        &self,
        ids: Seq<NodeId>,
        initiator: NodeId,
        acceptor: NodeId,
        tie_break: u32,
        limit: nat,
    )
        requires
            self.peer().spec_gossip_type() == GossipType::Recent,
            ids.contains(initiator),
            ids.contains(acceptor),
            initiator != acceptor,
            limit >= 5,
        ensures
            self.spec_transition(
                GossipStateView::fresh(ids),
                GossipAction::NodeAction(initiator, NodeAction::SetInitiate(acceptor, tie_break)),
            ) matches Ok((proposed, _)) && self.spec_deliver(proposed, limit) == Err::<
                (GossipStateView, nat),
                _,
            >(
                GossipError::ProtocolViolation(
                    ProtocolViolation::InvalidTransition(
                        GossipType::Recent,
                        RoundAction::Msg(RoundMsg::Agents),
                        RoundPhase::AgentsReceived(false),
                    ),
                ),
            ),
    {
        let a = initiator;
        let b = acceptor;
        let mode = GossipType::Recent;
        let mine = Some(tie_break);
        let fresh = GossipStateView::fresh(ids);
        let waiting = PeerStateView {
            rounds: Map::empty(),
            initiate_tgt: Some(Tgt { cert: b, tie_break }),
        };
        let refusal = GossipError::ProtocolViolation(
            ProtocolViolation::InvalidTransition(
                GossipType::Recent,
                RoundAction::Msg(RoundMsg::Agents),
                RoundPhase::AgentsReceived(false),
            ),
        );

        let s0 = self.spec_transition(
            fresh,
            GossipAction::NodeAction(a, NodeAction::SetInitiate(b, tie_break)),
        )->Ok_0.0;
        assert(s0.nodes =~= fresh.nodes.insert(a, waiting));
        assert(s0.inflight =~= seq![arrival(b, a, RoundMsg::Initiate)]);

        let s1 = self.spec_transition(s0, GossipAction::Transmit)->Ok_0.0;
        assert(s1.nodes =~= s0.nodes.insert(b, engaged(a, RoundPhase::Started(false), mode, None)));
        assert(s1.inflight =~= seq![
            arrival(a, b, RoundMsg::Accept),
            arrival(a, b, RoundMsg::AgentDiff),
        ]);

        let s2 = self.spec_transition(s1, GossipAction::Transmit)->Ok_0.0;
        assert(s2.nodes =~= s1.nodes.insert(a, engaged(b, RoundPhase::Started(true), mode, mine)));
        assert(s2.inflight =~= seq![
            arrival(a, b, RoundMsg::AgentDiff),
            arrival(b, a, RoundMsg::AgentDiff),
        ]);

        assert(self.after(b, RoundPhase::Started(true), mine, RoundMsg::AgentDiff).rounds
            =~= engaged(b, RoundPhase::AgentDiffReceived, mode, mine).rounds);
        let s3 = self.spec_transition(s2, GossipAction::Transmit)->Ok_0.0;
        assert(s3.nodes =~= s2.nodes.insert(
            a,
            engaged(b, RoundPhase::AgentDiffReceived, mode, mine),
        ));
        assert(s3.inflight =~= seq![
            arrival(b, a, RoundMsg::AgentDiff),
            arrival(b, a, RoundMsg::Agents),
        ]);

        // The acceptor takes the shortcut past its agents.
        assert(self.after(a, RoundPhase::Started(false), None, RoundMsg::AgentDiff).rounds
            =~= engaged(a, RoundPhase::AgentsReceived(false), mode, None).rounds);
        let s4 = self.spec_transition(s3, GossipAction::Transmit)->Ok_0.0;
        assert(s4.nodes =~= s3.nodes.insert(
            b,
            engaged(a, RoundPhase::AgentsReceived(false), mode, None),
        ));
        assert(s4.inflight =~= seq![
            arrival(b, a, RoundMsg::Agents),
            arrival(a, b, RoundMsg::OpDiff),
        ]);

        // The proposer's agents find it there.
        assert(self.spec_transition(s4, GossipAction::Transmit) == Err::<
            (GossipStateView, bool),
            _,
        >(refusal));
        assert(self.spec_deliver(s4, (limit - 4) as nat) is Err);
        assert(self.spec_deliver(s3, (limit - 3) as nat) is Err);
        assert(self.spec_deliver(s2, (limit - 2) as nat) is Err);
        assert(self.spec_deliver(s1, (limit - 1) as nat) is Err);
    }
}

} // verus!
