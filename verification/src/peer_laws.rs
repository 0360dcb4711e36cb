//! What holds of every coordinator step, and of every sequence of steps.

use crate::error::GossipError;
use crate::peer_model::{Effects, NodeAction, PeerMachine, PeerStateView};
use crate::round_model::{RoundAction, RoundMachine, RoundMsg};
use crate::NodeId;
use vstd::prelude::*;

verus! {

impl PeerMachine {
    /// A step concerns one peer only: the rounds with all other peers stay
    /// exactly as they were, and an initiation with another peer stays too.
    pub proof fn lemma_step_touches_one_peer(
        &self,
        state: PeerStateView,
        action: NodeAction,
        other: NodeId,
    )
        requires
            self.spec_transition(state, action) is Ok,
            other != action.spec_node_id(),
        ensures
            ({
                let next = self.spec_transition(state, action)->Ok_0.0;
                &&& next.rounds.contains_key(other) == state.rounds.contains_key(other)
                &&& state.rounds.contains_key(other) ==> next.rounds[other] == state.rounds[other]
                &&& state.targets(other) ==> next.targets(other)
            }),
    {
    }

    /// Rounds with one peer never overlap. While a peer has a round, no step
    /// replaces it by another: after a step the peer either has no round, or
    /// has the same round, in the same mode, untouched or advanced by the
    /// round engine on an action that concerns this peer.
    pub proof fn lemma_one_round_per_peer(
        &self,
        state: PeerStateView,
        action: NodeAction,
        peer: NodeId,
    )
        requires
            self.spec_transition(state, action) is Ok,
            state.rounds.contains_key(peer),
            self.spec_transition(state, action)->Ok_0.0.rounds.contains_key(peer),
        ensures
            ({
                let before = state.rounds[peer];
                let after = self.spec_transition(state, action)->Ok_0.0.rounds[peer];
                &&& after.gossip_type == before.gossip_type
                &&& after == before || {
                    &&& action.spec_node_id() == peer
                    &&& action.spec_into_round_action() matches Some(round_action)
                    &&& RoundMachine(before.gossip_type).spec_transition(
                        before.phase,
                        round_action,
                    ) matches Ok((phase, _))
                    &&& after.phase == phase
                }
            }),
    {
    }

    /// Every round comes to an end: each round message or `MustSend` that the
    /// coordinator accepts for a peer either ends the round with that peer or
    /// leaves it with strictly fewer steps remaining.
    pub proof fn lemma_round_action_progresses(
        &self,
        state: PeerStateView,
        peer: NodeId,
        action: RoundAction,
    )
        requires
            Self::spec_round_action(state, peer, action) is Ok,
        ensures
            state.rounds.contains_key(peer),
            ({
                let next = Self::spec_round_action(state, peer, action)->Ok_0.0;
                next.rounds.contains_key(peer) ==> next.rounds[peer].phase.remaining()
                    < state.rounds[peer].phase.remaining()
            }),
    {
        let session = state.rounds[peer];
        RoundMachine(session.gossip_type).lemma_accepted_action_progresses(session.phase, action);
    }

    /// A round is created only by a handshake message from a peer that has
    /// none, and starts in `Started`, in the coordinator's mode.
    pub proof fn lemma_round_creation(&self, state: PeerStateView, action: NodeAction, peer: NodeId)
        requires
            self.spec_transition(state, action) is Ok,
            !state.rounds.contains_key(peer),
            self.spec_transition(state, action)->Ok_0.0.rounds.contains_key(peer),
        ensures
            ({
                let created = self.spec_transition(state, action)->Ok_0.0.rounds[peer];
                ||| action == (NodeAction::Incoming { from: peer, msg: RoundMsg::Initiate })
                    && created == self.fresh_round(false)
                ||| action == (NodeAction::Incoming { from: peer, msg: RoundMsg::Accept })
                    && created == self.fresh_round(true) && state.targets(peer)
            }),
    {
    }

    /// No step stores a round that is over.
    pub proof fn lemma_step_preserves_wf(&self, state: PeerStateView, action: NodeAction)
        requires
            state.wf(),
            self.spec_transition(state, action) is Ok,
        ensures
            self.spec_transition(state, action)->Ok_0.0.wf(),
    {
        let next = self.spec_transition(state, action)->Ok_0.0;
        let subject = action.spec_node_id();
        assert forall|peer: NodeId| #[trigger] next.rounds.contains_key(peer) implies !(
        next.rounds[peer].phase is Finished) by {
            if peer != subject {
                self.lemma_step_touches_one_peer(state, action, peer);
            }
        }
    }

    /// The peer of an outstanding initiation has no round, and a step keeps
    /// it so, with two exceptions that the protocol makes on purpose: the
    /// `Accept` from that very peer, which opens the round the initiation
    /// asked for, and an initiation towards a peer that already has a round.
    pub proof fn lemma_step_preserves_target_without_round(
        &self,
        state: PeerStateView,
        action: NodeAction,
    )
        requires
            state.target_has_no_round(),
            self.spec_transition(state, action) is Ok,
            !(action matches NodeAction::Incoming { from, msg: RoundMsg::Accept } && state.targets(
                from,
            ) && !state.rounds.contains_key(from)),
            !(action matches NodeAction::SetInitiate(peer, _) && state.initiate_tgt is None
                && state.rounds.contains_key(peer)),
        ensures
            self.spec_transition(state, action)->Ok_0.0.target_has_no_round(),
    {
    }

    /// An initiation is cleared by nothing but the end of the round with its
    /// peer, a timeout or `Close` of that peer, or the loss of the tie-break
    /// against it: a step that concerns another peer leaves it in place, and
    /// so does any round message short of the one that finishes the round.
    pub proof fn lemma_target_cleared_only_by_its_peer(
        &self,
        state: PeerStateView,
        action: NodeAction,
        peer: NodeId,
    )
        requires
            state.targets(peer),
            self.spec_transition(state, action) is Ok,
            !self.spec_transition(state, action)->Ok_0.0.targets(peer),
        ensures
            action.spec_node_id() == peer,
            ({
                let next = self.spec_transition(state, action)->Ok_0.0;
                &&& next.initiate_tgt is None
                &&& !next.rounds.contains_key(peer) || action is TieBreakLoser
            }),
    {
    }

    /// A timeout always succeeds and always resets the node with respect to
    /// the peer: no round with it, no initiation with it, nothing sent.
    pub proof fn lemma_timeout_resets(&self, state: PeerStateView, peer: NodeId)
        ensures
            self.spec_transition(state, NodeAction::Timeout(peer)) matches Ok((next, fx)) && {
                &&& !next.rounds.contains_key(peer)
                &&& !next.targets(peer)
                &&& fx.len() == 0
            },
    {
    }

    /// Losing the tie-break against the peer of the outstanding initiation
    /// always succeeds and clears the initiation; against any other peer, or
    /// without an initiation, it fails.
    pub proof fn lemma_tie_break_loss_yields(&self, state: PeerStateView, peer: NodeId)
        ensures
            state.targets(peer) <==> self.spec_transition(state, NodeAction::TieBreakLoser(peer))
                is Ok,
            self.spec_transition(state, NodeAction::TieBreakLoser(peer)) matches Ok((next, fx))
                ==> next.initiate_tgt is None && next.rounds == state.rounds && fx.len() == 0,
    {
    }

    /// Yielding lets the peer's proposal through: once the node has dropped
    /// its initiation with a peer that has no round, that peer's `Initiate`
    /// is accepted, opens a round that need not send, and is answered by
    /// `Accept` and the mode's first diff.
    pub proof fn lemma_yielding_admits_initiate(&self, state: PeerStateView, peer: NodeId)
        requires
            state.targets(peer),
            !state.rounds.contains_key(peer),
        ensures
            self.spec_on_incoming(state, peer, RoundMsg::Initiate) is Err,
            self.spec_transition(state, NodeAction::TieBreakLoser(peer)) matches Ok((yielded, _))
                && self.spec_on_incoming(yielded, peer, RoundMsg::Initiate) matches Ok((next, fx))
                && {
                &&& next.rounds.contains_key(peer)
                &&& next.rounds[peer] == self.fresh_round(false)
                &&& next.initiate_tgt is None
                &&& fx == seq![
                    (peer, RoundMsg::Accept),
                    (peer, Self::first_diff(self.spec_gossip_type())),
                ]
            },
    {
    }

    /// When the round with a peer finishes, the round is removed and an
    /// initiation with that peer is cleared with it.
    pub proof fn lemma_finish_clears(
        &self,
        state: PeerStateView,
        from: NodeId,
        msg: RoundMsg,
    )
        requires
            state.rounds.contains_key(from),
            !(msg is Initiate),
            !(msg is Accept),
            RoundMachine(state.rounds[from].gossip_type).spec_transition(
                state.rounds[from].phase,
                RoundAction::Msg(msg),
            ) matches Ok((phase, _)) && phase is Finished,
        ensures
            self.spec_on_incoming(state, from, msg) matches Ok((next, _)) && {
                &&& !next.rounds.contains_key(from)
                &&& !next.targets(from)
            },
    {
    }

    /// A message for a round that is gone fails: from a peer without a
    /// round, every message that is neither a handshake nor `Close` is
    /// refused with `NoActiveRound`, and so is `MustSend`.
    pub proof fn lemma_no_round_no_delivery(&self, state: PeerStateView, from: NodeId, msg: RoundMsg)
        requires
            !state.rounds.contains_key(from),
        ensures
            !(msg is Initiate) && !(msg is Accept) && !(msg is Close) ==> self.spec_on_incoming(
                state,
                from,
                msg,
            ) == Err::<(PeerStateView, Effects), _>(GossipError::NoActiveRound(from)),
            Self::spec_on_must_send(state, from) == Err::<(PeerStateView, Effects), _>(
                GossipError::NoActiveRound(from),
            ),
    {
    }

    /// `Close` from a peer removes its round at once, whatever the phase,
    /// and sends nothing. Nothing else changes, except that an initiation
    /// with that peer is cleared.
    pub proof fn lemma_close_removes_round(&self, state: PeerStateView, from: NodeId)
        ensures
            self.spec_on_incoming(state, from, RoundMsg::Close) matches Ok((next, fx)) && {
                &&& fx.len() == 0
                &&& next.rounds == state.rounds.remove(from)
                &&& !next.targets(from)
                &&& !state.targets(from) ==> next.initiate_tgt == state.initiate_tgt
            },
    {
    }

    /// A handshake message from a peer that already has a round is no
    /// failure: it changes nothing and sends nothing.
    pub proof fn lemma_duplicate_handshake_is_noop(
        &self,
        state: PeerStateView,
        from: NodeId,
        msg: RoundMsg,
    )
        requires
            state.rounds.contains_key(from),
            msg is Initiate || msg is Accept,
        ensures
            self.spec_on_incoming(state, from, msg) == Ok::<_, GossipError>(
                (state, Seq::<(NodeId, RoundMsg)>::empty()),
            ),
    {
    }

    /// Once an action of a sequence has failed, the whole sequence fails with
    /// that failure, however it goes on.
    pub proof fn lemma_replay_failure_sticks(
        &self,
        state: PeerStateView,
        actions: Seq<NodeAction>,
        n: int,
    )
        requires
            0 <= n <= actions.len(),
            self.spec_replay(state, actions.take(n)) is Err,
        ensures
            self.spec_replay(state, actions) == self.spec_replay(state, actions.take(n)),
        decreases actions.len() - n,
    {
        if n == actions.len() {
            assert(actions.take(n) =~= actions);
        } else {
            assert(actions.drop_last().take(n) =~= actions.take(n));
            self.lemma_replay_failure_sticks(state, actions.drop_last(), n);
        }
    }

    /// Replay is deterministic: the same actions in the same order, applied
    /// to the same state, give the same last state and the same messages in
    /// the same order, or the same failure.
    pub proof fn lemma_replay_deterministic(
        &self,
        first: PeerStateView,
        second: PeerStateView,
        first_actions: Seq<NodeAction>,
        second_actions: Seq<NodeAction>,
    )
        requires
            first.rounds =~= second.rounds,
            first.initiate_tgt == second.initiate_tgt,
            first_actions.len() == second_actions.len(),
            forall|i: int|
                0 <= i < first_actions.len() ==> first_actions[i] == second_actions[i],
        ensures
            self.spec_replay(first, first_actions) == self.spec_replay(second, second_actions),
    {
        assert(first_actions =~= second_actions);
    }

    /// Every state that a sequence of actions reaches from a state without
    /// finished rounds, and so from the state of a node that has just
    /// started, is without finished rounds.
    pub proof fn lemma_replay_preserves_wf(&self, state: PeerStateView, actions: Seq<NodeAction>)
        requires
            state.wf(),
            self.spec_replay(state, actions) is Ok,
        ensures
            self.spec_replay(state, actions)->Ok_0.0.wf(),
        decreases actions.len(),
    {
        if actions.len() > 0 {
            self.lemma_replay_preserves_wf(state, actions.drop_last());
            let mid = self.spec_replay(state, actions.drop_last())->Ok_0.0;
            self.lemma_step_preserves_wf(mid, actions.last());
        }
    }

    /// No initiation is held forever, as long as timeouts keep coming: in
    /// every run, from whatever state, a timeout of a peer is accepted where
    /// it stands, and right after it the node neither targets that peer nor
    /// has a round with it.
    pub proof fn lemma_timeout_releases_target(
        &self,
        state: PeerStateView,
        actions: Seq<NodeAction>,
        at: int,
        peer: NodeId,
    )
        requires
            0 <= at < actions.len(),
            actions[at] == NodeAction::Timeout(peer),
            self.spec_replay(state, actions.take(at)) is Ok,
        ensures
            self.spec_replay(state, actions.take(at + 1)) matches Ok((next, _)) && {
                &&& !next.targets(peer)
                &&& !next.rounds.contains_key(peer)
            },
    {
        assert(actions.take(at + 1).drop_last() =~= actions.take(at));
        assert(actions.take(at + 1).last() == actions[at]);
        let mid = self.spec_replay(state, actions.take(at))->Ok_0.0;
        self.lemma_timeout_resets(mid, peer);
    }
}

} // verus!
