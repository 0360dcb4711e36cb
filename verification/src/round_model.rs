//! The state machine of a single pairwise gossip round.
//!
//! A round is a phase together with the mode it runs in. [`RoundMachine::transition`]
//! is the only authority over phase changes: given a phase and an action it
//! yields the next phase and the messages to send, or fails.

use crate::error::{GossipError, InvariantViolation, ProtocolViolation};
use vstd::prelude::*;

verus! {

/// The choreography a round follows; fixed when the round is created.
#[derive(Debug, Clone, Copy, PartialEq, Eq, Hash, Structural)]
pub enum GossipType {
    /// Agent-presence diffs are exchanged before op diffs.
    Recent,
    /// Only op diffs are exchanged.
    Historical,
}

/// Where a round stands.
#[derive(Debug, Clone, Copy, PartialEq, Eq, Hash, Structural)]
pub enum RoundPhase {
    /// The handshake is done. The flag is true if we "must send".
    Started(bool),
    /// The peer's agent diff has arrived.
    AgentDiffReceived,
    /// The peer's agents have arrived. The flag is true if we "must send".
    AgentsReceived(bool),
    /// The peer's op diff has arrived.
    OpDiffReceived,
    /// The round is over; nothing may follow.
    Finished,
}

/// A phase without its "must send" flag.
#[derive(Debug, Clone, Copy, PartialEq, Eq, Hash, Structural)]
pub enum RoundPhaseCombined {
    Started,
    AgentDiffReceived,
    AgentsReceived,
    OpDiffReceived,
    Finished,
}

/// What can happen to a round.
#[derive(Debug, Clone, Copy, PartialEq, Eq, Hash, Structural)]
pub enum RoundAction {
    /// A message from the peer.
    Msg(RoundMsg),
    /// A local signal, not a wire message: this side commits to a full
    /// round-trip for the step at hand instead of the early finish.
    MustSend,
}

/// The messages of a round.
#[derive(Debug, Clone, Copy, PartialEq, Eq, Hash, Structural)]
#[must_use]
pub enum RoundMsg {
    Initiate,
    Accept,
    AgentDiff,
    Agents,
    OpDiff,
    Ops,
    Close,
}

/// The kinds of frame that travel between two nodes. What a frame carries
/// is the business of the collaborators that compute and consume diffs; the
/// engine reads the kind alone.
#[derive(Debug, Clone, Copy, PartialEq, Eq, Hash, Structural)]
pub enum WireFrame {
    Initiate,
    Accept,
    Agents,
    MissingAgents,
    OpBloom,
    OpRegions,
    MissingOpHashes,
    OpBatchReceived,
    Error,
    Busy,
    NoAgents,
    AlreadyInProgress,
}

/// The round engine for one mode.
#[derive(Debug)]
pub struct RoundMachine(pub GossipType);

/// The outcome of a transition as contracts speak of it: the next phase and
/// the messages to send, in order.
pub type RoundStep = Result<(RoundPhase, Seq<RoundMsg>), GossipError>;

impl From<RoundMsg> for RoundAction {
    /// A message, as an action on the round it arrives at.
    fn from(msg: RoundMsg) -> (action: RoundAction) {
        RoundAction::Msg(msg)
    }
}

impl vstd::std_specs::convert::FromSpecImpl<RoundMsg> for RoundAction {
    open spec fn obeys_from_spec() -> bool {
        true
    }

    open spec fn from_spec(msg: RoundMsg) -> RoundAction {
        RoundAction::Msg(msg)
    }
}

impl RoundPhase {
    /// The phase without its flag.
    pub open spec fn spec_combined(self) -> RoundPhaseCombined {
        match self {
            RoundPhase::Started(_) => RoundPhaseCombined::Started,
            RoundPhase::AgentDiffReceived => RoundPhaseCombined::AgentDiffReceived,
            RoundPhase::AgentsReceived(_) => RoundPhaseCombined::AgentsReceived,
            RoundPhase::OpDiffReceived => RoundPhaseCombined::OpDiffReceived,
            RoundPhase::Finished => RoundPhaseCombined::Finished,
        }
    }

    /// The phase without its flag.
    pub fn combined(&self) -> (c: RoundPhaseCombined)
        ensures
            c == self.spec_combined(),
    {
        match self {
            RoundPhase::Started(_) => RoundPhaseCombined::Started,
            RoundPhase::AgentDiffReceived => RoundPhaseCombined::AgentDiffReceived,
            RoundPhase::AgentsReceived(_) => RoundPhaseCombined::AgentsReceived,
            RoundPhase::OpDiffReceived => RoundPhaseCombined::OpDiffReceived,
            RoundPhase::Finished => RoundPhaseCombined::Finished,
        }
    }
}

impl RoundMachine {
    /// The mode this engine runs rounds in.
    pub fn gossip_type(&self) -> (t: GossipType)
        ensures
            t == self.0,
    {
        self.0
    }

    /// Whether nothing may follow the phase.
    pub fn is_terminal(&self, state: &RoundPhase) -> (b: bool)
        ensures
            b <==> *state is Finished,
    {
        matches!(state, RoundPhase::Finished)
    }

    /// The transition table: the next phase and the reply for a message that
    /// arrives in a phase, where the mode lists that combination.
    pub open spec fn table(gossip_type: GossipType, phase: RoundPhase, msg: RoundMsg) -> Option<
        (RoundPhase, Seq<RoundMsg>),
    > {
        match (gossip_type, phase, msg) {
            (GossipType::Recent, RoundPhase::Started(true), RoundMsg::AgentDiff) => Some(
                (RoundPhase::AgentDiffReceived, seq![RoundMsg::Agents]),
            ),
            (GossipType::Recent, RoundPhase::Started(false), RoundMsg::AgentDiff) => Some(
                (RoundPhase::AgentsReceived(false), seq![RoundMsg::OpDiff]),
            ),
            (GossipType::Recent, RoundPhase::AgentDiffReceived, RoundMsg::Agents) => Some(
                (RoundPhase::AgentsReceived(false), seq![RoundMsg::OpDiff]),
            ),
            (GossipType::Recent, RoundPhase::Started(true), RoundMsg::OpDiff) => Some(
                (RoundPhase::OpDiffReceived, seq![RoundMsg::Ops]),
            ),
            (GossipType::Recent, RoundPhase::AgentsReceived(true), RoundMsg::OpDiff) => Some(
                (RoundPhase::OpDiffReceived, seq![RoundMsg::Ops]),
            ),
            (GossipType::Recent, RoundPhase::AgentsReceived(false), RoundMsg::OpDiff) => Some(
                (RoundPhase::Finished, seq![]),
            ),
            (GossipType::Historical, RoundPhase::Started(_), RoundMsg::OpDiff) => Some(
                (RoundPhase::OpDiffReceived, seq![RoundMsg::Ops]),
            ),
            (_, RoundPhase::OpDiffReceived, RoundMsg::Ops) => Some((RoundPhase::Finished, seq![])),
            _ => None,
        }
    }

    /// The "must send" flag of a phase, where the mode gives the phase one
    /// that `MustSend` may raise.
    pub open spec fn must_send_flag(gossip_type: GossipType, phase: RoundPhase) -> Option<bool> {
        match (gossip_type, phase) {
            (_, RoundPhase::Started(flag)) => Some(flag),
            (GossipType::Recent, RoundPhase::AgentsReceived(flag)) => Some(flag),
            _ => None,
        }
    }

    /// The phase with its "must send" flag raised; a phase without a flag is
    /// left as it is.
    pub open spec fn raised(phase: RoundPhase) -> RoundPhase {
        match phase {
            RoundPhase::Started(_) => RoundPhase::Started(true),
            RoundPhase::AgentsReceived(_) => RoundPhase::AgentsReceived(true),
            _ => phase,
        }
    }

    /// What an action does to a round in a given phase.
    ///
    /// Nothing may follow `Finished`. A message listed in the table does what
    /// its row says; `Close` otherwise ends the round silently; any other
    /// message is a violation that carries the offending combination.
    /// `MustSend` raises a flag that is down, is refused where the flag is
    /// already up, and is a violation where the phase has no flag to raise.
    pub open spec fn spec_transition(&self, state: RoundPhase, action: RoundAction) -> RoundStep {
        if state is Finished {
            Err(GossipError::ProtocolViolation(ProtocolViolation::Terminal))
        } else {
            match action {
                RoundAction::Msg(msg) => match Self::table(self.0, state, msg) {
                    Some(row) => Ok(row),
                    None => if msg is Close {
                        Ok((RoundPhase::Finished, seq![]))
                    } else {
                        Err(
                            GossipError::ProtocolViolation(
                                ProtocolViolation::InvalidTransition(self.0, action, state),
                            ),
                        )
                    },
                },
                RoundAction::MustSend => match Self::must_send_flag(self.0, state) {
                    Some(false) => Ok((Self::raised(state), seq![])),
                    Some(true) => Err(
                        GossipError::InvariantViolation(InvariantViolation::MustSendAlreadySet),
                    ),
                    None => Err(
                        GossipError::ProtocolViolation(
                            ProtocolViolation::InvalidTransition(self.0, action, state),
                        ),
                    ),
                },
            }
        }
    }

    /// How an executable outcome reads in contracts.
    pub open spec fn view_step(r: Result<(RoundPhase, Vec<RoundMsg>), GossipError>) -> RoundStep {
        match r {
            Ok((phase, fx)) => Ok((phase, fx@)),
            Err(e) => Err(e),
        }
    }

    /// Applies an action to a round: the next phase and the messages to send
    /// to the peer, or the failure.
    pub fn transition(&self, state: RoundPhase, action: RoundAction) -> (r: Result<
        (RoundPhase, Vec<RoundMsg>),
        GossipError,
    >)
        ensures
            Self::view_step(r) == self.spec_transition(state, action),
    {
        match action {
            RoundAction::Msg(msg) => {
                let (phase, fx) = match (self.gossip_type(), msg, state) {
                    (_, _, RoundPhase::Finished) => {
                        return Err(GossipError::ProtocolViolation(ProtocolViolation::Terminal));
                    },
                    (GossipType::Recent, RoundMsg::AgentDiff, RoundPhase::Started(true)) => {
                        (RoundPhase::AgentDiffReceived, vec![RoundMsg::Agents])
                    },
                    (GossipType::Recent, RoundMsg::AgentDiff, RoundPhase::Started(false)) => {
                        (RoundPhase::AgentsReceived(false), vec![RoundMsg::OpDiff])
                    },
                    (GossipType::Recent, RoundMsg::Agents, RoundPhase::AgentDiffReceived) => {
                        (RoundPhase::AgentsReceived(false), vec![RoundMsg::OpDiff])
                    },
                    // OpDiff can be received in Started when agents already match
                    (
                        GossipType::Recent,
                        RoundMsg::OpDiff,
                        RoundPhase::Started(true) | RoundPhase::AgentsReceived(true),
                    ) => (RoundPhase::OpDiffReceived, vec![RoundMsg::Ops]),
                    (GossipType::Recent, RoundMsg::OpDiff, RoundPhase::AgentsReceived(false)) => {
                        (RoundPhase::Finished, Vec::new())
                    },
                    (GossipType::Historical, RoundMsg::OpDiff, RoundPhase::Started(_)) => {
                        (RoundPhase::OpDiffReceived, vec![RoundMsg::Ops])
                    },
                    (_, RoundMsg::Ops, RoundPhase::OpDiffReceived) => {
                        (RoundPhase::Finished, Vec::new())
                    },
                    (_, RoundMsg::Close, _) => (RoundPhase::Finished, Vec::new()),
                    (gossip_type, _, phase) => {
                        return Err(
                            GossipError::ProtocolViolation(
                                ProtocolViolation::InvalidTransition(gossip_type, action, phase),
                            ),
                        );
                    },
                };
                proof {
                    let expected = self.spec_transition(state, action);
                    assert(expected is Ok);
                    assert(fx@ =~= expected->Ok_0.1);
                }
                Ok((phase, fx))
            },
            RoundAction::MustSend => {
                let raised = match (self.gossip_type(), state) {
                    (_, RoundPhase::Finished) => {
                        return Err(GossipError::ProtocolViolation(ProtocolViolation::Terminal));
                    },
                    (_, RoundPhase::Started(false)) => RoundPhase::Started(true),
                    (GossipType::Recent, RoundPhase::AgentsReceived(false)) => {
                        RoundPhase::AgentsReceived(true)
                    },
                    (_, RoundPhase::Started(true))
                    | (GossipType::Recent, RoundPhase::AgentsReceived(true)) => {
                        return Err(
                            GossipError::InvariantViolation(InvariantViolation::MustSendAlreadySet),
                        );
                    },
                    (gossip_type, phase) => {
                        return Err(
                            GossipError::ProtocolViolation(
                                ProtocolViolation::InvalidTransition(gossip_type, action, phase),
                            ),
                        );
                    },
                };
                let fx: Vec<RoundMsg> = Vec::new();
                proof {
                    assert(fx@ =~= seq![]);
                }
                Ok((raised, fx))
            },
        }
    }
}

impl RoundPhase {
    /// An upper bound on the number of actions a round in this phase can
    /// still accept.
    pub open spec fn remaining(self) -> nat {
        match self {
            RoundPhase::Started(false) => 6,
            RoundPhase::Started(true) => 5,
            RoundPhase::AgentDiffReceived => 4,
            RoundPhase::AgentsReceived(false) => 3,
            RoundPhase::AgentsReceived(true) => 2,
            RoundPhase::OpDiffReceived => 1,
            RoundPhase::Finished => 0,
        }
    }
}

impl RoundMachine {
    /// Nothing is accepted once a round is over.
    pub proof fn lemma_finished_is_terminal(&self, action: RoundAction)
        ensures
            self.spec_transition(RoundPhase::Finished, action) == Err::<
                (RoundPhase, Seq<RoundMsg>),
                _,
            >(GossipError::ProtocolViolation(ProtocolViolation::Terminal)),
    {
    }

    /// `Close` ends a round in any phase but the terminal one, and sends
    /// nothing.
    pub proof fn lemma_close_finishes(&self, state: RoundPhase)
        requires
            !(state is Finished),
        ensures
            self.spec_transition(state, RoundAction::Msg(RoundMsg::Close)) == Ok::<
                _,
                GossipError,
            >((RoundPhase::Finished, Seq::<RoundMsg>::empty())),
    {
        assert(Self::table(self.0, state, RoundMsg::Close) is None);
    }

    /// Each accepted action brings the round strictly closer to its end, and
    /// sends at most one message.
    pub proof fn lemma_accepted_action_progresses(&self, state: RoundPhase, action: RoundAction)
        requires
            self.spec_transition(state, action) is Ok,
        ensures
            self.spec_transition(state, action)->Ok_0.0.remaining() < state.remaining(),
            self.spec_transition(state, action)->Ok_0.1.len() <= 1,
    {
    }

    /// Whether a round in phase `state` accepts every one of `actions`, one
    /// after the other.
    pub open spec fn accepts_all(&self, state: RoundPhase, actions: Seq<RoundAction>) -> bool
        decreases actions.len(),
    {
        actions.len() == 0 || match self.spec_transition(state, actions[0]) {
            Ok((next, _)) => self.accepts_all(next, actions.drop_first()),
            Err(_) => false,
        }
    }

    /// Every round terminates: whatever arrives, a round accepts no more
    /// actions in a row than its phase has steps remaining, and never more
    /// than six.
    pub proof fn lemma_round_terminates(&self, state: RoundPhase, actions: Seq<RoundAction>)
        requires
            self.accepts_all(state, actions),
        ensures
            actions.len() <= state.remaining(),
            state.remaining() <= 6,
        decreases actions.len(),
    {
        if actions.len() > 0 {
            let next = self.spec_transition(state, actions[0])->Ok_0.0;
            self.lemma_accepted_action_progresses(state, actions[0]);
            self.lemma_round_terminates(next, actions.drop_first());
        }
    }

    /// `MustSend` only ever raises the flag: the phase stays what it was but
    /// for the flag, which goes from down to up.
    pub proof fn lemma_must_send_raises_flag(&self, state: RoundPhase)
        requires
            self.spec_transition(state, RoundAction::MustSend) is Ok,
        ensures
            Self::must_send_flag(self.0, state) == Some(false),
            self.spec_transition(state, RoundAction::MustSend)->Ok_0.0.spec_combined()
                == state.spec_combined(),
            Self::must_send_flag(
                self.0,
                self.spec_transition(state, RoundAction::MustSend)->Ok_0.0,
            ) == Some(true),
    {
    }
}

/// The message a frame stands for. Receipts of op batches mean nothing to a
/// round; every control frame (`Error`, `Busy`, `NoAgents`,
/// `AlreadyInProgress`) means `Close`.
pub open spec fn spec_map_event(frame: WireFrame) -> Option<RoundMsg> {
    match frame {
        WireFrame::Initiate => Some(RoundMsg::Initiate),
        WireFrame::Accept => Some(RoundMsg::Accept),
        WireFrame::Agents => Some(RoundMsg::AgentDiff),
        WireFrame::MissingAgents => Some(RoundMsg::Agents),
        WireFrame::OpBloom | WireFrame::OpRegions => Some(RoundMsg::OpDiff),
        WireFrame::MissingOpHashes => Some(RoundMsg::Ops),
        WireFrame::OpBatchReceived => None,
        WireFrame::Error
        | WireFrame::Busy
        | WireFrame::NoAgents
        | WireFrame::AlreadyInProgress => Some(RoundMsg::Close),
    }
}

/// The message a frame stands for, if it stands for one.
pub fn map_event(msg: WireFrame) -> (round_msg: Option<RoundMsg>)
    ensures
        round_msg == spec_map_event(msg),
{
    match msg {
        WireFrame::Initiate => Some(RoundMsg::Initiate),
        WireFrame::Accept => Some(RoundMsg::Accept),
        WireFrame::Agents => Some(RoundMsg::AgentDiff),
        WireFrame::MissingAgents => Some(RoundMsg::Agents),
        WireFrame::OpBloom => Some(RoundMsg::OpDiff),
        WireFrame::OpRegions => Some(RoundMsg::OpDiff),
        WireFrame::MissingOpHashes => Some(RoundMsg::Ops),
        WireFrame::OpBatchReceived => None,
        WireFrame::Error
        | WireFrame::Busy
        | WireFrame::NoAgents
        | WireFrame::AlreadyInProgress => Some(RoundMsg::Close),
    }
}

} // verus!
