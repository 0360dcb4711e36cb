//! Failures of the round engine and of the peer coordinator.
//!
//! Every failure concerns one peer relationship only.

use crate::round_model::{GossipType, RoundAction, RoundPhase};
use crate::NodeId;
use vstd::prelude::*;

verus! {

/// Why a message or signal was illegal where it arrived.
#[derive(Debug, Clone, Copy, PartialEq, Eq, Hash, Structural)]
pub enum ProtocolViolation {
    /// The round had already reached its terminal phase.
    Terminal,
    /// The transition table has no row for this mode, action and phase.
    InvalidTransition(GossipType, RoundAction, RoundPhase),
    /// An `Initiate` arrived from the very peer this node is initiating with,
    /// before the tie-break between the two was resolved.
    UnresolvedInitiate(NodeId),
}

/// Which local invariant a signal would have broken.
#[derive(Debug, Clone, Copy, PartialEq, Eq, Hash, Structural)]
pub enum InvariantViolation {
    /// `MustSend` was raised on a round whose flag was already set.
    MustSendAlreadySet,
    /// A tie-break loss was reported while no initiation was outstanding.
    NoInitiateTarget,
    /// A tie-break loss was reported against a peer that is not the initiate target.
    NotInitiateTarget(NodeId),
}

/// The failures of the engine.
#[derive(Debug, Clone, Copy, PartialEq, Eq, Hash, Structural)]
pub enum GossipError {
    /// A message arrived in a phase and mode that do not admit it.
    ProtocolViolation(ProtocolViolation),
    /// A handshake message arrived from a peer that already has a round.
    /// This is reported as a notice only: the transition itself succeeds and
    /// leaves the round untouched.
    DuplicateRound(NodeId),
    /// A message or signal concerned a peer that has no round.
    NoActiveRound(NodeId),
    /// An `Accept` arrived from a peer that is not the initiate target.
    UnsolicitedAccept(NodeId),
    /// A signal contradicted the local state.
    InvariantViolation(InvariantViolation),
    /// An action was addressed to a node that the network does not hold.
    UnknownNode(NodeId),
}

impl GossipError {
    /// The fixed text that names the failure.
    pub open spec fn spec_reason(self) -> Seq<char> {
        match self {
            GossipError::ProtocolViolation(ProtocolViolation::Terminal) => "terminal"@,
            GossipError::ProtocolViolation(ProtocolViolation::InvalidTransition(..)) =>
                "invalid transition"@,
            GossipError::ProtocolViolation(ProtocolViolation::UnresolvedInitiate(_)) =>
                "initiate from the initiate target"@,
            GossipError::DuplicateRound(_) => "already a round"@,
            GossipError::NoActiveRound(_) => "no round"@,
            GossipError::UnsolicitedAccept(_) => "accept from a node that is not the initiate target"@,
            GossipError::InvariantViolation(InvariantViolation::MustSendAlreadySet) =>
                "must_send already set"@,
            GossipError::InvariantViolation(InvariantViolation::NoInitiateTarget) =>
                "there was no initiate target"@,
            GossipError::InvariantViolation(InvariantViolation::NotInitiateTarget(_)) =>
                "tie break winner is not the initiate target"@,
            GossipError::UnknownNode(_) => "unknown node"@,
        }
    }

    /// The fixed text that names the failure, without the values it carries.
    pub fn reason(&self) -> (text: &'static str)
        ensures
            text@ == self.spec_reason(),
    {
        match self {
            GossipError::ProtocolViolation(ProtocolViolation::Terminal) => "terminal",
            GossipError::ProtocolViolation(ProtocolViolation::InvalidTransition(..)) =>
                "invalid transition",
            GossipError::ProtocolViolation(ProtocolViolation::UnresolvedInitiate(_)) =>
                "initiate from the initiate target",
            GossipError::DuplicateRound(_) => "already a round",
            GossipError::NoActiveRound(_) => "no round",
            GossipError::UnsolicitedAccept(_) => "accept from a node that is not the initiate target",
            GossipError::InvariantViolation(InvariantViolation::MustSendAlreadySet) =>
                "must_send already set",
            GossipError::InvariantViolation(InvariantViolation::NoInitiateTarget) =>
                "there was no initiate target",
            GossipError::InvariantViolation(InvariantViolation::NotInitiateTarget(_)) =>
                "tie break winner is not the initiate target",
            GossipError::UnknownNode(_) => "unknown node",
        }
    }
}

} // verus!
