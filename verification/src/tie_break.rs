//! The tie-break policy: which of two nodes yields when each has proposed a
//! round to the other at the same time.
//!
//! Each proposal carries a value drawn for it. The two stakes are compared
//! under one total order, by value first and by identity where the values
//! collide; the node with the lesser stake yields. Detecting the clash is left
//! to the caller, which then tells the losing coordinator so with
//! `TieBreakLoser`.

use crate::peer_model::{NodeAction, Tgt};
use crate::NodeId;
use vstd::prelude::*;

verus! {

/// What a node brings to a clash: its identity and the value it drew.
#[derive(Debug, Clone, Copy, PartialEq, Eq, Hash, Structural)]
pub struct TieBreak {
    pub node: NodeId,
    pub value: u32,
}

impl TieBreak {
    /// Whether this stake is the lesser of the two.
    pub open spec fn spec_yields_to(self, other: TieBreak) -> bool {
        self.value < other.value || (self.value == other.value && self.node < other.node)
    }

    /// Whether the node with this stake yields to the node with the other.
    pub fn yields_to(&self, other: &TieBreak) -> (yields: bool)
        ensures
            yields == self.spec_yields_to(*other),
    {
        self.value < other.value || (self.value == other.value && self.node < other.node)
    }

    /// Between two different nodes there is exactly one loser, whatever
    /// values they drew, and both nodes agree on who it is.
    pub proof fn lemma_unique_loser(a: TieBreak, b: TieBreak)
        requires
            a.node != b.node,
        ensures
            a.spec_yields_to(b) != b.spec_yields_to(a),
    {
    }

    /// The order is strict and total: no stake yields to itself, yielding
    /// carries over, and of two different stakes one yields to the other.
    pub proof fn lemma_total_order(a: TieBreak, b: TieBreak, c: TieBreak)
        ensures
            !a.spec_yields_to(a),
            a.spec_yields_to(b) && b.spec_yields_to(c) ==> a.spec_yields_to(c),
            a != b ==> a.spec_yields_to(b) || b.spec_yields_to(a),
    {
    }
}

/// What a clash means for the node `node`, which holds the initiation `tgt`
/// while the peer of that initiation has proposed a round to it with the
/// value `their_value`: the instruction to yield to the peer if the node's
/// stake is the lesser one, and nothing if it is the peer that must yield.
pub open spec fn spec_arbitrate(node: NodeId, tgt: Tgt, their_value: u32) -> Option<NodeAction> {
    if (TieBreak { node, value: tgt.tie_break }).spec_yields_to(
        TieBreak { node: tgt.cert, value: their_value },
    ) {
        Some(NodeAction::TieBreakLoser(tgt.cert))
    } else {
        None
    }
}

/// Arbitrates a clash for the node `node`, which holds the initiation `tgt`
/// and has been proposed a round by the peer of that initiation with the
/// value `their_value`. Returns the `TieBreakLoser` instruction for the
/// node's coordinator if the node must yield, and nothing if the peer must.
pub fn arbitrate(node: NodeId, tgt: &Tgt, their_value: u32) -> (instruction: Option<NodeAction>)
    ensures
        instruction == spec_arbitrate(node, *tgt, their_value),
{
    let own = TieBreak { node, value: tgt.tie_break };
    let theirs = TieBreak { node: tgt.cert, value: their_value };
    if own.yields_to(&theirs) {
        Some(NodeAction::TieBreakLoser(tgt.cert))
    } else {
        None
    }
}

/// When two different nodes have proposed a round to each other, exactly one
/// of them is told to yield, and it is told to yield to the other.
pub proof fn lemma_exactly_one_yields(a: NodeId, a_value: u32, b: NodeId, b_value: u32)
    requires
        a != b,
    ensures
        (spec_arbitrate(a, Tgt { cert: b, tie_break: a_value }, b_value) is Some) != (spec_arbitrate(
            b,
            Tgt { cert: a, tie_break: b_value },
            a_value,
        ) is Some),
        spec_arbitrate(a, Tgt { cert: b, tie_break: a_value }, b_value) matches Some(instruction)
            ==> instruction == NodeAction::TieBreakLoser(b),
        spec_arbitrate(b, Tgt { cert: a, tie_break: b_value }, a_value) matches Some(instruction)
            ==> instruction == NodeAction::TieBreakLoser(a),
{
}

} // verus!
