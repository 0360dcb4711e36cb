use gossip_round::error::{GossipError, ProtocolViolation};
use gossip_round::peer_model::{NodeAction, PeerMachine, PeerState, Tgt};
use gossip_round::round_model::{GossipType, RoundMsg, RoundPhase};
use gossip_round::tie_break::{arbitrate, TieBreak};

#[test]
fn the_lesser_value_yields() {
    let low = TieBreak { node: 9, value: 10 };
    let high = TieBreak { node: 1, value: 11 };
    assert!(low.yields_to(&high));
    assert!(!high.yields_to(&low));
}

#[test]
fn equal_values_fall_back_on_identity() {
    let a = TieBreak { node: 1, value: 500 };
    let b = TieBreak { node: 2, value: 500 };
    assert!(a.yields_to(&b));
    assert!(!b.yields_to(&a));
}

#[test]
fn no_stake_yields_to_itself() {
    let a = TieBreak { node: 1, value: 500 };
    assert!(!a.yields_to(&a));
}

#[test]
fn two_different_nodes_have_exactly_one_loser() {
    let values = [0u32, 1, 2, u32::MAX - 1, u32::MAX];
    for a in 0u8..4 {
        for b in 0u8..4 {
            if a != b {
                for x in values {
                    for y in values {
                        let left = TieBreak { node: a, value: x };
                        let right = TieBreak { node: b, value: y };
                        assert_ne!(left.yields_to(&right), right.yields_to(&left));
                    }
                }
            }
        }
    }
}

#[test]
fn the_lesser_stake_is_told_to_yield() {
    let tgt = Tgt { cert: 2, tie_break: 10 };
    assert_eq!(arbitrate(1, &tgt, 11), Some(NodeAction::TieBreakLoser(2)));
    assert_eq!(arbitrate(1, &tgt, 10), Some(NodeAction::TieBreakLoser(2)));
    assert_eq!(arbitrate(3, &tgt, 10), None);
    assert_eq!(arbitrate(1, &tgt, 9), None);
}

#[test]
fn exactly_one_side_is_told_to_yield() {
    for (x, y) in [(0u32, 0u32), (1, 0), (0, 1), (u32::MAX, u32::MAX), (7, u32::MAX)] {
        let at_a = arbitrate(1, &Tgt { cert: 2, tie_break: x }, y);
        let at_b = arbitrate(2, &Tgt { cert: 1, tie_break: y }, x);
        assert_ne!(at_a.is_some(), at_b.is_some());
    }
}

#[test]
fn a_clash_resolves_into_one_round() {
    let (a, b) = (1u8, 2u8);
    let (a_value, b_value) = (300u32, 200u32);
    let machine = PeerMachine::new(GossipType::Historical);
    let mut at_a = PeerState::new();
    let mut at_b = PeerState::new();
    assert_eq!(machine.request_initiate(&mut at_a, b, a_value), vec![(b, RoundMsg::Initiate)]);
    assert_eq!(machine.request_initiate(&mut at_b, a, b_value), vec![(a, RoundMsg::Initiate)]);

    // Each proposal meets a node that is waiting on its sender.
    for (state, from) in [(&mut at_a, b), (&mut at_b, a)] {
        assert_eq!(
            machine.on_incoming(state, from, RoundMsg::Initiate),
            Err(GossipError::ProtocolViolation(ProtocolViolation::UnresolvedInitiate(from)))
        );
    }

    // The node with the lesser stake yields and lets the proposal in.
    assert_eq!(arbitrate(a, at_a.initiate_tgt.as_ref().unwrap(), b_value), None);
    let yield_to_a = arbitrate(b, at_b.initiate_tgt.as_ref().unwrap(), a_value).unwrap();
    assert_eq!(yield_to_a, NodeAction::TieBreakLoser(a));
    assert_eq!(machine.apply(&mut at_b, yield_to_a), Ok(vec![]));
    assert_eq!(
        machine.on_incoming(&mut at_b, a, RoundMsg::Initiate),
        Ok(vec![(a, RoundMsg::Accept), (a, RoundMsg::OpDiff)])
    );

    // From here on it is an ordinary round between proposer and acceptor.
    assert_eq!(machine.on_incoming(&mut at_a, b, RoundMsg::Accept), Ok(vec![(b, RoundMsg::OpDiff)]));
    assert_eq!(machine.on_incoming(&mut at_a, b, RoundMsg::OpDiff), Ok(vec![(b, RoundMsg::Ops)]));
    assert_eq!(machine.on_incoming(&mut at_b, a, RoundMsg::OpDiff), Ok(vec![(a, RoundMsg::Ops)]));
    assert_eq!(at_a.rounds.get(&b).map(|s| s.phase), Some(RoundPhase::OpDiffReceived));
    assert_eq!(machine.on_incoming(&mut at_a, b, RoundMsg::Ops), Ok(vec![]));
    assert_eq!(machine.on_incoming(&mut at_b, a, RoundMsg::Ops), Ok(vec![]));
    assert_eq!(at_a, PeerState::new());
    assert_eq!(at_b, PeerState::new());
}
