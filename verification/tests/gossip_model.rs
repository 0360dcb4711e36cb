use gossip_round::error::{GossipError, ProtocolViolation};
use gossip_round::gossip_model::{GossipAction, GossipMachine, GossipState};
use gossip_round::peer_model::{NodeAction, PeerState, RoundSession, Tgt};
use gossip_round::round_model::{GossipType, RoundAction, RoundMsg, RoundPhase};
use gossip_round::NodeId;
use std::collections::VecDeque;

fn arrival(to: NodeId, from: NodeId, msg: RoundMsg) -> (NodeId, NodeAction) {
    (to, NodeAction::Incoming { from, msg })
}

#[test]
fn test_gossip() {
    let ids: Vec<NodeId> = vec![0, 1, 2];
    let machine = GossipMachine::new(GossipType::Recent);
    let mut state = GossipState::new(&ids);
    state = machine
        .transition(state, GossipAction::NodeAction(ids[0], NodeAction::SetInitiate(ids[1], 0)))
        .unwrap()
        .0;

    let mut transmitted = 0;
    let stopped = loop {
        match machine.transition(state.clone(), GossipAction::Transmit) {
            Ok((next, changed)) => {
                state = next;
                if !changed {
                    break None;
                }
                transmitted += 1;
            }
            Err(e) => break Some(e),
        }
    };

    // With nobody raising MustSend, the acceptor has skipped ahead of the
    // initiator's Agents, and refuses them.
    assert_eq!(transmitted, 4);
    assert_eq!(
        stopped,
        Some(GossipError::ProtocolViolation(ProtocolViolation::InvalidTransition(
            GossipType::Recent,
            RoundAction::Msg(RoundMsg::Agents),
            RoundPhase::AgentsReceived(false)
        )))
    );
    assert_eq!(
        state.inflight,
        VecDeque::from(vec![
            arrival(1, 0, RoundMsg::Agents),
            arrival(0, 1, RoundMsg::OpDiff),
        ])
    );
}

#[test]
fn gossip_runs_dry_when_both_sides_keep_pace() {
    let ids: Vec<NodeId> = vec![0, 1, 2];
    let machine = GossipMachine::new(GossipType::Recent);
    let mut state = GossipState::new(&ids);
    let script = [
        GossipAction::NodeAction(0, NodeAction::SetInitiate(1, 0)),
        // Initiate reaches node 1, which has agents to send.
        GossipAction::Transmit,
        GossipAction::NodeAction(1, NodeAction::MustSend(0)),
    ];
    for action in script {
        state = machine.transition(state, action).unwrap().0;
    }
    let mut transmitted = 0;
    loop {
        let (next, changed) = machine.transition(state, GossipAction::Transmit).unwrap();
        state = next;
        if !changed {
            break;
        }
        transmitted += 1;
    }
    assert_eq!(transmitted, 7);
    assert!(state.inflight.is_empty());
    for id in ids {
        assert_eq!(state.nodes.get(&id), Some(&PeerState::new()));
    }
}

#[test]
fn a_new_network_holds_its_nodes_and_nothing_else() {
    let state = GossipState::new(&[4, 9, 4]);
    assert_eq!(state.nodes.len(), 2);
    assert_eq!(state.nodes.get(&4), Some(&PeerState::new()));
    assert_eq!(state.nodes.get(&9), Some(&PeerState::new()));
    assert!(state.inflight.is_empty());
    assert!(GossipState::new(&[]).nodes.is_empty());
}

#[test]
fn a_node_action_queues_what_the_node_sends() {
    let machine = GossipMachine::new(GossipType::Historical);
    let state = GossipState::new(&[0, 1]);
    let (state, changed) = machine
        .transition(
            state,
            GossipAction::NodeAction(1, NodeAction::Incoming { from: 0, msg: RoundMsg::Initiate }),
        )
        .unwrap();
    assert!(changed);
    assert_eq!(
        state.inflight,
        VecDeque::from(vec![arrival(0, 1, RoundMsg::Accept), arrival(0, 1, RoundMsg::OpDiff)])
    );
    assert_eq!(
        state.nodes.get(&1).unwrap().rounds.get(&0),
        Some(&RoundSession {
            phase: RoundPhase::Started(false),
            gossip_type: GossipType::Historical
        })
    );
    assert_eq!(state.nodes.get(&0), Some(&PeerState::new()));
}

#[test]
fn transmit_delivers_the_front_of_the_queue() {
    let machine = GossipMachine::new(GossipType::Recent);
    let mut state = GossipState::new(&[0, 1, 2]);
    state.inflight.push_back((2, NodeAction::SetInitiate(0, 5)));
    state.inflight.push_back((1, NodeAction::SetInitiate(0, 6)));
    let (state, changed) = machine.transition(state, GossipAction::Transmit).unwrap();
    assert!(changed);
    assert_eq!(
        state.nodes.get(&2).unwrap().initiate_tgt,
        Some(Tgt { cert: 0, tie_break: 5 })
    );
    assert_eq!(state.nodes.get(&1), Some(&PeerState::new()));
    assert_eq!(
        state.inflight,
        VecDeque::from(vec![(1, NodeAction::SetInitiate(0, 6)), arrival(0, 2, RoundMsg::Initiate)])
    );
}

#[test]
fn transmit_with_nothing_in_flight_changes_nothing() {
    let machine = GossipMachine::new(GossipType::Recent);
    let state = GossipState::new(&[0, 1]);
    assert_eq!(machine.transition(state.clone(), GossipAction::Transmit), Ok((state, false)));
}

#[test]
fn an_action_at_an_unknown_node_is_refused() {
    let machine = GossipMachine::new(GossipType::Recent);
    let state = GossipState::new(&[0, 1]);
    assert_eq!(
        machine.transition(state, GossipAction::NodeAction(7, NodeAction::Timeout(0))),
        Err(GossipError::UnknownNode(7))
    );
    let mut state = GossipState::new(&[0, 1]);
    state.inflight.push_back(arrival(7, 0, RoundMsg::Initiate));
    assert_eq!(
        machine.transition(state, GossipAction::Transmit),
        Err(GossipError::UnknownNode(7))
    );
}

#[test]
fn a_refused_node_action_fails_the_step() {
    let machine = GossipMachine::new(GossipType::Recent);
    let state = GossipState::new(&[0, 1]);
    assert_eq!(
        machine.transition(
            state,
            GossipAction::NodeAction(0, NodeAction::Incoming { from: 1, msg: RoundMsg::Accept })
        ),
        Err(GossipError::UnsolicitedAccept(1))
    );
}

#[test]
fn an_addressed_action_converts_into_a_gossip_action() {
    let action: GossipAction = (3, NodeAction::Timeout(1)).into();
    assert_eq!(action, GossipAction::NodeAction(3, NodeAction::Timeout(1)));
}

#[test]
fn a_network_is_never_terminal() {
    let machine = GossipMachine::new(GossipType::Recent);
    assert!(!machine.is_terminal(&GossipState::new(&[0])));
    assert_eq!(machine.0.gossip_type(), GossipType::Recent);
}

#[test]
fn a_copy_of_a_network_equals_it() {
    let machine = GossipMachine::new(GossipType::Recent);
    let (state, _) = machine
        .transition(
            GossipState::new(&[0, 1]),
            GossipAction::NodeAction(0, NodeAction::SetInitiate(1, 3)),
        )
        .unwrap();
    let copy = state.clone();
    assert_eq!(copy, state);
    assert_eq!(copy.inflight.len(), 1);
}

#[test]
fn a_historical_round_completes_in_six_deliveries() {
    let machine = GossipMachine::new(GossipType::Historical);
    for (a, b) in [(0, 1), (1, 0), (2, 0)] {
        let fresh = GossipState::new(&[0, 1, 2]);
        let (proposed, _) = machine
            .transition(fresh.clone(), GossipAction::NodeAction(a, NodeAction::SetInitiate(b, 77)))
            .unwrap();
        assert_eq!(machine.deliver(proposed.clone(), 6), Ok((fresh.clone(), 6)));
        assert_eq!(machine.deliver(proposed, usize::MAX), Ok((fresh, 6)));
    }
}

#[test]
fn a_recent_round_completes_in_seven_deliveries_once_the_acceptor_commits() {
    let machine = GossipMachine::new(GossipType::Recent);
    let fresh = GossipState::new(&[0, 1, 2]);
    let (proposed, _) = machine
        .transition(fresh.clone(), GossipAction::NodeAction(2, NodeAction::SetInitiate(1, 5)))
        .unwrap();
    let (arrived, changed) = machine.transition(proposed, GossipAction::Transmit).unwrap();
    assert!(changed);
    let (committed, _) = machine
        .transition(arrived, GossipAction::NodeAction(1, NodeAction::MustSend(2)))
        .unwrap();
    assert_eq!(machine.deliver(committed, 100), Ok((fresh, 7)));
}

#[test]
fn deliver_stops_at_its_limit() {
    let machine = GossipMachine::new(GossipType::Historical);
    let (proposed, _) = machine
        .transition(
            GossipState::new(&[0, 1]),
            GossipAction::NodeAction(0, NodeAction::SetInitiate(1, 1)),
        )
        .unwrap();
    assert_eq!(machine.deliver(proposed.clone(), 0), Ok((proposed.clone(), 0)));
    let (state, delivered) = machine.deliver(proposed.clone(), 2).unwrap();
    assert_eq!(delivered, 2);
    assert_eq!(
        state.inflight,
        VecDeque::from(vec![arrival(0, 1, RoundMsg::OpDiff), arrival(1, 0, RoundMsg::OpDiff)])
    );
    let mut by_hand = proposed;
    for _ in 0..2 {
        by_hand = machine.transition(by_hand, GossipAction::Transmit).unwrap().0;
    }
    assert_eq!(state, by_hand);
}

#[test]
fn deliver_with_nothing_in_flight_delivers_nothing() {
    let machine = GossipMachine::new(GossipType::Recent);
    let fresh = GossipState::new(&[0, 1]);
    assert_eq!(machine.deliver(fresh.clone(), 10), Ok((fresh, 0)));
}

#[test]
fn deliver_fails_with_the_first_failing_delivery() {
    let machine = GossipMachine::new(GossipType::Recent);
    let (proposed, _) = machine
        .transition(
            GossipState::new(&[0, 1, 2]),
            GossipAction::NodeAction(0, NodeAction::SetInitiate(1, 0)),
        )
        .unwrap();
    assert_eq!(
        machine.deliver(proposed.clone(), usize::MAX),
        Err(GossipError::ProtocolViolation(ProtocolViolation::InvalidTransition(
            GossipType::Recent,
            RoundAction::Msg(RoundMsg::Agents),
            RoundPhase::AgentsReceived(false)
        )))
    );
    assert!(machine.deliver(proposed, 4).is_ok());
}
