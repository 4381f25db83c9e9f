use casper_node::cli::{Cli, Plan};
use casper_node::components::block_synchronizer::peer_list::{NodeId, PeerList, PeerQuality};
use casper_node::components::network::insights::{Network, NetworkInsights};
use casper_node::consensus::{
    handle_event, name, ActionId, AddError, BlockContext, BlockPayload, ConsensusMessage,
    ConsensusRequest, ConsensusRequestMessage, DeployHash, DeployOrTransferHash, DumpError, Event,
    Handling, NewBlockPayload, ProposedBlock, TimerId, ValidationError, ValidationResult,
};
use casper_node::identity::PublicKey;
use casper_node::primitives::{BlockHash, Digest, EraId, Timestamp};
use casper_node::types::block::BlockHeader;
use rand::rngs::StdRng;
use rand::SeedableRng;

fn at(seconds: u64) -> Timestamp {
    Timestamp(seconds * 1_000)
}

fn list_of(qualities: &[(u64, PeerQuality)], max: u32) -> PeerList {
    let mut list = PeerList::new(max, at(0));
    for (id, quality) in qualities {
        let peer = Some(NodeId(*id));
        match quality {
            PeerQuality::Unknown => list.register_peer(NodeId(*id), at(0)),
            PeerQuality::Dishonest => list.disqualify_peer(peer, at(0)),
            PeerQuality::Unreliable => {
                list.register_peer(NodeId(*id), at(0));
                list.promote_peer(peer);
            }
            PeerQuality::Reliable => {
                list.register_peer(NodeId(*id), at(0));
                list.promote_peer(peer);
                list.promote_peer(peer);
            }
            PeerQuality::Unresponsive => {
                list.register_peer(NodeId(*id), at(0));
                list.promote_peer(peer);
                list.demote_peer(peer);
            }
        }
        assert_eq!(list.quality(NodeId(*id)), Some(*quality));
    }
    list
}

#[test]
fn registered_peers_start_out_unknown() {
    let mut list = PeerList::new(3, at(1));
    assert_eq!(list.len(), 0);
    assert_eq!(list.quality(NodeId(5)), None);
    list.register_peer(NodeId(5), at(2));
    assert_eq!(list.quality(NodeId(5)), Some(PeerQuality::Unknown));
    assert_eq!(PeerQuality::default(), PeerQuality::Unknown);
    // Registering a known peer changes nothing, not even its quality.
    list.promote_peer(Some(NodeId(5)));
    let before = list.clone();
    list.register_peer(NodeId(5), at(300));
    assert_eq!(list, before);
    assert_eq!(list.quality(NodeId(5)), Some(PeerQuality::Unreliable));
    assert_eq!(list.len(), 1);
}

#[test]
fn peers_are_promoted_step_by_step() {
    let mut list = PeerList::new(3, at(0));
    let peer = Some(NodeId(1));
    list.promote_peer(peer);
    assert_eq!(list.quality(NodeId(1)), Some(PeerQuality::Unknown));
    list.promote_peer(peer);
    assert_eq!(list.quality(NodeId(1)), Some(PeerQuality::Unreliable));
    list.promote_peer(peer);
    assert_eq!(list.quality(NodeId(1)), Some(PeerQuality::Reliable));
    list.promote_peer(peer);
    assert_eq!(list.quality(NodeId(1)), Some(PeerQuality::Reliable));
    list.promote_peer(None);
    assert_eq!(list.len(), 1);

    let mut list = list_of(&[(2, PeerQuality::Unresponsive), (3, PeerQuality::Dishonest)], 3);
    list.promote_peer(Some(NodeId(2)));
    assert_eq!(list.quality(NodeId(2)), Some(PeerQuality::Unreliable));
    list.promote_peer(Some(NodeId(3)));
    assert_eq!(list.quality(NodeId(3)), Some(PeerQuality::Dishonest));
}

#[test]
fn peers_are_demoted_step_by_step() {
    let mut list = list_of(&[(1, PeerQuality::Reliable), (3, PeerQuality::Dishonest)], 3);
    let peer = Some(NodeId(1));
    list.demote_peer(peer);
    assert_eq!(list.quality(NodeId(1)), Some(PeerQuality::Unreliable));
    list.demote_peer(peer);
    assert_eq!(list.quality(NodeId(1)), Some(PeerQuality::Unresponsive));
    list.demote_peer(peer);
    assert_eq!(list.quality(NodeId(1)), Some(PeerQuality::Unknown));
    list.demote_peer(peer);
    assert_eq!(list.quality(NodeId(1)), Some(PeerQuality::Unknown));
    list.demote_peer(Some(NodeId(3)));
    assert_eq!(list.quality(NodeId(3)), Some(PeerQuality::Dishonest));
    // A peer that is not known stays so.
    list.demote_peer(Some(NodeId(9)));
    assert_eq!(list.quality(NodeId(9)), None);
    list.demote_peer(None);
    assert_eq!(list.len(), 2);
}

#[test]
fn dishonest_peers_are_listed_in_order_and_flushed() {
    let mut list = list_of(
        &[
            (9, PeerQuality::Dishonest),
            (2, PeerQuality::Reliable),
            (5, PeerQuality::Dishonest),
            (1, PeerQuality::Dishonest),
            (7, PeerQuality::Unknown),
        ],
        3,
    );
    assert_eq!(list.dishonest_peers(), vec![NodeId(1), NodeId(5), NodeId(9)]);
    list.flush_dishonest_peers(at(5));
    assert_eq!(list.dishonest_peers(), vec![]);
    assert_eq!(list.len(), 2);
    assert_eq!(list.quality(NodeId(2)), Some(PeerQuality::Reliable));
    assert_eq!(list.quality(NodeId(7)), Some(PeerQuality::Unknown));
    assert_eq!(list.quality(NodeId(5)), None);
    list.flush();
    assert_eq!(list.len(), 0);
    assert_eq!(list.quality(NodeId(2)), None);
}

#[test]
fn disqualified_peers_are_dishonest_whether_known_or_not() {
    let mut list = list_of(&[(2, PeerQuality::Reliable)], 3);
    list.disqualify_peer(Some(NodeId(2)), at(1));
    list.disqualify_peer(Some(NodeId(4)), at(1));
    list.disqualify_peer(None, at(1));
    assert_eq!(list.dishonest_peers(), vec![NodeId(2), NodeId(4)]);
}

#[test]
fn peers_are_needed_when_there_are_none_or_too_few_good_ones_or_after_a_while() {
    assert!(PeerList::new(3, at(0)).need_peers(at(0)));

    let list = list_of(
        &[(1, PeerQuality::Reliable), (2, PeerQuality::Unknown), (3, PeerQuality::Reliable)],
        3,
    );
    assert!(!list.need_peers(at(0)));
    assert!(!list.need_peers(at(90)));
    // The peers were last changed more than ninety seconds ago.
    assert!(list.need_peers(Timestamp(90_001)));
    // A clock that went back does not count as time gone by.
    let mut late = list.clone();
    late.register_peer(NodeId(8), at(500));
    late.promote_peer(Some(NodeId(8)));
    late.promote_peer(Some(NodeId(8)));
    assert!(!late.need_peers(at(100)));

    let list = list_of(
        &[(1, PeerQuality::Reliable), (2, PeerQuality::Unreliable), (3, PeerQuality::Dishonest)],
        2,
    );
    assert!(list.need_peers(at(0)));
    let list = list_of(&[(1, PeerQuality::Unreliable)], 0);
    assert!(!list.need_peers(at(0)));
}

#[test]
fn qualified_peers_are_drawn_from_the_reliable() {
    let mut rng = StdRng::seed_from_u64(11);
    let list = list_of(
        &[
            (1, PeerQuality::Reliable),
            (2, PeerQuality::Unknown),
            (3, PeerQuality::Reliable),
            (4, PeerQuality::Unreliable),
            (5, PeerQuality::Reliable),
            (6, PeerQuality::Dishonest),
            (7, PeerQuality::Reliable),
        ],
        3,
    );
    for _ in 0..50 {
        let mut peers = list.qualified_peers(&mut rng);
        assert_eq!(peers.len(), 3);
        peers.sort();
        peers.dedup();
        assert_eq!(peers.len(), 3);
        for peer in peers {
            assert_eq!(list.quality(peer), Some(PeerQuality::Reliable));
        }
    }
    // Fewer reliable peers than are asked at once: all of them, and no others.
    let few = list_of(
        &[(1, PeerQuality::Reliable), (2, PeerQuality::Unknown), (4, PeerQuality::Unreliable)],
        3,
    );
    assert_eq!(few.qualified_peers(&mut rng), vec![NodeId(1)]);
    assert_eq!(few.qualified_from(vec![NodeId(1)], &mut rng), vec![NodeId(1)]);
    let none = list_of(&[(2, PeerQuality::Unknown)], 3);
    assert_eq!(none.qualified_peers(&mut rng), vec![]);
    let nobody_asked = list_of(&[(1, PeerQuality::Reliable)], 0);
    assert_eq!(nobody_asked.qualified_peers(&mut rng), vec![]);
}

#[test]
fn qualified_peers_differ_from_draw_to_draw() {
    let mut rng = StdRng::seed_from_u64(3);
    let qualities: Vec<(u64, PeerQuality)> = (0..40).map(|id| (id, PeerQuality::Reliable)).collect();
    let list = list_of(&qualities, 5);
    let first = list.qualified_peers(&mut rng);
    let differs = (0..20).any(|_| list.qualified_peers(&mut rng) != first);
    assert!(differs);
    let reliable: Vec<NodeId> = (0..40).map(NodeId).collect();
    assert_ne!(first, reliable);
}

fn payload() -> BlockPayload {
    BlockPayload {
        deploy_hashes: vec![DeployHash(Digest { bytes: [1; 32] })],
        transfer_hashes: vec![],
        random_bit: true,
    }
}

fn proposed_block() -> ProposedBlock {
    ProposedBlock { value: payload(), context: BlockContext { timestamp: Timestamp(5), height: 9 } }
}

fn message() -> ConsensusMessage {
    ConsensusMessage::Protocol { era_id: EraId(3), payload: vec![1, 2, 3] }
}

#[test]
fn validation_results_are_valid_or_hold_their_error() {
    let valid = ValidationResult::new_valid(EraId(1), NodeId(2), proposed_block());
    assert_eq!(valid.era_id(), EraId(1));
    assert_eq!(valid.sender(), NodeId(2));
    assert_eq!(*valid.proposed_block(), proposed_block());
    assert_eq!(*valid.error(), None);
    let error = ValidationError::DeployInclusionFailure {
        deploy_hash: DeployOrTransferHash::Transfer(DeployHash(Digest { bytes: [7; 32] })),
        error: AddError::GasLimit,
    };
    let invalid =
        ValidationResult::new_invalid(EraId(1), NodeId(2), proposed_block(), error.clone());
    assert_eq!(*invalid.error(), Some(error));
    assert_ne!(valid, invalid);
}

#[test]
fn events_go_to_their_handlers() {
    let open = vec![EraId(4), EraId(5)];
    let route = |event: Event| handle_event(event, None, Some(EraId(5)), &open);
    assert_eq!(
        route(Event::Timer { era_id: EraId(1), timestamp: Timestamp(2), timer_id: TimerId(3) }),
        Handling::Timer { era_id: EraId(1), timestamp: Timestamp(2), timer_id: TimerId(3) }
    );
    assert_eq!(
        route(Event::Action { era_id: EraId(1), action_id: ActionId(4) }),
        Handling::Action { era_id: EraId(1), action_id: ActionId(4) }
    );
    assert_eq!(
        route(Event::DelayedIncoming { sender: NodeId(1), message: message() }),
        Handling::Message { sender: NodeId(1), message: message() }
    );
    let request_msg = ConsensusRequestMessage { era_id: EraId(2), payload: vec![9] };
    assert_eq!(
        route(Event::DemandIncoming { sender: NodeId(1), request_msg: request_msg.clone() }),
        Handling::Demand { sender: NodeId(1), request_msg }
    );
    let new_block_payload = NewBlockPayload {
        era_id: EraId(1),
        block_payload: payload(),
        block_context: BlockContext { timestamp: Timestamp(1), height: 2 },
    };
    assert_eq!(
        route(Event::NewBlockPayload(new_block_payload.clone())),
        Handling::NewBlockPayload(new_block_payload)
    );
    let header = BlockHeader {
        block_hash: BlockHash(Digest { bytes: [1; 32] }),
        parent_hash: BlockHash(Digest { bytes: [2; 32] }),
        era_id: EraId(1),
        height: 3,
        next_era_validator_weights: None,
    };
    assert_eq!(
        route(Event::BlockAdded { header: header.clone(), header_hash: header.block_hash }),
        Handling::BlockAdded { header }
    );
    let validity = ValidationResult::new_valid(EraId(1), NodeId(2), proposed_block());
    assert_eq!(
        route(Event::ResolveValidity(validity.clone())),
        Handling::ResolveValidity(validity)
    );
    assert_eq!(
        route(Event::DeactivateEra { era_id: EraId(1), faulty_num: 2, delay_millis: 3 }),
        Handling::DeactivateEra { era_id: EraId(1), faulty_num: 2, delay_millis: 3 }
    );
    assert_eq!(route(Event::ConsensusRequest(ConsensusRequest::Status)), Handling::Status);
    assert_eq!(
        route(Event::ConsensusRequest(ConsensusRequest::ValidatorChanges)),
        Handling::ValidatorChanges
    );
    assert_eq!(name(), "consensus");
}

#[test]
fn incoming_messages_are_put_off_where_the_failpoint_fires() {
    let event = Event::Incoming { sender: NodeId(1), message: message() };
    assert_eq!(
        handle_event(event.clone(), Some(250), None, &vec![]),
        Handling::Delay { delay_millis: 250, sender: NodeId(1), message: message() }
    );
    assert_eq!(
        handle_event(event, None, None, &vec![]),
        Handling::Message { sender: NodeId(1), message: message() }
    );
    // A delayed message is never put off again.
    assert_eq!(
        handle_event(
            Event::DelayedIncoming { sender: NodeId(1), message: message() },
            Some(250),
            None,
            &vec![]
        ),
        Handling::Message { sender: NodeId(1), message: message() }
    );
}

#[test]
fn dumps_are_answered_from_the_open_eras() {
    let open = vec![EraId(4), EraId(5)];
    let dump = |era_id: Option<EraId>, current: Option<EraId>| {
        handle_event(Event::DumpState { era_id }, None, current, &open)
    };
    assert_eq!(dump(None, None), Handling::DumpRefused(DumpError::NotInitialized));
    assert_eq!(dump(Some(EraId(4)), None), Handling::DumpRefused(DumpError::NotInitialized));
    assert_eq!(dump(None, Some(EraId(5))), Handling::Dump(EraId(5)));
    assert_eq!(dump(Some(EraId(4)), Some(EraId(5))), Handling::Dump(EraId(4)));
    assert_eq!(
        dump(Some(EraId(3)), Some(EraId(5))),
        Handling::DumpRefused(DumpError::EraNotFound(EraId(3)))
    );
    assert_eq!(
        dump(None, Some(EraId(6))),
        Handling::DumpRefused(DumpError::EraNotFound(EraId(6)))
    );
}

#[test]
fn commands_plan_what_they_call_for() {
    assert_eq!(Cli::GenerateConfig {}.plan(), Plan::DumpDefaultConfig);
    assert_eq!(Cli::Validator { config: None }.plan(), Plan::LaunchWithDefaults);
    assert_eq!(
        Cli::Validator { config: Some("/etc/node/config.toml".to_string()) }.plan(),
        Plan::LaunchWithConfig("/etc/node/config.toml".to_string())
    );
}

#[test]
fn insights_are_collected_from_the_network() {
    let network = Network {
        our_id: NodeId(7),
        network_ca: Some(vec![1, 2, 3]),
        public_addr: Some("127.0.0.1:34553".to_string()),
        node_public_key: Some(PublicKey::Ed25519([4; 32])),
        active_era: EraId(12),
    };
    assert_eq!(
        NetworkInsights::collect_from_component(&network),
        NetworkInsights {
            our_id: NodeId(7),
            network_ca: true,
            public_addr: Some("127.0.0.1:34553".to_string()),
            consensus_public_key: Some(PublicKey::Ed25519([4; 32])),
            net_active_era: EraId(12),
        }
    );
    let public = Network { network_ca: None, public_addr: None, node_public_key: None, ..network };
    let insights = NetworkInsights::collect_from_component(&public);
    assert!(!insights.network_ca);
    assert_eq!(insights.public_addr, None);
    assert_eq!(insights.consensus_public_key, None);
}

#[test]
fn peers_drawn_beyond_the_number_asked_are_followed_by_less_useful_ones() {
    let mut rng = StdRng::seed_from_u64(11);
    let list = list_of(
        &[
            (1, PeerQuality::Reliable),
            (2, PeerQuality::Reliable),
            (3, PeerQuality::Reliable),
            (5, PeerQuality::Unknown),
            (6, PeerQuality::Unreliable),
            (7, PeerQuality::Unknown),
            (8, PeerQuality::Dishonest),
        ],
        1,
    );
    for _ in 0..20 {
        let peers = list.qualified_from(vec![NodeId(3), NodeId(1), NodeId(2)], &mut rng);
        assert_eq!(peers.len(), 5);
        assert_eq!(&peers[..3], &[NodeId(3), NodeId(1), NodeId(2)]);
        assert_ne!(peers[3], peers[4]);
        for peer in &peers[3..] {
            assert!([NodeId(5), NodeId(6), NodeId(7)].contains(peer));
        }
    }
    // Fewer less useful peers than were drawn too many: all of them follow.
    let peers = list.qualified_from(
        vec![NodeId(3), NodeId(1), NodeId(2), NodeId(3), NodeId(1)],
        &mut rng,
    );
    assert_eq!(peers.len(), 8);
    let mut followers = peers[5..].to_vec();
    followers.sort();
    assert_eq!(followers, vec![NodeId(5), NodeId(6), NodeId(7)]);
    // As many as are asked at once: nothing follows.
    assert_eq!(list.qualified_from(vec![NodeId(2)], &mut rng), vec![NodeId(2)]);
    assert_eq!(list.qualified_from(vec![], &mut rng), vec![]);
}
