use btmesh::address::{Address, GroupAddress};
use btmesh::common::ModelIdentifier;
use btmesh::driver::block_ack::BlockAck;
use btmesh::driver::lower::{DeviceInfo, LowerDriver, LowerPDU, UnsegmentedLowerPDU};
use btmesh::driver::outbound::OutboundSegmentation;
use btmesh::driver::pdu::{
    CleartextNetworkPDU, ControlOpcode, Ctl, SegmentedLowerPDU, SzMic, UpperAccessPDU,
    UpperControlPDU, UpperMetadata, UpperPDU,
};
use btmesh::driver::replay::{NetworkMessageCache, ReplayProtection};
use btmesh::driver::sequence::Sequence;
use btmesh::driver::tables::{Bindings, Composition, Publications, Subscriptions};
use btmesh::address::UnicastAddress;
use btmesh::models::configuration::model_publication::{PublicationDetails, PublishAddress, PublishPeriod, PublishRetransmit};
use btmesh::driver::transmit_queue::TransmitQueue;
use btmesh::driver::watchdog::{Deadline, Watchdog, WatchdogEvent};
use btmesh::error::{DriverError, ParseError};
use btmesh::models::configuration::model_subscription::SubscriptionAddress;
use btmesh::models::configuration::AppKeyIndex;

const ONOFF_SERVER: ModelIdentifier = ModelIdentifier::SIG(0x1000);

fn composition() -> Composition {
    Composition { elements: vec![vec![ModelIdentifier::SIG(0x0000), ONOFF_SERVER]] }
}

fn meta(src: u16, dst: u16, seq: u32) -> UpperMetadata {
    UpperMetadata {
        iv_index: 1,
        nid: 0x68,
        aid: None,
        seq,
        src,
        dst,
        ttl: 5,
        label_uuids: Vec::new(),
        seq_auth: None,
        replay_seq: None,
    }
}

#[test]
fn subscriptions_add_get_delete() {
    let composition = composition();
    let mut subscriptions = Subscriptions::new();
    let group = SubscriptionAddress::Group(GroupAddress(0xc001));
    subscriptions.add(&composition, 0, ONOFF_SERVER, group).unwrap();
    // adding it again keeps one subscription
    subscriptions.add(&composition, 0, ONOFF_SERVER, group).unwrap();
    assert_eq!(1, subscriptions.get(0, ONOFF_SERVER).len());
    assert!(subscriptions.matches(Address::Group(GroupAddress(0xc001))));
    assert!(!subscriptions.matches(Address::Group(GroupAddress(0xc002))));

    assert_eq!(
        Err(DriverError::InvalidModel),
        subscriptions.add(&composition, 0, ModelIdentifier::SIG(0x1001), group)
    );

    subscriptions.delete(0, ONOFF_SERVER, group).unwrap();
    assert_eq!(0, subscriptions.get(0, ONOFF_SERVER).len());
    assert!(!subscriptions.matches(Address::Group(GroupAddress(0xc001))));
}

#[test]
fn bindings_bind_and_unbind() {
    let composition = composition();
    let mut bindings = Bindings::new();
    assert_eq!(None, bindings.binding_for(0, &ONOFF_SERVER));
    bindings.bind(&composition, 0, ONOFF_SERVER, AppKeyIndex::new(1)).unwrap();
    assert_eq!(Some(AppKeyIndex::new(1)), bindings.binding_for(0, &ONOFF_SERVER));
    assert_eq!(
        Err(DriverError::InvalidModel),
        bindings.bind(&composition, 8, ONOFF_SERVER, AppKeyIndex::new(1))
    );
    bindings.unbind(&composition, 0, ONOFF_SERVER, AppKeyIndex::new(1)).unwrap();
    assert_eq!(None, bindings.binding_for(0, &ONOFF_SERVER));
}

#[test]
fn network_replay_protection() {
    let mut replay = ReplayProtection::new();
    assert!(!replay.check_network_pdu(0x0001, 10, 0));
    // the same or an older sequence is a replay
    assert!(replay.check_network_pdu(0x0001, 10, 0));
    assert!(replay.check_network_pdu(0x0001, 9, 0));
    // a newer one is not
    assert!(!replay.check_network_pdu(0x0001, 11, 0));
    // a newer IV index accepts a lower sequence
    assert!(!replay.check_network_pdu(0x0001, 1, 1));
    // another source is independent
    assert!(!replay.check_network_pdu(0x0002, 1, 0));
}

#[test]
fn upper_replay_protection() {
    let mut replay = ReplayProtection::new();
    let mut ack = BlockAck::new(5);
    ack.ack(0).unwrap();
    ack.ack(1).unwrap();
    assert_eq!(None, replay.check_upper_pdu(0x0001, 0, Some(5), &ack, true));
    // the completed message heard again is answered with its acknowledgement
    let again = replay.check_upper_pdu(0x0001, 0, Some(5), &BlockAck::new(5), false);
    assert_eq!(Some(ack.value()), again.map(|a| a.value()));
}

#[test]
fn relay_once() {
    let mut cache = NetworkMessageCache::new();
    assert!(cache.check(0x0001, &[1, 2, 3]));
    assert!(!cache.check(0x0001, &[1, 2, 3]));
    assert!(cache.check(0x0002, &[1, 2, 3]));
    assert!(cache.check(0x0001, &[1, 2, 4]));
}

#[test]
fn watchdog_earliest_deadline() {
    let mut watchdog = Watchdog::new();
    assert_eq!(None, watchdog.next());
    watchdog.inbound_expiration((100, 7));
    watchdog.outbound_expiration((50, 9));
    assert_eq!(
        Some(Deadline { at: 50, event: WatchdogEvent::OutboundExpiration(9) }),
        watchdog.next()
    );
    assert_eq!(WatchdogEvent::OutboundExpiration(9), watchdog.take(WatchdogEvent::OutboundExpiration(9)));
    assert_eq!(
        Some(Deadline { at: 100, event: WatchdogEvent::InboundExpiration(7) }),
        watchdog.next()
    );
}

#[test]
fn transmit_queue_retransmits_and_completes() {
    let mut queue = TransmitQueue::new();
    let pdu = UpperPDU::Control(UpperControlPDU {
        opcode: ControlOpcode::Heartbeat,
        parameters: vec![1, 2],
        meta: meta(0x0001, 0xc000, 1),
    });
    queue.add_nonsegmented(pdu, 1, Some(77)).unwrap();
    assert!(queue.has_ongoing_completion());
    let (copies, done) = queue.retransmit_round();
    assert_eq!(1, copies.len());
    assert!(done.is_empty());
    let (copies, done) = queue.retransmit_round();
    assert_eq!(1, copies.len());
    assert_eq!(vec![77], done);
    let (copies, _) = queue.retransmit_round();
    assert!(copies.is_empty());
    assert!(!queue.has_ongoing_completion());
}

#[test]
fn segments_read_back() {
    let payload: Vec<u8> = (0..20).collect();
    let upper = UpperPDU::Access(UpperAccessPDU {
        payload: payload.clone(),
        transmic: vec![0xa, 0xb, 0xc, 0xd],
        meta: meta(0x0002, 0x0001, 0x1234),
    });
    let mut sequence = Sequence::new(0x2000);
    let mut outbound = OutboundSegmentation::new();
    let network_pdus = outbound.process(&mut sequence, &upper, false, 8).unwrap();
    assert_eq!(2, network_pdus.len());
    assert_eq!(0x1234, network_pdus[0].seq);
    assert_eq!(0x2000, network_pdus[1].seq);

    for (i, pdu) in network_pdus.iter().enumerate() {
        match LowerPDU::parse(pdu, 1).unwrap() {
            LowerPDU::Segmented(SegmentedLowerPDU::Access(s)) => {
                assert_eq!(0x1234 % 8192, s.seq_zero);
                assert_eq!(i as u8, s.seg_o);
                assert_eq!(1, s.seg_n);
                assert_eq!(SzMic::Bit32, s.szmic);
                assert_eq!(None, s.aid);
            }
            _ => panic!("a long access message is segmented"),
        }
    }

    // both segments reassemble into the message at a unicast destination
    let device_info = DeviceInfo { primary_unicast_address: 0x0001, number_of_elements: 1 };
    let subscriptions = Subscriptions::new();
    let mut lower = LowerDriver::new();
    let mut watchdog = Watchdog::new();
    let (ack, upper_pdu) = lower
        .process_inbound_cleartext_network_pdu(&device_info, &network_pdus[0], 1, &mut watchdog, 10, &subscriptions)
        .unwrap();
    assert!(ack.is_some());
    assert!(upper_pdu.is_none());
    let (ack, upper_pdu) = lower
        .process_inbound_cleartext_network_pdu(&device_info, &network_pdus[1], 1, &mut watchdog, 11, &subscriptions)
        .unwrap();
    assert_eq!(0b11, ack.unwrap().0.value());
    match upper_pdu.unwrap() {
        UpperPDU::Access(a) => {
            assert_eq!(payload, a.payload);
            assert_eq!(vec![0xa, 0xb, 0xc, 0xd], a.transmic);
        }
        UpperPDU::Control(_) => panic!("an access message reassembles into an access PDU"),
    }
}

#[test]
fn unsegmented_and_foreign_pdus() {
    let device_info = DeviceInfo { primary_unicast_address: 0x0001, number_of_elements: 2 };
    let subscriptions = Subscriptions::new();
    let mut lower = LowerDriver::new();
    let mut watchdog = Watchdog::new();
    let pdu = CleartextNetworkPDU {
        ivi: 1,
        nid: 0x68,
        ctl: Ctl::Access,
        ttl: 3,
        seq: 9,
        src: 0x0005,
        dst: 0x0002,
        transport_pdu: vec![0x00, 1, 2, 3, 4, 5, 6],
    };
    match lower.process_inbound_cleartext_network_pdu(&device_info, &pdu, 1, &mut watchdog, 0, &subscriptions) {
        Ok((None, Some(UpperPDU::Access(a)))) => {
            assert_eq!(vec![1, 2], a.payload);
            assert_eq!(vec![3, 4, 5, 6], a.transmic);
            assert_eq!(Some(9), a.meta.replay_seq);
        }
        _ => panic!("an unsegmented access message goes up at once"),
    }

    let control = CleartextNetworkPDU { ctl: Ctl::Control, transport_pdu: vec![0x0a, 7, 7], ..pdu.clone() };
    match LowerPDU::parse(&control, 1).unwrap() {
        LowerPDU::Unsegmented(UnsegmentedLowerPDU::Control(c)) => {
            assert_eq!(ControlOpcode::Heartbeat, c.opcode);
            assert_eq!(vec![7, 7], c.parameters);
        }
        _ => panic!("an unsegmented control message"),
    }
    let bad = CleartextNetworkPDU { ctl: Ctl::Control, transport_pdu: vec![0x7f], ..pdu.clone() };
    assert!(matches!(LowerPDU::parse(&bad, 1), Err(ParseError::InvalidValue)));
    let empty = CleartextNetworkPDU { transport_pdu: vec![], ..pdu.clone() };
    assert!(matches!(LowerPDU::parse(&empty, 1), Err(ParseError::InvalidLength)));

    // a segment to another node is left alone
    let foreign = CleartextNetworkPDU {
        dst: 0x0009,
        transport_pdu: vec![0x80, 0x00, 0x00, 0x01, 1, 2, 3],
        ..pdu.clone()
    };
    let r = lower.process_inbound_cleartext_network_pdu(&device_info, &foreign, 1, &mut watchdog, 0, &subscriptions);
    assert!(matches!(r, Ok((None, None))));
    assert!(device_info.is_local_unicast(0x0002));
    assert!(device_info.is_non_local_unicast(0x0003));
}

fn publication_details(model_identifier: ModelIdentifier, publish_address: PublishAddress) -> PublicationDetails {
    PublicationDetails {
        element_address: UnicastAddress::new(0x0002).unwrap(),
        publish_address,
        app_key_index: AppKeyIndex::new(1),
        credential_flag: false,
        publish_ttl: None,
        publish_period: PublishPeriod::from(0x29),
        publish_retransmit: PublishRetransmit::new(1, 2),
        model_identifier,
    }
}

#[test]
fn publications_set_get_and_remove() {
    let composition = composition();
    let mut publications = Publications::new();
    let group = PublishAddress::Group(GroupAddress(0xc001));
    publications.set(&composition, 0, publication_details(ONOFF_SERVER, group)).unwrap();
    let got = publications.get(0, ONOFF_SERVER).unwrap();
    assert_eq!(0, got.element_index);
    assert_eq!(publication_details(ONOFF_SERVER, group), got.details);

    // a second set replaces the first
    let other = PublishAddress::Unicast(UnicastAddress::new(0x0010).unwrap());
    publications.set(&composition, 0, publication_details(ONOFF_SERVER, other)).unwrap();
    assert_eq!(publication_details(ONOFF_SERVER, other), publications.get(0, ONOFF_SERVER).unwrap().details);

    // an unassigned address removes it
    publications.set(&composition, 0, publication_details(ONOFF_SERVER, PublishAddress::Unassigned)).unwrap();
    assert!(publications.get(0, ONOFF_SERVER).is_none());

    // a model the element lacks is refused
    let missing = ModelIdentifier::SIG(0x1002);
    assert_eq!(
        Err(DriverError::InvalidModel),
        publications.set(&composition, 0, publication_details(missing, group))
    );
}

#[test]
fn setting_one_publication_leaves_the_others() {
    let composition = composition();
    let mut publications = Publications::new();
    let group = PublishAddress::Group(GroupAddress(0xc001));
    let config_server = ModelIdentifier::SIG(0x0000);
    publications.set(&composition, 0, publication_details(config_server, group)).unwrap();
    publications.set(&composition, 0, publication_details(ONOFF_SERVER, group)).unwrap();
    let other = PublishAddress::Unicast(UnicastAddress::new(0x0010).unwrap());
    publications.set(&composition, 0, publication_details(ONOFF_SERVER, other)).unwrap();
    assert_eq!(publication_details(config_server, group), publications.get(0, config_server).unwrap().details);
    publications.set(&composition, 0, publication_details(ONOFF_SERVER, PublishAddress::Unassigned)).unwrap();
    assert_eq!(publication_details(config_server, group), publications.get(0, config_server).unwrap().details);
    assert!(publications.get(0, ONOFF_SERVER).is_none());
    // a refused set changes nothing
    assert_eq!(
        Err(DriverError::InvalidModel),
        publications.set(&composition, 0, publication_details(ModelIdentifier::SIG(0x1002), group))
    );
    assert_eq!(publication_details(config_server, group), publications.get(0, config_server).unwrap().details);
}

#[test]
fn a_retransmission_round_stops_at_the_first_empty_slot() {
    let mut queue = TransmitQueue::new();
    let first = UpperPDU::Control(UpperControlPDU {
        opcode: ControlOpcode::Heartbeat,
        parameters: vec![1],
        meta: meta(0x0001, 0xc000, 1),
    });
    let second = UpperPDU::Control(UpperControlPDU {
        opcode: ControlOpcode::Heartbeat,
        parameters: vec![2],
        meta: meta(0x0001, 0xc000, 2),
    });
    queue.add_nonsegmented(first, 0, Some(5)).unwrap();
    queue.add_nonsegmented(second, 3, Some(6)).unwrap();
    // both are sent; the first is done and leaves its slot empty
    let (copies, done) = queue.retransmit_round();
    assert_eq!(2, copies.len());
    assert_eq!(vec![5], done);
    // the empty first slot ends the next round before the second entry
    let (copies, done) = queue.retransmit_round();
    assert!(copies.is_empty());
    assert!(done.is_empty());
    assert!(queue.has_ongoing_completion());
    // a new entry fills the empty slot, and the round reaches both again
    let third = UpperPDU::Control(UpperControlPDU {
        opcode: ControlOpcode::Heartbeat,
        parameters: vec![3],
        meta: meta(0x0001, 0xc000, 3),
    });
    queue.add_nonsegmented(third, 1, None).unwrap();
    let (copies, _) = queue.retransmit_round();
    assert_eq!(2, copies.len());
    match (&copies[0], &copies[1]) {
        (UpperPDU::Control(a), UpperPDU::Control(b)) => {
            assert_eq!(vec![3], a.parameters);
            assert_eq!(vec![2], b.parameters);
        }
        _ => panic!("control PDUs are sent again as they are"),
    }
}

#[test]
fn successive_sequence_numbers_wrap_and_differ() {
    let mut sequence = Sequence::new(u32::MAX - 1);
    let handed: Vec<u32> = (0..4).map(|_| sequence.next()).collect();
    assert_eq!(vec![u32::MAX - 1, u32::MAX, 0, 1], handed);
    assert_eq!(2, sequence.current());
}

#[test]
fn segments_get_distinct_sequence_numbers() {
    let upper = UpperPDU::Access(UpperAccessPDU {
        payload: (0..40).collect(),
        transmic: vec![1, 2, 3, 4],
        meta: meta(0x0002, 0x0001, 0x0100),
    });
    let mut outbound = OutboundSegmentation::new();
    let mut sequence = Sequence::new(0x0200);
    let first = outbound.process(&mut sequence, &upper, false, 8).unwrap();
    assert_eq!(4, first.len());
    assert_eq!(vec![0x0100, 0x0200, 0x0201, 0x0202], first.iter().map(|p| p.seq).collect::<Vec<_>>());
    assert!(first.iter().all(|p| p.src == 0x0002 && p.dst == 0x0001));
    let again = outbound.process(&mut sequence, &upper, true, 8).unwrap();
    assert_eq!(vec![0x0203, 0x0204, 0x0205, 0x0206], again.iter().map(|p| p.seq).collect::<Vec<_>>());
    assert_eq!(0x0207, sequence.current());
}

#[test]
fn a_segment_that_would_not_fit_is_detected() {
    let lower = LowerDriver::new();
    let good = CleartextNetworkPDU {
        ivi: 1,
        nid: 0x68,
        ctl: Ctl::Access,
        ttl: 3,
        seq: 9,
        src: 0x0005,
        dst: 0x0001,
        transport_pdu: vec![0x80, 0x00, 0x00, 0x01, 1, 2, 3, 4, 5, 6, 7, 8, 9, 10, 11, 12],
    };
    assert!(lower.fits_inbound(&good, 1, 0));
    // a first segment of a two-segment message shorter than a segment
    let short = CleartextNetworkPDU { transport_pdu: vec![0x80, 0x00, 0x00, 0x01, 1, 2, 3], ..good.clone() };
    assert!(!lower.fits_inbound(&short, 1, 0));
    // a last segment beyond the buffer
    let beyond = CleartextNetworkPDU { transport_pdu: vec![0x80, 0x00, 0x07, 0xff, 1, 2, 3, 4, 5, 6, 7, 8, 9], ..good.clone() };
    assert!(!lower.fits_inbound(&beyond, 1, 0));
    // an unsegmented message always fits
    let unsegmented = CleartextNetworkPDU { transport_pdu: vec![0x00, 1, 2, 3, 4, 5, 6], ..good };
    assert!(lower.fits_inbound(&unsegmented, 1, 0));
}
