use btmesh::common::Opcode;
use btmesh::driver::lower::DeviceInfo;
use btmesh::driver::pdu::{CleartextNetworkPDU, ControlOpcode, Ctl};
use btmesh::driver::secrets::{ApplicationKeys, NetworkKeys, Secrets};
use btmesh::driver::sequence::Sequence;
use btmesh::driver::stack::{block_ack_of, ProvisionedStack, ReceiveResult};
use btmesh::driver::tables::Subscriptions;
use btmesh::driver::upper::{AccessMessage, AccessMetadata, ControlMessage, ControlMetadata, KeyHandle, Message};
use btmesh::driver::watchdog::Watchdog;
use btmesh::keys::DeviceKey;

const DEVICE_KEY: [u8; 16] = [7; 16];

fn secrets() -> Secrets {
    Secrets::new(DeviceKey(DEVICE_KEY), NetworkKeys::new(), ApplicationKeys::new())
}

fn message(src: u16, dst: u16, parameters: Vec<u8>) -> Message {
    Message::Access(AccessMessage {
        opcode: Opcode::OneOctet(0x02),
        parameters,
        meta: AccessMetadata {
            iv_index: 3,
            nid: 0x11,
            key_handle: KeyHandle::Device,
            src,
            dst,
            ttl: 5,
            label_uuid: None,
            replay_seq: None,
        },
    })
}

#[test]
fn a_message_travels_between_two_nodes() {
    let secrets = secrets();
    let mut sender = ProvisionedStack::new(DeviceInfo { primary_unicast_address: 0x0005, number_of_elements: 1 });
    let mut sequence = Sequence::new(100);
    let mut watchdog = Watchdog::new();
    let pdus = sender
        .process_outbound(&secrets, &mut sequence, &message(0x0005, 0x0001, vec![9, 8]), Some(1), &mut watchdog, 0, 2)
        .unwrap();
    assert_eq!(1, pdus.len());
    assert!(sender.has_ongoing_completion());

    let mut receiver = ProvisionedStack::new(DeviceInfo { primary_unicast_address: 0x0001, number_of_elements: 1 });
    let subscriptions = Subscriptions::new();
    let mut receiver_watchdog = Watchdog::new();
    let (relay, result) = receiver
        .process_inbound_network_pdu(&secrets, Some(pdus[0].clone()), 3, &mut receiver_watchdog, 0, false, &subscriptions)
        .unwrap();
    assert!(relay.is_none());
    match result {
        Some(ReceiveResult { block_ack: None, message: Some(Message::Access(m)), dst: 0x0001 }) => {
            assert_eq!(Opcode::OneOctet(0x02), m.opcode);
            assert_eq!(vec![9, 8], m.parameters);
            assert_eq!(0x0005, m.meta.src);
        }
        _ => panic!("the receiver gets the message"),
    }

    // the same network PDU again is a replay
    let (relay, result) = receiver
        .process_inbound_network_pdu(&secrets, Some(pdus[0].clone()), 3, &mut receiver_watchdog, 0, false, &subscriptions)
        .unwrap();
    assert!(relay.is_none());
    assert!(result.is_none());

    // a node hears nothing from itself
    let (relay, result) = sender
        .process_inbound_network_pdu(&secrets, Some(pdus[0].clone()), 3, &mut watchdog, 0, false, &subscriptions)
        .unwrap();
    assert!(relay.is_none() && result.is_none());

    // nothing decrypted, nothing handed up
    let (relay, result) = receiver
        .process_inbound_network_pdu(&secrets, None, 3, &mut receiver_watchdog, 0, false, &subscriptions)
        .unwrap();
    assert!(relay.is_none() && result.is_none());
}

#[test]
fn a_pdu_for_another_node_is_relayed_once() {
    let secrets = secrets();
    let mut sender = ProvisionedStack::new(DeviceInfo { primary_unicast_address: 0x0005, number_of_elements: 1 });
    let mut sequence = Sequence::new(1);
    let mut watchdog = Watchdog::new();
    let pdus = sender
        .process_outbound(&secrets, &mut sequence, &message(0x0005, 0x0009, vec![1]), None, &mut watchdog, 0, 0)
        .unwrap();
    let mut relay_node = ProvisionedStack::new(DeviceInfo { primary_unicast_address: 0x0001, number_of_elements: 1 });
    let subscriptions = Subscriptions::new();
    let (relay, _) = relay_node
        .process_inbound_network_pdu(&secrets, Some(pdus[0].clone()), 3, &mut watchdog, 0, false, &subscriptions)
        .unwrap();
    assert!(relay.is_some());
    // a looped-back PDU is not relayed
    let mut other = ProvisionedStack::new(DeviceInfo { primary_unicast_address: 0x0002, number_of_elements: 1 });
    let (relay, _) = other
        .process_inbound_network_pdu(&secrets, Some(pdus[0].clone()), 3, &mut watchdog, 0, true, &subscriptions)
        .unwrap();
    assert!(relay.is_none());
}

#[test]
fn segmented_messages_are_acknowledged() {
    let secrets = secrets();
    let mut sender = ProvisionedStack::new(DeviceInfo { primary_unicast_address: 0x0005, number_of_elements: 1 });
    let mut sequence = Sequence::new(1000);
    let mut sender_watchdog = Watchdog::new();
    let pdus = sender
        .process_outbound(&secrets, &mut sequence, &message(0x0005, 0x0001, vec![0x55; 20]), Some(42), &mut sender_watchdog, 0, 0)
        .unwrap();
    assert_eq!(3, pdus.len());
    assert!(pdus.iter().all(|p| p.ctl == Ctl::Access));
    assert!(sender_watchdog.outbound_expiration.is_some());

    let mut receiver = ProvisionedStack::new(DeviceInfo { primary_unicast_address: 0x0001, number_of_elements: 1 });
    let subscriptions = Subscriptions::new();
    let mut watchdog = Watchdog::new();
    let mut last = None;
    for pdu in &pdus {
        let (_, result) = receiver
            .process_inbound_network_pdu(&secrets, Some(pdu.clone()), 3, &mut watchdog, 10, false, &subscriptions)
            .unwrap();
        last = result;
    }
    let result = last.unwrap();
    let (block_ack, _) = result.block_ack.unwrap();
    assert_eq!(0b111, block_ack.value());
    match result.message {
        Some(Message::Access(m)) => assert_eq!(vec![0x55; 20], m.parameters),
        _ => panic!("the reassembled message is decrypted"),
    }

    // the acknowledgement completes the sender's message
    let parameters = {
        let sz = (block_ack.seq_zero() << 2).to_be_bytes();
        let bits = block_ack.value().to_be_bytes();
        vec![sz[0], sz[1], bits[0], bits[1], bits[2], bits[3]]
    };
    assert_eq!(Some(block_ack.value()), block_ack_of(&parameters).map(|b| b.value()));
    let ack = ControlMessage {
        opcode: ControlOpcode::SegmentAcknowledgement,
        parameters,
        meta: ControlMetadata {},
    };
    assert_eq!(Ok(Some(42)), sender.process_inbound_control(&ack, &mut sender_watchdog, 20));
    assert!(!sender.has_ongoing_completion());
}

#[test]
fn an_expired_reassembly_is_acknowledged_again() {
    let secrets = secrets();
    let mut sender = ProvisionedStack::new(DeviceInfo { primary_unicast_address: 0x0005, number_of_elements: 1 });
    let mut sequence = Sequence::new(1000);
    let mut watchdog = Watchdog::new();
    let pdus = sender
        .process_outbound(&secrets, &mut sequence, &message(0x0005, 0x0001, vec![0x55; 20]), None, &mut watchdog, 0, 0)
        .unwrap();

    let mut receiver = ProvisionedStack::new(DeviceInfo { primary_unicast_address: 0x0001, number_of_elements: 1 });
    let subscriptions = Subscriptions::new();
    let mut receiver_watchdog = Watchdog::new();
    receiver
        .process_inbound_network_pdu(&secrets, Some(pdus[0].clone()), 3, &mut receiver_watchdog, 10, false, &subscriptions)
        .unwrap();
    let mut ack_sequence = Sequence::new(50);
    let pdu = receiver
        .inbound_expiration(&mut ack_sequence, (1000 % 8192) as u16, 0x0001, &mut receiver_watchdog, 500)
        .unwrap()
        .unwrap();
    assert_eq!(Ctl::Control, pdu.ctl);
    assert_eq!(0x0005, pdu.dst);
    assert_eq!(0x0001, pdu.src);
    assert_eq!(0x00, pdu.transport_pdu[0]);
    assert_eq!(7, pdu.transport_pdu.len());
    assert_eq!(52, ack_sequence.current());
}

#[test]
fn relayed_pdus_lose_one_hop() {
    let stack = ProvisionedStack::new(DeviceInfo { primary_unicast_address: 0x0001, number_of_elements: 1 });
    let pdu = CleartextNetworkPDU { ivi: 1, nid: 0x22, ctl: Ctl::Access, ttl: 5, seq: 77, src: 0x0009, dst: 0x0004, transport_pdu: vec![1, 2, 3] };
    let relayed = stack.process_outbound_relay_network_pdu(&pdu).unwrap().unwrap();
    assert_eq!(4, relayed.ttl);
    assert_eq!(77, relayed.seq);
    assert_eq!(0x0009, relayed.src);
    assert_eq!(0x0004, relayed.dst);
    assert_eq!(vec![1, 2, 3], relayed.transport_pdu);

    let last_hop = CleartextNetworkPDU { ttl: 1, ..pdu.clone() };
    assert!(stack.process_outbound_relay_network_pdu(&last_hop).unwrap().is_none());
    let two = CleartextNetworkPDU { ttl: 2, ..pdu };
    assert_eq!(1, stack.process_outbound_relay_network_pdu(&two).unwrap().unwrap().ttl);
}

#[test]
fn a_replayed_segment_changes_nothing() {
    let secrets = secrets();
    let mut sender = ProvisionedStack::new(DeviceInfo { primary_unicast_address: 0x0005, number_of_elements: 1 });
    let mut sequence = Sequence::new(2000);
    let mut sender_watchdog = Watchdog::new();
    let pdus = sender
        .process_outbound(&secrets, &mut sequence, &message(0x0005, 0x0001, vec![0x33; 20]), None, &mut sender_watchdog, 0, 0)
        .unwrap();
    assert_eq!(3, pdus.len());
    let mut receiver = ProvisionedStack::new(DeviceInfo { primary_unicast_address: 0x0001, number_of_elements: 1 });
    let subscriptions = Subscriptions::new();
    let mut watchdog = Watchdog::new();
    assert!(receiver.fits_inbound(&pdus[0], 3, 10));
    let (_, first) = receiver
        .process_inbound_network_pdu(&secrets, Some(pdus[0].clone()), 3, &mut watchdog, 10, false, &subscriptions)
        .unwrap();
    assert_eq!(0b1, first.unwrap().block_ack.unwrap().0.value());
    let before = watchdog;
    // the same segment again is a replay: no answer, no deadline moved
    let (relay, result) = receiver
        .process_inbound_network_pdu(&secrets, Some(pdus[0].clone()), 3, &mut watchdog, 500, false, &subscriptions)
        .unwrap();
    assert!(relay.is_none() && result.is_none());
    assert_eq!(before, watchdog);
    // the reassembly goes on from where it was
    let (_, second) = receiver
        .process_inbound_network_pdu(&secrets, Some(pdus[1].clone()), 3, &mut watchdog, 20, false, &subscriptions)
        .unwrap();
    assert_eq!(0b11, second.unwrap().block_ack.unwrap().0.value());
}
