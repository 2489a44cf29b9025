use btmesh::driver::advertising::{heard_frame, HeardFrame};
use btmesh::driver::stack::DeviceState;
use btmesh::driver::advertising::{
    beacon_frame, network_frame, AdvertisingPDU, BearerError, GenericProvisioningPDU, PbAdvDecision,
    PbAdvLink, ProvisioningBearerControl, MESH_BEACON, MESH_MESSAGE,
};

const UUID: [u8; 16] = [1, 2, 3, 4, 5, 6, 7, 8, 9, 10, 11, 12, 13, 14, 15, 16];

fn link_open(link_id: u32, uuid: [u8; 16]) -> AdvertisingPDU {
    AdvertisingPDU {
        link_id,
        transaction_number: 0,
        pdu: GenericProvisioningPDU::ProvisioningBearerControl(ProvisioningBearerControl::LinkOpen(uuid)),
    }
}

fn segment(link_id: u32, transaction_number: u8) -> AdvertisingPDU {
    AdvertisingPDU {
        link_id,
        transaction_number,
        pdu: GenericProvisioningPDU::TransactionStart { seg_n: 0, total_length: 2, fcs: 0, data: vec![0, 5] },
    }
}

fn is_link_ack(decision: &PbAdvDecision, link_id: u32) -> bool {
    matches!(decision, PbAdvDecision::Transmit(AdvertisingPDU {
        link_id: l,
        transaction_number: 0,
        pdu: GenericProvisioningPDU::ProvisioningBearerControl(ProvisioningBearerControl::LinkAck),
    }) if *l == link_id)
}

#[test]
fn link_open_is_acknowledged() {
    let mut link = PbAdvLink::new();
    let decision = link.receive_pb_adv(&link_open(7, UUID), &UUID).unwrap();
    assert!(is_link_ack(&decision, 7));
    assert_eq!(Some(7), link.link_id);
    assert_eq!(Some(0), link.inbound_transaction_number);

    // the same link again is acknowledged again
    let decision = link.receive_pb_adv(&link_open(7, UUID), &UUID).unwrap();
    assert!(is_link_ack(&decision, 7));

    // another link is refused
    assert_eq!(
        Some(BearerError::InvalidLink),
        link.receive_pb_adv(&link_open(8, UUID), &UUID).err()
    );
}

#[test]
fn link_open_for_another_device_is_ignored() {
    let mut link = PbAdvLink::new();
    let decision = link.receive_pb_adv(&link_open(7, [0; 16]), &UUID).unwrap();
    assert!(matches!(decision, PbAdvDecision::Ignore));
    assert_eq!(None, link.link_id);
}

#[test]
fn transactions_are_collected_once() {
    let mut link = PbAdvLink::new();
    link.receive_pb_adv(&link_open(7, UUID), &UUID).unwrap();

    let decision = link.receive_pb_adv(&segment(7, 0), &UUID).unwrap();
    assert!(matches!(decision, PbAdvDecision::Collect));

    let ack = link.ack_transaction().unwrap();
    assert_eq!(7, ack.link_id);
    assert_eq!(0, ack.transaction_number);
    assert!(matches!(ack.pdu, GenericProvisioningPDU::TransactionAck));
    assert_eq!(Some(0), link.acked_inbound_transaction_number);
    assert_eq!(None, link.inbound_transaction_number);

    // the acknowledged transaction heard again is acknowledged again
    match link.receive_pb_adv(&segment(7, 0), &UUID).unwrap() {
        PbAdvDecision::AckAgainAndRetransmit(Some(p)) => {
            assert_eq!(0, p.transaction_number);
            assert!(matches!(p.pdu, GenericProvisioningPDU::TransactionAck));
        }
        _ => panic!("an old transaction is acknowledged again"),
    }

    // a newer transaction is collected
    let decision = link.receive_pb_adv(&segment(7, 1), &UUID).unwrap();
    assert!(matches!(decision, PbAdvDecision::Collect));
    assert_eq!(Some(1), link.inbound_transaction_number);
}

#[test]
fn nothing_to_acknowledge() {
    let mut link = PbAdvLink::new();
    assert_eq!(Some(BearerError::InvalidTransaction), link.ack_transaction().err());
}

#[test]
fn link_close_forgets_the_link() {
    let mut link = PbAdvLink::new();
    link.receive_pb_adv(&link_open(7, UUID), &UUID).unwrap();
    let close = AdvertisingPDU {
        link_id: 7,
        transaction_number: 0,
        pdu: GenericProvisioningPDU::ProvisioningBearerControl(ProvisioningBearerControl::LinkClose(0)),
    };
    link.receive_pb_adv(&close, &UUID).unwrap();
    assert_eq!(None, link.link_id);
    assert_eq!(None, link.inbound_transaction_number);
}

#[test]
fn outbound_transactions_and_their_acknowledgement() {
    let mut link = PbAdvLink::new();
    assert_eq!(
        Some(BearerError::InvalidLink),
        link.transmit_provisioning_pdu(vec![GenericProvisioningPDU::TransactionAck]).err()
    );
    assert_eq!(0x81, link.outbound_transaction_number);

    link.receive_pb_adv(&link_open(7, UUID), &UUID).unwrap();
    let segments = vec![
        GenericProvisioningPDU::TransactionStart { seg_n: 1, total_length: 30, fcs: 0, data: vec![1; 20] },
        GenericProvisioningPDU::TransactionContinuation { segment_index: 1, data: vec![2; 10] },
    ];
    let pdus = link.transmit_provisioning_pdu(segments).unwrap();
    assert_eq!(2, pdus.len());
    assert!(pdus.iter().all(|p| p.link_id == 7 && p.transaction_number == 0x81));
    assert_eq!(2, link.retransmit().len());

    let ack = AdvertisingPDU { link_id: 7, transaction_number: 0x81, pdu: GenericProvisioningPDU::TransactionAck };
    link.receive_pb_adv(&ack, &UUID).unwrap();
    assert_eq!(0, link.retransmit().len());
}

#[test]
fn beacon_and_network_frames() {
    let frame = beacon_frame(&UUID);
    assert_eq!(21, frame.len());
    assert_eq!(vec![20, MESH_BEACON, 0x00], frame[0..3].to_vec());
    assert_eq!(UUID.to_vec(), frame[3..19].to_vec());
    assert_eq!(vec![0xa0, 0x40], frame[19..].to_vec());

    let frame = network_frame(&[9, 8, 7]).unwrap();
    assert_eq!(vec![4, MESH_MESSAGE, 9, 8, 7], frame);
    assert_eq!(Some(BearerError::InsufficientResources), network_frame(&[0; 63]).err());
}

#[test]
fn heard_frames_by_type_and_state() {
    let unprovisioned = DeviceState::Unprovisioned { uuid: [9; 16], in_progress: false };
    assert!(matches!(heard_frame(&[5, 0x29, 1, 2], &unprovisioned), HeardFrame::ProvisioningBearer(u) if u == [9; 16]));
    assert!(matches!(heard_frame(&[5, 0x2a, 1, 2], &unprovisioned), HeardFrame::Ignored));
    assert!(matches!(heard_frame(&[5, 0x2a, 1, 2], &DeviceState::Provisioned), HeardFrame::Network));
    assert!(matches!(heard_frame(&[5, 0x29, 1, 2], &DeviceState::Provisioned), HeardFrame::Ignored));
    assert!(matches!(heard_frame(&[0x2a], &DeviceState::Provisioned), HeardFrame::Ignored));
}

#[test]
fn a_pending_transaction_survives_other_pdus() {
    let mut link = PbAdvLink::new();
    link.receive_pb_adv(&link_open(7, UUID), &UUID).unwrap();
    let segments = vec![
        GenericProvisioningPDU::TransactionStart { seg_n: 1, total_length: 30, fcs: 0, data: vec![1; 20] },
        GenericProvisioningPDU::TransactionContinuation { segment_index: 1, data: vec![2; 10] },
    ];
    link.transmit_provisioning_pdu(segments).unwrap();
    let link_ack = AdvertisingPDU {
        link_id: 7,
        transaction_number: 0,
        pdu: GenericProvisioningPDU::ProvisioningBearerControl(ProvisioningBearerControl::LinkAck),
    };
    assert!(matches!(link.receive_pb_adv(&link_ack, &UUID).unwrap(), PbAdvDecision::Ignore));
    // an acknowledgement of another transaction leaves it pending too
    let other_ack = AdvertisingPDU { link_id: 7, transaction_number: 0x90, pdu: GenericProvisioningPDU::TransactionAck };
    assert!(matches!(link.receive_pb_adv(&other_ack, &UUID).unwrap(), PbAdvDecision::Ignore));
    let again = link.retransmit();
    assert_eq!(2, again.len());
    match &again[1].pdu {
        GenericProvisioningPDU::TransactionContinuation { segment_index: 1, data } => assert_eq!(&vec![2; 10], data),
        _ => panic!("the second segment is sent again as it was"),
    }
}
