use btmesh::driver::lower::LowerPDU;
use btmesh::driver::pdu::{CleartextNetworkPDU, Ctl, LowerMetadata, UpperMetadata};

fn network_pdu(ctl: Ctl, transport_pdu: Vec<u8>) -> CleartextNetworkPDU {
    CleartextNetworkPDU { ivi: 0, nid: 0x21, ctl, ttl: 7, seq: 0x2005, src: 0x0003, dst: 0x0004, transport_pdu }
}

#[test]
fn lower_metadata_of_a_network_pdu() {
    let pdu = network_pdu(Ctl::Access, vec![0x00, 1, 2]);
    let meta = LowerMetadata::from_network_pdu(&pdu, 9);
    assert_eq!(0x0003, meta.src());
    assert_eq!(0x0004, meta.dst());
    assert_eq!(0x2005, meta.seq());
    assert_eq!(7, meta.ttl());
    assert_eq!(9, meta.iv_index());
    assert_eq!(0x21, meta.nid);
}

#[test]
fn upper_metadata_of_an_unsegmented_access_pdu() {
    // application key flag set, identifier 0x15
    let pdu = network_pdu(Ctl::Access, vec![0x55, 1, 2, 3, 4, 5]);
    let lower = LowerPDU::parse(&pdu, 9).unwrap();
    let meta = UpperMetadata::from_lower_pdu(&lower);
    assert_eq!(Some(0x15), meta.aid);
    assert_eq!(Some(0x2005), meta.replay_seq());
    assert_eq!(None, meta.seq_auth());
    assert_eq!(0x2005, meta.seq());
    assert_eq!(0x0003, meta.src());
    assert_eq!(0x0004, meta.dst());
    assert_eq!(7, meta.ttl());
    assert_eq!(9, meta.iv_index());
    assert!(meta.label_uuids().is_empty());
}

#[test]
fn upper_metadata_of_a_segment() {
    // segmented access message: SeqZero 5, first of two segments
    let pdu = network_pdu(Ctl::Access, vec![0x80, 0x00, 0x14, 0x01, 0xaa]);
    let lower = LowerPDU::parse(&pdu, 0x0102).unwrap();
    let meta = UpperMetadata::from_lower_pdu(&lower);
    assert_eq!(None, meta.aid);
    // the first segment went out with sequence number 0x2005
    assert_eq!(Some(0x2005), meta.replay_seq());
    assert_eq!(Some(0x0200_2005), meta.seq_auth());
}
