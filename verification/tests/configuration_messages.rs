use btmesh::address::UnicastAddress;
use btmesh::buffer::Xmit;
use btmesh::common::ModelIdentifier;
use btmesh::models::configuration::model_app::ModelAppPayload;
use btmesh::models::configuration::{AppKeyIndex, KeyIndex};

fn written_one(index: u16) -> Vec<u8> {
    let mut xmit = Xmit::new(2);
    KeyIndex::emit_one(&KeyIndex::new(index), &mut xmit).unwrap();
    xmit.as_slice().to_vec()
}

#[test]
fn key_index_reads_back_below_256() {
    let bytes = written_one(0x42);
    assert_eq!(vec![0x42, 0x00], bytes);
    assert_eq!(0x42, KeyIndex::parse_one(&bytes).unwrap().0);
}

#[test]
fn key_index_above_255_loses_its_high_byte() {
    let bytes = written_one(0x142);
    assert_eq!(vec![0x42, 0x10], bytes);
    assert_eq!(0x42, KeyIndex::parse_one(&bytes).unwrap().0);
    assert_eq!(0, KeyIndex::parse_one(&written_one(0x100)).unwrap().0);
}

#[test]
fn key_pair_reads_back() {
    let mut xmit = Xmit::new(3);
    KeyIndex::emit_two((&KeyIndex::new(0x123), &KeyIndex::new(0x405)), &mut xmit).unwrap();
    assert_eq!(&[0x04, 0x51, 0x23], xmit.as_slice());
    let (net, app) = KeyIndex::parse_two(xmit.as_slice()).unwrap();
    assert_eq!(0x123, net.0);
    assert_eq!(0x405, app.0);
}

#[test]
fn model_app_payload_reads_back() {
    let payload = ModelAppPayload {
        element_address: UnicastAddress::new(0x0102).unwrap(),
        app_key_index: AppKeyIndex(KeyIndex::new(0x07)),
        model_identifier: ModelIdentifier::SIG(0x1000),
    };
    let mut xmit = Xmit::new(6);
    payload.emit_parameters(&mut xmit).unwrap();
    assert_eq!(&[0x02, 0x01, 0x07, 0x00, 0x00, 0x10], xmit.as_slice());
    assert_eq!(payload, ModelAppPayload::parse(xmit.as_slice()).unwrap());
}
