use btmesh::address::LabelUuid;
use btmesh::common::Opcode;
use btmesh::driver::pdu::{UpperAccessPDU, UpperMetadata, UpperPDU};
use btmesh::driver::secrets::{ApplicationKeyHandle, ApplicationKeys, NetworkKeys, Secrets};
use btmesh::driver::sequence::Sequence;
use btmesh::driver::upper::{
    decrypt_access, encrypt_access, nonce, process_outbound_message, AccessMessage,
    AccessMetadata, KeyHandle, Message, UpperDriver, APPLICATION_NONCE, DEVICE_NONCE,
};
use btmesh::error::{DriverError, ParseError};
use btmesh::keys::{ApplicationKey, DeviceKey};
use btmesh::models::configuration::{AppKeyIndex, NetKeyIndex};

const DEVICE_KEY: [u8; 16] = [
    0x9d, 0x6d, 0xd0, 0xe9, 0x6e, 0xb2, 0x5d, 0xc1, 0x9a, 0x40, 0xed, 0x99, 0x14, 0xf8, 0xf0, 0x3f,
];

const APP_KEY: [u8; 16] = [
    0x63, 0x96, 0x47, 0x71, 0x73, 0x4f, 0xbd, 0x76, 0xe3, 0xb4, 0x05, 0x19, 0xd1, 0xd9, 0x4a, 0x48,
];

fn secrets() -> Secrets {
    let mut application_keys = ApplicationKeys::new();
    application_keys
        .add(AppKeyIndex::new(0), NetKeyIndex::new(0), ApplicationKey::new(APP_KEY))
        .unwrap();
    Secrets::new(DeviceKey(DEVICE_KEY), NetworkKeys::new(), application_keys)
}

fn meta(key_handle: KeyHandle, dst: u16, label_uuid: Option<LabelUuid>) -> AccessMetadata {
    AccessMetadata {
        iv_index: 0x12345678,
        nid: 0x68,
        key_handle,
        src: 0x1201,
        dst,
        ttl: 4,
        label_uuid,
        replay_seq: None,
    }
}

fn message(key_handle: KeyHandle, dst: u16, label_uuid: Option<LabelUuid>) -> AccessMessage {
    AccessMessage {
        opcode: Opcode::TwoOctet(0x80, 0x05),
        parameters: vec![0x01, 0x02, 0x03],
        meta: meta(key_handle, dst, label_uuid),
    }
}

#[test]
fn device_nonce_layout() {
    assert_eq!(
        [0x02, 0x00, 0x00, 0x00, 0x06, 0x12, 0x01, 0x00, 0x03, 0x12, 0x34, 0x56, 0x78],
        nonce(DEVICE_NONCE, false, 6, 0x1201, 0x0003, 0x12345678)
    );
    assert_eq!(
        [0x01, 0x80, 0x07, 0x08, 0x09, 0x00, 0x01, 0xc0, 0x00, 0x00, 0x00, 0x00, 0x01],
        nonce(APPLICATION_NONCE, true, 0x00070809, 0x0001, 0xc000, 1)
    );
}

#[test]
fn opcode_split_and_bytes() {
    assert_eq!(Some((Opcode::OneOctet(0x04), vec![9])), Opcode::split(&[0x04, 9]));
    assert_eq!(Some((Opcode::TwoOctet(0x80, 0x05), vec![])), Opcode::split(&[0x80, 0x05]));
    assert_eq!(
        Some((Opcode::ThreeOctet(0xc1, 0x02, 0x03), vec![4, 5])),
        Opcode::split(&[0xc1, 0x02, 0x03, 4, 5])
    );
    assert_eq!(None, Opcode::split(&[]));
    assert_eq!(None, Opcode::split(&[0x7f]));
    assert_eq!(None, Opcode::split(&[0x80]));
    assert_eq!(None, Opcode::split(&[0xc0, 0x01]));
    assert_eq!(vec![0x80, 0x05], Opcode::TwoOctet(0x80, 0x05).bytes());
}

#[test]
fn device_key_roundtrip() {
    let secrets = secrets();
    let mut sequence = Sequence::new(6);
    let msg = message(KeyHandle::Device, 0x0003, None);
    let pdu = encrypt_access(&secrets, &mut sequence, &msg).unwrap();
    assert_eq!(7, sequence.current());
    assert_eq!(5, pdu.payload.len());
    assert_eq!(4, pdu.transmic.len());
    assert_ne!(vec![0x80, 0x05, 0x01, 0x02, 0x03], pdu.payload);
    assert_eq!(None, pdu.meta.aid);
    assert_eq!(6, pdu.meta.seq);
    assert_eq!(Some(6), pdu.meta.replay_seq);

    let decrypted = decrypt_access(&secrets, &pdu).unwrap();
    assert_eq!(Opcode::TwoOctet(0x80, 0x05), decrypted.opcode);
    assert_eq!(vec![0x01, 0x02, 0x03], decrypted.parameters);
    assert_eq!(KeyHandle::Device, decrypted.meta.key_handle);
    assert_eq!(Some(6), decrypted.meta.replay_seq);
    assert_eq!(0x1201, decrypted.meta.src);
}

#[test]
fn application_key_roundtrip() {
    let secrets = secrets();
    let aid = ApplicationKey::new(APP_KEY).aid();
    let handle = ApplicationKeyHandle { index: 0, aid };
    let mut sequence = Sequence::new(0x1000);
    let msg = message(KeyHandle::Application(handle), 0xc000, None);
    let pdu = encrypt_access(&secrets, &mut sequence, &msg).unwrap();
    assert_eq!(Some(aid), pdu.meta.aid);

    let decrypted = decrypt_access(&secrets, &pdu).unwrap();
    assert_eq!(KeyHandle::Application(handle), decrypted.meta.key_handle);
    assert_eq!(vec![0x01, 0x02, 0x03], decrypted.parameters);
}

#[test]
fn tampered_payload_is_refused() {
    let secrets = secrets();
    let mut sequence = Sequence::new(6);
    let msg = message(KeyHandle::Device, 0x0003, None);
    let mut pdu = encrypt_access(&secrets, &mut sequence, &msg).unwrap();
    pdu.payload[0] ^= 0x01;
    assert_eq!(Some(DriverError::InvalidPDU), decrypt_access(&secrets, &pdu).err());
}

#[test]
fn unknown_application_key_is_refused() {
    let secrets = secrets();
    let pdu = UpperAccessPDU {
        payload: vec![1, 2, 3],
        transmic: vec![4, 5, 6, 7],
        meta: UpperMetadata {
            iv_index: 0,
            nid: 0,
            aid: Some(0x3f ^ ApplicationKey::new(APP_KEY).aid()),
            seq: 1,
            src: 1,
            dst: 2,
            ttl: 3,
            label_uuids: Vec::new(),
            seq_auth: None,
            replay_seq: None,
        },
    };
    assert_eq!(Some(DriverError::InvalidPDU), decrypt_access(&secrets, &pdu).err());
}

#[test]
fn oversized_message_is_refused() {
    let secrets = secrets();
    let mut sequence = Sequence::new(1);
    let mut msg = message(KeyHandle::Device, 0x0003, None);
    msg.parameters = vec![0; 378];
    assert_eq!(
        Some(DriverError::InsufficientSpace),
        encrypt_access(&secrets, &mut sequence, &msg).err()
    );
    assert_eq!(2, sequence.current());
}

#[test]
fn bad_opcode_after_decryption() {
    let secrets = secrets();
    let mut sequence = Sequence::new(6);
    let mut msg = message(KeyHandle::Device, 0x0003, None);
    msg.opcode = Opcode::OneOctet(0x7f);
    let pdu = encrypt_access(&secrets, &mut sequence, &msg).unwrap();
    assert_eq!(
        Some(DriverError::Parse(ParseError::InvalidPDUFormat)),
        decrypt_access(&secrets, &pdu).err()
    );
}

#[test]
fn virtual_destination_uses_stored_label() {
    let secrets = secrets();
    let aid = ApplicationKey::new(APP_KEY).aid();
    let handle = ApplicationKeyHandle { index: 0, aid };
    let label = LabelUuid::new([
        0xf0, 0xbf, 0xd8, 0x03, 0xcd, 0xe1, 0x84, 0x13, 0x30, 0x96, 0xf0, 0x03, 0xea, 0x4a, 0x3d,
        0xc2,
    ])
    .unwrap();
    let dst = label.virtual_address().0;
    let mut sequence = Sequence::new(10);
    let msg = message(KeyHandle::Application(handle), dst, Some(label));
    let pdu = match process_outbound_message(&secrets, &mut sequence, &Message::Access(msg)).unwrap() {
        UpperPDU::Access(a) => a,
        UpperPDU::Control(_) => panic!("an access message gives an access PDU"),
    };

    // without the label the node cannot decrypt it
    let upper = UpperDriver::new();
    let mut inbound = UpperPDU::Access(pdu.clone());
    assert_eq!(
        Some(DriverError::InvalidPDU),
        upper.process_inbound_upper_pdu(&secrets, &mut inbound).err()
    );

    let mut upper = UpperDriver::new();
    upper.add_label_uuid(label).unwrap();
    let mut inbound = UpperPDU::Access(pdu);
    match upper.process_inbound_upper_pdu(&secrets, &mut inbound).unwrap() {
        Message::Access(m) => {
            assert_eq!(Some(label), m.meta.label_uuid);
            assert_eq!(vec![0x01, 0x02, 0x03], m.parameters);
        }
        Message::Control(_) => panic!("an access PDU gives an access message"),
    }

    upper.remove_label_uuid(label);
    let mut meta = UpperMetadata::from_access_message(&message(KeyHandle::Device, dst, None), 1);
    upper.apply_label_uuids(&mut meta).unwrap();
    assert_eq!(0, meta.label_uuids.len());
}

#[test]
fn label_table_fills_up() {
    let mut upper = UpperDriver::new();
    let label = LabelUuid::new([7; 16]).unwrap();
    for _ in 0..20 {
        upper.add_label_uuid(label).unwrap();
    }
    assert_eq!(Err(DriverError::InsufficientSpace), upper.add_label_uuid(label));

    // twenty matching labels overflow the three that a PDU can carry
    let mut meta = UpperMetadata::from_access_message(
        &message(KeyHandle::Device, label.virtual_address().0, None),
        1,
    );
    assert_eq!(Err(DriverError::InsufficientSpace), upper.apply_label_uuids(&mut meta));
    assert_eq!(3, meta.label_uuids.len());
}
