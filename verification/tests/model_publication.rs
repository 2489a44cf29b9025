use btmesh::address::{LabelUuid, UnicastAddress};
use btmesh::buffer::Xmit;
use btmesh::common::ModelIdentifier;
use btmesh::models::configuration::model_publication::{
    ModelPublicationSetMessage, PublicationDetails, PublishAddress, PublishPeriod,
    PublishRetransmit, Resolution,
};
use btmesh::models::configuration::AppKeyIndex;

#[test]
fn test_pubset_details() {
    let data = PublicationDetails {
        element_address: UnicastAddress::new(0x00aa).unwrap(),
        publish_address: PublishAddress::Label(
            LabelUuid::new([
                0xf0, 0xbf, 0xd8, 0x03, 0xcd, 0xe1, 0x84, 0x13, 0x30, 0x96, 0xf0, 0x03, 0xea,
                0x4a, 0x3d, 0xc2,
            ])
            .unwrap(),
        ),
        app_key_index: AppKeyIndex::new(1),
        credential_flag: false,
        publish_ttl: None,
        publish_period: PublishPeriod::from(0x29),
        publish_retransmit: PublishRetransmit::new(1, 2),
        model_identifier: ModelIdentifier::SIG(0x1001),
    };
    let msg = ModelPublicationSetMessage {
        details: data.clone(),
    };
    let mut parameters = Xmit::new(386);
    msg.emit_parameters(&mut parameters).unwrap();

    let parsed: ModelPublicationSetMessage =
        ModelPublicationSetMessage::parse_virtual_address(parameters.as_slice()).unwrap();
    assert_eq!(parsed.details, data);
}

#[test]
fn test_publish_period() {
    let period1 = PublishPeriod::new(60, Resolution::Seconds10);
    assert_eq!(0xBC, u8::from(period1));

    // Publish Period: 0x29 = 4.1 seconds (41 * 100 ms).
    let period2 = PublishPeriod::from(0x29);
    assert_eq!(41, period2.steps());
    assert_eq!(
        Resolution::Milliseconds100 as u8,
        period2.resolution() as u8
    );

    // Publish Period: 0x51 = 17 seconds.
    let period3 = PublishPeriod::from(0x51);
    assert_eq!(17, period3.steps());
    assert_eq!(Resolution::Seconds1 as u8, period3.resolution() as u8);

    // Publish Period: 0x5E = 30 seconds.
    let period4 = PublishPeriod::from(0x5E);
    assert_eq!(30, period4.steps());
    assert_eq!(Resolution::Seconds1 as u8, period4.resolution() as u8);
}

#[test]
fn test_retransmit() {
    let rxt = PublishRetransmit::from(0xa0);
    assert_eq!(rxt.count(), 5);
    assert_eq!(rxt.interval_steps(), 0);

    assert_eq!(u8::from(rxt), 0b10100000);
}

#[test]
fn publish_period_fields_round_trip() {
    let p = PublishPeriod::new(41, Resolution::Minutes10);
    assert_eq!(p.steps(), 41);
    assert_eq!(p.resolution(), Resolution::Minutes10);
    assert_eq!(u8::from(p), 0xE9);
}

#[test]
fn publish_retransmit_fields_round_trip() {
    let r = PublishRetransmit::new(7, 31);
    assert_eq!(r.count(), 7);
    assert_eq!(r.interval_steps(), 31);
    // the count keeps only its low three bits
    let r = PublishRetransmit::new(9, 3);
    assert_eq!(r.count(), 1);
    assert_eq!(u8::from(r), 0x23);
}

#[test]
fn publication_details_plain_parse() {
    // element 0x0001, publish address 0xC000 (group), app key 1 with credential
    // flag, ttl 5, period 0x29, retransmit 0x21, SIG model 0x1000
    let bytes = [0x01, 0x00, 0x00, 0xC0, 0x01, 0x08, 0x05, 0x29, 0x21, 0x00, 0x10];
    let m = ModelPublicationSetMessage::parse(&bytes).unwrap();
    assert!(matches!(m.details.publish_address, PublishAddress::Group(_)));
    assert!(m.details.credential_flag);
    assert_eq!(m.details.app_key_index, AppKeyIndex::new(0x801));
    assert_eq!(m.details.publish_ttl.unwrap().value(), 5);
    assert_eq!(m.details.model_identifier, ModelIdentifier::SIG(0x1000));
}

#[test]
fn publication_details_errors() {
    assert!(ModelPublicationSetMessage::parse(&[0u8; 10]).is_err());
    // element address 0 is not unicast
    let bytes = [0x00, 0x00, 0x00, 0xC0, 0x01, 0x00, 0x05, 0x29, 0x21, 0x00, 0x10];
    assert!(ModelPublicationSetMessage::parse(&bytes).is_err());
    // a three-byte model identifier is refused
    let bytes = [0x01, 0x00, 0x00, 0xC0, 0x01, 0x00, 0x05, 0x29, 0x21, 0x00, 0x10, 0x00];
    assert!(ModelPublicationSetMessage::parse(&bytes).is_err());
    assert!(ModelPublicationSetMessage::parse_virtual_address(&[0u8; 24]).is_err());
}

#[test]
fn publication_emit_overflow_keeps_prefix() {
    let data = PublicationDetails {
        element_address: UnicastAddress::new(0x0102).unwrap(),
        publish_address: PublishAddress::Unassigned,
        app_key_index: AppKeyIndex::new(3),
        credential_flag: false,
        publish_ttl: None,
        publish_period: PublishPeriod::from(0),
        publish_retransmit: PublishRetransmit::from_u8(0),
        model_identifier: ModelIdentifier::SIG(0x1000),
    };
    let msg = ModelPublicationSetMessage { details: data };
    let mut small = Xmit::new(3);
    assert!(msg.emit_parameters(&mut small).is_err());
    assert_eq!(small.as_slice(), &[0x02, 0x01, 0x00]);
}
