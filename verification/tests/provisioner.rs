use btmesh::driver::secrets::Secrets;
use btmesh::driver::provisionee::Provisionee;
use btmesh::driver::provisioner::{Provisioner, ResponsePDU};
use btmesh::driver::provisioning_pdu::{
    Capabilities, Confirmation, ErrorCode, Failed, Invite, ProvisioningData, ProvisioningPDU, PublicKey, Random,
    Start,
};

#[test]
fn provision_device() {
    let fixture = ProvisioningData {
        unicast_address: 0x00_0A,
        key_refresh_flag: true,
        ..Default::default()
    };
    let mut provisioner = Provisioner::new(fixture, 60).unwrap();
    let mut device = Provisionee::new(Capabilities {
        number_of_elements: 1,
        ..Default::default()
    });
    loop {
        for pdu in provisioner.response().pdus() {
            assert!(!matches!(pdu, ProvisioningPDU::Failed(_)), "Unexpected PDU: {:?}", pdu);
            device = match device.next(&pdu, 0) {
                Ok(provisionee) => {
                    if let Some(pdu) = provisionee.response() {
                        provisioner = match provisioner.next(&pdu) {
                            Ok(p) => p,
                            Err(e) => panic!("provisoner error: {:?}", e),
                        }
                    }
                    provisionee
                }
                Err(e) => {
                    panic!("device error: {:?}", e);
                }
            };
        }
        if !device.in_progress() {
            break;
        }
    }
    match device {
        Provisionee::Complete(key, result) => {
            assert_ne!([0; 16], key.0);
            assert_eq!(fixture, result);
        }
        _ => panic!("wrong ending state"),
    }
    assert!(matches!(provisioner, Provisioner::Success));
    assert!(provisioner.response().pdus().is_empty());
}

#[test]
fn provisioner_invites_first() {
    let provisioner = Provisioner::new(ProvisioningData::default(), 5).unwrap();
    let pdus = provisioner.response().pdus();
    assert_eq!(1, pdus.len());
    assert!(matches!(pdus[0], ProvisioningPDU::Invite(Invite { attention_duration: 5 })));
}

#[test]
fn provisioner_sends_start_and_public_key() {
    let provisioner = Provisioner::new(ProvisioningData::default(), 5).unwrap();
    let provisioner = provisioner.next(&ProvisioningPDU::Capabilities(Capabilities::default())).unwrap();
    assert!(matches!(provisioner, Provisioner::KeyExchange(_)));
    let pdus = provisioner.response().pdus();
    assert_eq!(2, pdus.len());
    assert!(matches!(pdus[0], ProvisioningPDU::Start(s) if s == Start::default()));
    assert!(matches!(pdus[1], ProvisioningPDU::PublicKey(_)));
}

#[test]
fn provisioner_refuses_a_key_off_the_curve() {
    let provisioner = Provisioner::new(ProvisioningData::default(), 5).unwrap();
    let provisioner = provisioner.next(&ProvisioningPDU::Capabilities(Capabilities::default())).unwrap();
    let bogus = PublicKey { x: [1; 32], y: [2; 32] };
    let provisioner = provisioner.next(&ProvisioningPDU::PublicKey(bogus)).unwrap();
    let pdus = provisioner.response().pdus();
    assert_eq!(1, pdus.len());
    assert!(matches!(
        pdus[0],
        ProvisioningPDU::Failed(Failed { error_code: ErrorCode::InvalidFormat })
    ));
}

fn authenticating() -> (Provisioner, Provisionee) {
    let mut provisioner = Provisioner::new(ProvisioningData::default(), 5).unwrap();
    let mut device = Provisionee::new(Capabilities::default());
    // invitation, capabilities, start and public keys
    for _ in 0..2 {
        for pdu in provisioner.response().pdus() {
            device = device.next(&pdu, 0).unwrap();
            if let Some(answer) = device.response() {
                provisioner = provisioner.next(&answer).unwrap();
            }
        }
    }
    assert!(matches!(provisioner, Provisioner::Authentication(_)));
    (provisioner, device)
}

#[test]
fn provisioner_fails_a_wrong_confirmation() {
    let (provisioner, _) = authenticating();
    let provisioner = provisioner
        .next(&ProvisioningPDU::Confirmation(Confirmation { confirmation: [7; 16] }))
        .unwrap();
    let pdus = provisioner.response().pdus();
    assert!(matches!(pdus[0], ProvisioningPDU::Random(_)));
    let provisioner = provisioner.next(&ProvisioningPDU::Random(Random { random: [9; 16] })).unwrap();
    assert!(matches!(
        provisioner.response().pdus()[0],
        ProvisioningPDU::Failed(Failed { error_code: ErrorCode::ConfirmationFailed })
    ));
}

#[test]
fn provisioner_without_a_confirmation_fails_the_random() {
    let (provisioner, _) = authenticating();
    let provisioner = provisioner.next(&ProvisioningPDU::Random(Random { random: [9; 16] })).unwrap();
    assert!(matches!(provisioner, Provisioner::Failure(_)));
}

#[test]
fn provisioner_ignores_wayward_pdus() {
    let provisioner = Provisioner::new(ProvisioningData::default(), 5).unwrap();
    let provisioner = provisioner.next(&ProvisioningPDU::Complete).unwrap();
    assert!(matches!(provisioner, Provisioner::Invitation(_)));
}

#[test]
fn response_pdus_in_order() {
    assert!(ResponsePDU::Empty.pdus().is_empty());
    let two = ResponsePDU::Two([ProvisioningPDU::Complete, ProvisioningPDU::InputComplete]);
    let pdus = two.pdus();
    assert!(matches!(pdus[0], ProvisioningPDU::Complete));
    assert!(matches!(pdus[1], ProvisioningPDU::InputComplete));
}

#[test]
fn provisioning_data_bytes_read_back() {
    let data = ProvisioningData {
        network_key: [0x42; 16],
        key_index: 0x0123,
        key_refresh_flag: false,
        iv_update_flag: true,
        iv_index: 0xdead_beef,
        unicast_address: 0x1234,
    };
    let mut bytes = Vec::new();
    data.emit(&mut bytes);
    assert_eq!(25, bytes.len());
    assert_eq!(&[0x01, 0x23, 0x02, 0xde, 0xad, 0xbe, 0xef, 0x12, 0x34], &bytes[16..]);
    assert_eq!(data, ProvisioningData::parse(&bytes).unwrap());
}

#[test]
fn provisioned_device_holds_the_network_key() {
    let fixture = ProvisioningData { network_key: [0x33; 16], unicast_address: 0x0004, ..Default::default() };
    let mut provisioner = Provisioner::new(fixture, 0).unwrap();
    let mut device = Provisionee::new(Capabilities::default());
    while !matches!(device, Provisionee::Complete(..)) {
        for pdu in provisioner.response().pdus() {
            device = device.next(&pdu, 0).unwrap();
            if let Some(answer) = device.response() {
                provisioner = provisioner.next(&answer).unwrap();
            }
        }
    }
    match device {
        Provisionee::Complete(key, data) => {
            let secrets = Secrets::from_provisioning(key, &data);
            assert_eq!(key.0, secrets.device_key().0);
            assert!(secrets.network_key_by_index(0).is_ok());
            assert!(secrets.network_key_by_index(1).is_err());
            assert!(secrets.application_keys_by_aid(0).is_empty());
        }
        _ => panic!("the device completes provisioning"),
    }
}
