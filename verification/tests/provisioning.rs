use btmesh::driver::provisionee::{
    auth_request, determine_auth_value, draw_accepted, needs_draw, AuthRequest, AuthValue,
    Provisionee, ProvisioningState, UnprovisionedStack,
};
use btmesh::driver::provisioning_pdu::{
    Capabilities, Confirmation, Data, ErrorCode, Invite, OOBAction, OOBSize, OutputOOBAction,
    ProvisioningPDU, PublicKey, Random, Start,
};
use btmesh::error::{DriverError, ParseError};
use ccm::aead::{AeadInPlace, KeyInit};
use cmac::Mac;
use p256::elliptic_curve::sec1::{FromEncodedPoint, ToEncodedPoint};

fn cmac(key: &[u8; 16], msg: &[u8]) -> [u8; 16] {
    let mut mac = <cmac::Cmac<aes::Aes128> as Mac>::new_from_slice(key).unwrap();
    mac.update(msg);
    mac.finalize().into_bytes().into()
}

fn s1(msg: &[u8]) -> [u8; 16] {
    cmac(&[0; 16], msg)
}

fn k1(n: &[u8], salt: &[u8; 16], p: &[u8]) -> [u8; 16] {
    cmac(&cmac(salt, n), p)
}

fn public_key_of(secret: &p256::SecretKey) -> PublicKey {
    let point = secret.public_key().to_encoded_point(false);
    let mut x = [0; 32];
    x.copy_from_slice(point.x().unwrap());
    let mut y = [0; 32];
    y.copy_from_slice(point.y().unwrap());
    PublicKey { x, y }
}

fn shared_secret(secret: &p256::SecretKey, peer: &PublicKey) -> [u8; 32] {
    let point = p256::EncodedPoint::from_affine_coordinates((&peer.x).into(), (&peer.y).into(), false);
    let public = p256::PublicKey::from_encoded_point(&point).unwrap();
    let shared = p256::ecdh::diffie_hellman(secret.to_nonzero_scalar(), public.as_affine());
    (*shared.raw_secret_bytes()).into()
}

fn random_key() -> p256::SecretKey {
    p256::SecretKey::random(&mut rand_core::OsRng)
}

fn keyexchange() -> Provisionee {
    let mut fsm = Provisionee::new(Capabilities::default());
    fsm = fsm.next(&ProvisioningPDU::Invite(Invite::default()), 0).unwrap();
    assert!(matches!(fsm, Provisionee::Invitation(_)));
    fsm = fsm.next(&ProvisioningPDU::Start(Start::default()), 0).unwrap();
    assert!(matches!(fsm, Provisionee::KeyExchange(_)));
    assert!(fsm.response().is_none());
    fsm
}

fn confirmation(random: &[u8; 16]) -> Provisionee {
    let mut fsm = keyexchange();
    let pdu = ProvisioningPDU::PublicKey(public_key_of(&random_key()));
    fsm = fsm.next(&pdu, 0).unwrap();
    let confirmation = match &fsm {
        Provisionee::Authentication(auth) => auth.confirmation(random),
        _ => panic!("wrong state returned"),
    };
    let pdu = ProvisioningPDU::Confirmation(Confirmation { confirmation });
    fsm = fsm.next(&pdu, 0).unwrap();
    match fsm.response() {
        Some(ProvisioningPDU::Confirmation(c)) => assert_ne!(c.confirmation, confirmation),
        _ => panic!("wrong pdu returned"),
    }
    fsm
}

#[test]
fn invitation() {
    let size = 69;
    let caps = Capabilities { number_of_elements: size, ..Default::default() };
    let mut fsm = Provisionee::new(caps);
    assert!(matches!(fsm, Provisionee::Beaconing(_)));
    let pdu = ProvisioningPDU::Invite(Invite { attention_duration: 30 });
    fsm = fsm.next(&pdu, 0).unwrap();
    assert!(matches!(fsm, Provisionee::Invitation(_)));
    match fsm.response() {
        Some(ProvisioningPDU::Capabilities(c)) => assert_eq!(c.number_of_elements, size),
        _ => panic!("wrong pdu returned for invite"),
    }
}

#[test]
fn valid_keyexchange() {
    let mut fsm = keyexchange();
    let pdu = ProvisioningPDU::PublicKey(public_key_of(&random_key()));
    fsm = fsm.next(&pdu, 0).unwrap();
    assert!(matches!(fsm, Provisionee::Authentication(_)));
    assert!(matches!(fsm.response(), Some(ProvisioningPDU::PublicKey(_))));
}

#[test]
fn invalid_keyexchange() {
    let mut fsm = keyexchange();
    let (x, y) = ([0; 32], [0; 32]);
    let pdu = ProvisioningPDU::PublicKey(PublicKey { x, y });
    fsm = fsm.next(&pdu, 0).unwrap();
    assert!(matches!(fsm, Provisionee::Failure(..)));
    assert!(
        matches!(fsm.response(), Some(ProvisioningPDU::Failed(e)) if matches!(e.error_code, ErrorCode::InvalidFormat))
    );
}

#[test]
fn valid_confirmation() {
    let mut random = [0; 16];
    rand_core::RngCore::fill_bytes(&mut rand_core::OsRng, &mut random);
    let mut fsm = confirmation(&random);
    let pdu = ProvisioningPDU::Random(Random { random });
    fsm = fsm.next(&pdu, 0).unwrap();
    assert!(matches!(fsm, Provisionee::DataDistribution(_)));
}

#[test]
fn invalid_confirmation() {
    let mut random = [0; 16];
    let mut fsm = confirmation(&random);
    // Use a different random to break confirmation...
    rand_core::RngCore::fill_bytes(&mut rand_core::OsRng, &mut random);
    let pdu = ProvisioningPDU::Random(Random { random });
    fsm = fsm.next(&pdu, 0).unwrap();
    assert!(matches!(fsm, Provisionee::Failure(..)));
}

#[test]
fn in_progress() {
    let unprov = UnprovisionedStack::new(Default::default());
    assert_eq!(unprov.in_progress(), false);
}

#[test]
fn wayward_pdus_are_ignored() {
    let fsm = Provisionee::new(Capabilities::default());
    let fsm = fsm.next(&ProvisioningPDU::Complete, 0).unwrap();
    assert!(matches!(fsm, Provisionee::Beaconing(_)));
    let fsm = fsm.next(&ProvisioningPDU::Invite(Invite::default()), 0).unwrap();
    let fsm = fsm.next(&ProvisioningPDU::Random(Random { random: [1; 16] }), 0).unwrap();
    assert!(matches!(fsm, Provisionee::Invitation(_)));
}

#[test]
fn authentication_values() {
    let blink = Start {
        authentication_method: 2,
        authentication_action: OOBAction::Output(OutputOOBAction::Blink),
        authentication_size: OOBSize::MaximumSize(2),
        ..Default::default()
    };
    assert_eq!(AuthRequest::OutputEvents(2), auth_request(&blink));
    assert!(needs_draw(auth_request(&blink)));
    assert!(!draw_accepted(auth_request(&blink), 0));
    assert!(draw_accepted(auth_request(&blink), 99));
    assert!(!draw_accepted(auth_request(&blink), 100));
    match determine_auth_value(&blink, 42).unwrap() {
        AuthValue::OutputEvents(n) => assert_eq!(42, n),
        _ => panic!("blinking outputs events"),
    }
    assert_eq!(
        [0, 0, 0, 0, 0, 0, 0, 0, 0, 0, 0, 0, 0, 0, 0, 42],
        AuthValue::OutputEvents(42).get_bytes()
    );
    assert_eq!([0; 16], AuthValue::NoOOB.get_bytes());

    let alpha = Start {
        authentication_method: 2,
        authentication_action: OOBAction::Output(OutputOOBAction::OutputAlphanumeric),
        authentication_size: OOBSize::MaximumSize(4),
        ..Default::default()
    };
    assert!(!needs_draw(auth_request(&alpha)));
    assert_eq!(Some(ParseError::InsufficientBuffer), determine_auth_value(&alpha, 0).err());

    let mut stack = UnprovisionedStack::new(Capabilities::default());
    stack.process(&ProvisioningPDU::Invite(Invite::default()), 0).unwrap();
    assert_eq!(
        Some(DriverError::Parse(ParseError::InsufficientBuffer)),
        stack.process(&ProvisioningPDU::Start(alpha), 0).err()
    );
    // the state machine is gone after the failure
    assert_eq!(
        Some(DriverError::InvalidState),
        stack.process(&ProvisioningPDU::Invite(Invite::default()), 0).err()
    );
}

#[test]
fn device_provisioned_step_by_step() {
    let caps = Capabilities { number_of_elements: 1, ..Default::default() };
    let mut device = UnprovisionedStack::new(caps);
    let invite = Invite { attention_duration: 60 };
    let start = Start::default();

    let answer = device.process(&ProvisioningPDU::Invite(invite), 0).unwrap();
    assert!(matches!(answer, Some(ProvisioningState::Response(ProvisioningPDU::Capabilities(_)))));
    assert!(device.in_progress());

    // the same invitation again is answered again
    let again = device.process(&ProvisioningPDU::Invite(invite), 0).unwrap();
    assert!(matches!(again, Some(ProvisioningState::Response(ProvisioningPDU::Capabilities(_)))));

    assert!(device.process(&ProvisioningPDU::Start(start), 0).unwrap().is_none());

    let provisioner_key = random_key();
    let provisioner_public = public_key_of(&provisioner_key);
    let device_public = match device.process(&ProvisioningPDU::PublicKey(provisioner_public), 0).unwrap() {
        Some(ProvisioningState::Response(ProvisioningPDU::PublicKey(k))) => k,
        _ => panic!("the device answers with its public key"),
    };
    let secret = shared_secret(&provisioner_key, &device_public);

    let mut transcript = vec![60u8, 1, 0, 0, 0, 0, 0, 0, 0, 0, 0, 0];
    transcript.extend_from_slice(&[0, 0, 0, 0, 0]);
    transcript.extend_from_slice(&provisioner_public.x);
    transcript.extend_from_slice(&provisioner_public.y);
    transcript.extend_from_slice(&device_public.x);
    transcript.extend_from_slice(&device_public.y);
    let confirmation_salt = s1(&transcript);
    let confirmation_key = k1(&secret, &confirmation_salt, b"prck");

    let random_provisioner = [0x5a; 16];
    let mut input = random_provisioner.to_vec();
    input.extend_from_slice(&[0; 16]);
    let confirmation_provisioner = cmac(&confirmation_key, &input);

    let device_confirmation = match device
        .process(&ProvisioningPDU::Confirmation(Confirmation { confirmation: confirmation_provisioner }), 0)
        .unwrap()
    {
        Some(ProvisioningState::Response(ProvisioningPDU::Confirmation(c))) => c.confirmation,
        _ => panic!("the device answers with its confirmation"),
    };
    let random_device = match device
        .process(&ProvisioningPDU::Random(Random { random: random_provisioner }), 0)
        .unwrap()
    {
        Some(ProvisioningState::Response(ProvisioningPDU::Random(r))) => r.random,
        _ => panic!("the device answers with its random value"),
    };
    let mut input = random_device.to_vec();
    input.extend_from_slice(&[0; 16]);
    assert_eq!(cmac(&confirmation_key, &input), device_confirmation);

    let mut salt_input = confirmation_salt.to_vec();
    salt_input.extend_from_slice(&random_provisioner);
    salt_input.extend_from_slice(&random_device);
    let provisioning_salt = s1(&salt_input);
    let session_key = k1(&secret, &provisioning_salt, b"prsk");
    let nonce = k1(&secret, &provisioning_salt, b"prsn");
    let device_key = k1(&secret, &provisioning_salt, b"prdk");

    let mut plain = vec![0x11u8; 16];
    plain.extend_from_slice(&[0x00, 0x02, 0x01, 0x12, 0x34, 0x56, 0x78, 0x00, 0x0a]);
    let cipher = ccm::Ccm::<aes::Aes128, ccm::consts::U8, ccm::consts::U13>::new((&session_key).into());
    let tag = cipher
        .encrypt_in_place_detached(ccm::Nonce::<ccm::consts::U13>::from_slice(&nonce[3..]), &[], &mut plain)
        .unwrap();
    let mut encrypted = [0; 25];
    encrypted.copy_from_slice(&plain);
    let mut mic = [0; 8];
    mic.copy_from_slice(&tag);

    match device.process(&ProvisioningPDU::Data(Data { encrypted, mic }), 0).unwrap() {
        Some(ProvisioningState::Data(key, data, ProvisioningPDU::Complete)) => {
            assert_eq!(device_key, key.0);
            assert_eq!([0x11; 16], data.network_key);
            assert_eq!(2, data.key_index);
            assert!(data.key_refresh_flag);
            assert!(!data.iv_update_flag);
            assert_eq!(0x12345678, data.iv_index);
            assert_eq!(0x000a, data.unicast_address);
        }
        _ => panic!("the device completes provisioning"),
    }
    assert!(!device.in_progress());
}
