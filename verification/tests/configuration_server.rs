use btmesh::buffer::Xmit;
use btmesh::common::Opcode;
use btmesh::error::ParseError;
use btmesh::models::configuration::composition_data::{
    config_composition_data_get, config_composition_data_status, CompositionDataMessage,
};
use btmesh::models::configuration::model_publication::{
    config_model_publication_virtual_address_set, ModelPublicationMessage,
};
use btmesh::models::configuration::network_transmit::{
    config_network_transmit_status, NetworkTransmitConfig, NetworkTransmitMessage,
};
use btmesh::models::configuration::{ConfigurationMessage, ConfigurationServer};

#[test]
fn composition_data_get_reaches_the_server() {
    let parsed = ConfigurationServer::parse(&Opcode::TwoOctet(0x80, 0x08), &[0x00]).unwrap();
    match parsed {
        Some(ConfigurationMessage::CompositionData(CompositionDataMessage::Get(0))) => {}
        other => panic!("a composition data get, not {:?}", other),
    }
    assert!(matches!(
        ConfigurationServer::parse(&Opcode::TwoOctet(0x80, 0x08), &[]),
        Err(ParseError::InvalidLength)
    ));
    assert!(matches!(
        ConfigurationServer::parse(&Opcode::TwoOctet(0x80, 0x08), &[0x00, 0x01]),
        Err(ParseError::InvalidLength)
    ));
}

#[test]
fn composition_data_messages_are_written() {
    let get = CompositionDataMessage::Get(0xff);
    assert_eq!(config_composition_data_get(), get.opcode());
    let mut xmit = Xmit::new(4);
    get.emit_parameters(&mut xmit).unwrap();
    assert_eq!(&[0xff], xmit.as_slice());

    let status = CompositionDataMessage::Status { page: 0, data: vec![1, 2, 3] };
    assert_eq!(Opcode::OneOctet(0x02), config_composition_data_status());
    assert_eq!(config_composition_data_status(), status.opcode());
    let mut xmit = Xmit::new(4);
    status.emit_parameters(&mut xmit).unwrap();
    assert_eq!(&[0, 1, 2, 3], xmit.as_slice());
    let mut small = Xmit::new(3);
    assert!(status.emit_parameters(&mut small).is_err());
}

#[test]
fn status_opcodes_are_not_served() {
    assert!(matches!(ConfigurationServer::parse(&Opcode::OneOctet(0x02), &[0, 1]), Ok(None)));
    assert!(matches!(ConfigurationServer::parse(&Opcode::TwoOctet(0x80, 0x28), &[0]), Ok(None)));
}

#[test]
fn network_transmit_default_reads_back() {
    let config = NetworkTransmitConfig::default();
    let mut xmit = Xmit::new(2);
    config.emit(&mut xmit).unwrap();
    assert_eq!(&[(2 << 5) | 10], xmit.as_slice());
    let back = NetworkTransmitConfig::parse(xmit.as_slice()).unwrap();
    assert_eq!(2, back.network_retransmit_count);
    assert_eq!(10, back.network_retransmit_interval_steps);
    assert!(matches!(NetworkTransmitConfig::parse(&[]), Err(ParseError::InvalidLength)));
}

#[test]
fn network_transmit_status_is_a_status() {
    let parsed = NetworkTransmitMessage::parse_status(&[0b1110_0011]).unwrap();
    match parsed {
        NetworkTransmitMessage::Status(c) => {
            assert_eq!(7, c.network_retransmit_count);
            assert_eq!(3, c.network_retransmit_interval_steps);
        }
        _ => panic!("a status"),
    }
    assert_eq!(config_network_transmit_status(), parsed.opcode());
    assert!(matches!(NetworkTransmitMessage::parse_set(&[0x4a]), Ok(NetworkTransmitMessage::SetState(_))));
}

fn virtual_address_set_bytes() -> Vec<u8> {
    let mut bytes = vec![0x01, 0x00];
    bytes.extend_from_slice(&[0x5a; 16]);
    bytes.extend_from_slice(&[0x02, 0x00, 0x05, 0x00, 0x00]);
    bytes.extend_from_slice(&[0x00, 0x10]);
    bytes
}

#[test]
fn virtual_address_set_is_its_own_message() {
    let bytes = virtual_address_set_bytes();
    let parsed = ModelPublicationMessage::parse_virtual_address_set(&bytes).unwrap();
    assert!(matches!(parsed, ModelPublicationMessage::VirtualAddressSet(_)));
    assert_eq!(config_model_publication_virtual_address_set(), parsed.opcode());
    match ConfigurationServer::parse(&config_model_publication_virtual_address_set(), &bytes) {
        Ok(Some(ConfigurationMessage::ModelPublication(ModelPublicationMessage::VirtualAddressSet(_)))) => {}
        other => panic!("a virtual address set, not {:?}", other),
    }
}
