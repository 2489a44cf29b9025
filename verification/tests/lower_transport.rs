use btmesh::driver::block_ack::Blocks;
use btmesh::driver::inbound::{InFlight, Reassembly};
use btmesh::driver::pdu::{
    ControlOpcode, LowerMetadata, SegmentedLowerAccessPDU, SegmentedLowerControlPDU,
    SegmentedLowerPDU, SzMic, UpperMetadata, UpperPDU,
};
use btmesh::error::DriverError;

fn lower_meta() -> LowerMetadata {
    LowerMetadata {
        iv_index: u32::from_be_bytes([1, 2, 3, 4]),
        nid: 42,
        src: 0x000a,
        dst: 0x000b,
        seq: 1001,
        ttl: 128,
    }
}

fn access_segment(szmic: SzMic, seq_zero: u16, seg_o: u8, seg_n: u8, data: &[u8]) -> SegmentedLowerPDU {
    SegmentedLowerPDU::Access(SegmentedLowerAccessPDU {
        aid: None,
        szmic,
        seq_zero,
        seg_o,
        seg_n,
        segment_m: data.to_vec(),
        meta: lower_meta(),
    })
}

#[test]
fn in_flight_is_valid_seq_zero() {
    let seq_zero = 42;
    let seg_n = 4;
    let szmic = SzMic::Bit64;

    let pdu = access_segment(szmic, 42, 0, seg_n, &[]);
    let meta = UpperMetadata::from_segmented_lower_pdu(&pdu);
    let in_flight = InFlight::new_access(seq_zero, seg_n, szmic, meta, 0);
    assert!(in_flight.is_valid(&pdu));

    let pdu = access_segment(szmic, 88, 0, seg_n, &[]);
    assert!(!in_flight.is_valid(&pdu));
}

#[test]
fn in_flight_is_valid_pdu_type() {
    let seq_zero = 42;
    let seg_n = 4;
    let szmic = SzMic::Bit64;

    let pdu = access_segment(szmic, 42, 0, seg_n, &[]);
    let meta = UpperMetadata::from_segmented_lower_pdu(&pdu);
    let in_flight = InFlight::new_control(seq_zero, seg_n, ControlOpcode::FriendPoll, meta, 0);
    assert!(!in_flight.is_valid(&pdu));

    let meta = UpperMetadata::from_segmented_lower_pdu(&pdu);
    let in_flight = InFlight::new_access(seq_zero, seg_n, SzMic::Bit32, meta, 0);
    let pdu = SegmentedLowerPDU::Control(SegmentedLowerControlPDU {
        opcode: ControlOpcode::FriendPoll,
        seq_zero: 42,
        seg_o: 0,
        seg_n,
        segment_m: Vec::new(),
        meta: lower_meta(),
    });
    assert!(!in_flight.is_valid(&pdu));
}

#[test]
fn blocks() {
    let mut blocks = Blocks::new(42, 3);

    assert_eq!(Ok(false), blocks.is_complete());
    assert_eq!(Ok(()), blocks.ack(0));
    assert_eq!(Ok(false), blocks.is_complete());
    assert_eq!(Ok(()), blocks.ack(1));
    assert_eq!(Ok(false), blocks.is_complete());
    assert_eq!(Ok(()), blocks.ack(2));
    assert_eq!(Ok(()), blocks.ack(2));
    assert_eq!(Ok(()), blocks.ack(2));
    assert_eq!(Ok(()), blocks.ack(2));
    assert_eq!(Ok(false), blocks.is_complete());
    assert_eq!(Ok(()), blocks.ack(3));
    assert_eq!(Ok(true), blocks.is_complete());

    assert_eq!(Err(DriverError::InvalidState), blocks.ack(4));
}

#[test]
fn reassembly() {
    let mut reassembly = Reassembly::new_access(SzMic::Bit32);

    let pdu = access_segment(SzMic::Bit32, 42, 0, 1, b"ABCDEFGHIJKL");
    reassembly.ingest(&pdu).unwrap();

    let pdu = access_segment(SzMic::Bit32, 42, 1, 1, b"ZYX");
    let upper_meta = UpperMetadata::from_segmented_lower_pdu(&pdu);
    reassembly.ingest(&pdu).unwrap();

    if let UpperPDU::Access(result) = reassembly.reassemble(upper_meta).unwrap() {
        // the last four bytes are the transport MIC
        assert_eq!(b"ABCDEFGHIJK".to_vec(), result.payload);
        assert_eq!(b"LZYX".to_vec(), result.transmic);
    } else {
        panic!("an access reassembly gives an access PDU")
    }
}

#[test]
fn reassembly_with_long_mic() {
    let mut reassembly = Reassembly::new_access(SzMic::Bit64);
    reassembly.ingest(&access_segment(SzMic::Bit64, 7, 0, 1, b"ABCDEFGHIJKL")).unwrap();
    let pdu = access_segment(SzMic::Bit64, 7, 1, 1, b"MNO");
    let upper_meta = UpperMetadata::from_segmented_lower_pdu(&pdu);
    reassembly.ingest(&pdu).unwrap();
    match reassembly.reassemble(upper_meta).unwrap() {
        UpperPDU::Access(result) => {
            assert_eq!(b"ABCDEFG".to_vec(), result.payload);
            assert_eq!(b"HIJKLMNO".to_vec(), result.transmic);
        }
        UpperPDU::Control(_) => panic!("an access reassembly gives an access PDU"),
    }
}

#[test]
fn blocks_out_of_range_refused() {
    let blocks = Blocks::new(1, 0);
    assert_eq!(Ok(false), blocks.is_complete());
    assert_eq!(Ok(false), blocks.already_seen(1));
    assert_eq!(Err(DriverError::InvalidState), blocks.already_seen(32));
}

#[test]
fn reassembly_in_any_order() {
    let message = b"0123456789abcdefghijklmnopqrstuvwxyzABCD";
    let segments: Vec<&[u8]> = message.chunks(12).collect();
    let last = (segments.len() - 1) as u8;
    let mut reassembly = Reassembly::new_access(SzMic::Bit32);
    let mut meta = None;
    for (k, segment) in segments.iter().enumerate().rev() {
        let pdu = access_segment(SzMic::Bit32, 9, k as u8, last, segment);
        meta = Some(UpperMetadata::from_segmented_lower_pdu(&pdu));
        reassembly.ingest(&pdu).unwrap();
    }
    match reassembly.reassemble(meta.unwrap()).unwrap() {
        UpperPDU::Access(result) => {
            assert_eq!(message[..message.len() - 4].to_vec(), result.payload);
            assert_eq!(message[message.len() - 4..].to_vec(), result.transmic);
        }
        UpperPDU::Control(_) => panic!("an access reassembly gives an access PDU"),
    }
}
