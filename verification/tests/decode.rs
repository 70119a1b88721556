use ecat_decode::command::EtherCATCommand;
use ecat_decode::datagram::EtherCATDatagram;
use ecat_decode::datagram::EtherCATDatagramIterator;
use ecat_decode::datagram::parse_datagrams;
use ecat_decode::frame::decode_frame_header;
use ecat_decode::frame::encode_frame_header;
use ecat_decode::frame::EtherCATFrame;
use ecat_decode::frame::EtherNetFrame;
use ecat_decode::DecodeError;

/// Builds the wire bytes of one datagram.
fn dgram_bytes(
    cmd: u8,
    index: u8,
    adp: u16,
    ado: u16,
    round_trip: bool,
    more: bool,
    irq: u16,
    data: &[u8],
    wkc: u16,
) -> Vec<u8> {
    let mut v = Vec::new();
    v.push(cmd);
    v.push(index);
    v.extend_from_slice(&adp.to_le_bytes());
    v.extend_from_slice(&ado.to_le_bytes());
    let mut lrl = data.len() as u16;
    if round_trip {
        lrl |= 1 << 14;
    }
    if more {
        lrl |= 1 << 15;
    }
    v.extend_from_slice(&lrl.to_le_bytes());
    v.extend_from_slice(&irq.to_le_bytes());
    v.extend_from_slice(data);
    v.extend_from_slice(&wkc.to_le_bytes());
    v
}

#[test]
fn frame_header_fields() {
    // 0x1234 = 0001 0010 0011 0100: length bits 0..11, reserved bit 11,
    // frame type bits 12..16.
    let h = decode_frame_header(0x1234);
    assert_eq!(h.length, 0x234);
    assert_eq!(h.reserved, 0);
    assert_eq!(h.ecat_frame_type, 1);
}

#[test]
fn frame_header_round_trip_concrete() {
    for w in [0x0000u16, 0x1234, 0xABCD, 0xFFFF, 0x87FF, 0x0800] {
        let h = decode_frame_header(w);
        assert_eq!(encode_frame_header(&h), w);
    }
}

#[test]
fn command_codec_total_inverse() {
    for code in 0u16..=255 {
        let code = code as u8;
        let cmd = EtherCATCommand::decode(code);
        if code <= 14 {
            assert_eq!(cmd.encode(), Some(code));
        } else {
            assert_eq!(cmd, EtherCATCommand::UNKNOWN);
            assert_eq!(cmd.encode(), None);
        }
    }
}

#[test]
fn command_named_values() {
    assert_eq!(EtherCATCommand::decode(0), EtherCATCommand::NOP);
    assert_eq!(EtherCATCommand::decode(1), EtherCATCommand::APRD);
    assert_eq!(EtherCATCommand::decode(7), EtherCATCommand::BRD);
    assert_eq!(EtherCATCommand::decode(12), EtherCATCommand::LRW);
    assert_eq!(EtherCATCommand::decode(14), EtherCATCommand::FRMW);
    assert_eq!(EtherCATCommand::decode(15), EtherCATCommand::UNKNOWN);
    assert_eq!(EtherCATCommand::UNKNOWN.encode(), None);
}

#[test]
fn datagram_consumes_exactly_its_wire_size() {
    // length field L = 4, so the datagram spans 10 + 4 + 2 = 16 bytes.
    let buf = dgram_bytes(4, 9, 0x1000, 0x0200, false, false, 0, &[1, 2, 3, 4], 3);
    assert_eq!(buf.len(), 16);
    let d = EtherCATDatagram::parse_one_datagram(&buf, 0).unwrap();
    assert_eq!(d.header.length, 4);
    assert_eq!(d.size(), 16);
    let mut it = EtherCATDatagramIterator::new(0);
    let first = it.next(&buf).unwrap();
    assert!(first.is_some());
    // The cursor advanced by exactly the datagram's wire size.
    assert_eq!(it.pos, 16);
    assert!(it.done);
}

#[test]
fn three_datagrams_in_wire_order() {
    let mut buf = Vec::new();
    buf.extend_from_slice(&dgram_bytes(1, 1, 0, 0, false, true, 0, &[], 0));
    buf.extend_from_slice(&dgram_bytes(2, 2, 0, 0, false, true, 0, &[], 0));
    buf.extend_from_slice(&dgram_bytes(3, 3, 0, 0, false, false, 0, &[], 0));
    let (dgrams, err) = parse_datagrams(&buf, 0);
    assert!(err.is_none());
    assert_eq!(dgrams.len(), 3);
    assert_eq!(dgrams[0].header.index, 1);
    assert_eq!(dgrams[1].header.index, 2);
    assert_eq!(dgrams[2].header.index, 3);
    assert_eq!(dgrams[0].header.last_indicator, 1);
    assert_eq!(dgrams[1].header.last_indicator, 1);
    assert_eq!(dgrams[2].header.last_indicator, 0);
}

#[test]
fn single_datagram_yields_one() {
    let buf = dgram_bytes(7, 0, 0, 0, false, false, 0, &[], 1);
    let (dgrams, err) = parse_datagrams(&buf, 0);
    assert!(err.is_none());
    assert_eq!(dgrams.len(), 1);
    assert_eq!(dgrams[0].header.cmd, EtherCATCommand::BRD);
}

#[test]
fn truncated_length_100_with_50_trailing() {
    // Header declares length = 100 but only 50 bytes follow the header.
    let mut buf = Vec::new();
    buf.push(1); // command
    buf.push(0); // index
    buf.extend_from_slice(&[0, 0, 0, 0]); // adp, ado
    buf.extend_from_slice(&100u16.to_le_bytes()); // length word
    buf.extend_from_slice(&[0, 0]); // irq
    buf.extend_from_slice(&[0u8; 50]);
    assert_eq!(buf.len(), 60);
    assert_eq!(
        EtherCATDatagram::parse_one_datagram(&buf, 0),
        Err(DecodeError::TruncatedInput)
    );
    let (dgrams, err) = parse_datagrams(&buf, 0);
    assert_eq!(dgrams.len(), 0);
    assert_eq!(err, Some(DecodeError::TruncatedInput));
}

#[test]
fn truncation_keeps_earlier_datagrams() {
    let mut buf = Vec::new();
    buf.extend_from_slice(&dgram_bytes(1, 1, 0, 0, false, true, 0, &[], 0));
    // Second datagram announces 100 payload bytes that are not there.
    buf.push(2);
    buf.push(2);
    buf.extend_from_slice(&[0, 0, 0, 0]);
    buf.extend_from_slice(&100u16.to_le_bytes());
    buf.extend_from_slice(&[0, 0]);
    let (dgrams, err) = parse_datagrams(&buf, 0);
    assert_eq!(dgrams.len(), 1);
    assert_eq!(dgrams[0].header.index, 1);
    assert_eq!(err, Some(DecodeError::TruncatedInput));
}

#[test]
fn aprd_scenario() {
    // One datagram: command APRD, index 0, adp 0xBBAA, ado 0x0010,
    // length 0, no flags, irq 0, no payload, working counter 5.
    let buf: Vec<u8> = vec![
        0x01, 0x00, 0xAA, 0xBB, 0x10, 0x00, 0x00, 0x00, 0x00, 0x00, 0x05, 0x00,
    ];
    let d = EtherCATDatagram::parse_one_datagram(&buf, 0).unwrap();
    assert_eq!(d.header.cmd, EtherCATCommand::APRD);
    assert_eq!(d.header.index, 0);
    assert_eq!(d.header.slave_addr, 0xBBAA);
    assert_eq!(d.header.offset_addr, 0x0010);
    assert_eq!(d.header.length, 0);
    assert_eq!(d.header.round_trip, 0);
    assert_eq!(d.header.last_indicator, 0);
    assert_eq!(d.data_start, 10);
    assert_eq!(d.wkc, 5);
    // The iterator stops after this one datagram.
    let (dgrams, err) = parse_datagrams(&buf, 0);
    assert!(err.is_none());
    assert_eq!(dgrams.len(), 1);
    assert_eq!(dgrams[0], d);
}

fn ethernet_frame_bytes(ethertype: u16, ecat_payload: &[u8]) -> Vec<u8> {
    let mut buf = Vec::new();
    buf.extend_from_slice(&[0x01, 0x02, 0x03, 0x04, 0x05, 0x06]); // dst
    buf.extend_from_slice(&[0x11, 0x12, 0x13, 0x14, 0x15, 0x16]); // src
    buf.extend_from_slice(&ethertype.to_be_bytes());
    // EtherCAT frame header: length = payload size, frame type 1.
    let w: u16 = (ecat_payload.len() as u16) | (1 << 12);
    buf.extend_from_slice(&w.to_le_bytes());
    buf.extend_from_slice(ecat_payload);
    buf
}

#[test]
fn ethernet_frame_ok() {
    let payload = dgram_bytes(1, 7, 0xBBAA, 0x0010, false, false, 0, &[0xDE], 2);
    let buf = ethernet_frame_bytes(0x88A4, &payload);
    let f = EtherNetFrame::parse(&buf).unwrap();
    assert_eq!(f.dst_mac, vec![0x01, 0x02, 0x03, 0x04, 0x05, 0x06]);
    assert_eq!(f.src_mac, vec![0x11, 0x12, 0x13, 0x14, 0x15, 0x16]);
    assert_eq!(f.frame_type, 0x88A4);
    assert_eq!(f.ecat_frame.header.length, 13);
    assert_eq!(f.ecat_frame.header.reserved, 0);
    assert_eq!(f.ecat_frame.header.ecat_frame_type, 1);
    assert!(!f.ecat_frame.truncated);
    assert_eq!(f.ecat_frame.datagrams.len(), 1);
    let d = &f.ecat_frame.datagrams[0];
    assert_eq!(d.header.index, 7);
    assert_eq!(d.data_start, 26); // 14 Ethernet + 2 header + 10 fixed fields
    assert_eq!(d.wkc, 2);
}

#[test]
fn ethernet_not_ethercat() {
    let payload = dgram_bytes(1, 0, 0, 0, false, false, 0, &[], 0);
    let buf = ethernet_frame_bytes(0x0800, &payload);
    assert_eq!(EtherNetFrame::parse(&buf), Err(DecodeError::NotEtherCat));
}

#[test]
fn ethernet_too_short() {
    let buf = vec![0u8; 10];
    assert_eq!(EtherNetFrame::parse(&buf), Err(DecodeError::TruncatedInput));
}

#[test]
fn ethernet_missing_ecat_header() {
    // 14 bytes of Ethernet header with the EtherCAT ethertype, nothing after.
    let mut buf = vec![0u8; 12];
    buf.extend_from_slice(&[0x88, 0xA4]);
    assert_eq!(EtherNetFrame::parse(&buf), Err(DecodeError::TruncatedInput));
}

#[test]
fn ethernet_truncated_datagrams_reported() {
    // A well-formed Ethernet and EtherCAT header, but the single datagram
    // announces more payload than the frame holds.
    let mut payload = Vec::new();
    payload.push(1);
    payload.push(0);
    payload.extend_from_slice(&[0, 0, 0, 0]);
    payload.extend_from_slice(&100u16.to_le_bytes());
    payload.extend_from_slice(&[0, 0]);
    let buf = ethernet_frame_bytes(0x88A4, &payload);
    let f = EtherNetFrame::parse(&buf).unwrap();
    assert!(f.ecat_frame.truncated);
    assert_eq!(f.ecat_frame.datagrams.len(), 0);
}

#[test]
fn ecat_frame_parse_at_offset() {
    // An EtherCAT frame standing alone at offset 0: header then one datagram.
    let mut buf = Vec::new();
    let payload = dgram_bytes(0, 0, 0, 0, true, false, 0xFFFF, &[], 0);
    let w: u16 = (payload.len() as u16) | (1 << 12);
    buf.extend_from_slice(&w.to_le_bytes());
    buf.extend_from_slice(&payload);
    let f = EtherCATFrame::parse(&buf, 0).unwrap();
    assert_eq!(f.header.length, 12);
    assert_eq!(f.datagrams.len(), 1);
    assert_eq!(f.datagrams[0].header.cmd, EtherCATCommand::NOP);
    assert_eq!(f.datagrams[0].header.round_trip, 1);
    assert_eq!(f.datagrams[0].header.irq, 0xFFFF);
}

#[test]
fn ecat_frame_too_short() {
    let buf = vec![0x0Cu8];
    assert_eq!(EtherCATFrame::parse(&buf, 0), Err(DecodeError::TruncatedInput));
}

#[test]
fn is_last_datagram_polarity() {
    let more = dgram_bytes(1, 0, 0, 0, false, true, 0, &[], 0);
    let d = EtherCATDatagram::parse_one_datagram(&more, 0).unwrap();
    assert_eq!(d.header.last_indicator, 1);
    assert!(!d.is_last_datagram());
    let last = dgram_bytes(1, 0, 0, 0, false, false, 0, &[], 0);
    let d = EtherCATDatagram::parse_one_datagram(&last, 0).unwrap();
    assert_eq!(d.header.last_indicator, 0);
    assert!(d.is_last_datagram());
}

#[test]
fn round_trip_bit_extracted() {
    let buf = dgram_bytes(1, 0, 0, 0, true, false, 0, &[], 0);
    let d = EtherCATDatagram::parse_one_datagram(&buf, 0).unwrap();
    assert_eq!(d.header.round_trip, 1);
    assert_eq!(d.header.last_indicator, 0);
}

#[test]
fn iterator_finished_walk_stays_done() {
    let buf = dgram_bytes(1, 0, 0, 0, false, false, 0, &[], 0);
    let mut it = EtherCATDatagramIterator::new(0);
    assert!(it.next(&buf).unwrap().is_some());
    assert!(it.done);
    assert!(it.next(&buf).unwrap().is_none());
}
