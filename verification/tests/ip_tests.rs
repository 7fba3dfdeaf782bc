use tunnel_relay::ip::{family_matches, header_min, IpAddress, IpPacket, MutableIpPacket};

fn v4_buffer(len: usize) -> Vec<u8> {
    let mut data = vec![0u8; len];
    data[0] = 0x45;
    data
}

fn v6_buffer(len: usize) -> Vec<u8> {
    let mut data = vec![0u8; len];
    data[0] = 0x60;
    data
}

#[test]
fn parse_v4_minimum_buffer() {
    let packet = IpPacket::new(v4_buffer(20)).expect("20-byte version-4 buffer must parse");
    let source = packet.get_source();
    assert!(!source.is_v6());
    assert_eq!(source.octets_ref().len(), 4);
}

#[test]
fn parse_v6_minimum_buffer() {
    let packet = IpPacket::new(v6_buffer(40)).expect("40-byte version-6 buffer must parse");
    let source = packet.get_source();
    assert!(source.is_v6());
    assert_eq!(source.octets_ref().len(), 16);
}

#[test]
fn parse_ten_byte_buffer_fails() {
    assert!(IpPacket::new(vec![0x45; 10]).is_none());
}

#[test]
fn parse_v6_version_with_short_buffer_fails() {
    assert!(IpPacket::new(v6_buffer(39)).is_none());
}

#[test]
fn parse_v4_with_zero_header_length_fails() {
    let mut data = vec![0u8; 20];
    data[0] = 0x40;
    assert!(IpPacket::new(data).is_none());
}

#[test]
fn parse_v4_with_declared_header_beyond_buffer_fails() {
    let mut data = vec![0u8; 20];
    data[0] = 0x46;
    assert!(IpPacket::new(data).is_none());
}

#[test]
fn parse_reads_wire_fields_v4() {
    let mut data = v4_buffer(24);
    data[9] = 6;
    data[12..16].copy_from_slice(&[10, 0, 0, 1]);
    data[16..20].copy_from_slice(&[10, 0, 0, 2]);
    data[20..24].copy_from_slice(&[1, 2, 3, 4]);
    let packet = IpPacket::new(data).unwrap();
    assert_eq!(packet.get_next_level_protocol(), 6);
    assert_eq!(packet.get_source().octets_ref().as_slice(), &[10, 0, 0, 1]);
    assert_eq!(packet.get_destination().octets_ref().as_slice(), &[10, 0, 0, 2]);
    assert_eq!(packet.payload(), vec![1, 2, 3, 4]);
}

#[test]
fn parse_reads_wire_fields_v6() {
    let mut data = v6_buffer(41);
    data[6] = 17;
    data[8] = 0xfe;
    data[24] = 0xff;
    data[40] = 9;
    let packet = IpPacket::new(data).unwrap();
    assert_eq!(packet.get_next_level_protocol(), 17);
    assert_eq!(packet.get_source().octets_ref()[0], 0xfe);
    assert_eq!(packet.get_destination().octets_ref()[0], 0xff);
    assert_eq!(packet.payload(), vec![9]);
}

#[test]
fn builder_length_and_payload_v4() {
    let payload = vec![7u8, 8, 9];
    let builder = MutableIpPacket::new(&payload, false).unwrap();
    let view = builder.into_immutable();
    assert_eq!(view.packet().len(), header_min(false) + payload.len());
    assert_eq!(view.payload(), payload);
}

#[test]
fn builder_length_and_payload_v6() {
    let payload = vec![1u8, 2, 3, 4, 5];
    let builder = MutableIpPacket::new(&payload, true).unwrap();
    let view = builder.into_immutable();
    assert_eq!(view.packet().len(), header_min(true) + payload.len());
    assert_eq!(view.payload(), payload);
}

#[test]
fn builder_empty_payload() {
    let builder = MutableIpPacket::new(&Vec::new(), false).unwrap();
    let view = builder.into_immutable();
    assert_eq!(view.packet().len(), 20);
    assert_eq!(view.payload(), Vec::<u8>::new());
}

#[test]
fn address_roundtrip_v4() {
    let payload = vec![0xaau8; 6];
    let mut builder = MutableIpPacket::new(&payload, false).unwrap();
    builder.set_source(IpAddress::v4(192, 168, 1, 10));
    builder.set_destination(IpAddress::v4(8, 8, 8, 8));
    let view = builder.into_immutable();
    assert_eq!(view.get_source().octets_ref().as_slice(), &[192, 168, 1, 10]);
    assert_eq!(view.get_destination().octets_ref().as_slice(), &[8, 8, 8, 8]);
    assert_eq!(view.payload(), payload);
}

#[test]
fn address_roundtrip_v6() {
    let mut src = vec![0u8; 16];
    src[15] = 1;
    let mut dst = vec![0u8; 16];
    dst[0] = 0x20;
    let mut builder = MutableIpPacket::new(&vec![3u8, 3], true).unwrap();
    builder.set_source(IpAddress::v6(src.clone()));
    builder.set_destination(IpAddress::v6(dst.clone()));
    let view = builder.into_immutable();
    assert_eq!(view.get_source().octets_ref(), &src);
    assert_eq!(view.get_destination().octets_ref(), &dst);
    assert_eq!(view.payload(), vec![3, 3]);
}

#[test]
fn set_payload_overwrites_region() {
    let mut builder = MutableIpPacket::new(&vec![1u8, 2, 3], false).unwrap();
    builder.set_payload(&vec![9u8, 8, 7]);
    let view = builder.into_immutable();
    assert_eq!(view.payload(), vec![9, 8, 7]);
}

#[test]
fn family_mismatch_is_detected() {
    let v6 = IpAddress::v6(vec![0u8; 16]);
    let v4 = IpAddress::v4(1, 2, 3, 4);
    assert!(!family_matches(&v6, false));
    assert!(!family_matches(&v4, true));
    assert!(family_matches(&v4, false));
    assert!(family_matches(&v6, true));
}
