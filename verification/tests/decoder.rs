use ebeepyf::packet::{DecodeError, IPP, PacketInfo, RECORD_WIDTH};

#[test]
fn short_slices_are_malformed() {
    let mut len: usize = 0;
    while len < RECORD_WIDTH {
        let bytes = vec![0u8; len];
        let r = PacketInfo::try_from(bytes.as_slice());
        assert!(matches!(r, Err(DecodeError::Malformed)));
        len += 1;
    }
}

#[test]
fn decode_reads_exact_fields() {
    let bytes: Vec<u8> = vec![10, 0, 0, 1, 0x39, 0x05, 192, 168, 1, 2, 0x50, 0x00];
    let p = PacketInfo::try_from(bytes.as_slice()).unwrap();
    assert_eq!(p.src.ip, [10, 0, 0, 1]);
    assert_eq!(p.src.port, 1337);
    assert_eq!(p.dst.ip, [192, 168, 1, 2]);
    assert_eq!(p.dst.port, 80);
}

#[test]
fn decode_ignores_trailing_padding() {
    let mut bytes: Vec<u8> = vec![10, 0, 0, 1, 0x39, 0x05, 192, 168, 1, 2, 0x50, 0x00];
    bytes.extend_from_slice(&[0xAA, 0xBB, 0xCC, 0xDD, 0xEE, 0xFF, 0x11, 0x22]);
    assert_eq!(bytes.len(), 20);
    let p = PacketInfo::try_from(bytes.as_slice()).unwrap();
    assert_eq!(p.src.ip, [10, 0, 0, 1]);
    assert_eq!(p.src.port, 1337);
    assert_eq!(p.dst.ip, [192, 168, 1, 2]);
    assert_eq!(p.dst.port, 80);
}

#[test]
fn encode_then_decode_recovers_record() {
    let p = PacketInfo::new(IPP::new([10, 0, 0, 1], 65535), IPP::new([255, 255, 255, 255], 1));
    let bytes = p.encode();
    assert_eq!(bytes.len(), RECORD_WIDTH);
    let q = PacketInfo::try_from(bytes.as_slice()).unwrap();
    assert_eq!(q.src.ip, p.src.ip);
    assert_eq!(q.src.port, p.src.port);
    assert_eq!(q.dst.ip, p.dst.ip);
    assert_eq!(q.dst.port, p.dst.port);
}

#[test]
fn decode_then_encode_recovers_wire_prefix() {
    let bytes: Vec<u8> = vec![1, 2, 3, 4, 5, 6, 7, 8, 9, 10, 11, 12, 99, 98, 97, 96, 95, 94, 93, 92];
    let p = PacketInfo::try_from(bytes.as_slice()).unwrap();
    let out = p.encode();
    assert_eq!(out.as_slice(), &bytes[..RECORD_WIDTH]);
}

#[test]
fn constructors_keep_fields() {
    let a = IPP::new([1, 2, 3, 4], 8080);
    assert_eq!(a.ip, [1, 2, 3, 4]);
    assert_eq!(a.port, 8080);
    let p = PacketInfo::new(a, IPP::new([5, 6, 7, 8], 443));
    assert_eq!(p.src.ip, [1, 2, 3, 4]);
    assert_eq!(p.dst.port, 443);
}
