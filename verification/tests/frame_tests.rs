use enclave_net::frame::ExternalRequest;

#[test]
fn frame_round_trip() {
    let ip = b"1.2.3.4".to_vec();
    let data = vec![0x16u8, 0x03, 0x01, 0x00, 0xff, 0x00];
    let frame = ExternalRequest { ip: ip.clone(), data: data.clone() }.to_bytes();
    let (decoded, used) = ExternalRequest::from_bytes(&frame).expect("frame should decode");
    assert_eq!(decoded.ip, ip);
    assert_eq!(decoded.data, data);
    assert_eq!(used, frame.len());
}

#[test]
fn frame_round_trip_empty_fields() {
    let frame = ExternalRequest { ip: Vec::new(), data: Vec::new() }.to_bytes();
    let (decoded, used) = ExternalRequest::from_bytes(&frame).expect("frame should decode");
    assert!(decoded.ip.is_empty());
    assert!(decoded.data.is_empty());
    assert_eq!(used, frame.len());
    assert_eq!(frame.len(), 8);
}

#[test]
fn frame_decode_ignores_trailing_bytes() {
    let ip = b"10.0.0.1".to_vec();
    let data = b"hello".to_vec();
    let mut buf = ExternalRequest { ip: ip.clone(), data: data.clone() }.to_bytes();
    let frame_len = buf.len();
    buf.extend_from_slice(b"trailing customer bytes");
    let (decoded, used) = ExternalRequest::from_bytes(&buf).expect("frame should decode");
    assert_eq!(decoded.ip, ip);
    assert_eq!(decoded.data, data);
    assert_eq!(used, frame_len);
}

#[test]
fn frame_decode_rejects_truncated_buffer() {
    let frame = ExternalRequest { ip: b"1.2.3.4".to_vec(), data: b"payload".to_vec() }.to_bytes();
    for cut in 0..frame.len() {
        assert!(ExternalRequest::from_bytes(&frame[..cut]).is_none());
    }
}
