use enclave_net::dns_cache::DnsCache;
use enclave_net::egress::{
    egress_step, DnsError, EgressAction, EgressEvent, EgressState,
};
use enclave_net::frame::ExternalRequest;

/// A minimal TLS 1.2 ClientHello record, with one SNI entry or none.
fn client_hello(sni: Option<&[u8]>) -> Vec<u8> {
    let mut exts: Vec<u8> = Vec::new();
    if let Some(name) = sni {
        let mut list: Vec<u8> = Vec::new();
        list.push(0x00);
        list.extend_from_slice(&(name.len() as u16).to_be_bytes());
        list.extend_from_slice(name);
        let ext_len = (2 + list.len()) as u16;
        exts.extend_from_slice(&[0x00, 0x00]);
        exts.extend_from_slice(&ext_len.to_be_bytes());
        exts.extend_from_slice(&(list.len() as u16).to_be_bytes());
        exts.extend_from_slice(&list);
    }
    let mut body: Vec<u8> = Vec::new();
    body.extend_from_slice(&[0x03, 0x03]);
    body.extend_from_slice(&[0u8; 32]);
    body.push(0x00);
    body.extend_from_slice(&[0x00, 0x02, 0x00, 0x2f]);
    body.extend_from_slice(&[0x01, 0x00]);
    body.extend_from_slice(&(exts.len() as u16).to_be_bytes());
    body.extend_from_slice(&exts);
    let mut handshake: Vec<u8> = Vec::new();
    handshake.push(0x01);
    let l = body.len();
    handshake.extend_from_slice(&[(l >> 16) as u8, (l >> 8) as u8, l as u8]);
    handshake.extend_from_slice(&body);
    let mut record: Vec<u8> = Vec::new();
    record.push(0x16);
    record.extend_from_slice(&[0x03, 0x01]);
    record.extend_from_slice(&(handshake.len() as u16).to_be_bytes());
    record.extend_from_slice(&handshake);
    record
}

#[test]
fn egress_allowed_sends_one_frame_then_splices() {
    let mut cache = DnsCache::new();
    cache.insert(b"example.com".to_vec(), vec![b"1.2.3.4".to_vec()]);
    let hello = client_hello(Some(b"example.com"));

    let (s, a) = egress_step(EgressState::Accepted, EgressEvent::Start, &cache);
    assert!(matches!(a, EgressAction::ReadCustomer));
    let (s, a) = egress_step(s, EgressEvent::Data { bytes: hello.clone() }, &cache);
    assert!(matches!(a, EgressAction::Authorize));
    let (s, a) = egress_step(s, EgressEvent::Authorize, &cache);
    assert!(matches!(a, EgressAction::Dial));
    let (s, a) = egress_step(s, EgressEvent::DialSucceeded, &cache);
    let frame = match a {
        EgressAction::SendFrame { frame } => frame,
        _ => panic!("expected the frame to be sent after the dial"),
    };
    // The single frame decodes to the chosen cached IP and the captured bytes.
    let (request, used) = ExternalRequest::from_bytes(&frame).expect("frame should decode");
    assert_eq!(request.ip, b"1.2.3.4".to_vec());
    assert_eq!(request.data, hello);
    assert_eq!(used, frame.len());
    let (s, a) = egress_step(s, EgressEvent::FrameSent, &cache);
    assert!(matches!(a, EgressAction::Splice));
    assert!(matches!(s, EgressState::Splicing { .. }));
    let (s, a) = egress_step(s, EgressEvent::SpliceFinished, &cache);
    assert!(matches!(a, EgressAction::Close));
    assert!(matches!(s, EgressState::Closed { error: None }));
}

#[test]
fn egress_cache_miss_is_denied_before_any_frame() {
    let cache = DnsCache::new();
    let hello = client_hello(Some(b"absent.com"));
    let (s, _) = egress_step(EgressState::Accepted, EgressEvent::Start, &cache);
    let (s, a) = egress_step(s, EgressEvent::Data { bytes: hello }, &cache);
    assert!(matches!(a, EgressAction::Authorize));
    let (s, a) = egress_step(s, EgressEvent::Authorize, &cache);
    assert!(matches!(a, EgressAction::Close));
    match s {
        EgressState::Closed { error: Some(DnsError::MissingIp(host)) } => {
            assert_eq!(host, b"absent.com".to_vec());
        },
        _ => panic!("expected the connection closed with MissingIp"),
    }
}

#[test]
fn egress_without_sni_is_closed_with_no_hostname_found() {
    let cache = DnsCache::new();
    let hello = client_hello(None);
    let (s, _) = egress_step(EgressState::Accepted, EgressEvent::Start, &cache);
    let (s, a) = egress_step(s, EgressEvent::Data { bytes: hello }, &cache);
    assert!(matches!(a, EgressAction::Close));
    assert!(matches!(
        s,
        EgressState::Closed { error: Some(DnsError::NoHostnameFound) }
    ));
}

#[test]
fn egress_non_client_hello_record_is_rejected() {
    let cache = DnsCache::new();
    // A ChangeCipherSpec record: a valid TLS record that is no ClientHello.
    let not_hello = vec![0x14u8, 0x03, 0x01, 0x00, 0x01, 0x01];
    let (s, _) = egress_step(EgressState::Accepted, EgressEvent::Start, &cache);
    let (s, a) = egress_step(s, EgressEvent::Data { bytes: not_hello }, &cache);
    assert!(matches!(a, EgressAction::Close));
    assert!(matches!(
        s,
        EgressState::Closed { error: Some(DnsError::NoHostnameFound) }
    ));
}

#[test]
fn egress_chosen_ip_comes_from_the_answer_set() {
    let mut cache = DnsCache::new();
    let answers = vec![b"1.1.1.1".to_vec(), b"2.2.2.2".to_vec(), b"3.3.3.3".to_vec()];
    cache.insert(b"example.com".to_vec(), answers.clone());
    let hello = client_hello(Some(b"example.com"));
    for _ in 0..16 {
        let (s, _) = egress_step(EgressState::Accepted, EgressEvent::Start, &cache);
        let (s, _) = egress_step(s, EgressEvent::Data { bytes: hello.clone() }, &cache);
        let (s, _) = egress_step(s, EgressEvent::Authorize, &cache);
        match s {
            EgressState::Authorized { ip, .. } => assert!(answers.contains(&ip)),
            _ => panic!("expected the connection authorized"),
        }
    }
}

#[test]
fn egress_dial_failure_closes_the_connection() {
    let mut cache = DnsCache::new();
    cache.insert(b"example.com".to_vec(), vec![b"1.2.3.4".to_vec()]);
    let hello = client_hello(Some(b"example.com"));
    let (s, _) = egress_step(EgressState::Accepted, EgressEvent::Start, &cache);
    let (s, _) = egress_step(s, EgressEvent::Data { bytes: hello }, &cache);
    let (s, _) = egress_step(s, EgressEvent::Authorize, &cache);
    let (s, a) = egress_step(s, EgressEvent::DialFailed, &cache);
    assert!(matches!(a, EgressAction::Close));
    assert!(matches!(
        s,
        EgressState::Closed { error: Some(DnsError::Transport) }
    ));
}
