use enclave_net::ingress::{ingress_step, IngressAction, IngressEvent, IngressState};

#[test]
fn ingress_happy_path_dials_then_splices() {
    // The bridge's whole life for one connection: accept, dial the enclave's
    // guest port, splice until done. No step ever sees payload bytes.
    let (s, a) = ingress_step(IngressState::Accepted, IngressEvent::Start);
    assert!(matches!(a, IngressAction::DialEnclave));
    let (s, a) = ingress_step(s, IngressEvent::DialSucceeded);
    assert!(matches!(a, IngressAction::Splice));
    assert!(matches!(s, IngressState::Splicing));
    let (s, a) = ingress_step(s, IngressEvent::SpliceFinished);
    assert!(matches!(a, IngressAction::Close));
    assert!(matches!(s, IngressState::Closed { failed: false }));
}

#[test]
fn ingress_dial_failure_shuts_the_customer_side_down() {
    let (s, _) = ingress_step(IngressState::Accepted, IngressEvent::Start);
    let (s, a) = ingress_step(s, IngressEvent::DialFailed);
    assert!(matches!(a, IngressAction::ShutdownCustomer));
    assert!(matches!(s, IngressState::Closed { failed: true }));
}

#[test]
fn ingress_splice_failure_closes_as_failed() {
    let (s, _) = ingress_step(IngressState::Accepted, IngressEvent::Start);
    let (s, _) = ingress_step(s, IngressEvent::DialSucceeded);
    let (s, a) = ingress_step(s, IngressEvent::SpliceFailed);
    assert!(matches!(a, IngressAction::Close));
    assert!(matches!(s, IngressState::Closed { failed: true }));
}
