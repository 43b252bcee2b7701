//! The host ingress bridge: it accepts public TCP connections and splices
//! each to the enclave's guest port. The bridge is connection-oblivious — its
//! state machine carries no payload bytes at all, so customer data passes
//! through uninspected and unmodified; only the splicer's fixed buffers touch
//! it. Ingress is unconditional (the enclave's own TLS terminator
//! authorizes), in deliberate contrast to the allow-listed egress broker.

use vstd::prelude::*;

verus! {

/// The per-connection state of the ingress bridge.
pub enum IngressState {
    /// A customer connection was accepted.
    Accepted,
    /// Waiting for the dial to the enclave's guest port.
    Dialing,
    /// Bytes are being copied both ways.
    Splicing,
    /// The connection is finished; `failed` says whether an error ended it.
    Closed { failed: bool },
}

/// What the listener loop reports back.
pub enum IngressEvent {
    Start,
    DialSucceeded,
    DialFailed,
    SpliceFinished,
    SpliceFailed,
}

/// What the listener loop must do next.
pub enum IngressAction {
    /// Open the channel to the enclave's guest port.
    DialEnclave,
    /// Copy bytes both ways until either side closes.
    Splice,
    /// Shut the customer's write side down, then drop the connection.
    ShutdownCustomer,
    /// Drop the connection.
    Close,
}

/// The transition relation of the ingress bridge.
pub open spec fn ingress_next(
    s: IngressState,
    e: IngressEvent,
    s2: IngressState,
    a: IngressAction,
) -> bool {
    match (s, e) {
        (IngressState::Accepted, IngressEvent::Start) => s2 is Dialing && a is DialEnclave,
        (IngressState::Dialing, IngressEvent::DialSucceeded) => s2 is Splicing && a is Splice,
        (IngressState::Dialing, IngressEvent::DialFailed) => s2 == (IngressState::Closed {
            failed: true,
        }) && a is ShutdownCustomer,
        (IngressState::Splicing, IngressEvent::SpliceFinished) => s2 == (IngressState::Closed {
            failed: false,
        }) && a is Close,
        (IngressState::Splicing, IngressEvent::SpliceFailed) => s2 == (IngressState::Closed {
            failed: true,
        }) && a is Close,
        _ => s2 == (IngressState::Closed { failed: true }) && a is Close,
    }
}

/// One step of the ingress bridge's state machine. The bridge never splices
/// before the dial to the enclave succeeded, and a failed dial shuts the
/// customer's write side down, as the listener did.
pub fn ingress_step(state: IngressState, event: IngressEvent) -> (r: (IngressState, IngressAction))
    ensures
        ingress_next(state, event, r.0, r.1),
{
    match (state, event) {
        (IngressState::Accepted, IngressEvent::Start) => (
            IngressState::Dialing,
            IngressAction::DialEnclave,
        ),
        (IngressState::Dialing, IngressEvent::DialSucceeded) => (
            IngressState::Splicing,
            IngressAction::Splice,
        ),
        (IngressState::Dialing, IngressEvent::DialFailed) => (
            IngressState::Closed { failed: true },
            IngressAction::ShutdownCustomer,
        ),
        (IngressState::Splicing, IngressEvent::SpliceFinished) => (
            IngressState::Closed { failed: false },
            IngressAction::Close,
        ),
        (IngressState::Splicing, IngressEvent::SpliceFailed) => (
            IngressState::Closed { failed: true },
            IngressAction::Close,
        ),
        (_, _) => (IngressState::Closed { failed: true }, IngressAction::Close),
    }
}

} // verus!
