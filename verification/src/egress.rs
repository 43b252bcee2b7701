//! The egress broker: per accepted connection it reads one buffer from the
//! customer stream, parses the SNI hostname out of the ClientHello, authorizes
//! the destination against the DNS cache, picks one cached IP at random, sends
//! a single `ExternalRequest` frame to the host forwarder and then splices.
//!
//! The decisions are a verified step function over an explicit per-connection
//! state machine (`Accepted -> Peeking -> Parsed -> Authorized -> Dialed ->
//! Splicing -> Closed`, where every state may step to `Closed`); the listener
//! loop that performs the reads, dials, writes and the splice drives it from
//! outside, feeding back one event per action.

use crate::dns_cache::DnsCache;
use crate::frame::{spec_frame, ExternalRequest};
use crate::sni::{extract_sni_hostname, spec_hostname};
use vstd::prelude::*;
use vstd::slice::slice_to_vec;

verus! {

/// What can go wrong while brokering one egress connection.
#[derive(Debug)]
pub enum DnsError {
    /// The captured buffer did not parse as a TLS plaintext record, or its
    /// extensions block did not parse.
    TlsParseError(String),
    /// The record yields no usable hostname: not a ClientHello, no SNI
    /// extension, or an empty name.
    NoHostnameFound,
    /// The hostname was never resolved through the DNS forwarder, so egress
    /// to it is denied.
    MissingIp(Vec<u8>),
    /// An I/O failure on either leg of the connection.
    Transport,
}

/// The per-connection state of the egress broker.
pub enum EgressState {
    /// The connection was accepted; nothing read yet.
    Accepted,
    /// Waiting for the first read of the customer stream.
    Peeking,
    /// The SNI hostname was parsed out of the captured buffer.
    Parsed { hostname: Vec<u8>, data: Vec<u8> },
    /// The destination was authorized: `ip` is one of the cached answers for
    /// `hostname`.
    Authorized { hostname: Vec<u8>, ip: Vec<u8>, data: Vec<u8> },
    /// The channel to the host forwarder is open; the frame is being sent.
    Dialed { hostname: Vec<u8>, ip: Vec<u8> },
    /// The frame is out; the broker is a transparent byte pipe now.
    Splicing { hostname: Vec<u8>, ip: Vec<u8> },
    /// The connection is finished, normally (`None`) or with an error.
    Closed { error: Option<DnsError> },
}

/// What the listener loop reports back to the state machine.
pub enum EgressEvent {
    /// The connection was handed to the broker.
    Start,
    /// One read of the customer stream completed with these bytes.
    Data { bytes: Vec<u8> },
    /// Proceed from a parsed hostname to authorization.
    Authorize,
    DialSucceeded,
    DialFailed,
    FrameSent,
    FrameSendFailed,
    SpliceFinished,
    SpliceFailed,
}

/// What the listener loop must do next.
pub enum EgressAction {
    /// Read once from the customer stream.
    ReadCustomer,
    /// Feed `Authorize` back in.
    Authorize,
    /// Open the channel to the host egress forwarder.
    Dial,
    /// Write exactly these bytes to the forwarder channel.
    SendFrame { frame: Vec<u8> },
    /// Copy bytes both ways until either side closes.
    Splice,
    /// Drop the connection.
    Close,
}

/// Shorthand for the uniform failure transition.
pub open spec fn closed_transport(s2: EgressState, a: EgressAction) -> bool {
    &&& s2 matches EgressState::Closed { error: Some(DnsError::Transport) }
    &&& a is Close
}

/// The transition relation of the egress state machine: `egress_step` on
/// state `s`, event `e` and cache `cache` may yield next state `s2` and
/// action `a`. The choice of IP among the cached answers is the one
/// nondeterministic step.
pub open spec fn egress_next(
    s: EgressState,
    e: EgressEvent,
    cache: DnsCache,
    s2: EgressState,
    a: EgressAction,
) -> bool {
    match (s, e) {
        (EgressState::Accepted, EgressEvent::Start) => s2 is Peeking && a is ReadCustomer,
        (EgressState::Peeking, EgressEvent::Data { bytes }) => match spec_hostname(bytes@) {
            Err(_) => {
                &&& s2 matches EgressState::Closed { error: Some(DnsError::TlsParseError(_)) }
                &&& a is Close
            },
            Ok(None) => {
                &&& s2 matches EgressState::Closed { error: Some(DnsError::NoHostnameFound) }
                &&& a is Close
            },
            Ok(Some(h)) => {
                &&& s2 matches EgressState::Parsed { hostname, data } && hostname@ == h && data@
                    == bytes@ && h.len() > 0
                &&& a is Authorize
            },
        },
        (EgressState::Parsed { hostname, data }, EgressEvent::Authorize) => match cache.lookup(
            hostname@,
        ) {
            None => {
                &&& s2 matches EgressState::Closed { error: Some(DnsError::MissingIp(mh)) } && mh@
                    == hostname@
                &&& a is Close
            },
            Some(ips) => {
                &&& s2 matches EgressState::Authorized { hostname: h2, ip, data: d2 } && h2@
                    == hostname@ && d2@ == data@ && ips.contains(ip@)
                &&& a is Dial
            },
        },
        (EgressState::Authorized { hostname, ip, data }, EgressEvent::DialSucceeded) => {
            if ip@.len() <= u32::MAX && data@.len() <= u32::MAX {
                &&& s2 matches EgressState::Dialed { hostname: h2, ip: ip2 } && h2@ == hostname@
                    && ip2@ == ip@
                &&& a matches EgressAction::SendFrame { frame } && frame@ == spec_frame(ip@, data@)
            } else {
                closed_transport(s2, a)
            }
        },
        (EgressState::Authorized { .. }, EgressEvent::DialFailed) => closed_transport(s2, a),
        (EgressState::Dialed { hostname, ip }, EgressEvent::FrameSent) => {
            &&& s2 matches EgressState::Splicing { hostname: h2, ip: ip2 } && h2@ == hostname@
                && ip2@ == ip@
            &&& a is Splice
        },
        (EgressState::Dialed { .. }, EgressEvent::FrameSendFailed) => closed_transport(s2, a),
        (EgressState::Splicing { .. }, EgressEvent::SpliceFinished) => {
            &&& s2 == (EgressState::Closed { error: None })
            &&& a is Close
        },
        (EgressState::Splicing { .. }, EgressEvent::SpliceFailed) => closed_transport(s2, a),
        _ => closed_transport(s2, a),
    }
}

/// Relies on `rand::Rng::gen_range` over `rand::thread_rng`: a uniformly
/// chosen index below `len`. Nothing is assumed of the choice beyond its
/// range.
#[verifier::external_body]
fn random_index(len: usize) -> (r: usize)
    requires
        len > 0,
    ensures
        r < len,
{
    rand::Rng::gen_range(&mut rand::thread_rng(), 0..len)
}

/// The egress broker. Its listener loop lives outside the library; the
/// parsing and the per-connection decisions are here.
pub struct EgressProxy;

impl EgressProxy {
    /// Parse the captured buffer as a TLS ClientHello and extract its SNI
    /// hostname. `Ok(None)` means no usable hostname; the connection is then
    /// rejected with `NoHostnameFound`.
    pub fn get_hostname(data: &Vec<u8>) -> (r: Result<Option<Vec<u8>>, DnsError>)
        ensures
            match r {
                Ok(Some(host)) => spec_hostname(data@) == Ok::<Option<Seq<u8>>, ()>(Some(host@))
                    && host@.len() > 0,
                Ok(None) => spec_hostname(data@) == Ok::<Option<Seq<u8>>, ()>(None),
                Err(e) => spec_hostname(data@) is Err && e is TlsParseError,
            },
    {
        match extract_sni_hostname(data) {
            Ok(host) => Ok(host),
            Err(message) => Err(DnsError::TlsParseError(message)),
        }
    }
}

/// One step of the egress connection's state machine: consume the current
/// state and the event the listener loop reports, and produce the next state
/// and the action the loop must perform. An event that does not fit the state
/// closes the connection.
pub fn egress_step(state: EgressState, event: EgressEvent, cache: &DnsCache) -> (r: (
    EgressState,
    EgressAction,
))
    ensures
        egress_next(state, event, *cache, r.0, r.1),
{
    match (state, event) {
        (EgressState::Accepted, EgressEvent::Start) => (
            EgressState::Peeking,
            EgressAction::ReadCustomer,
        ),
        (EgressState::Peeking, EgressEvent::Data { bytes }) => {
            match EgressProxy::get_hostname(&bytes) {
                Ok(Some(hostname)) => (
                    EgressState::Parsed { hostname, data: bytes },
                    EgressAction::Authorize,
                ),
                Ok(None) => (
                    EgressState::Closed { error: Some(DnsError::NoHostnameFound) },
                    EgressAction::Close,
                ),
                Err(e) => (EgressState::Closed { error: Some(e) }, EgressAction::Close),
            }
        },
        (EgressState::Parsed { hostname, data }, EgressEvent::Authorize) => {
            match cache.get_ip(&hostname) {
                Some(ips) => {
                    let k = random_index(ips.len());
                    let ip = slice_to_vec(ips[k].as_slice());
                    proof {
                        assert(ips.deep_view()[k as int] == ip@);
                        assert(ips.deep_view().contains(ip@));
                    }
                    (EgressState::Authorized { hostname, ip, data }, EgressAction::Dial)
                },
                None => (
                    EgressState::Closed { error: Some(DnsError::MissingIp(hostname)) },
                    EgressAction::Close,
                ),
            }
        },
        (EgressState::Authorized { hostname, ip, data }, EgressEvent::DialSucceeded) => {
            if ip.len() <= u32::MAX as usize && data.len() <= u32::MAX as usize {
                let ip_copy = slice_to_vec(ip.as_slice());
                let request = ExternalRequest { ip: ip_copy, data };
                let frame = request.to_bytes();
                (EgressState::Dialed { hostname, ip }, EgressAction::SendFrame { frame })
            } else {
                (
                    EgressState::Closed { error: Some(DnsError::Transport) },
                    EgressAction::Close,
                )
            }
        },
        (EgressState::Authorized { .. }, EgressEvent::DialFailed) => (
            EgressState::Closed { error: Some(DnsError::Transport) },
            EgressAction::Close,
        ),
        (EgressState::Dialed { hostname, ip }, EgressEvent::FrameSent) => (
            EgressState::Splicing { hostname, ip },
            EgressAction::Splice,
        ),
        (EgressState::Dialed { .. }, EgressEvent::FrameSendFailed) => (
            EgressState::Closed { error: Some(DnsError::Transport) },
            EgressAction::Close,
        ),
        (EgressState::Splicing { .. }, EgressEvent::SpliceFinished) => (
            EgressState::Closed { error: None },
            EgressAction::Close,
        ),
        (EgressState::Splicing { .. }, EgressEvent::SpliceFailed) => (
            EgressState::Closed { error: Some(DnsError::Transport) },
            EgressAction::Close,
        ),
        (_, _) => (
            EgressState::Closed { error: Some(DnsError::Transport) },
            EgressAction::Close,
        ),
    }
}

/// One observed transition of a connection's state machine, with the cache
/// the broker consulted at that step.
pub struct EgressStep {
    pub s: EgressState,
    pub e: EgressEvent,
    pub cache: DnsCache,
    pub s2: EgressState,
    pub a: EgressAction,
}

/// A run of one egress connection: it starts in `Accepted`, every step obeys
/// the transition relation, and consecutive steps chain.
pub open spec fn valid_trace(t: Seq<EgressStep>) -> bool {
    &&& t.len() > 0 ==> t[0].s is Accepted
    &&& forall|i: int|
        0 <= i < t.len() ==> egress_next(
            (#[trigger] t[i]).s,
            t[i].e,
            t[i].cache,
            t[i].s2,
            t[i].a,
        )
    &&& forall|i: int| 0 < i < t.len() ==> (#[trigger] t[i]).s == t[i - 1].s2
}

/// How far along its life a connection state is; transitions never go back.
pub open spec fn state_rank(s: EgressState) -> int {
    match s {
        EgressState::Accepted => 0,
        EgressState::Peeking => 1,
        EgressState::Parsed { .. } => 2,
        EgressState::Authorized { .. } => 3,
        EgressState::Dialed { .. } => 4,
        EgressState::Splicing { .. } => 5,
        EgressState::Closed { .. } => 6,
    }
}

/// A step never lowers the rank, and leaving `Authorized` always lands at
/// rank four or later.
proof fn lemma_step_rank(s: EgressState, e: EgressEvent, cache: DnsCache, s2: EgressState, a: EgressAction)
    requires
        egress_next(s, e, cache, s2, a),
    ensures
        state_rank(s2) >= state_rank(s),
        s is Authorized ==> state_rank(s2) >= 4,
{
}

/// Along a chained trace the rank of the reached states never decreases.
proof fn lemma_trace_rank(t: Seq<EgressStep>, i: int, j: int)
    requires
        valid_trace(t),
        0 <= i <= j < t.len(),
    ensures
        state_rank(t[j].s2) >= state_rank(t[i].s2),
    decreases j - i,
{
    if i < j {
        lemma_trace_rank(t, i, j - 1);
        lemma_step_rank(t[j].s, t[j].e, t[j].cache, t[j].s2, t[j].a);
    }
}

/// The frame-sending action happens exactly on the transition out of
/// `Authorized`, and the bytes sent are the encoding of the chosen IP and the
/// captured customer data.
pub proof fn lemma_frame_content(t: Seq<EgressStep>, i: int)
    requires
        valid_trace(t),
        0 <= i < t.len(),
        t[i].a is SendFrame,
    ensures
        t[i].s matches EgressState::Authorized { hostname, ip, data } && (t[i].a matches
            EgressAction::SendFrame { frame } && frame@ == spec_frame(ip@, data@)),
        t[i].s2 is Dialed,
{
}

/// Law: the single `ExternalRequest` frame is sent at most once per
/// connection; no trace performs the frame-sending action twice.
pub proof fn lemma_single_frame(t: Seq<EgressStep>, i: int, j: int)
    requires
        valid_trace(t),
        0 <= i < j < t.len(),
        t[i].a is SendFrame,
    ensures
        !(t[j].a is SendFrame),
{
    if t[j].a is SendFrame {
        lemma_frame_content(t, i);
        lemma_frame_content(t, j);
        lemma_trace_rank(t, i, j - 1);
        assert(t[j].s == t[j - 1].s2);
        assert(false);
    }
}

/// Law: no byte goes to the host forwarder before the frame. The only actions
/// that emit bytes toward the forwarder are `SendFrame` and `Splice`, and
/// every `Splice` is immediately preceded by the connection's `SendFrame`.
pub proof fn lemma_frame_precedes_splice(t: Seq<EgressStep>, i: int)
    requires
        valid_trace(t),
        0 <= i < t.len(),
        t[i].a is Splice,
    ensures
        i > 0,
        t[i - 1].a is SendFrame,
{
    assert(t[i].s is Dialed);
    assert(i > 0) by {
        if i == 0 {
            assert(t[0].s is Accepted);
        }
    }
    assert(t[i - 1].s2 is Dialed);
}

/// Which actions write bytes toward the host forwarder: the single frame and
/// the splice that tunnels the customer bytes after it. No other action
/// touches that channel.
pub open spec fn emits_to_forwarder(a: EgressAction) -> bool {
    a is SendFrame || a is Splice
}

/// Law: no byte reaches the host forwarder before the frame. On any run, an
/// action that emits bytes to the forwarder and has no earlier frame-sending
/// action is itself the frame-sending action.
pub proof fn lemma_no_bytes_before_frame(t: Seq<EgressStep>, i: int)
    requires
        valid_trace(t),
        0 <= i < t.len(),
        emits_to_forwarder(t[i].a),
        forall|j: int| 0 <= j < i ==> !((#[trigger] t[j].a) is SendFrame),
    ensures
        t[i].a is SendFrame,
{
    if t[i].a is Splice {
        lemma_frame_precedes_splice(t, i);
    }
}

/// What always holds of a state reached by the machine: a parsed or
/// authorized state carries exactly the hostname its captured buffer parses
/// to.
pub open spec fn state_inv(s: EgressState) -> bool {
    match s {
        EgressState::Parsed { hostname, data } => spec_hostname(data@) == Ok::<
            Option<Seq<u8>>,
            (),
        >(Some(hostname@)) && hostname@.len() > 0,
        EgressState::Authorized { hostname, ip, data } => spec_hostname(data@) == Ok::<
            Option<Seq<u8>>,
            (),
        >(Some(hostname@)),
        _ => true,
    }
}

proof fn lemma_next_preserves_inv(
    s: EgressState,
    e: EgressEvent,
    cache: DnsCache,
    s2: EgressState,
    a: EgressAction,
)
    requires
        egress_next(s, e, cache, s2, a),
        state_inv(s),
    ensures
        state_inv(s2),
{
}

/// Every state a valid trace reaches satisfies `state_inv`.
proof fn lemma_trace_inv(t: Seq<EgressStep>, i: int)
    requires
        valid_trace(t),
        0 <= i < t.len(),
    ensures
        state_inv(t[i].s),
        state_inv(t[i].s2),
    decreases i,
{
    if i > 0 {
        lemma_trace_inv(t, i - 1);
    }
    lemma_next_preserves_inv(t[i].s, t[i].e, t[i].cache, t[i].s2, t[i].a);
}

/// Law: every connection that reaches `Splicing` spliced toward an IP element
/// of the DNS cache's answer set for the SNI hostname parsed from that
/// connection's captured ClientHello, as the cache stood when the broker
/// authorized it.
pub proof fn lemma_splicing_ip_from_cache(t: Seq<EgressStep>, i: int)
    requires
        valid_trace(t),
        0 <= i < t.len(),
        t[i].s2 is Splicing,
    ensures
        i >= 2,
        t[i].s2 matches EgressState::Splicing { hostname, ip } ==> {
            &&& t[i - 2].s matches EgressState::Parsed { hostname: parsed_host, data } && parsed_host@
                == hostname@ && spec_hostname(data@) == Ok::<Option<Seq<u8>>, ()>(Some(hostname@))
            &&& t[i - 2].cache.lookup(hostname@) matches Some(ips) && ips.contains(ip@)
        },
{
    assert(t[i].s is Dialed);
    assert(i > 0) by {
        if i == 0 {
            assert(t[0].s is Accepted);
        }
    }
    assert(t[i - 1].s2 == t[i].s);
    assert(t[i - 1].s is Authorized);
    assert(i > 1) by {
        if i == 1 {
            assert(t[0].s is Accepted);
        }
    }
    assert(t[i - 2].s2 == t[i - 1].s);
    assert(t[i - 2].s is Parsed);
    lemma_trace_inv(t, i - 2);
}

} // verus!
