//! Trust-boundary network mediation for enclave workloads: an egress broker
//! that authorizes outbound TLS by parsed SNI against a DNS answer cache, the
//! framed channel to the host-side forwarder, and the in-enclave crypto API
//! that proxies encrypt / decrypt / attestation calls to the E3 service.

pub mod configuration;
pub mod frame;
pub mod util;
pub mod dns_cache;
pub mod sni;
pub mod egress;
pub mod context;
pub mod json;
pub mod e3;
pub mod crypto_api;
pub mod config_server;
pub mod ingress;
