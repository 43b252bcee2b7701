//! The crypto API facade: the loopback HTTP surface the in-enclave workload
//! calls. The routing and the building of the E3 call are decided here; the
//! HTTP listener and the E3 transport drive these decisions from outside the
//! library. A request without an `api-key` header is refused before anything
//! is sent toward E3.

use crate::context::CageContext;
use crate::e3::E3Payload;
use crate::json::{attestation_fields, json_canon, json_canonicalize, parse_attestation_fields};
use crate::util::slice_eq;
use vstd::prelude::*;
use vstd::string::StringSliceAdditionalSpecFns;

verus! {

/// What can go wrong while serving one facade request.
#[derive(Debug)]
pub enum CryptoApiError {
    /// The request carries no `api-key` header.
    MissingApiKey,
    /// The tenant context could not be resolved at startup.
    MissingCageContext,
    /// A request or response body was not the expected JSON.
    SerdeError,
    /// The E3 exchange failed.
    E3Error(crate::e3::E3Error),
    /// The platform attestation primitive failed.
    AttestationError,
}

/// An attestation document request: both fields optional, each handed to the
/// platform primitive as raw bytes.
pub struct AttestationRequest {
    pub nonce: Option<String>,
    pub challenge: Option<String>,
}

/// The facade's routing table.
pub enum ApiRoute {
    Encrypt,
    Decrypt,
    AttestationDoc,
    NotFound,
}

/// Where a method and path lead: POST `/encrypt`, POST `/decrypt`,
/// GET `/attestation-doc`, anything else is not found.
pub open spec fn spec_route(method: Seq<u8>, path: Seq<u8>) -> ApiRoute {
    if method == ("POST").spec_bytes() && path == ("/encrypt").spec_bytes() {
        ApiRoute::Encrypt
    } else if method == ("POST").spec_bytes() && path == ("/decrypt").spec_bytes() {
        ApiRoute::Decrypt
    } else if method == ("GET").spec_bytes() && path == ("/attestation-doc").spec_bytes() {
        ApiRoute::AttestationDoc
    } else {
        ApiRoute::NotFound
    }
}

/// Route one request by its method and path.
pub fn route_request(method: &str, path: &str) -> (r: ApiRoute)
    ensures
        r == spec_route(method.spec_bytes(), path.spec_bytes()),
{
    let m = method.as_bytes();
    let p = path.as_bytes();
    if slice_eq(m, "POST".as_bytes()) && slice_eq(p, "/encrypt".as_bytes()) {
        ApiRoute::Encrypt
    } else if slice_eq(m, "POST".as_bytes()) && slice_eq(p, "/decrypt".as_bytes()) {
        ApiRoute::Decrypt
    } else if slice_eq(m, "GET".as_bytes()) && slice_eq(p, "/attestation-doc".as_bytes()) {
        ApiRoute::AttestationDoc
    } else {
        ApiRoute::NotFound
    }
}

/// Build the E3 call for one facade request: take the `api-key` header value,
/// check the JSON body, and wrap it with the tenant context. The header is
/// carried verbatim; the body is re-encoded canonically.
pub fn build_request(api_key: Option<String>, body: &Vec<u8>, context: &CageContext) -> (r: Result<
    (String, E3Payload),
    CryptoApiError,
>)
    ensures
        match r {
            Ok((key, payload)) => {
                &&& api_key matches Some(k) && key@ == k@
                &&& json_canon(body@) matches Some(canon) && payload.data.deep_view() == Some(canon)
                &&& payload.context.team_uuid@ == context.team_uuid@
                &&& payload.context.app_uuid@ == context.app_uuid@
            },
            Err(e) => match e {
                CryptoApiError::MissingApiKey => api_key is None,
                CryptoApiError::SerdeError => api_key is Some && json_canon(body@) is None,
                _ => false,
            },
        },
{
    let key = match api_key {
        Some(k) => k,
        None => {
            return Err(CryptoApiError::MissingApiKey);
        },
    };
    let canon = match json_canonicalize(body) {
        Some(c) => c,
        None => {
            return Err(CryptoApiError::SerdeError);
        },
    };
    let context_copy = CageContext::new(
        context.team_uuid.clone(),
        context.app_uuid.clone(),
        context.cage_uuid.clone(),
        context.cage_name.clone(),
    );
    Ok((key, E3Payload::from_value(canon, context_copy)))
}

/// What the facade decides to do with one request.
pub enum ApiDecision {
    /// Forward to E3 on the encrypt or decrypt route, with the `api-key`
    /// carried verbatim and the wrapped payload.
    CallE3 { route: ApiRoute, api_key: String, payload: E3Payload },
    /// Answer the attestation document request locally.
    Attestation { request: AttestationRequest },
    /// 404.
    NotFound,
    /// Refuse the request with this error; E3 is not contacted.
    Fail { error: CryptoApiError },
}

/// Decide one facade request from its method, path, `api-key` header, body
/// and the tenant context. Nothing is forwarded to E3 unless the request
/// carries an `api-key` header and a JSON body.
pub fn api_decision(
    method: &str,
    path: &str,
    api_key: Option<String>,
    body: &Vec<u8>,
    context: &CageContext,
) -> (d: ApiDecision)
    ensures
        api_key is None ==> !(d is CallE3),
        ({
            let route = spec_route(method.spec_bytes(), path.spec_bytes());
            match route {
                ApiRoute::Encrypt | ApiRoute::Decrypt => match api_key {
                    None => d == (ApiDecision::Fail { error: CryptoApiError::MissingApiKey }),
                    Some(k) => match json_canon(body@) {
                        None => d == (ApiDecision::Fail { error: CryptoApiError::SerdeError }),
                        Some(canon) => d matches ApiDecision::CallE3 {
                            route: r2,
                            api_key: key,
                            payload,
                        } && {
                            &&& r2 == route
                            &&& key@ == k@
                            &&& payload.data.deep_view() == Some(canon)
                            &&& payload.context.team_uuid@ == context.team_uuid@
                            &&& payload.context.app_uuid@ == context.app_uuid@
                        },
                    },
                },
                ApiRoute::AttestationDoc => match attestation_fields(body@) {
                    None => d == (ApiDecision::Fail { error: CryptoApiError::SerdeError }),
                    Some(f) => d matches ApiDecision::Attestation { request } && {
                        &&& request.nonce.deep_view() == f.0
                        &&& request.challenge.deep_view() == f.1
                    },
                },
                ApiRoute::NotFound => d is NotFound,
            }
        }),
{
    match route_request(method, path) {
        ApiRoute::Encrypt => match build_request(api_key, body, context) {
            Ok((key, payload)) => ApiDecision::CallE3 {
                route: ApiRoute::Encrypt,
                api_key: key,
                payload,
            },
            Err(error) => ApiDecision::Fail { error },
        },
        ApiRoute::Decrypt => match build_request(api_key, body, context) {
            Ok((key, payload)) => ApiDecision::CallE3 {
                route: ApiRoute::Decrypt,
                api_key: key,
                payload,
            },
            Err(error) => ApiDecision::Fail { error },
        },
        ApiRoute::AttestationDoc => match parse_attestation_fields(body) {
            Some((nonce, challenge)) => ApiDecision::Attestation {
                request: AttestationRequest { nonce, challenge },
            },
            None => ApiDecision::Fail { error: CryptoApiError::SerdeError },
        },
        ApiRoute::NotFound => ApiDecision::NotFound,
    }
}

} // verus!
