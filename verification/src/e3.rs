//! The protocol side of the E3 client: the request body every call carries,
//! the request URI, and the reading of response statuses. The TLS transport
//! itself (socket, handshake, HTTP exchange) lives outside the library.

use crate::context::CageContext;
use crate::json::{
    escape_json_bytes, extract_data_field, json_data_field, json_escape, lemma_escape_identity,
    plain_json_bytes,
};
use vstd::prelude::*;
use vstd::string::StringExecFns;
use vstd::utf8::encode_utf8;

verus! {

/// What can go wrong on an E3 exchange.
#[derive(Debug)]
pub enum E3Error {
    /// Dial, TLS or HTTP failure on the way to E3.
    Transport,
    /// E3 answered with a non-success status.
    FailedRequest(u16),
    /// E3's response body was not the expected JSON.
    SerdeError,
}

/// The payload of one E3 call: the customer's JSON value (already
/// canonically re-encoded), or nothing, wrapped with the tenant context.
pub struct E3Payload {
    pub data: Option<Vec<u8>>,
    pub context: CageContext,
}

/// The bytes of `{"data":`.
pub open spec fn body_head() -> Seq<u8> {
    seq![123u8, 34u8, 100u8, 97u8, 116u8, 97u8, 34u8, 58u8]
}

/// The bytes of `null`.
pub open spec fn null_bytes() -> Seq<u8> {
    seq![110u8, 117u8, 108u8, 108u8]
}

/// The bytes of `,"team_uuid":"`.
pub open spec fn body_team_key() -> Seq<u8> {
    seq![44u8, 34u8, 116u8, 101u8, 97u8, 109u8, 95u8, 117u8, 117u8, 105u8, 100u8, 34u8, 58u8, 34u8]
}

/// The bytes of `","app_uuid":"`.
pub open spec fn body_app_key() -> Seq<u8> {
    seq![34u8, 44u8, 34u8, 97u8, 112u8, 112u8, 95u8, 117u8, 117u8, 105u8, 100u8, 34u8, 58u8, 34u8]
}

/// The bytes of `"}`.
pub open spec fn body_tail() -> Seq<u8> {
    seq![34u8, 125u8]
}

/// The body of an E3 request:
/// `{"data":<data|null>,"team_uuid":"<team>","app_uuid":"<app>"}`,
/// with the two context fields JSON-escaped.
pub open spec fn spec_e3_body(data: Option<Seq<u8>>, team: Seq<u8>, app: Seq<u8>) -> Seq<u8> {
    body_head() + (match data {
        Some(d) => d,
        None => null_bytes(),
    }) + body_team_key() + json_escape(team) + body_app_key() + json_escape(app) + body_tail()
}

impl E3Payload {
    pub fn from_value(data: Vec<u8>, context: CageContext) -> (p: Self)
        ensures
            p.data == Some(data),
            p.context == context,
    {
        E3Payload { data: Some(data), context }
    }

    pub fn from_context(context: CageContext) -> (p: Self)
        ensures
            p.data is None,
            p.context == context,
    {
        E3Payload { data: None, context }
    }

    /// Serialize this payload as the E3 request body.
    pub fn to_body_bytes(&self) -> (out: Vec<u8>)
        ensures
            out@ == spec_e3_body(
                self.data.deep_view(),
                encode_utf8(self.context.team_uuid@),
                encode_utf8(self.context.app_uuid@),
            ),
    {
        let mut out: Vec<u8> = Vec::new();
        out.push(123);
        out.push(34);
        out.push(100);
        out.push(97);
        out.push(116);
        out.push(97);
        out.push(34);
        out.push(58);
        match &self.data {
            Some(d) => out.extend_from_slice(d.as_slice()),
            None => {
                out.push(110);
                out.push(117);
                out.push(108);
                out.push(108);
            },
        }
        out.push(44);
        out.push(34);
        out.push(116);
        out.push(101);
        out.push(97);
        out.push(109);
        out.push(95);
        out.push(117);
        out.push(117);
        out.push(105);
        out.push(100);
        out.push(34);
        out.push(58);
        out.push(34);
        let mut team = escape_json_bytes(self.context.team_uuid.as_str().as_bytes());
        out.append(&mut team);
        out.push(34);
        out.push(44);
        out.push(34);
        out.push(97);
        out.push(112);
        out.push(112);
        out.push(95);
        out.push(117);
        out.push(117);
        out.push(105);
        out.push(100);
        out.push(34);
        out.push(58);
        out.push(34);
        let mut app = escape_json_bytes(self.context.app_uuid.as_str().as_bytes());
        out.append(&mut app);
        out.push(34);
        out.push(125);
        proof {
            assert(out@ =~= spec_e3_body(
                self.data.deep_view(),
                encode_utf8(self.context.team_uuid@),
                encode_utf8(self.context.app_uuid@),
            ));
        }
        out
    }
}

/// Law: the E3 request body carries exactly the tenant context's team and app
/// UUIDs, whatever the `data` payload: the body is the fixed frame around the
/// payload and the two context fields, and on plain strings (no quote,
/// backslash or control byte; every UUID is such a string) the fields appear
/// verbatim.
pub proof fn lemma_body_carries_context(data: Option<Seq<u8>>, team: Seq<u8>, app: Seq<u8>)
    requires
        plain_json_bytes(team),
        plain_json_bytes(app),
    ensures
        spec_e3_body(data, team, app) == body_head() + (match data {
            Some(d) => d,
            None => null_bytes(),
        }) + body_team_key() + team + body_app_key() + app + body_tail(),
{
    lemma_escape_identity(team);
    lemma_escape_identity(app);
}

/// The request URI of an E3 call: the fixed scheme and host, then the path.
pub fn e3_uri(path: &str) -> (r: String)
    ensures
        r@ == "https://e3.cages-e3.internal"@ + path@,
{
    let mut out = "https://e3.cages-e3.internal".to_owned();
    out.append(path);
    out
}

/// E3 reports success with a 2xx status.
pub open spec fn spec_is_success(status: u16) -> bool {
    200 <= status < 300
}

pub fn is_success_status(status: u16) -> (r: bool)
    ensures
        r == spec_is_success(status),
{
    200 <= status && status < 300
}

/// Read an E3 response body: the `data` field of the JSON document it holds,
/// re-encoded; `SerdeError` when the body is no such document.
pub fn parse_response(body: &Vec<u8>) -> (r: Result<Vec<u8>, E3Error>)
    ensures
        match r {
            Ok(data) => json_data_field(body@) == Some(data@),
            Err(e) => json_data_field(body@) is None && e is SerdeError,
        },
{
    match extract_data_field(body) {
        Some(data) => Ok(data),
        None => Err(E3Error::SerdeError),
    }
}

/// Read an E3 response status: 2xx proceeds to the body, anything else
/// surfaces as `FailedRequest` with that status.
pub fn check_e3_status(status: u16) -> (r: Result<(), E3Error>)
    ensures
        match r {
            Ok(_) => spec_is_success(status),
            Err(e) => !spec_is_success(status) && e == E3Error::FailedRequest(status),
        },
{
    if is_success_status(status) {
        Ok(())
    } else {
        Err(E3Error::FailedRequest(status))
    }
}

} // verus!
