//! The payloads exchanged with the host-side configuration server: the
//! certificate-token and certificate requests, the provisioner's response,
//! and the transaction-log batch, with the two request paths they travel on.

use crate::util::slice_eq;
use vstd::prelude::*;
use vstd::string::StringSliceAdditionalSpecFns;

verus! {

/// The two routes of the configuration server.
pub enum ConfigServerPath {
    GetCertToken,
    PostTrxLogs,
}

impl ConfigServerPath {
    /// Parse a request path: `/cert/token` or `/trx/logs`; anything else is
    /// handed back as the invalid input.
    pub fn from_str(input: &str) -> (r: Result<ConfigServerPath, String>)
        ensures
            match r {
                Ok(ConfigServerPath::GetCertToken) => input.spec_bytes() == (
                "/cert/token").spec_bytes(),
                Ok(ConfigServerPath::PostTrxLogs) => input.spec_bytes() == (
                "/trx/logs").spec_bytes(),
                Err(e) => input.spec_bytes() != ("/cert/token").spec_bytes()
                    && input.spec_bytes() != ("/trx/logs").spec_bytes() && e@ == input@,
            },
    {
        if slice_eq(input.as_bytes(), "/cert/token".as_bytes()) {
            Ok(ConfigServerPath::GetCertToken)
        } else if slice_eq(input.as_bytes(), "/trx/logs".as_bytes()) {
            Ok(ConfigServerPath::PostTrxLogs)
        } else {
            Err(input.to_owned())
        }
    }

    /// The path this route stands for, as it appears on the wire.
    pub fn to_path_string(&self) -> (r: String)
        ensures
            self is GetCertToken ==> r@ == "/cert/token"@,
            self is PostTrxLogs ==> r@ == "/trx/logs"@,
    {
        match self {
            ConfigServerPath::GetCertToken => "/cert/token".to_owned(),
            ConfigServerPath::PostTrxLogs => "/trx/logs".to_owned(),
        }
    }
}

/// The request for a certificate token; it carries nothing.
pub struct GetCertTokenRequestDataPlane;

impl GetCertTokenRequestDataPlane {
    pub fn new() -> Self {
        GetCertTokenRequestDataPlane {  }
    }
}

/// The configuration server's answer to a token request.
pub struct GetCertTokenResponseDataPlane {
    token: String,
}

impl GetCertTokenResponseDataPlane {
    /// The token this response carries.
    pub closed spec fn spec_token(&self) -> Seq<char> {
        self.token@
    }

    pub fn new(token: String) -> (r: Self)
        ensures
            r.spec_token() == token@,
    {
        GetCertTokenResponseDataPlane { token }
    }

    pub fn token(&self) -> (r: String)
        ensures
            r@ == self.spec_token(),
    {
        self.token.clone()
    }
}

/// The certificate request the data plane sends to the provisioner, carrying
/// its attestation document.
pub struct GetCertRequestDataPlane {
    attestation_doc: String,
}

impl GetCertRequestDataPlane {
    /// The attestation document this request carries.
    pub closed spec fn spec_attestation_doc(&self) -> Seq<char> {
        self.attestation_doc@
    }

    pub fn new(attestation_doc: String) -> (r: Self)
        ensures
            r.spec_attestation_doc() == attestation_doc@,
    {
        GetCertRequestDataPlane { attestation_doc }
    }

    pub fn attestation_doc(&self) -> (r: String)
        ensures
            r@ == self.spec_attestation_doc(),
    {
        self.attestation_doc.clone()
    }
}

/// A named secret handed down by the provisioner.
pub struct Secret {
    pub name: String,
    pub secret: String,
}

/// The identity the provisioner binds the certificate to.
pub struct ProvisionerContext {
    pub cage_uuid: String,
    pub cage_name: String,
    pub team_uuid: String,
    pub app_uuid: String,
}

/// The provisioner's response: an intermediate certificate, its key pair,
/// optional secrets, and the bound identity. Stored once, read thereafter.
pub struct GetCertResponseDataPlane {
    pub intermediate_cert: String,
    pub key_pair: String,
    pub secrets: Option<Vec<Secret>>,
    pub context: ProvisionerContext,
}

impl GetCertResponseDataPlane {
    pub fn new(
        intermediate_cert: String,
        key_pair: String,
        secrets: Option<Vec<Secret>>,
        context: ProvisionerContext,
    ) -> (r: Self)
        ensures
            r.intermediate_cert@ == intermediate_cert@,
            r.key_pair@ == key_pair@,
            r.secrets == secrets,
            r.context == context,
    {
        GetCertResponseDataPlane { intermediate_cert, key_pair, secrets, context }
    }

    pub fn cert(&self) -> (r: String)
        ensures
            r@ == self.intermediate_cert@,
    {
        self.intermediate_cert.clone()
    }

    pub fn key_pair(&self) -> (r: String)
        ensures
            r@ == self.key_pair@,
    {
        self.key_pair.clone()
    }
}

/// The secrets response: like the certificate response, without the
/// certificate material.
pub struct GetSecretsResponseDataPlane {
    pub secrets: Vec<Secret>,
    pub context: ProvisionerContext,
}

/// One transaction record, opaque to this layer: it is batched and posted
/// upstream as it stands.
pub struct TrxContext {
    pub entry: String,
}

/// A batch of transaction records posted to `/trx/logs`.
pub struct PostTrxLogsRequest {
    trx_logs: Vec<TrxContext>,
}

impl PostTrxLogsRequest {
    /// The records this batch holds.
    pub closed spec fn spec_trx_logs(&self) -> Seq<TrxContext> {
        self.trx_logs@
    }

    pub fn new(trx_logs: Vec<TrxContext>) -> (r: Self)
        ensures
            r.spec_trx_logs() == trx_logs@,
    {
        PostTrxLogsRequest { trx_logs }
    }

    pub fn trx_logs(&self) -> (r: Vec<TrxContext>)
        ensures
            r@ == self.spec_trx_logs(),
    {
        let mut out: Vec<TrxContext> = Vec::new();
        let mut i: usize = 0;
        while i < self.trx_logs.len()
            invariant
                i <= self.trx_logs@.len(),
                out@ == self.trx_logs@.take(i as int),
            decreases self.trx_logs@.len() - i,
        {
            out.push(TrxContext { entry: self.trx_logs[i].entry.clone() });
            proof {
                assert(out@ =~= self.trx_logs@.take(i + 1));
            }
            i += 1;
        }
        proof {
            assert(self.trx_logs@.take(self.trx_logs@.len() as int) =~= self.trx_logs@);
        }
        out
    }
}

} // verus!
