//! Which client a login runs as: a cached one, or one that is registered
//! first.

use vstd::prelude::*;
use vstd::string::StringExecFns;
use crate::discovery::OAuthMetadata;
use crate::error::{LoginError, LoginErrorView, ParseSubject};
use crate::reply::{check_status, is_success, parse_error, status_failure, Stage};

verus! {

/// The document that registers a client. No redirect URI is registered
/// ahead, since the port is chosen anew for each attempt.
#[derive(Debug)]
pub struct RegistrationRequest {
    pub client_name: String,
    pub redirect_uris: Vec<String>,
}

/// How the client id of an attempt is had.
#[derive(Debug)]
pub enum ClientPlan {
    /// This id is used as it is.
    Cached(String),
    /// A client is registered by sending `request` to `endpoint`.
    Register { endpoint: String, request: RegistrationRequest },
}

/// What was found in the answer to a registration.
#[derive(Debug)]
pub struct RegistrationFields {
    pub client_id: Option<String>,
}

/// The name under which this tool registers.
pub open spec fn client_name() -> Seq<char> {
    "pajama-cli"@
}

/// What the answer to a registration comes to. `parsed` is `None` where
/// the body is no JSON object.
pub open spec fn registration_outcome(
    status: u16,
    body: Seq<char>,
    parsed: Option<RegistrationFields>,
) -> Result<Seq<char>, LoginErrorView> {
    if !is_success(status) {
        Err(status_failure(Stage::Registration, status, body))
    } else {
        match parsed {
            Some(RegistrationFields { client_id: Some(id) }) => Ok(id@),
            _ => Err(LoginErrorView::Parse(ParseSubject::Registration)),
        }
    }
}

/// The document that registers a client under `name`.
pub fn registration_request(name: &str) -> (request: RegistrationRequest)
    ensures
        request.client_name@ == name@,
        request.redirect_uris@.len() == 0,
{
    RegistrationRequest { client_name: String::from_str(name), redirect_uris: Vec::new() }
}

/// Decides how the client id is had. A cached id is used unchanged.
/// Without one the server must offer a registration endpoint; where it
/// does not, the attempt fails before anything is sent.
pub fn resolve_client(meta: &OAuthMetadata, cached_client_id: Option<String>) -> (r: Result<
    ClientPlan,
    LoginError,
>)
    ensures
        match (cached_client_id, meta.registration_endpoint) {
            (Some(id), _) => r == Ok::<ClientPlan, LoginError>(ClientPlan::Cached(id)),
            (None, Some(endpoint)) => {
                &&& r matches Ok(ClientPlan::Register { endpoint: to, request })
                &&& to@ == endpoint@
                &&& request.client_name@ == client_name()
                &&& request.redirect_uris@.len() == 0
            },
            (None, None) => r matches Err(e) && e@ == LoginErrorView::RegistrationUnsupported,
        },
{
    match cached_client_id {
        Some(id) => Ok(ClientPlan::Cached(id)),
        None => match &meta.registration_endpoint {
            Some(endpoint) => Ok(
                ClientPlan::Register {
                    endpoint: endpoint.clone(),
                    request: registration_request("pajama-cli"),
                },
            ),
            None => Err(LoginError::RegistrationUnsupported),
        },
    }
}

/// Takes the client id out of the answer to a registration, or gives the
/// failure that the answer means.
pub fn registration_result(status: u16, body: String, parsed: Option<RegistrationFields>) -> (r:
    Result<String, LoginError>)
    ensures
        match registration_outcome(status, body@, parsed) {
            Ok(id) => r matches Ok(given) && given@ == id,
            Err(error) => r matches Err(e) && e@ == error,
        },
{
    match check_status(Stage::Registration, status, body) {
        Err(e) => Err(e),
        Ok(()) => match parsed {
            Some(RegistrationFields { client_id: Some(id) }) => Ok(id),
            _ => Err(parse_error(Stage::Registration)),
        },
    }
}

} // verus!
