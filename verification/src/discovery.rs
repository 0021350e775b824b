//! Discovery of the authorization server's endpoints.

use vstd::prelude::*;
use vstd::string::StringExecFns;
use crate::error::{LoginError, LoginErrorView, ParseSubject};
use crate::reply::{check_status, is_success, parse_error, status_failure, Stage};
use crate::text::{chars_of, scan_back, string_of, tail_run_len, CharClass};

verus! {

/// The endpoints of an authorization server. Both the authorization and
/// the token endpoint are always there.
#[derive(Debug)]
pub struct OAuthMetadata {
    pub issuer: Option<String>,
    pub authorization_endpoint: String,
    pub token_endpoint: String,
    pub registration_endpoint: Option<String>,
}

/// What was found in a metadata document, each field as far as it was
/// there.
#[derive(Debug)]
pub struct MetadataFields {
    pub issuer: Option<String>,
    pub authorization_endpoint: Option<String>,
    pub token_endpoint: Option<String>,
    pub registration_endpoint: Option<String>,
}

/// An [`OAuthMetadata`] with its strings as sequences of characters.
pub struct OAuthMetadataView {
    pub issuer: Option<Seq<char>>,
    pub authorization_endpoint: Seq<char>,
    pub token_endpoint: Seq<char>,
    pub registration_endpoint: Option<Seq<char>>,
}

impl View for OAuthMetadata {
    type V = OAuthMetadataView;

    open spec fn view(&self) -> OAuthMetadataView {
        OAuthMetadataView {
            issuer: self.issuer.deep_view(),
            authorization_endpoint: self.authorization_endpoint@,
            token_endpoint: self.token_endpoint@,
            registration_endpoint: self.registration_endpoint.deep_view(),
        }
    }
}

/// `base` without the slashes at its end.
pub open spec fn without_trailing_slashes(base: Seq<char>) -> Seq<char> {
    base.take(base.len() - tail_run_len(base, CharClass::Only('/')))
}

/// The address of the metadata document of the server at `base`.
pub open spec fn discovery_url_text(base: Seq<char>) -> Seq<char> {
    without_trailing_slashes(base) + "/.well-known/oauth-authorization-server"@
}

/// The metadata that a document with these fields gives, or `None` where
/// one of the two required endpoints is missing.
pub open spec fn complete_metadata(fields: MetadataFields) -> Option<OAuthMetadataView> {
    match (fields.authorization_endpoint, fields.token_endpoint) {
        (Some(authorization), Some(token)) => Some(
            OAuthMetadataView {
                issuer: fields.issuer.deep_view(),
                authorization_endpoint: authorization@,
                token_endpoint: token@,
                registration_endpoint: fields.registration_endpoint.deep_view(),
            },
        ),
        _ => None,
    }
}

/// What the answer to the metadata request comes to. `parsed` is `None`
/// where the body is no JSON object.
pub open spec fn discovery_outcome(
    status: u16,
    body: Seq<char>,
    parsed: Option<MetadataFields>,
) -> Result<OAuthMetadataView, LoginErrorView> {
    if !is_success(status) {
        Err(status_failure(Stage::Discovery, status, body))
    } else {
        match parsed {
            Some(fields) => match complete_metadata(fields) {
                Some(meta) => Ok(meta),
                None => Err(LoginErrorView::Parse(ParseSubject::Metadata)),
            },
            None => Err(LoginErrorView::Parse(ParseSubject::Metadata)),
        }
    }
}

/// The address to fetch the metadata of the server at `api_base_url` from.
pub fn discovery_url(api_base_url: &str) -> (url: String)
    ensures
        url@ == discovery_url_text(api_base_url@),
{
    let cs = chars_of(api_base_url);
    let end: usize = scan_back(&cs, 0, cs.len(), CharClass::Only('/'));
    proof {
        assert(cs@.subrange(0, cs.len() as int) == cs@);
        assert(cs@.subrange(0, end as int) == without_trailing_slashes(api_base_url@));
    }
    let mut url = string_of(&cs, 0, end);
    url.append("/.well-known/oauth-authorization-server");
    url
}

/// Makes the metadata of the answer to the metadata request, or the
/// failure that the answer means.
pub fn discovery_result(status: u16, body: String, parsed: Option<MetadataFields>) -> (r: Result<
    OAuthMetadata,
    LoginError,
>)
    ensures
        match discovery_outcome(status, body@, parsed) {
            Ok(meta) => r matches Ok(m) && m@ == meta,
            Err(error) => r matches Err(e) && e@ == error,
        },
{
    match check_status(Stage::Discovery, status, body) {
        Err(e) => Err(e),
        Ok(()) => match parsed {
            None => Err(parse_error(Stage::Discovery)),
            Some(fields) => match (fields.authorization_endpoint, fields.token_endpoint) {
                (Some(authorization_endpoint), Some(token_endpoint)) => Ok(
                    OAuthMetadata {
                        issuer: fields.issuer,
                        authorization_endpoint,
                        token_endpoint,
                        registration_endpoint: fields.registration_endpoint,
                    },
                ),
                _ => Err(parse_error(Stage::Discovery)),
            },
        },
    }
}

} // verus!
