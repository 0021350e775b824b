//! The ways in which a login attempt fails.

use vstd::prelude::*;
use vstd::string::StringExecFns;
use crate::text::{decimal, push_decimal};

verus! {

/// What could not be parsed.
#[derive(Clone, Copy, Debug, PartialEq, Eq, Structural)]
pub enum ParseSubject {
    /// The authorization server's metadata document.
    Metadata,
    /// The answer to a client registration.
    Registration,
    /// The answer to a token exchange.
    Token,
    /// The authorization endpoint, which is no absolute URL.
    AuthorizationEndpoint,
}

/// Why a login attempt failed. Every failure ends the attempt.
#[derive(Debug)]
pub enum LoginError {
    /// The metadata request was answered with a status outside 2xx.
    Discovery { status: u16, body: String },
    /// A document was malformed or incomplete.
    Parse(ParseSubject),
    /// No client id is cached and the server offers no registration.
    RegistrationUnsupported,
    /// The registration request was answered with a status outside 2xx.
    Registration { status: u16, body: String },
    /// No loopback port could be had.
    Bind,
    /// The operating system supplied no random bytes for the secrets.
    RandomSource,
    /// The authorization URL would be longer than a URL can be.
    UrlTooLong,
    /// No valid callback arrived in time.
    Timeout,
    /// The listener could not accept a connection.
    ListenerFailed,
    /// The token request was answered with a status outside 2xx.
    TokenExchange { status: u16, body: String },
    /// The token is of another type than bearer.
    UnexpectedTokenType { token_type: String },
}

/// A [`LoginError`] with its strings as sequences of characters.
pub enum LoginErrorView {
    Discovery { status: u16, body: Seq<char> },
    Parse(ParseSubject),
    RegistrationUnsupported,
    Registration { status: u16, body: Seq<char> },
    Bind,
    RandomSource,
    UrlTooLong,
    Timeout,
    ListenerFailed,
    TokenExchange { status: u16, body: Seq<char> },
    UnexpectedTokenType { token_type: Seq<char> },
}

impl View for LoginError {
    type V = LoginErrorView;

    open spec fn view(&self) -> LoginErrorView {
        match self {
            LoginError::Discovery { status, body } => LoginErrorView::Discovery {
                status: *status,
                body: body@,
            },
            LoginError::Parse(subject) => LoginErrorView::Parse(*subject),
            LoginError::RegistrationUnsupported => LoginErrorView::RegistrationUnsupported,
            LoginError::Registration { status, body } => LoginErrorView::Registration {
                status: *status,
                body: body@,
            },
            LoginError::Bind => LoginErrorView::Bind,
            LoginError::RandomSource => LoginErrorView::RandomSource,
            LoginError::UrlTooLong => LoginErrorView::UrlTooLong,
            LoginError::Timeout => LoginErrorView::Timeout,
            LoginError::ListenerFailed => LoginErrorView::ListenerFailed,
            LoginError::TokenExchange { status, body } => LoginErrorView::TokenExchange {
                status: *status,
                body: body@,
            },
            LoginError::UnexpectedTokenType { token_type } => LoginErrorView::UnexpectedTokenType {
                token_type: token_type@,
            },
        }
    }
}

/// The message for a request that was answered with `status` and `body`.
pub open spec fn http_failure_text(what: Seq<char>, status: u16, body: Seq<char>) -> Seq<char> {
    what + " (HTTP "@ + decimal(status as nat) + "): "@ + body
}

/// The one message that describes `error`.
pub open spec fn message_text(error: LoginErrorView) -> Seq<char> {
    match error {
        LoginErrorView::Discovery { status, body } => http_failure_text(
            "oauth metadata request failed"@,
            status,
            body,
        ),
        LoginErrorView::Parse(ParseSubject::Metadata) => "parse oauth metadata json"@,
        LoginErrorView::Parse(ParseSubject::Registration) => "parse register response json"@,
        LoginErrorView::Parse(ParseSubject::Token) => "parse token response json"@,
        LoginErrorView::Parse(ParseSubject::AuthorizationEndpoint) => "parse authorization_endpoint"@,
        LoginErrorView::RegistrationUnsupported => "oauth server does not expose a registration_endpoint"@,
        LoginErrorView::Registration { status, body } => http_failure_text(
            "client registration failed"@,
            status,
            body,
        ),
        LoginErrorView::Bind => "bind loopback callback server"@,
        LoginErrorView::RandomSource => "draw random bytes for the login secrets"@,
        LoginErrorView::UrlTooLong => "authorization url is too long"@,
        LoginErrorView::Timeout => "timeout waiting for oauth callback"@,
        LoginErrorView::ListenerFailed => "failed to accept callback connection"@,
        LoginErrorView::TokenExchange { status, body } => http_failure_text(
            "token exchange failed"@,
            status,
            body,
        ),
        LoginErrorView::UnexpectedTokenType { token_type } => "unexpected token_type '"@
            + token_type + "' (expected Bearer)"@,
    }
}

/// Writes the message for a request that was answered with `status` and
/// `body`.
fn http_failure(what: &str, status: u16, body: &str) -> (out: String)
    ensures
        out@ == http_failure_text(what@, status, body@),
{
    let mut out = String::from_str(what);
    out.append(" (HTTP ");
    push_decimal(&mut out, status as u64);
    out.append("): ");
    out.append(body);
    out
}

impl LoginError {
    /// The message to show for this failure.
    pub fn message(&self) -> (out: String)
        ensures
            out@ == message_text(self@),
    {
        match self {
            LoginError::Discovery { status, body } => http_failure(
                "oauth metadata request failed",
                *status,
                body.as_str(),
            ),
            LoginError::Parse(ParseSubject::Metadata) => String::from_str(
                "parse oauth metadata json",
            ),
            LoginError::Parse(ParseSubject::Registration) => String::from_str(
                "parse register response json",
            ),
            LoginError::Parse(ParseSubject::Token) => String::from_str(
                "parse token response json",
            ),
            LoginError::Parse(ParseSubject::AuthorizationEndpoint) => String::from_str(
                "parse authorization_endpoint",
            ),
            LoginError::RegistrationUnsupported => String::from_str(
                "oauth server does not expose a registration_endpoint",
            ),
            LoginError::Registration { status, body } => http_failure(
                "client registration failed",
                *status,
                body.as_str(),
            ),
            LoginError::Bind => String::from_str("bind loopback callback server"),
            LoginError::RandomSource => String::from_str(
                "draw random bytes for the login secrets",
            ),
            LoginError::UrlTooLong => String::from_str("authorization url is too long"),
            LoginError::Timeout => String::from_str("timeout waiting for oauth callback"),
            LoginError::ListenerFailed => String::from_str(
                "failed to accept callback connection",
            ),
            LoginError::TokenExchange { status, body } => http_failure(
                "token exchange failed",
                *status,
                body.as_str(),
            ),
            LoginError::UnexpectedTokenType { token_type } => {
                let mut out = String::from_str("unexpected token_type '");
                out.append(token_type.as_str());
                out.append("' (expected Bearer)");
                out
            },
        }
    }
}

} // verus!
