//! The end of a login: what the answer to the token exchange comes to.

use vstd::prelude::*;
use vstd::string::StringExecFns;
use crate::error::{LoginError, LoginErrorView, ParseSubject};
use crate::reply::{check_status, is_success, parse_error, status_failure, Stage};
use crate::text::{chars_of, eq_ignoring_ascii_case, same_text_ignoring_ascii_case};

verus! {

/// What was found in the answer to a token exchange, each field as far as
/// it was there.
#[derive(Debug)]
pub struct TokenFields {
    pub access_token: Option<String>,
    pub token_type: Option<String>,
    pub expires_in: Option<u64>,
    pub scope: Option<String>,
}

/// What a login gives: the bearer token, and the client it was issued to.
#[derive(Debug)]
pub struct LoginResult {
    pub access_token: String,
    pub token_type: String,
    pub expires_in: Option<u64>,
    pub scope: Option<String>,
    pub client_id: String,
}

/// A [`LoginResult`] with its strings as sequences of characters.
pub struct LoginResultView {
    pub access_token: Seq<char>,
    pub token_type: Seq<char>,
    pub expires_in: Option<u64>,
    pub scope: Option<Seq<char>>,
    pub client_id: Seq<char>,
}

impl View for LoginResult {
    type V = LoginResultView;

    open spec fn view(&self) -> LoginResultView {
        LoginResultView {
            access_token: self.access_token@,
            token_type: self.token_type@,
            expires_in: self.expires_in,
            scope: self.scope.deep_view(),
            client_id: self.client_id@,
        }
    }
}

/// Whether `token_type` names the bearer type, in any mix of case.
pub open spec fn is_bearer(token_type: Seq<char>) -> bool {
    eq_ignoring_ascii_case(token_type, "bearer"@)
}

/// Whether `token` starts with the mark of this service's keys.
pub open spec fn has_key_prefix(token: Seq<char>) -> bool {
    token.len() >= 4 && token.take(4) == "gdm_"@
}

/// The warning for a token that does not look like one of this service's
/// keys.
pub open spec fn key_warning() -> Seq<char> {
    "[pajama] Warning: access_token does not look like a gdm_ API key. Continuing anyway."@
}

/// What the fields of a token answer come to for the client `client_id`.
/// The type is looked at first: an answer of another type is refused as
/// such, whatever else it holds or lacks.
pub open spec fn token_fields_outcome(fields: TokenFields, client_id: Seq<char>) -> Result<
    LoginResultView,
    LoginErrorView,
> {
    match fields.token_type {
        None => Err(LoginErrorView::Parse(ParseSubject::Token)),
        Some(token_type) => if !is_bearer(token_type@) {
            Err(LoginErrorView::UnexpectedTokenType { token_type: token_type@ })
        } else {
            match fields.access_token {
                None => Err(LoginErrorView::Parse(ParseSubject::Token)),
                Some(access_token) => Ok(
                    LoginResultView {
                        access_token: access_token@,
                        token_type: token_type@,
                        expires_in: fields.expires_in,
                        scope: fields.scope.deep_view(),
                        client_id,
                    },
                ),
            }
        },
    }
}

/// What the answer to the token exchange comes to. `parsed` is `None`
/// where the body is no JSON object.
pub open spec fn token_outcome(
    status: u16,
    body: Seq<char>,
    parsed: Option<TokenFields>,
    client_id: Seq<char>,
) -> Result<LoginResultView, LoginErrorView> {
    if !is_success(status) {
        Err(status_failure(Stage::TokenExchange, status, body))
    } else {
        match parsed {
            Some(fields) => token_fields_outcome(fields, client_id),
            None => Err(LoginErrorView::Parse(ParseSubject::Token)),
        }
    }
}

/// Whatever the answer, a login that succeeds gives a bearer token, and
/// gives it to the client that asked.
pub proof fn lemma_result_is_bearer(
    status: u16,
    body: Seq<char>,
    parsed: Option<TokenFields>,
    client_id: Seq<char>,
)
    ensures
        token_outcome(status, body, parsed, client_id) matches Ok(result) ==> is_bearer(
            result.token_type,
        ) && result.client_id == client_id && is_success(status),
{
}

/// Tests whether `token_type` names the bearer type.
pub fn token_type_is_bearer(token_type: &str) -> (r: bool)
    ensures
        r == is_bearer(token_type@),
{
    same_text_ignoring_ascii_case(token_type, "bearer")
}

/// Tests whether `token` looks like one of this service's keys. A token
/// that does not is still accepted; the caller may warn.
pub fn looks_like_api_key(token: &str) -> (r: bool)
    ensures
        r == has_key_prefix(token@),
{
    let cs = chars_of(token);
    proof {
        reveal_strlit("gdm_");
    }
    if cs.len() < 4 {
        return false;
    }
    let r: bool = cs[0] == 'g' && cs[1] == 'd' && cs[2] == 'm' && cs[3] == '_';
    proof {
        let head = token@.take(4);
        if r {
            assert(head =~= "gdm_"@);
        } else {
            assert(head[0] == cs@[0] && head[1] == cs@[1] && head[2] == cs@[2] && head[3] == cs@[3]);
        }
    }
    r
}

/// The warning to show for `token`, if any. The login succeeds either way.
pub fn token_warning(token: &str) -> (warning: Option<String>)
    ensures
        warning.deep_view() == if has_key_prefix(token@) {
            None
        } else {
            Some(key_warning())
        },
{
    if looks_like_api_key(token) {
        None
    } else {
        Some(
            String::from_str(
                "[pajama] Warning: access_token does not look like a gdm_ API key. Continuing anyway.",
            ),
        )
    }
}

/// Makes the result of the login from the fields of a token answer.
pub fn token_fields_result(fields: TokenFields, client_id: String) -> (r: Result<
    LoginResult,
    LoginError,
>)
    ensures
        match token_fields_outcome(fields, client_id@) {
            Ok(result) => r matches Ok(given) && given@ == result,
            Err(error) => r matches Err(e) && e@ == error,
        },
{
    match fields.token_type {
        None => Err(parse_error(Stage::TokenExchange)),
        Some(token_type) => if !token_type_is_bearer(token_type.as_str()) {
            Err(LoginError::UnexpectedTokenType { token_type })
        } else {
            match fields.access_token {
                None => Err(parse_error(Stage::TokenExchange)),
                Some(access_token) => Ok(
                    LoginResult {
                        access_token,
                        token_type,
                        expires_in: fields.expires_in,
                        scope: fields.scope,
                        client_id,
                    },
                ),
            }
        },
    }
}

/// Makes the result of the login from the answer to the token exchange,
/// or gives the failure that the answer means.
pub fn token_result(
    status: u16,
    body: String,
    parsed: Option<TokenFields>,
    client_id: String,
) -> (r: Result<LoginResult, LoginError>)
    ensures
        match token_outcome(status, body@, parsed, client_id@) {
            Ok(result) => r matches Ok(given) && given@ == result,
            Err(error) => r matches Err(e) && e@ == error,
        },
{
    match check_status(Stage::TokenExchange, status, body) {
        Err(e) => Err(e),
        Ok(()) => match parsed {
            Some(fields) => token_fields_result(fields, client_id),
            None => Err(parse_error(Stage::TokenExchange)),
        },
    }
}

} // verus!
