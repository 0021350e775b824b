//! One login attempt: its secrets, its redirect URI, and the two requests
//! that are made of them.
//!
//! An attempt is begun once the client id is known and the loopback port
//! is bound. Its state, verifier, challenge and redirect URI are then
//! fixed: the authorization URL, the listener's expectation and the token
//! request are all made from the same attempt.

use vstd::prelude::*;
use vstd::string::StringExecFns;
use crate::callback::PendingCallback;
use crate::error::{LoginError, LoginErrorView, ParseSubject};
use crate::pkce::{
    all_url_safe,
    build_pkce_pair,
    challenge_of,
    encodes_bytes,
    encodes_only,
    lemma_url_safe_is_ascii,
    state_nonce,
    PkcePair,
    STATE_BYTES,
};
use crate::text::{decimal, lemma_ascii_byte_len, push_decimal};
use crate::urls::{
    check_fits_url,
    fits_url,
    form_encoded,
    form_serialize,
    last_value,
    lemma_last_value_at,
    lemma_pairs_cost_by_lengths,
    parsed_query,
    with_params,
    with_params_outcome,
    UrlError,
};

verus! {

/// The redirect URI of a listener on the loopback port `port`.
pub open spec fn redirect_uri_text(port: u16) -> Seq<char> {
    "http://127.0.0.1:"@ + decimal(port as nat) + "/callback"@
}

/// The parameters of the authorization request.
pub open spec fn authorization_params(
    client_id: Seq<char>,
    redirect_uri: Seq<char>,
    scope: Seq<char>,
    state: Seq<char>,
    challenge: Seq<char>,
) -> Seq<(Seq<char>, Seq<char>)> {
    seq![
        ("response_type"@, "code"@),
        ("client_id"@, client_id),
        ("redirect_uri"@, redirect_uri),
        ("scope"@, scope),
        ("state"@, state),
        ("code_challenge"@, challenge),
        ("code_challenge_method"@, "S256"@),
    ]
}

/// The parameters of the token request.
pub open spec fn token_params(
    code: Seq<char>,
    redirect_uri: Seq<char>,
    verifier: Seq<char>,
    client_id: Seq<char>,
) -> Seq<(Seq<char>, Seq<char>)> {
    seq![
        ("grant_type"@, "authorization_code"@),
        ("code"@, code),
        ("redirect_uri"@, redirect_uri),
        ("code_verifier"@, verifier),
        ("client_id"@, client_id),
    ]
}

/// A text as long as the state of an attempt.
pub open spec fn state_shape() -> Seq<char> {
    "AAAAAAAAAAAAAAAAAAAAAAAA"@
}

/// A text as long as the challenge of an attempt.
pub open spec fn challenge_shape() -> Seq<char> {
    "AAAAAAAAAAAAAAAAAAAAAAAAAAAAAAAAAAAAAAAAAAA"@
}

/// Whether a login with these parts can have its authorization URL:
/// whether the URL fits with secrets of the length that secrets have.
pub open spec fn login_fits(
    endpoint: Seq<char>,
    client_id: Seq<char>,
    redirect_uri: Seq<char>,
    scope: Seq<char>,
) -> bool {
    fits_url(
        endpoint,
        authorization_params(client_id, redirect_uri, scope, state_shape(), challenge_shape()),
    )
}

/// What making the authorization URL from `endpoint` and `params` comes
/// to: the text of the URL, or the failure of the login.
pub open spec fn authorization_url_outcome(
    endpoint: Seq<char>,
    params: Seq<(Seq<char>, Seq<char>)>,
) -> Result<Seq<char>, LoginErrorView> {
    match with_params_outcome(endpoint, params) {
        Ok(text) => Ok(text),
        Err(UrlError::TooLong) => Err(LoginErrorView::UrlTooLong),
        Err(UrlError::NotAbsolute) => Err(
            LoginErrorView::Parse(ParseSubject::AuthorizationEndpoint),
        ),
    }
}

/// The pairs of an authorization request, in their order.
fn authorization_pairs_of(
    client_id: &str,
    redirect_uri: &str,
    scope: &str,
    state: &str,
    challenge: &str,
) -> (pairs: Vec<(String, String)>)
    ensures
        pairs.deep_view() == authorization_params(
            client_id@,
            redirect_uri@,
            scope@,
            state@,
            challenge@,
        ),
{
    let mut pairs: Vec<(String, String)> = Vec::new();
    pairs.push(pair("response_type", "code"));
    pairs.push(pair("client_id", client_id));
    pairs.push(pair("redirect_uri", redirect_uri));
    pairs.push(pair("scope", scope));
    pairs.push(pair("state", state));
    pairs.push(pair("code_challenge", challenge));
    pairs.push(pair("code_challenge_method", "S256"));
    proof {
        assert(pairs.deep_view() =~= authorization_params(
            client_id@,
            redirect_uri@,
            scope@,
            state@,
            challenge@,
        ));
    }
    pairs
}

/// Tests whether a login with these parts can have its authorization URL.
pub fn check_login_fits(endpoint: &str, client_id: &str, redirect_uri: &str, scope: &str) -> (fits:
    bool)
    ensures
        fits == login_fits(endpoint@, client_id@, redirect_uri@, scope@),
{
    let pairs = authorization_pairs_of(
        client_id,
        redirect_uri,
        scope,
        "AAAAAAAAAAAAAAAAAAAAAAAA",
        "AAAAAAAAAAAAAAAAAAAAAAAAAAAAAAAAAAAAAAAAAAA",
    );
    check_fits_url(endpoint, &pairs)
}

/// The redirect URI of a listener on the loopback port `port`.
pub fn redirect_uri(port: u16) -> (uri: String)
    ensures
        uri@ == redirect_uri_text(port),
{
    let mut uri = String::from_str("http://127.0.0.1:");
    push_decimal(&mut uri, port as u64);
    uri.append("/callback");
    uri
}

/// A name with its value, as one pair.
fn pair(name: &str, value: &str) -> (p: (String, String))
    ensures
        p.deep_view() == (name@, value@),
{
    (String::from_str(name), String::from_str(value))
}

/// What one login attempt is made with.
pub struct LoginAttempt {
    pub client_id: String,
    pub redirect_uri: String,
    pub state: String,
    pub pkce: PkcePair,
}

impl LoginAttempt {
    /// Whether the attempt is as `begin` makes one: a redirect URI on a
    /// loopback port, a state that is the encoding of 18 bytes, and a PKCE
    /// pair that belongs together, with a verifier that is the encoding of
    /// 64 bytes.
    pub open spec fn wf(&self) -> bool {
        &&& exists|port: u16| self.redirect_uri@ == #[trigger] redirect_uri_text(port)
        &&& encodes_bytes(self.state@, STATE_BYTES as nat)
        &&& self.state@.len() == 24
        &&& all_url_safe(self.state@)
        &&& self.pkce.drawn()
    }

    /// The parameters of the authorization request of this attempt.
    pub open spec fn authorization_params(&self, scope: Seq<char>) -> Seq<(Seq<char>, Seq<char>)> {
        authorization_params(
            self.client_id@,
            self.redirect_uri@,
            scope,
            self.state@,
            self.pkce.challenge@,
        )
    }

    /// The parameters of the token request of this attempt.
    pub open spec fn token_params(&self, code: Seq<char>) -> Seq<(Seq<char>, Seq<char>)> {
        token_params(code, self.redirect_uri@, self.pkce.verifier@, self.client_id@)
    }

    /// Begins an attempt for the client `client_id` with a listener on
    /// `port`: draws a fresh state and a fresh PKCE pair. Gives `None`
    /// where the operating system supplied no random bytes.
    pub fn begin(client_id: String, port: u16) -> (begun: Option<LoginAttempt>)
        ensures
            begun matches Some(attempt) ==> {
                &&& attempt.wf()
                &&& attempt.client_id == client_id
                &&& attempt.redirect_uri@ == redirect_uri_text(port)
            },
    {
        match state_nonce() {
            None => None,
            Some(state) => match build_pkce_pair() {
                None => None,
                Some(pkce) => Some(
                    LoginAttempt { client_id, redirect_uri: redirect_uri(port), state, pkce },
                ),
            },
        }
    }

    /// What the listener of this attempt expects.
    pub fn pending_callback(&self) -> (pending: PendingCallback)
        ensures
            pending.redirect_uri@ == self.redirect_uri@,
            pending.expected_state@ == self.state@,
    {
        PendingCallback {
            redirect_uri: self.redirect_uri.clone(),
            expected_state: self.state.clone(),
        }
    }

    /// The pairs of the authorization request, in their order.
    pub fn authorization_pairs(&self, scope: &str) -> (pairs: Vec<(String, String)>)
        ensures
            pairs.deep_view() == self.authorization_params(scope@),
    {
        authorization_pairs_of(
            self.client_id.as_str(),
            self.redirect_uri.as_str(),
            scope,
            self.state.as_str(),
            self.pkce.challenge.as_str(),
        )
    }

    /// The pairs of the token request, in their order.
    pub fn token_pairs(&self, code: &str) -> (pairs: Vec<(String, String)>)
        ensures
            pairs.deep_view() == self.token_params(code@),
    {
        let mut pairs: Vec<(String, String)> = Vec::new();
        pairs.push(pair("grant_type", "authorization_code"));
        pairs.push(pair("code", code));
        pairs.push(pair("redirect_uri", self.redirect_uri.as_str()));
        pairs.push(pair("code_verifier", self.pkce.verifier.as_str()));
        pairs.push(pair("client_id", self.client_id.as_str()));
        proof {
            assert(pairs.deep_view() =~= self.token_params(code@));
        }
        pairs
    }

    /// The URL to send the browser to: the authorization endpoint with the
    /// parameters of this attempt appended to its query. Fails as too long
    /// where the parts do not fit into one URL, and else exactly where the
    /// endpoint is no absolute URL.
    pub fn authorization_url(&self, authorization_endpoint: &str, scope: &str) -> (r: Result<
        String,
        LoginError,
    >)
        ensures
            match authorization_url_outcome(
                authorization_endpoint@,
                self.authorization_params(scope@),
            ) {
                Ok(text) => r matches Ok(url) && url@ == text,
                Err(error) => r matches Err(e) && e@ == error,
            },
            fits_url(authorization_endpoint@, self.authorization_params(scope@)) ==> (r is Ok
                <==> parsed_query(authorization_endpoint@) is Some),
    {
        let pairs = self.authorization_pairs(scope);
        match with_params(authorization_endpoint, &pairs) {
            Ok(url) => Ok(url),
            Err(UrlError::TooLong) => Err(LoginError::UrlTooLong),
            Err(UrlError::NotAbsolute) => Err(
                LoginError::Parse(ParseSubject::AuthorizationEndpoint),
            ),
        }
    }

    /// The form body of the token request that redeems `code`.
    pub fn token_request_body(&self, code: &str) -> (body: String)
        ensures
            body@ == form_encoded(self.token_params(code@)),
    {
        let pairs = self.token_pairs(code);
        form_serialize(&pairs)
    }
}

/// Whether the authorization URL of an attempt fits does not depend on what
/// was drawn: the secrets of every attempt are as long as each other's.
pub proof fn lemma_attempt_fits(attempt: LoginAttempt, endpoint: Seq<char>, scope: Seq<char>)
    requires
        attempt.wf(),
    ensures
        fits_url(endpoint, attempt.authorization_params(scope)) == login_fits(
            endpoint,
            attempt.client_id@,
            attempt.redirect_uri@,
            scope,
        ),
{
    reveal_strlit("AAAAAAAAAAAAAAAAAAAAAAAA");
    reveal_strlit("AAAAAAAAAAAAAAAAAAAAAAAAAAAAAAAAAAAAAAAAAAA");
    lemma_url_safe_is_ascii(attempt.state@);
    lemma_ascii_byte_len(attempt.state@);
    lemma_url_safe_is_ascii(attempt.pkce.challenge@);
    lemma_ascii_byte_len(attempt.pkce.challenge@);
    lemma_ascii_byte_len(state_shape());
    lemma_ascii_byte_len(challenge_shape());
    lemma_pairs_cost_by_lengths(
        attempt.authorization_params(scope),
        authorization_params(
            attempt.client_id@,
            attempt.redirect_uri@,
            scope,
            state_shape(),
            challenge_shape(),
        ),
    );
}

/// Two attempts share a state only where the same bytes were drawn for
/// both, and a verifier only where the same bytes were drawn for both:
/// secrets that were drawn as different bytes are different secrets.
pub proof fn lemma_different_draws_different_secrets(
    first: LoginAttempt,
    second: LoginAttempt,
    first_state: Seq<u8>,
    second_state: Seq<u8>,
    first_verifier: Seq<u8>,
    second_verifier: Seq<u8>,
)
    requires
        encodes_only(first.state@, first_state),
        encodes_only(second.state@, second_state),
        encodes_only(first.pkce.verifier@, first_verifier),
        encodes_only(second.pkce.verifier@, second_verifier),
    ensures
        first_state != second_state ==> first.state@ != second.state@,
        first_verifier != second_verifier ==> first.pkce.verifier@ != second.pkce.verifier@,
{
}

/// The names of the parameters of the two requests, told apart character
/// by character.
proof fn lemma_names_differ()
    ensures
        "client_id"@ != "redirect_uri"@,
        "client_id"@ != "scope"@,
        "client_id"@ != "state"@,
        "client_id"@ != "code_challenge"@,
        "client_id"@ != "code_challenge_method"@,
        "redirect_uri"@ != "scope"@,
        "redirect_uri"@ != "state"@,
        "redirect_uri"@ != "code_challenge"@,
        "redirect_uri"@ != "code_challenge_method"@,
        "redirect_uri"@ != "code_verifier"@,
        "state"@ != "code_challenge"@,
        "state"@ != "code_challenge_method"@,
        "code_challenge"@ != "code_challenge_method"@,
        "code"@ != "redirect_uri"@,
        "code"@ != "code_verifier"@,
        "code"@ != "client_id"@,
        "code_verifier"@ != "client_id"@,
{
    reveal_strlit("client_id");
    reveal_strlit("redirect_uri");
    reveal_strlit("scope");
    reveal_strlit("state");
    reveal_strlit("code_challenge");
    reveal_strlit("code_challenge_method");
    reveal_strlit("code");
    reveal_strlit("code_verifier");
    assert("client_id"@.len() == 9);
    assert("code"@.len() == 4);
    assert("code_challenge"@.len() == 14);
    assert("code_verifier"@.len() == 13);
    assert("code_challenge_method"@.len() == 21);
    assert("state"@[1] != "scope"@[1]);
    assert("redirect_uri"@[0] != "code_verifier"@[0]);
}

/// The redirect URI that the browser is sent off with and the one that the
/// code is redeemed with are the same: both requests name the redirect URI
/// of the attempt, once.
pub proof fn lemma_redirect_uri_is_shared(attempt: LoginAttempt, scope: Seq<char>, code: Seq<char>)
    ensures
        last_value(attempt.authorization_params(scope), "redirect_uri"@) == Some(
            attempt.redirect_uri@,
        ),
        last_value(attempt.token_params(code), "redirect_uri"@) == Some(attempt.redirect_uri@),
{
    lemma_names_differ();
    lemma_last_value_at(attempt.authorization_params(scope), "redirect_uri"@, 2);
    lemma_last_value_at(attempt.token_params(code), "redirect_uri"@, 2);
}

/// What an attempt puts into its two requests belongs together: both name
/// the same client; the first carries the state that the listener expects
/// and the challenge of the verifier that the second carries; and the
/// second redeems the code it is given.
pub proof fn lemma_requests_agree(attempt: LoginAttempt, scope: Seq<char>, code: Seq<char>)
    requires
        attempt.wf(),
    ensures
        last_value(attempt.authorization_params(scope), "client_id"@) == Some(attempt.client_id@),
        last_value(attempt.token_params(code), "client_id"@) == Some(attempt.client_id@),
        last_value(attempt.authorization_params(scope), "state"@) == Some(attempt.state@),
        last_value(attempt.token_params(code), "code"@) == Some(code),
        last_value(attempt.token_params(code), "code_verifier"@) == Some(attempt.pkce.verifier@),
        last_value(attempt.authorization_params(scope), "code_challenge"@) == Some(
            challenge_of(attempt.pkce.verifier@),
        ),
{
    lemma_names_differ();
    let sent = attempt.authorization_params(scope);
    let redeemed = attempt.token_params(code);
    lemma_last_value_at(sent, "client_id"@, 1);
    lemma_last_value_at(sent, "state"@, 4);
    lemma_last_value_at(sent, "code_challenge"@, 5);
    lemma_last_value_at(redeemed, "code"@, 1);
    lemma_last_value_at(redeemed, "code_verifier"@, 3);
    lemma_last_value_at(redeemed, "client_id"@, 4);
}

} // verus!
