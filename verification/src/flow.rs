//! The login as a whole, step by step.
//!
//! Each stage of a login is a value. The caller does what the stage asks
//! for (register, bind, show the URL and listen, exchange) and hands what
//! came of it to the stage, which gives the next stage or the failure that
//! ends the attempt. A stage is used up by its step, so the stages come in
//! their order and none comes twice; a new attempt starts over and draws
//! new secrets.

use vstd::prelude::*;
use vstd::string::StringExecFns;
use crate::attempt::{
    authorization_url_outcome,
    check_login_fits,
    lemma_attempt_fits,
    login_fits,
    redirect_uri,
    redirect_uri_text,
    LoginAttempt,
};
use crate::callback::{outcome_of, ListenerState, PendingCallback};
use crate::discovery::OAuthMetadata;
use crate::error::{LoginError, LoginErrorView, ParseSubject};
use crate::registration::{
    client_name,
    registration_outcome,
    registration_result,
    resolve_client,
    ClientPlan,
    RegistrationFields,
    RegistrationRequest,
};
use crate::token::{token_outcome, token_result, LoginResult, TokenFields};
use crate::urls::{fits_url, form_encoded, is_absolute_url, parsed_query, url_with_params};

verus! {

/// What a login is asked for, once its endpoints are known.
#[derive(Debug)]
pub struct LoginPlan {
    pub authorization_endpoint: String,
    pub token_endpoint: String,
    pub scope: String,
}

/// A [`LoginPlan`] with its strings as sequences of characters.
pub struct LoginPlanView {
    pub authorization_endpoint: Seq<char>,
    pub token_endpoint: Seq<char>,
    pub scope: Seq<char>,
}

impl View for LoginPlan {
    type V = LoginPlanView;

    open spec fn view(&self) -> LoginPlanView {
        LoginPlanView {
            authorization_endpoint: self.authorization_endpoint@,
            token_endpoint: self.token_endpoint@,
            scope: self.scope@,
        }
    }
}

/// The stage that waits for the answer to the registration.
#[derive(Debug)]
pub struct Registering {
    pub plan: LoginPlan,
}

/// The stage that has its client and waits for the loopback port.
#[derive(Debug)]
pub struct Binding {
    pub plan: LoginPlan,
    pub client_id: String,
}

/// The stage that has sent the user off and waits for the callback.
pub struct Waiting {
    pub attempt: LoginAttempt,
    pub authorization_url: String,
    pub token_endpoint: String,
}

/// The stage that has the code and waits for the answer to the token
/// request.
#[derive(Debug)]
pub struct Exchanging {
    pub token_endpoint: String,
    pub body: String,
    pub client_id: String,
}

/// How a login starts.
#[derive(Debug)]
pub enum Started {
    /// A client is registered first: `request` goes to `endpoint`.
    Register { endpoint: String, request: RegistrationRequest, stage: Registering },
    /// The client is known: the loopback port is bound next.
    Bind(Binding),
}

/// The plan of a login against `meta` for `scope`.
pub open spec fn plan_of(meta: OAuthMetadata, scope: Seq<char>) -> LoginPlanView {
    LoginPlanView {
        authorization_endpoint: meta.authorization_endpoint@,
        token_endpoint: meta.token_endpoint@,
        scope,
    }
}

/// Starts a login. With a cached client id the login goes on to bind its
/// port as that client. Without one the client is registered first, and
/// where the server offers no registration the login fails here, before
/// anything is sent.
pub fn start_login(meta: &OAuthMetadata, cached_client_id: Option<String>, scope: &str) -> (r: Result<
    Started,
    LoginError,
>)
    ensures
        match (cached_client_id, meta.registration_endpoint) {
            (Some(id), _) => {
                &&& r matches Ok(Started::Bind(binding))
                &&& binding.client_id == id
                &&& binding.plan@ == plan_of(*meta, scope@)
            },
            (None, Some(to)) => {
                &&& r matches Ok(Started::Register { endpoint, request, stage })
                &&& endpoint@ == to@
                &&& request.client_name@ == client_name()
                &&& request.redirect_uris@.len() == 0
                &&& stage.plan@ == plan_of(*meta, scope@)
            },
            (None, None) => r matches Err(e) && e@ == LoginErrorView::RegistrationUnsupported,
        },
{
    match resolve_client(meta, cached_client_id) {
        Err(e) => Err(e),
        Ok(client) => {
            let plan = LoginPlan {
                authorization_endpoint: meta.authorization_endpoint.clone(),
                token_endpoint: meta.token_endpoint.clone(),
                scope: String::from_str(scope),
            };
            match client {
                ClientPlan::Cached(client_id) => Ok(Started::Bind(Binding { plan, client_id })),
                ClientPlan::Register { endpoint, request } => Ok(
                    Started::Register { endpoint, request, stage: Registering { plan } },
                ),
            }
        },
    }
}

impl Registering {
    /// Takes the answer to the registration. The client id it brought is
    /// the client of the login.
    pub fn registered(self, status: u16, body: String, parsed: Option<RegistrationFields>) -> (r:
        Result<Binding, LoginError>)
        ensures
            match registration_outcome(status, body@, parsed) {
                Ok(id) => r matches Ok(binding) && binding.client_id@ == id && binding.plan
                    == self.plan,
                Err(error) => r matches Err(e) && e@ == error,
            },
    {
        match registration_result(status, body, parsed) {
            Ok(client_id) => Ok(Binding { plan: self.plan, client_id }),
            Err(e) => Err(e),
        }
    }
}

/// What binding comes to before the secrets are drawn: the failure that
/// the port or the plan means, or `None` where the login can go on.
pub open spec fn binding_failure(binding: Binding, port: Option<u16>) -> Option<LoginErrorView> {
    if port is None {
        Some(LoginErrorView::Bind)
    } else if !login_fits(
        binding.plan.authorization_endpoint@,
        binding.client_id@,
        redirect_uri_text(port->0),
        binding.plan.scope@,
    ) {
        Some(LoginErrorView::UrlTooLong)
    } else if parsed_query(binding.plan.authorization_endpoint@) is None {
        Some(LoginErrorView::Parse(ParseSubject::AuthorizationEndpoint))
    } else {
        None
    }
}

impl LoginPlan {
    /// Takes the attempt that was begun, or `None` where the operating
    /// system supplied no random bytes for it, and makes the URL to send
    /// the user to.
    pub fn announce(self, begun: Option<LoginAttempt>) -> (r: Result<Waiting, LoginError>)
        ensures
            match begun {
                None => r matches Err(e) && e@ == LoginErrorView::RandomSource,
                Some(attempt) => match authorization_url_outcome(
                    self.authorization_endpoint@,
                    attempt.authorization_params(self.scope@),
                ) {
                    Ok(text) => {
                        &&& r matches Ok(waiting)
                        &&& waiting.attempt == attempt
                        &&& waiting.authorization_url@ == text
                        &&& waiting.token_endpoint == self.token_endpoint
                    },
                    Err(error) => r matches Err(e) && e@ == error,
                },
            },
            begun matches Some(attempt) && fits_url(
                self.authorization_endpoint@,
                attempt.authorization_params(self.scope@),
            ) ==> (r is Ok <==> parsed_query(self.authorization_endpoint@) is Some),
    {
        match begun {
            None => Err(LoginError::RandomSource),
            Some(attempt) => match attempt.authorization_url(
                self.authorization_endpoint.as_str(),
                self.scope.as_str(),
            ) {
                Ok(authorization_url) => Ok(
                    Waiting { attempt, authorization_url, token_endpoint: self.token_endpoint },
                ),
                Err(e) => Err(e),
            },
        }
    }
}

impl Binding {
    /// Takes the port that the listener was bound to, or `None` where no
    /// port could be had. Without a port, with parts that cannot be made
    /// into one URL, or with an authorization endpoint that is no absolute
    /// URL, the login fails as such. Else the secrets of the attempt are
    /// drawn and the URL to send the user to is made; the one failure
    /// left is that the operating system supplied no random bytes.
    pub fn bound(self, port: Option<u16>) -> (r: Result<Waiting, LoginError>)
        ensures
            match binding_failure(self, port) {
                Some(error) => r matches Err(e) && e@ == error,
                None => match r {
                    Ok(waiting) => {
                        &&& waiting.attempt.wf()
                        &&& waiting.attempt.client_id == self.client_id
                        &&& waiting.attempt.redirect_uri@ == redirect_uri_text(port->0)
                        &&& waiting.token_endpoint == self.plan.token_endpoint
                        &&& waiting.announces(self.plan.authorization_endpoint@, self.plan.scope@)
                    },
                    Err(e) => e@ == LoginErrorView::RandomSource,
                },
            },
    {
        match port {
            None => Err(LoginError::Bind),
            Some(port) => {
                let uri = redirect_uri(port);
                if !check_login_fits(
                    self.plan.authorization_endpoint.as_str(),
                    self.client_id.as_str(),
                    uri.as_str(),
                    self.plan.scope.as_str(),
                ) {
                    return Err(LoginError::UrlTooLong);
                }
                if !is_absolute_url(self.plan.authorization_endpoint.as_str()) {
                    return Err(LoginError::Parse(ParseSubject::AuthorizationEndpoint));
                }
                let begun = LoginAttempt::begin(self.client_id, port);
                proof {
                    if begun is Some {
                        lemma_attempt_fits(
                            begun->0,
                            self.plan.authorization_endpoint@,
                            self.plan.scope@,
                        );
                    }
                }
                self.plan.announce(begun)
            },
        }
    }
}

impl Waiting {
    /// Whether the URL of this stage is `endpoint` with the parameters of
    /// the attempt for `scope`.
    pub open spec fn announces(&self, endpoint: Seq<char>, scope: Seq<char>) -> bool {
        url_with_params(endpoint, self.attempt.authorization_params(scope)) == Some(
            self.authorization_url@,
        )
    }

    /// What the listener of this attempt expects.
    pub fn pending_callback(&self) -> (pending: PendingCallback)
        ensures
            pending.redirect_uri@ == self.attempt.redirect_uri@,
            pending.expected_state@ == self.attempt.state@,
    {
        self.attempt.pending_callback()
    }

    /// Takes the state that the listener ended in. A delivered code is
    /// made into the token request of this attempt; anything else fails
    /// the login.
    pub fn callback(self, end: ListenerState) -> (r: Result<Exchanging, LoginError>)
        ensures
            match outcome_of(end) {
                Some(Ok(code)) => {
                    &&& r matches Ok(exchanging)
                    &&& exchanging.token_endpoint == self.token_endpoint
                    &&& exchanging.client_id@ == self.attempt.client_id@
                    &&& exchanging.body@ == form_encoded(self.attempt.token_params(code))
                },
                Some(Err(error)) => r matches Err(e) && e@ == error,
                None => r matches Err(e) && e@ == LoginErrorView::ListenerFailed,
            },
    {
        match end.finish() {
            Ok(code) => {
                let body = self.attempt.token_request_body(code.as_str());
                Ok(
                    Exchanging {
                        token_endpoint: self.token_endpoint,
                        body,
                        client_id: self.attempt.client_id,
                    },
                )
            },
            Err(e) => Err(e),
        }
    }
}

impl Exchanging {
    /// Takes the answer to the token request and makes the result of the
    /// login.
    pub fn token_reply(self, status: u16, body: String, parsed: Option<TokenFields>) -> (r: Result<
        LoginResult,
        LoginError,
    >)
        ensures
            match token_outcome(status, body@, parsed, self.client_id@) {
                Ok(result) => r matches Ok(given) && given@ == result,
                Err(error) => r matches Err(e) && e@ == error,
            },
    {
        token_result(status, body, parsed, self.client_id)
    }
}

} // verus!
