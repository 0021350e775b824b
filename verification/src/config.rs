//! What the tool remembers between runs, and how a token is chosen.
//!
//! Reading the environment and the configuration file is the caller's
//! part. The values it found come in as arguments.

use vstd::prelude::*;
use vstd::string::StringExecFns;
use crate::text::{chars_of, string_of, trim_range, trimmed};
use crate::token::LoginResult;

verus! {

/// The stored configuration.
#[derive(Debug, Clone)]
pub struct Config {
    pub api_base_url: String,
    pub client_id: Option<String>,
    pub access_token: Option<String>,
}

/// A [`Config`] with its strings as sequences of characters.
pub struct ConfigView {
    pub api_base_url: Seq<char>,
    pub client_id: Option<Seq<char>>,
    pub access_token: Option<Seq<char>>,
}

impl View for Config {
    type V = ConfigView;

    open spec fn view(&self) -> ConfigView {
        ConfigView {
            api_base_url: self.api_base_url@,
            client_id: self.client_id.deep_view(),
            access_token: self.access_token.deep_view(),
        }
    }
}

/// The address of the service where nothing else is configured.
pub open spec fn builtin_api_base_url() -> Seq<char> {
    "https://api-game-dev-memory.pajamadot.com"@
}

/// Whether `s` holds anything but white space.
pub open spec fn is_set(s: Seq<char>) -> bool {
    trimmed(s).len() > 0
}

/// The default address of the service: the value of the environment
/// variable, trimmed, where that is set to more than white space, else the
/// built-in one.
pub open spec fn default_api_base_url_text(env_value: Option<Seq<char>>) -> Seq<char> {
    match env_value {
        Some(value) => if is_set(value) {
            trimmed(value)
        } else {
            builtin_api_base_url()
        },
        None => builtin_api_base_url(),
    }
}

/// The configuration of a tool that has stored none.
pub open spec fn default_config(env_value: Option<Seq<char>>) -> ConfigView {
    ConfigView {
        api_base_url: default_api_base_url_text(env_value),
        client_id: None,
        access_token: None,
    }
}

/// The configuration to work with: the stored one, with the default
/// address where it has none, or the default one where none is stored.
pub open spec fn loaded_config(stored: Option<ConfigView>, env_value: Option<Seq<char>>) -> ConfigView {
    match stored {
        None => default_config(env_value),
        Some(config) => if is_set(config.api_base_url) {
            config
        } else {
            ConfigView { api_base_url: default_api_base_url_text(env_value), ..config }
        },
    }
}

/// The token to use: the one given on the command line, else the one of
/// the environment, each trimmed and only if more than white space is
/// left; else the stored one, as it is stored, if it holds more than white
/// space.
pub open spec fn resolved_token(
    token_override: Option<Seq<char>>,
    env_token: Option<Seq<char>>,
    stored: Option<Seq<char>>,
) -> Option<Seq<char>> {
    if token_override is Some && is_set(token_override->0) {
        Some(trimmed(token_override->0))
    } else if env_token is Some && is_set(env_token->0) {
        Some(trimmed(env_token->0))
    } else if stored is Some && is_set(stored->0) {
        stored
    } else {
        None
    }
}

/// `s` trimmed, if that leaves anything.
fn trimmed_if_set(s: &str) -> (r: Option<String>)
    ensures
        r.deep_view() == if is_set(s@) {
            Some(trimmed(s@))
        } else {
            None
        },
{
    let cs = chars_of(s);
    let (a, b) = trim_range(&cs, 0, cs.len());
    proof {
        assert(cs@.subrange(0, cs.len() as int) == cs@);
    }
    if b > a {
        Some(string_of(&cs, a, b))
    } else {
        None
    }
}

/// The default address of the service. `env_value` is what the
/// environment variable `PAJAMA_API_URL` holds, if it is set.
pub fn default_api_base_url(env_value: Option<&str>) -> (url: String)
    ensures
        url@ == default_api_base_url_text(env_value.deep_view()),
{
    let from_env: Option<String> = match env_value {
        Some(value) => trimmed_if_set(value),
        None => None,
    };
    match from_env {
        Some(url) => url,
        None => String::from_str("https://api-game-dev-memory.pajamadot.com"),
    }
}

impl Config {
    /// The configuration of a tool that has stored none.
    pub fn initial(env_value: Option<&str>) -> (config: Config)
        ensures
            config@ == default_config(env_value.deep_view()),
    {
        Config { api_base_url: default_api_base_url(env_value), client_id: None, access_token: None }
    }

    /// The configuration to work with, given the stored one, if there is
    /// one.
    pub fn loaded(stored: Option<Config>, env_value: Option<&str>) -> (config: Config)
        ensures
            config@ == loaded_config(stored.deep_view(), env_value.deep_view()),
    {
        match stored {
            None => Config::initial(env_value),
            Some(config) => {
                if trimmed_if_set(config.api_base_url.as_str()).is_some() {
                    config
                } else {
                    Config {
                        api_base_url: default_api_base_url(env_value),
                        client_id: config.client_id,
                        access_token: config.access_token,
                    }
                }
            },
        }
    }

    /// The configuration after a login: the client and the token of the
    /// login are stored, the address stays.
    pub fn with_login(self, login: LoginResult) -> (config: Config)
        ensures
            config@ == (ConfigView {
                api_base_url: self.api_base_url@,
                client_id: Some(login.client_id@),
                access_token: Some(login.access_token@),
            }),
    {
        Config {
            api_base_url: self.api_base_url,
            client_id: Some(login.client_id),
            access_token: Some(login.access_token),
        }
    }

    /// The configuration after a logout: the token is forgotten.
    pub fn without_token(self) -> (config: Config)
        ensures
            config@ == (ConfigView { access_token: None, ..self@ }),
    {
        Config { api_base_url: self.api_base_url, client_id: self.client_id, access_token: None }
    }
}

impl DeepView for Config {
    type V = ConfigView;

    open spec fn deep_view(&self) -> ConfigView {
        self@
    }
}

/// Chooses the token to use. `token_override` is the one given on the
/// command line and `env_token` what the environment variable
/// `PAJAMA_TOKEN` holds. `None` means that there is no token to use.
pub fn resolve_token(token_override: Option<&str>, env_token: Option<&str>, config: &Config) -> (token:
    Option<String>)
    ensures
        token.deep_view() == resolved_token(
            token_override.deep_view(),
            env_token.deep_view(),
            config@.access_token,
        ),
{
    if let Some(given) = token_override {
        if let Some(token) = trimmed_if_set(given) {
            return Some(token);
        }
    }
    if let Some(given) = env_token {
        if let Some(token) = trimmed_if_set(given) {
            return Some(token);
        }
    }
    match &config.access_token {
        Some(stored) => if trimmed_if_set(stored.as_str()).is_some() {
            Some(stored.clone())
        } else {
            None
        },
        None => None,
    }
}

} // verus!
