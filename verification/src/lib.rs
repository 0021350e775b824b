//! Browser-based login for the `pajama` command-line tool, and the rules
//! that the rest of the tool shares.
//!
//! The login is the OAuth authorization code flow with PKCE, run from a
//! machine without a web presence of its own: the tool listens on a
//! loopback port, sends the user's browser to the authorization server,
//! takes the redirect, and redeems the code it brought for a bearer token.
//!
//! This library holds every decision of that flow and touches neither the
//! network, the file system nor the clock. The program around it performs
//! the requests and hands in what came back:
//!
//! - [`flow`] leads through a login, stage by stage;
//! - [`discovery`], [`registration`] and [`token`] judge the answers to the
//!   three HTTP requests, with [`reply`] for what they share;
//! - [`attempt`] and [`pkce`] make the secrets of an attempt and the two
//!   requests that carry them;
//! - [`callback`], [`request`] and [`html`] are the loopback listener: what
//!   is read of a request, what it comes to, and what is answered;
//! - [`launcher`] words what the user is told about the browser;
//! - [`error`] lists the failures.
//!
//! Beside the login stand [`config`] (the stored configuration and the
//! choice of a token), [`api`] (paths, header and list queries), [`tags`],
//! [`numbers`] and [`upload`] (part sizes). [`text`] and [`urls`] serve
//! them all.

pub mod api;
pub mod attempt;
pub mod callback;
pub mod config;
pub mod discovery;
pub mod error;
pub mod flow;
pub mod html;
pub mod launcher;
pub mod numbers;
pub mod pkce;
pub mod registration;
pub mod reply;
pub mod request;
pub mod tags;
pub mod text;
pub mod token;
pub mod upload;
pub mod urls;
