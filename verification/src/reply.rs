//! What is made of the answer to one of the three HTTP requests of a login.
//!
//! The caller sends the request and hands over the status, the body and,
//! where the body parsed as JSON, the fields it found. A status outside 2xx
//! fails the attempt whatever the body holds; a body that did not parse, or
//! that lacks a required field, fails it after that.

use vstd::prelude::*;
use crate::error::{LoginError, LoginErrorView, ParseSubject};

verus! {

/// The request that an answer belongs to.
#[derive(Clone, Copy, Debug, PartialEq, Eq, Structural)]
pub enum Stage {
    /// Fetching the authorization server's metadata.
    Discovery,
    /// Registering a client.
    Registration,
    /// Exchanging the code for a token.
    TokenExchange,
}

/// Whether `status` is one of the 2xx codes.
pub open spec fn is_success(status: u16) -> bool {
    200 <= status < 300
}

/// The failure that a status outside 2xx means at `stage`.
pub open spec fn status_failure(stage: Stage, status: u16, body: Seq<char>) -> LoginErrorView {
    match stage {
        Stage::Discovery => LoginErrorView::Discovery { status, body },
        Stage::Registration => LoginErrorView::Registration { status, body },
        Stage::TokenExchange => LoginErrorView::TokenExchange { status, body },
    }
}

/// The failure that a malformed or incomplete body means at `stage`.
pub open spec fn parse_failure(stage: Stage) -> LoginErrorView {
    match stage {
        Stage::Discovery => LoginErrorView::Parse(ParseSubject::Metadata),
        Stage::Registration => LoginErrorView::Parse(ParseSubject::Registration),
        Stage::TokenExchange => LoginErrorView::Parse(ParseSubject::Token),
    }
}

/// Tests whether `status` is one of the 2xx codes.
pub fn status_is_success(status: u16) -> (r: bool)
    ensures
        r == is_success(status),
{
    200 <= status && status < 300
}

/// Lets an answer with a 2xx status through and turns any other into the
/// failure of its stage, which keeps the status and the body.
pub fn check_status(stage: Stage, status: u16, body: String) -> (r: Result<(), LoginError>)
    ensures
        is_success(status) ==> r is Ok,
        !is_success(status) ==> (r matches Err(e) && e@ == status_failure(stage, status, body@)),
{
    if status_is_success(status) {
        Ok(())
    } else {
        Err(
            match stage {
                Stage::Discovery => LoginError::Discovery { status, body },
                Stage::Registration => LoginError::Registration { status, body },
                Stage::TokenExchange => LoginError::TokenExchange { status, body },
            },
        )
    }
}

/// The failure that a malformed or incomplete body means at `stage`.
pub fn parse_error(stage: Stage) -> (e: LoginError)
    ensures
        e@ == parse_failure(stage),
{
    match stage {
        Stage::Discovery => LoginError::Parse(ParseSubject::Metadata),
        Stage::Registration => LoginError::Parse(ParseSubject::Registration),
        Stage::TokenExchange => LoginError::Parse(ParseSubject::Token),
    }
}

} // verus!
