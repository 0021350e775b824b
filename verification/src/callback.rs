//! The loopback callback listener, as a state machine.
//!
//! The caller owns the socket and the clock. For each connection it reads
//! the request (see [`crate::request::RequestBuffer`]) and hands it to
//! [`PendingCallback::on_event`], which judges it, says what to answer and
//! whether the attempt goes on listening. A pending callback is consumed
//! by each step and handed back only while the attempt still listens, so a
//! code is delivered at most once.
//!
//! [`listener_step`] is the machine's one transition and [`listener_run`]
//! what a sequence of events comes to. The laws at the end of the machine
//! say what follows: rejected requests change nothing, and the first valid
//! callback wins.

use vstd::prelude::*;
use crate::error::{LoginError, LoginErrorView};
use crate::html::{error_html, error_page, http_response, response_text, success_html, success_page};
use crate::request::{
    lossy_text,
    read_request_line,
    request_method,
    request_target,
    RequestBuffer,
    RequestLine,
};
use crate::text::{chars_of, joined, run_len, same_text, scan, string_of, CharClass};
use crate::urls::{find_last, last_value, parsed_query, query_of};

verus! {

/// How long an attempt waits for its callback, in seconds.
pub const CALLBACK_TIMEOUT_SECS: u64 = 180;

/// Why a request does not complete the attempt.
#[derive(Clone, Copy, Debug, PartialEq, Eq, Structural)]
pub enum Rejection {
    /// Another method than GET, or another path than `/callback`.
    NotFound,
    /// The target does not make a URL.
    InvalidUrl,
    /// The `state` parameter is absent or is not the expected one.
    StateMismatch,
    /// The state matches and no `code` parameter is there.
    MissingCode,
}

/// What one request comes to.
#[derive(Debug)]
pub enum Verdict {
    /// The request carries the expected state and this authorization code.
    Resolved(String),
    /// The request is answered and otherwise ignored.
    Rejected(Rejection),
}

/// A [`Verdict`] with its code as a sequence of characters.
pub enum VerdictView {
    Resolved(Seq<char>),
    Rejected(Rejection),
}

impl View for Verdict {
    type V = VerdictView;

    open spec fn view(&self) -> VerdictView {
        match self {
            Verdict::Resolved(code) => VerdictView::Resolved(code@),
            Verdict::Rejected(why) => VerdictView::Rejected(*why),
        }
    }
}

/// The path of a request target: what stands before the first `?`.
pub open spec fn target_path(target: Seq<char>) -> Seq<char> {
    target.take(run_len(target, CharClass::Except('?')) as int)
}

/// Whether a request with this method and target is one for the callback.
pub open spec fn is_callback(method: Seq<char>, target: Seq<char>) -> bool {
    method == "GET"@ && target_path(target) == "/callback"@
}

/// The URL under which the listener sees a request for `target`.
pub open spec fn callback_url(target: Seq<char>) -> Seq<char> {
    "http://127.0.0.1"@ + target
}

/// What the query of a callback request comes to, where `expected_state`
/// is the state of the attempt. `None` stands for a target that made no
/// URL.
pub open spec fn judge_query(
    query: Option<Seq<(Seq<char>, Seq<char>)>>,
    expected_state: Seq<char>,
) -> VerdictView {
    match query {
        None => VerdictView::Rejected(Rejection::InvalidUrl),
        Some(pairs) => if last_value(pairs, "state"@) != Some(expected_state) {
            VerdictView::Rejected(Rejection::StateMismatch)
        } else {
            match last_value(pairs, "code"@) {
                Some(code) => VerdictView::Resolved(code),
                None => VerdictView::Rejected(Rejection::MissingCode),
            }
        },
    }
}

/// What a request with this method and target comes to.
pub open spec fn judge(method: Seq<char>, target: Seq<char>, expected_state: Seq<char>) -> VerdictView {
    if is_callback(method, target) {
        judge_query(parsed_query(callback_url(target)), expected_state)
    } else {
        VerdictView::Rejected(Rejection::NotFound)
    }
}

/// What the request that starts with `bytes` comes to.
pub open spec fn judge_bytes(bytes: Seq<u8>, expected_state: Seq<char>) -> VerdictView {
    judge(
        request_method(lossy_text(bytes)),
        request_target(lossy_text(bytes)),
        expected_state,
    )
}

/// The text that a rejection is reported with.
pub open spec fn rejection_text(why: Rejection) -> Seq<char> {
    match why {
        Rejection::NotFound => "Not found."@,
        Rejection::InvalidUrl => "Invalid callback URL"@,
        Rejection::StateMismatch => "State mismatch. You can close this window and retry."@,
        Rejection::MissingCode => "Missing authorization code. You can close this window and retry."@,
    }
}

/// The page that answers a request with this verdict.
pub open spec fn verdict_page(verdict: VerdictView) -> Seq<char> {
    match verdict {
        VerdictView::Resolved(_) => success_page(),
        VerdictView::Rejected(why) => error_page(rejection_text(why)),
    }
}

/// Tests whether the request line is one for the callback.
pub fn is_callback_request(line: &RequestLine) -> (r: bool)
    ensures
        r == is_callback(line.method@, line.target@),
{
    if !same_text(line.method.as_str(), "GET") {
        return false;
    }
    let cs = chars_of(line.target.as_str());
    let end: usize = scan(&cs, 0, cs.len(), CharClass::Except('?'));
    proof {
        assert(cs@.subrange(0, cs.len() as int) == cs@);
        assert(cs@.subrange(0, end as int) == target_path(line.target@));
    }
    let path = string_of(&cs, 0, end);
    same_text(path.as_str(), "/callback")
}

/// Judges the query of a callback request. `None` stands for a target
/// that made no URL.
pub fn judge_pairs(query: Option<Vec<(String, String)>>, expected_state: &str) -> (verdict: Verdict)
    ensures
        verdict@ == judge_query(query.deep_view(), expected_state@),
{
    match query {
        None => Verdict::Rejected(Rejection::InvalidUrl),
        Some(pairs) => {
            let state = find_last(&pairs, "state");
            let matches: bool = match state {
                Some(given) => same_text(given.as_str(), expected_state),
                None => false,
            };
            if !matches {
                Verdict::Rejected(Rejection::StateMismatch)
            } else {
                match find_last(&pairs, "code") {
                    Some(code) => Verdict::Resolved(code),
                    None => Verdict::Rejected(Rejection::MissingCode),
                }
            }
        },
    }
}

/// Judges a request by its request line.
pub fn judge_request_line(line: &RequestLine, expected_state: &str) -> (verdict: Verdict)
    ensures
        verdict@ == judge(line.method@, line.target@, expected_state@),
{
    if is_callback_request(line) {
        let url = joined("http://127.0.0.1", line.target.as_str());
        judge_pairs(query_of(url.as_str()), expected_state)
    } else {
        Verdict::Rejected(Rejection::NotFound)
    }
}

/// Judges a request by the bytes that were read of it.
pub fn judge_request(bytes: &[u8], expected_state: &str) -> (verdict: Verdict)
    ensures
        verdict@ == judge_bytes(bytes@, expected_state@),
{
    let line = read_request_line(bytes);
    judge_request_line(&line, expected_state)
}

/// Writes the page that answers a request with this verdict.
pub fn page_for(verdict: &Verdict) -> (page: String)
    ensures
        page@ == verdict_page(verdict@),
{
    match verdict {
        Verdict::Resolved(_) => success_html(),
        Verdict::Rejected(Rejection::NotFound) => error_html("Not found."),
        Verdict::Rejected(Rejection::InvalidUrl) => error_html("Invalid callback URL"),
        Verdict::Rejected(Rejection::StateMismatch) => error_html(
            "State mismatch. You can close this window and retry.",
        ),
        Verdict::Rejected(Rejection::MissingCode) => error_html(
            "Missing authorization code. You can close this window and retry.",
        ),
    }
}

/// What a listening attempt expects: the redirect URI it was announced
/// under and the state that a callback must carry.
#[derive(Debug)]
pub struct PendingCallback {
    pub redirect_uri: String,
    pub expected_state: String,
}

/// What happens to a listening attempt.
#[derive(Debug)]
pub enum ListenerEvent {
    /// A connection was accepted and this was read of its request.
    Request(RequestBuffer),
    /// No connection could be accepted.
    AcceptFailed,
    /// The time for the callback is over.
    TimedOut,
}

/// Where an attempt stands with its callback.
#[derive(Debug)]
pub enum ListenerState {
    /// Still waiting: further connections are accepted.
    Listening(PendingCallback),
    /// A valid callback brought this code. Nothing more is accepted.
    Delivered(String),
    /// The time ran out. Nothing more is accepted.
    TimedOut,
    /// Accepting failed. Nothing more is accepted.
    Broken,
}

/// What the waiting side got from the listener.
#[derive(Debug)]
pub enum Handoff {
    /// The listener ended and handed over the state it ended in.
    Ended(ListenerState),
    /// The listener went away without handing anything over.
    Dropped,
    /// Nothing was handed over in time.
    Overdue,
}

/// What one step of the listener asks of the caller.
#[derive(Debug)]
pub struct ListenerStep {
    /// The full HTTP response to write to the connection, if there is one.
    pub response: Option<String>,
    /// Where the attempt stands now.
    pub state: ListenerState,
}

/// A [`PendingCallback`] with its strings as sequences of characters.
pub struct PendingCallbackView {
    pub redirect_uri: Seq<char>,
    pub expected_state: Seq<char>,
}

/// A [`ListenerEvent`] with its request as a sequence of bytes.
pub enum ListenerEventView {
    Request(Seq<u8>),
    AcceptFailed,
    TimedOut,
}

/// A [`ListenerState`] with its strings as sequences of characters.
pub enum ListenerStateView {
    Listening(PendingCallbackView),
    Delivered(Seq<char>),
    TimedOut,
    Broken,
}

/// A [`ListenerStep`] with its strings as sequences of characters.
pub struct ListenerStepView {
    pub response: Option<Seq<char>>,
    pub state: ListenerStateView,
}

impl View for PendingCallback {
    type V = PendingCallbackView;

    open spec fn view(&self) -> PendingCallbackView {
        PendingCallbackView {
            redirect_uri: self.redirect_uri@,
            expected_state: self.expected_state@,
        }
    }
}

impl View for ListenerEvent {
    type V = ListenerEventView;

    open spec fn view(&self) -> ListenerEventView {
        match self {
            ListenerEvent::Request(request) => ListenerEventView::Request(request@),
            ListenerEvent::AcceptFailed => ListenerEventView::AcceptFailed,
            ListenerEvent::TimedOut => ListenerEventView::TimedOut,
        }
    }
}

impl View for ListenerState {
    type V = ListenerStateView;

    open spec fn view(&self) -> ListenerStateView {
        match self {
            ListenerState::Listening(pending) => ListenerStateView::Listening(pending@),
            ListenerState::Delivered(code) => ListenerStateView::Delivered(code@),
            ListenerState::TimedOut => ListenerStateView::TimedOut,
            ListenerState::Broken => ListenerStateView::Broken,
        }
    }
}

impl View for ListenerStep {
    type V = ListenerStepView;

    open spec fn view(&self) -> ListenerStepView {
        ListenerStepView { response: self.response.deep_view(), state: self.state@ }
    }
}

/// One step of a listening attempt: what is answered, and where the
/// attempt stands then. A request is always answered with the page for its
/// verdict; only a resolved one ends the listening, by delivering its
/// code, and a rejected one leaves the attempt as it was.
pub open spec fn listener_step(pending: PendingCallbackView, event: ListenerEventView) -> ListenerStepView {
    match event {
        ListenerEventView::Request(bytes) => {
            let verdict = judge_bytes(bytes, pending.expected_state);
            ListenerStepView {
                response: Some(response_text(verdict_page(verdict))),
                state: match verdict {
                    VerdictView::Resolved(code) => ListenerStateView::Delivered(code),
                    VerdictView::Rejected(_) => ListenerStateView::Listening(pending),
                },
            }
        },
        ListenerEventView::AcceptFailed => ListenerStepView {
            response: None,
            state: ListenerStateView::Broken,
        },
        ListenerEventView::TimedOut => ListenerStepView {
            response: None,
            state: ListenerStateView::TimedOut,
        },
    }
}

/// Where an attempt that stands in `state` stands after `events`, taken
/// one after the other for as long as it listens.
pub open spec fn listener_run(state: ListenerStateView, events: Seq<ListenerEventView>) -> ListenerStateView
    decreases events.len(),
{
    if events.len() == 0 {
        state
    } else {
        match state {
            ListenerStateView::Listening(pending) => listener_run(
                listener_step(pending, events.first()).state,
                events.drop_first(),
            ),
            ended => ended,
        }
    }
}

/// Whether `event` is a request that is rejected where `expected_state` is
/// expected.
pub open spec fn is_rejected_request(event: ListenerEventView, expected_state: Seq<char>) -> bool {
    event matches ListenerEventView::Request(bytes) && judge_bytes(bytes, expected_state)
        is Rejected
}

/// The code that `event` brings, if it is a request that resolves where
/// `expected_state` is expected.
pub open spec fn resolved_code(event: ListenerEventView, expected_state: Seq<char>) -> Option<
    Seq<char>,
> {
    match event {
        ListenerEventView::Request(bytes) => match judge_bytes(bytes, expected_state) {
            VerdictView::Resolved(code) => Some(code),
            VerdictView::Rejected(_) => None,
        },
        _ => None,
    }
}

/// An attempt that has ended stays as it ended, whatever comes after.
pub proof fn lemma_ended_stays_ended(state: ListenerStateView, events: Seq<ListenerEventView>)
    requires
        !(state is Listening),
    ensures
        listener_run(state, events) == state,
{
}

/// Requests that are all rejected leave the attempt listening, as it was.
pub proof fn lemma_rejected_requests_change_nothing(
    pending: PendingCallbackView,
    events: Seq<ListenerEventView>,
)
    requires
        forall|j: int|
            0 <= j < events.len() ==> is_rejected_request(
                #[trigger] events[j],
                pending.expected_state,
            ),
    ensures
        listener_run(ListenerStateView::Listening(pending), events)
            == ListenerStateView::Listening(pending),
    decreases events.len(),
{
    if events.len() > 0 {
        let rest = events.drop_first();
        assert(is_rejected_request(events[0], pending.expected_state));
        assert forall|j: int| 0 <= j < rest.len() implies is_rejected_request(
            #[trigger] rest[j],
            pending.expected_state,
        ) by {
            assert(rest[j] == events[j + 1]);
        }
        lemma_rejected_requests_change_nothing(pending, rest);
    }
}

/// The first request that resolves is the one that is honoured: the
/// rejected ones before it do not end the attempt, and nothing that comes
/// after it changes the code that was delivered.
pub proof fn lemma_first_valid_callback_wins(
    pending: PendingCallbackView,
    events: Seq<ListenerEventView>,
    at: int,
    code: Seq<char>,
)
    requires
        0 <= at < events.len(),
        forall|j: int|
            0 <= j < at ==> is_rejected_request(#[trigger] events[j], pending.expected_state),
        resolved_code(events[at], pending.expected_state) == Some(code),
    ensures
        listener_run(ListenerStateView::Listening(pending), events)
            == ListenerStateView::Delivered(code),
    decreases at,
{
    let rest = events.drop_first();
    if at == 0 {
        lemma_ended_stays_ended(ListenerStateView::Delivered(code), rest);
    } else {
        assert(is_rejected_request(events[0], pending.expected_state));
        assert forall|j: int| 0 <= j < at - 1 implies is_rejected_request(
            #[trigger] rest[j],
            pending.expected_state,
        ) by {
            assert(rest[j] == events[j + 1]);
        }
        assert(rest[at - 1] == events[at]);
        lemma_first_valid_callback_wins(pending, rest, at - 1, code);
    }
}

impl PendingCallback {
    /// Takes one event and makes the step that it asks for. A rejected
    /// request hands this very expectation back.
    pub fn on_event(self, event: ListenerEvent) -> (step: ListenerStep)
        ensures
            step@ == listener_step(self@, event@),
            step.state is Listening ==> step.state == ListenerState::Listening(self),
    {
        match event {
            ListenerEvent::Request(request) => {
                let verdict = judge_request(request.as_bytes(), self.expected_state.as_str());
                let page = page_for(&verdict);
                let response = http_response(page.as_str());
                let state = match verdict {
                    Verdict::Resolved(code) => ListenerState::Delivered(code),
                    Verdict::Rejected(_) => ListenerState::Listening(self),
                };
                ListenerStep { response: Some(response), state }
            },
            ListenerEvent::AcceptFailed => ListenerStep {
                response: None,
                state: ListenerState::Broken,
            },
            ListenerEvent::TimedOut => ListenerStep {
                response: None,
                state: ListenerState::TimedOut,
            },
        }
    }
}

/// How a listener that stands in `state` has ended: with the code, with an
/// error, or not yet.
pub open spec fn outcome_of(state: ListenerState) -> Option<Result<Seq<char>, LoginErrorView>> {
    match state {
        ListenerState::Listening(_) => None,
        ListenerState::Delivered(code) => Some(Ok(code@)),
        ListenerState::TimedOut => Some(Err(LoginErrorView::Timeout)),
        ListenerState::Broken => Some(Err(LoginErrorView::ListenerFailed)),
    }
}

/// The state that a handoff stands for.
pub open spec fn handed_over(handoff: Handoff) -> ListenerState {
    match handoff {
        Handoff::Ended(state) => state,
        Handoff::Dropped => ListenerState::Broken,
        Handoff::Overdue => ListenerState::TimedOut,
    }
}

impl ListenerState {
    /// The state that the waiting side goes on with: the one that the
    /// listener ended in, a broken listener where it handed nothing over,
    /// a timeout where nothing came in time.
    pub fn received(handoff: Handoff) -> (state: ListenerState)
        ensures
            state == handed_over(handoff),
    {
        match handoff {
            Handoff::Ended(state) => state,
            Handoff::Dropped => ListenerState::Broken,
            Handoff::Overdue => ListenerState::TimedOut,
        }
    }

    /// Whether the attempt still listens.
    pub fn is_listening(&self) -> (r: bool)
        ensures
            r == (self is Listening),
    {
        match self {
            ListenerState::Listening(_) => true,
            _ => false,
        }
    }

    /// The code or the error that the listener ended with. A listener
    /// that was stopped while it still listened has delivered nothing,
    /// which counts as a failure of the listener.
    pub fn finish(self) -> (r: Result<String, LoginError>)
        ensures
            match outcome_of(self) {
                Some(Ok(code)) => r matches Ok(given) && given@ == code,
                Some(Err(error)) => r matches Err(e) && e@ == error,
                None => r matches Err(e) && e@ == LoginErrorView::ListenerFailed,
            },
    {
        match self {
            ListenerState::Listening(_) => Err(LoginError::ListenerFailed),
            ListenerState::Delivered(code) => Ok(code),
            ListenerState::TimedOut => Err(LoginError::Timeout),
            ListenerState::Broken => Err(LoginError::ListenerFailed),
        }
    }
}

} // verus!
