use pajama::callback::{
    is_callback_request, judge_pairs, judge_request, judge_request_line, page_for,
    Handoff, ListenerEvent, ListenerState, PendingCallback, Rejection, Verdict,
    CALLBACK_TIMEOUT_SECS,
};
use pajama::error::LoginError;
use pajama::html::{error_html, http_response, success_html};
use pajama::request::{RequestBuffer, RequestLine};
use pajama::urls::{find_last, query_of};

fn pending(state: &str) -> PendingCallback {
    PendingCallback {
        redirect_uri: "http://127.0.0.1:4321/callback".to_string(),
        expected_state: state.to_string(),
    }
}

fn request(target: &str) -> Vec<u8> {
    format!("GET {} HTTP/1.1\r\nHost: 127.0.0.1:4321\r\n\r\n", target).into_bytes()
}

fn read(bytes: &[u8]) -> ListenerEvent {
    let mut buffer = RequestBuffer::new();
    buffer.absorb(bytes);
    ListenerEvent::Request(buffer)
}

fn pairs(items: &[(&str, &str)]) -> Vec<(String, String)> {
    items.iter().map(|(k, v)| (k.to_string(), v.to_string())).collect()
}

fn rejection(verdict: &Verdict) -> Option<Rejection> {
    match verdict {
        Verdict::Rejected(why) => Some(*why),
        Verdict::Resolved(_) => None,
    }
}

#[test]
fn mismatch_then_match_delivers_the_code() {
    let listening = pending("y");
    let step = listening.on_event(read(&request("/callback?state=x&code=zzz")));
    let body = error_html("State mismatch. You can close this window and retry.");
    assert_eq!(step.response, Some(http_response(&body)));
    assert!(step.response.unwrap().contains("State mismatch"));
    let listening = match step.state {
        ListenerState::Listening(p) => p,
        other => panic!("the attempt must go on listening, not {:?}", other),
    };
    assert_eq!(listening.expected_state, "y");
    assert_eq!(listening.redirect_uri, "http://127.0.0.1:4321/callback");
    let step = listening.on_event(read(&request("/callback?state=y&code=abc")));
    assert_eq!(step.response, Some(http_response(&success_html())));
    match step.state {
        ListenerState::Delivered(code) => assert_eq!(code, "abc"),
        other => panic!("the code must be delivered, not {:?}", other),
    }
}

#[test]
fn favicon_requests_then_timeout_fail_the_attempt() {
    let mut listening = pending("y");
    for _ in 0..3 {
        let step = listening.on_event(read(&request("/favicon.ico")));
        assert_eq!(step.response, Some(http_response(&error_html("Not found."))));
        listening = match step.state {
            ListenerState::Listening(p) => p,
            other => panic!("the attempt must go on listening, not {:?}", other),
        };
    }
    let step = listening.on_event(ListenerEvent::TimedOut);
    assert_eq!(step.response, None);
    assert!(!step.state.is_listening());
    assert!(matches!(step.state, ListenerState::TimedOut));
    assert!(matches!(step.state.finish(), Err(LoginError::Timeout)));
}

#[test]
fn accept_failure_breaks_the_listener() {
    let step = pending("y").on_event(ListenerEvent::AcceptFailed);
    assert_eq!(step.response, None);
    assert!(matches!(step.state, ListenerState::Broken));
    assert!(matches!(step.state.finish(), Err(LoginError::ListenerFailed)));
}

#[test]
fn a_listener_that_was_stopped_has_failed() {
    let state = ListenerState::Listening(pending("y"));
    assert!(state.is_listening());
    assert!(matches!(state.finish(), Err(LoginError::ListenerFailed)));
}

#[test]
fn a_delivered_code_is_the_result() {
    let state = ListenerState::Delivered("abc".to_string());
    assert!(!state.is_listening());
    assert_eq!(state.finish().unwrap(), "abc");
}

#[test]
fn the_wait_is_three_minutes() {
    assert_eq!(CALLBACK_TIMEOUT_SECS, 180);
}

#[test]
fn other_methods_and_paths_are_not_found() {
    assert_eq!(
        rejection(&judge_request(b"POST /callback?state=y&code=abc HTTP/1.1\r\n\r\n", "y")),
        Some(Rejection::NotFound)
    );
    assert_eq!(
        rejection(&judge_request(b"get /callback?state=y&code=abc HTTP/1.1\r\n\r\n", "y")),
        Some(Rejection::NotFound)
    );
    assert_eq!(rejection(&judge_request(&request("/"), "y")), Some(Rejection::NotFound));
    assert_eq!(
        rejection(&judge_request(&request("/other?state=y&code=abc"), "y")),
        Some(Rejection::NotFound)
    );
    assert_eq!(
        rejection(&judge_request(&request("/callbacks?state=y&code=abc"), "y")),
        Some(Rejection::NotFound)
    );
    assert_eq!(
        rejection(&judge_request(&request("/callback/?state=y&code=abc"), "y")),
        Some(Rejection::NotFound)
    );
    assert_eq!(rejection(&judge_request(b"", "y")), Some(Rejection::NotFound));
    assert_eq!(rejection(&judge_request(b"\xff\xfe", "y")), Some(Rejection::NotFound));
}

#[test]
fn callback_requests_are_told_from_others() {
    let line = |method: &str, target: &str| RequestLine {
        method: method.to_string(),
        target: target.to_string(),
    };
    assert!(is_callback_request(&line("GET", "/callback")));
    assert!(is_callback_request(&line("GET", "/callback?")));
    assert!(is_callback_request(&line("GET", "/callback?x=/y?z")));
    assert!(!is_callback_request(&line("GET", "callback")));
    assert!(!is_callback_request(&line("GET", "/callback#x")));
    assert!(!is_callback_request(&line("HEAD", "/callback")));
    assert!(!is_callback_request(&line("", "")));
}

#[test]
fn a_missing_state_is_a_mismatch() {
    assert_eq!(
        rejection(&judge_request(&request("/callback?code=abc"), "y")),
        Some(Rejection::StateMismatch)
    );
    assert_eq!(
        rejection(&judge_request(&request("/callback"), "y")),
        Some(Rejection::StateMismatch)
    );
    assert_eq!(
        rejection(&judge_request(&request("/callback?state=Y&code=abc"), "y")),
        Some(Rejection::StateMismatch)
    );
}

#[test]
fn a_matching_state_without_code_is_missing_code() {
    assert_eq!(
        rejection(&judge_request(&request("/callback?state=y"), "y")),
        Some(Rejection::MissingCode)
    );
    assert_eq!(
        rejection(&judge_request(&request("/callback?state=y&error=access_denied"), "y")),
        Some(Rejection::MissingCode)
    );
}

#[test]
fn an_empty_code_is_still_a_code() {
    match judge_request(&request("/callback?state=y&code="), "y") {
        Verdict::Resolved(code) => assert_eq!(code, ""),
        other => panic!("{:?}", other),
    }
}

#[test]
fn parameters_are_decoded_and_the_last_one_counts() {
    match judge_request(&request("/callback?code=a%2Fb+c&state=s%20t"), "s t") {
        Verdict::Resolved(code) => assert_eq!(code, "a/b c"),
        other => panic!("{:?}", other),
    }
    match judge_request(&request("/callback?code=1&state=n&code=2&state=y"), "y") {
        Verdict::Resolved(code) => assert_eq!(code, "2"),
        other => panic!("{:?}", other),
    }
    assert_eq!(
        rejection(&judge_request(&request("/callback?state=y&code=1&state=n"), "y")),
        Some(Rejection::StateMismatch)
    );
}

#[test]
fn a_fragment_is_no_part_of_the_query() {
    match judge_request_line(
        &RequestLine { method: "GET".to_string(), target: "/callback?state=y&code=c#frag".to_string() },
        "y",
    ) {
        Verdict::Resolved(code) => assert_eq!(code, "c"),
        other => panic!("{:?}", other),
    }
}

#[test]
fn pairs_are_judged_by_state_then_code() {
    assert_eq!(rejection(&judge_pairs(None, "y")), Some(Rejection::InvalidUrl));
    assert_eq!(
        rejection(&judge_pairs(Some(pairs(&[])), "y")),
        Some(Rejection::StateMismatch)
    );
    assert_eq!(
        rejection(&judge_pairs(Some(pairs(&[("state", "x"), ("code", "c")])), "y")),
        Some(Rejection::StateMismatch)
    );
    assert_eq!(
        rejection(&judge_pairs(Some(pairs(&[("state", "y"), ("Code", "c")])), "y")),
        Some(Rejection::MissingCode)
    );
    match judge_pairs(Some(pairs(&[("code", "c"), ("state", "y")])), "y") {
        Verdict::Resolved(code) => assert_eq!(code, "c"),
        other => panic!("{:?}", other),
    }
    match judge_pairs(Some(pairs(&[("state", ""), ("code", "c")])), "") {
        Verdict::Resolved(code) => assert_eq!(code, "c"),
        other => panic!("{:?}", other),
    }
}

#[test]
fn find_last_takes_the_last_of_a_name() {
    let list = pairs(&[("a", "1"), ("b", "2"), ("a", "3")]);
    assert_eq!(find_last(&list, "a"), Some("3".to_string()));
    assert_eq!(find_last(&list, "b"), Some("2".to_string()));
    assert_eq!(find_last(&list, "c"), None);
    assert_eq!(find_last(&Vec::new(), "a"), None);
}

#[test]
fn each_verdict_has_its_page() {
    assert_eq!(page_for(&Verdict::Resolved("c".to_string())), success_html());
    assert_eq!(page_for(&Verdict::Rejected(Rejection::NotFound)), error_html("Not found."));
    assert_eq!(
        page_for(&Verdict::Rejected(Rejection::InvalidUrl)),
        error_html("Invalid callback URL")
    );
    assert_eq!(
        page_for(&Verdict::Rejected(Rejection::StateMismatch)),
        error_html("State mismatch. You can close this window and retry.")
    );
    assert_eq!(
        page_for(&Verdict::Rejected(Rejection::MissingCode)),
        error_html("Missing authorization code. You can close this window and retry.")
    );
}

#[test]
fn every_response_is_a_closed_200_in_html() {
    for target in ["/callback?state=y&code=c", "/callback?state=n", "/nothing", "/callback?state=y"] {
        let step = pending("y").on_event(read(&request(target)));
        let response = step.response.unwrap();
        let (head, body) = response.split_once("\r\n\r\n").unwrap();
        let mut lines = head.split("\r\n");
        assert_eq!(lines.next(), Some("HTTP/1.1 200 OK"));
        assert_eq!(lines.next(), Some("Content-Type: text/html; charset=utf-8"));
        assert_eq!(lines.next(), Some(format!("Content-Length: {}", body.len()).as_str()));
        assert_eq!(lines.next(), Some("Connection: close"));
        assert_eq!(lines.next(), None);
    }
}

#[test]
fn a_request_is_judged_by_what_fits_the_buffer() {
    let mut long = request("/callback?state=y&code=abc");
    long.truncate(long.len() - 4);
    long.extend_from_slice(b"\r\nX-Fill: ");
    long.extend(std::iter::repeat(b'a').take(20000));
    let mut buffer = RequestBuffer::new();
    assert!(buffer.absorb(&long));
    assert_eq!(buffer.as_bytes().len(), 16384);
    assert_eq!(buffer.as_bytes(), &long[..16384]);
    let step = pending("y").on_event(ListenerEvent::Request(buffer));
    assert!(matches!(step.state, ListenerState::Delivered(code) if code == "abc"));
    let mut cut = vec![b' '; 16380];
    cut.extend_from_slice(&request("/callback?state=y&code=abc"));
    assert!(matches!(read(&cut), ListenerEvent::Request(b) if b.as_bytes().len() == 16384));
    let step = pending("y").on_event(read(&cut));
    assert_eq!(step.response, Some(http_response(&error_html("Not found."))));
    assert!(step.state.is_listening());
}

#[test]
fn what_came_of_the_listener_is_its_state() {
    assert!(matches!(
        ListenerState::received(Handoff::Ended(ListenerState::Delivered("c".to_string()))),
        ListenerState::Delivered(code) if code == "c"
    ));
    assert!(matches!(
        ListenerState::received(Handoff::Ended(ListenerState::TimedOut)),
        ListenerState::TimedOut
    ));
    assert!(matches!(ListenerState::received(Handoff::Dropped), ListenerState::Broken));
    assert!(matches!(ListenerState::received(Handoff::Overdue), ListenerState::TimedOut));
}

#[test]
fn query_of_parses_and_decodes() {
    assert_eq!(
        query_of("http://127.0.0.1/callback?code=a%26b&state=x+y&flag"),
        Some(pairs(&[("code", "a&b"), ("state", "x y"), ("flag", "")]))
    );
    assert_eq!(query_of("http://127.0.0.1/callback"), Some(Vec::new()));
    assert_eq!(query_of("/callback?code=1"), None);
    assert_eq!(query_of("not a url"), None);
}
