use pajama::html::{error_html, html_escape, http_response, success_html};

#[test]
fn escape_replaces_the_five_characters() {
    assert_eq!(html_escape("a&b<c>d\"e'f"), "a&amp;b&lt;c&gt;d&quot;e&#x27;f");
}

#[test]
fn escape_leaves_other_text_alone() {
    assert_eq!(html_escape("plain text, ünïcödé"), "plain text, ünïcödé");
    assert_eq!(html_escape(""), "");
}

#[test]
fn escape_does_not_escape_twice() {
    assert_eq!(html_escape("&lt;"), "&amp;lt;");
}

#[test]
fn error_page_embeds_the_escaped_message() {
    assert_eq!(
        error_html("<b>no</b>"),
        "<!doctype html><html><head><meta charset=\"utf-8\" /><title>Pajama</title></head><body><h2>Login error</h2><p>&lt;b&gt;no&lt;/b&gt;</p></body></html>"
    );
}

#[test]
fn success_page_is_fixed() {
    assert_eq!(
        success_html(),
        "<!doctype html><html><head><meta charset=\"utf-8\" /><title>Pajama</title></head><body><h2>Login complete</h2><p>You can close this window.</p></body></html>"
    );
}

#[test]
fn response_counts_the_body_in_bytes() {
    assert_eq!(
        http_response("héllo"),
        "HTTP/1.1 200 OK\r\nContent-Type: text/html; charset=utf-8\r\nContent-Length: 6\r\nConnection: close\r\n\r\nhéllo"
    );
    assert_eq!(
        http_response(""),
        "HTTP/1.1 200 OK\r\nContent-Type: text/html; charset=utf-8\r\nContent-Length: 0\r\nConnection: close\r\n\r\n"
    );
}
