//! The pages and the HTTP envelope that the loopback listener answers with.

use vstd::prelude::*;
use vstd::string::StringExecFns;
use crate::text::{byte_len, byte_len_of, chars_of, decimal, push_decimal};

verus! {

/// What one character becomes when it is embedded in HTML text.
pub open spec fn escaped_char(c: char) -> Seq<char> {
    if c == '&' {
        "&amp;"@
    } else if c == '<' {
        "&lt;"@
    } else if c == '>' {
        "&gt;"@
    } else if c == '"' {
        "&quot;"@
    } else if c == '\'' {
        "&#x27;"@
    } else {
        seq![c]
    }
}

/// `s` with each of `&`, `<`, `>`, `"` and `'` replaced by its entity.
pub open spec fn escaped(s: Seq<char>) -> Seq<char>
    decreases s.len(),
{
    if s.len() == 0 {
        Seq::empty()
    } else {
        escaped(s.drop_last()) + escaped_char(s.last())
    }
}

/// The page shown when the login has completed.
pub open spec fn success_page() -> Seq<char> {
    "<!doctype html><html><head><meta charset=\"utf-8\" /><title>Pajama</title></head><body><h2>Login complete</h2><p>You can close this window.</p></body></html>"@
}

/// The page that reports `msg` as a login error.
pub open spec fn error_page(msg: Seq<char>) -> Seq<char> {
    "<!doctype html><html><head><meta charset=\"utf-8\" /><title>Pajama</title></head><body><h2>Login error</h2><p>"@
        + escaped(msg) + "</p></body></html>"@
}

/// The full HTTP response that carries `body`, with the length of `body`
/// in bytes as its content length.
pub open spec fn response_text(body: Seq<char>) -> Seq<char> {
    "HTTP/1.1 200 OK\r\nContent-Type: text/html; charset=utf-8\r\nContent-Length: "@ + decimal(
        byte_len(body),
    ) + "\r\nConnection: close\r\n\r\n"@ + body
}

/// Whether `c` can open or close markup or an attribute value.
pub open spec fn is_markup_char(c: char) -> bool {
    c == '<' || c == '>' || c == '"' || c == '\''
}

/// The replacement of one character holds no markup character.
proof fn lemma_escaped_char_is_inert(c: char)
    ensures
        forall|j: int|
            0 <= j < escaped_char(c).len() ==> !is_markup_char(#[trigger] escaped_char(c)[j]),
{
    reveal_strlit("&amp;");
    reveal_strlit("&lt;");
    reveal_strlit("&gt;");
    reveal_strlit("&quot;");
    reveal_strlit("&#x27;");
}

/// Escaped text holds no character that opens or closes markup or an
/// attribute value.
pub proof fn lemma_escaped_is_inert(s: Seq<char>)
    ensures
        forall|i: int| 0 <= i < escaped(s).len() ==> !is_markup_char(#[trigger] escaped(s)[i]),
    decreases s.len(),
{
    if s.len() > 0 {
        let head = escaped(s.drop_last());
        let tail = escaped_char(s.last());
        lemma_escaped_is_inert(s.drop_last());
        lemma_escaped_char_is_inert(s.last());
        assert forall|i: int| 0 <= i < escaped(s).len() implies !is_markup_char(
            #[trigger] escaped(s)[i],
        ) by {
            if i < head.len() {
                assert(escaped(s)[i] == head[i]);
            } else {
                assert(escaped(s)[i] == tail[i - head.len()]);
            }
        }
    }
}

/// Escaping is done character by character: the escape of a concatenation
/// is the concatenation of the escapes.
pub proof fn lemma_escaped_concat(a: Seq<char>, b: Seq<char>)
    ensures
        escaped(a + b) == escaped(a) + escaped(b),
    decreases b.len(),
{
    if b.len() == 0 {
        assert(a + b == a);
    } else {
        lemma_escaped_concat(a, b.drop_last());
        assert((a + b).drop_last() == a + b.drop_last());
        assert((a + b).last() == b.last());
    }
}

/// Escapes `s` for embedding in HTML text.
pub fn html_escape(s: &str) -> (out: String)
    ensures
        out@ == escaped(s@),
{
    let cs = chars_of(s);
    let mut out = String::new();
    let mut i: usize = 0;
    while i < cs.len()
        invariant
            i <= cs.len(),
            out@ == escaped(cs@.take(i as int)),
        decreases cs.len() - i,
    {
        let c: char = cs[i];
        proof {
            let next = cs@.take(i + 1);
            assert(next.drop_last() == cs@.take(i as int));
            assert(next.last() == c);
        }
        if c == '&' {
            out.append("&amp;");
        } else if c == '<' {
            out.append("&lt;");
        } else if c == '>' {
            out.append("&gt;");
        } else if c == '"' {
            out.append("&quot;");
        } else if c == '\'' {
            out.append("&#x27;");
        } else {
            out.push(c);
        }
        i += 1;
    }
    proof {
        assert(cs@.take(cs.len() as int) == cs@);
    }
    out
}

/// The page shown when the login has completed.
pub fn success_html() -> (out: String)
    ensures
        out@ == success_page(),
{
    String::from_str(
        "<!doctype html><html><head><meta charset=\"utf-8\" /><title>Pajama</title></head><body><h2>Login complete</h2><p>You can close this window.</p></body></html>",
    )
}

/// The page that reports `msg` as a login error; `msg` is escaped.
pub fn error_html(msg: &str) -> (out: String)
    ensures
        out@ == error_page(msg@),
{
    let mut out = String::from_str(
        "<!doctype html><html><head><meta charset=\"utf-8\" /><title>Pajama</title></head><body><h2>Login error</h2><p>",
    );
    let inner = html_escape(msg);
    out.append(inner.as_str());
    out.append("</p></body></html>");
    out
}

/// The HTTP response that carries the page `body`: always `200 OK`, HTML in
/// UTF-8, with the body's length in bytes, and closing the connection.
pub fn http_response(body: &str) -> (out: String)
    ensures
        out@ == response_text(body@),
{
    let mut out = String::from_str(
        "HTTP/1.1 200 OK\r\nContent-Type: text/html; charset=utf-8\r\nContent-Length: ",
    );
    push_decimal(&mut out, byte_len_of(body) as u64);
    out.append("\r\nConnection: close\r\n\r\n");
    out.append(body);
    out
}

} // verus!
